//! Configuration: the choices of the user, their defaults, and the XDG paths
//! of the files that belong to the daemon.
use vstd::prelude::*;

use crate::model;
use crate::search::{contains, has_text};
use crate::text::{cat2, cat3, chars_of, clone_text, same_text, text_of};

verus! {

/// The language of the dictation.
#[derive(Debug, Clone, Copy, PartialEq, Eq, Structural)]
pub enum Language {
    Pt,
    En,
    Auto,
}

impl Language {
    /// The value that stands in the configuration file.
    pub open spec fn label_text(self) -> Seq<char> {
        match self {
            Language::Pt => "pt"@,
            Language::En => "en"@,
            Language::Auto => "auto"@,
        }
    }

    /// The languages in the order in which they are offered.
    pub open spec fn listed() -> Seq<Language> {
        seq![Language::Pt, Language::En, Language::Auto]
    }

    /// The value that stands in the configuration file.
    pub fn label(self) -> (r: &'static str)
        ensures
            r@ == self.label_text(),
    {
        match self {
            Language::Pt => "pt",
            Language::En => "en",
            Language::Auto => "auto",
        }
    }

    /// The ISO code handed to the transcriber; `None` lets it detect the
    /// language.
    pub fn whisper_code(self) -> (r: Option<&'static str>)
        ensures
            self is Auto <==> r is None,
            r matches Some(code) ==> code@ == self.label_text(),
    {
        match self {
            Language::Pt => Some("pt"),
            Language::En => Some("en"),
            Language::Auto => None,
        }
    }

    /// The language whose label is `value`.
    pub fn parse(value: &str) -> (r: Option<Language>)
        ensures
            match r {
                Some(language) => value@ == language.label_text(),
                None => forall|language: Language| value@ != #[trigger] language.label_text(),
            },
    {
        if same_text(value, "pt") {
            Some(Language::Pt)
        } else if same_text(value, "en") {
            Some(Language::En)
        } else if same_text(value, "auto") {
            Some(Language::Auto)
        } else {
            None
        }
    }

    /// The language offered at position `index`.
    pub fn at(index: usize) -> (r: Language)
        requires
            index < 3,
        ensures
            r == Language::listed()[index as int],
    {
        if index == 0 {
            Language::Pt
        } else if index == 1 {
            Language::En
        } else {
            Language::Auto
        }
    }

    /// The position at which the language is offered.
    pub fn position(self) -> (r: usize)
        ensures
            r < 3,
            Language::listed()[r as int] == self,
    {
        match self {
            Language::Pt => 0,
            Language::En => 1,
            Language::Auto => 2,
        }
    }
}

/// Different languages have different labels.
pub proof fn law_language_labels_distinct(a: Language, b: Language)
    requires
        a.label_text() == b.label_text(),
    ensures
        a == b,
{
    reveal_strlit("pt");
    reveal_strlit("en");
    reveal_strlit("auto");
    assert("pt"@[0] == 'p');
    assert("en"@[0] == 'e');
    assert("auto"@[0] == 'a');
}

/// How the dictated text reaches the focused application.
#[derive(Debug, Clone, Copy, PartialEq, Eq, Structural)]
pub enum InsertMode {
    InsertText,
    CopyToClipboard,
    Fallback,
    Both,
}

impl InsertMode {
    /// The description shown to the user.
    pub open spec fn label_text(self) -> Seq<char> {
        match self {
            InsertMode::InsertText => "Digitar automaticamente"@,
            InsertMode::CopyToClipboard => "Somente copiar para o clipboard"@,
            InsertMode::Fallback =>
                "Digitar automaticamente; clipboard só se falhar (recomendado)"@,
            InsertMode::Both => "Digitar e copiar para o clipboard"@,
        }
    }

    /// The canonical value in the configuration file.
    pub open spec fn value_text(self) -> Seq<char> {
        match self {
            InsertMode::InsertText => "insert"@,
            InsertMode::CopyToClipboard => "clipboard"@,
            InsertMode::Fallback => "fallback"@,
            InsertMode::Both => "both"@,
        }
    }

    /// The mode that `value` names: a canonical value, or the legacy alias
    /// `type` of `insert`.
    pub open spec fn parsed(value: Seq<char>) -> Option<InsertMode> {
        if value == "insert"@ || value == "type"@ {
            Some(InsertMode::InsertText)
        } else if value == "clipboard"@ {
            Some(InsertMode::CopyToClipboard)
        } else if value == "fallback"@ {
            Some(InsertMode::Fallback)
        } else if value == "both"@ {
            Some(InsertMode::Both)
        } else {
            None
        }
    }

    /// Does the mode type into the focused application?
    pub open spec fn types(self) -> bool {
        self != InsertMode::CopyToClipboard
    }

    /// The description shown to the user.
    pub fn label(self) -> (r: &'static str)
        ensures
            r@ == self.label_text(),
    {
        match self {
            InsertMode::InsertText => "Digitar automaticamente",
            InsertMode::CopyToClipboard => "Somente copiar para o clipboard",
            InsertMode::Fallback =>
                "Digitar automaticamente; clipboard só se falhar (recomendado)",
            InsertMode::Both => "Digitar e copiar para o clipboard",
        }
    }

    /// The canonical value in the configuration file.
    pub fn value(self) -> (r: &'static str)
        ensures
            r@ == self.value_text(),
    {
        match self {
            InsertMode::InsertText => "insert",
            InsertMode::CopyToClipboard => "clipboard",
            InsertMode::Fallback => "fallback",
            InsertMode::Both => "both",
        }
    }

    /// The mode that `value` names, if it names one.
    pub fn parse(value: &str) -> (r: Option<InsertMode>)
        ensures
            r == InsertMode::parsed(value@),
    {
        if same_text(value, "insert") || same_text(value, "type") {
            Some(InsertMode::InsertText)
        } else if same_text(value, "clipboard") {
            Some(InsertMode::CopyToClipboard)
        } else if same_text(value, "fallback") {
            Some(InsertMode::Fallback)
        } else if same_text(value, "both") {
            Some(InsertMode::Both)
        } else {
            None
        }
    }

    /// Does the mode need `wtype`?
    pub fn uses_wtype(self) -> (r: bool)
        ensures
            r == self.types(),
    {
        match self {
            InsertMode::InsertText | InsertMode::Fallback | InsertMode::Both => true,
            InsertMode::CopyToClipboard => false,
        }
    }
}

/// Reading the canonical value of a mode gives the mode back.
pub proof fn law_insert_mode_roundtrip(mode: InsertMode)
    ensures
        InsertMode::parsed(mode.value_text()) == Some(mode),
{
    reveal_strlit("insert");
    reveal_strlit("type");
    reveal_strlit("clipboard");
    reveal_strlit("fallback");
    reveal_strlit("both");
    assert("insert"@[0] == 'i');
    assert("type"@[0] == 't');
    assert("clipboard"@[0] == 'c');
    assert("fallback"@[0] == 'f');
    assert("both"@[0] == 'b');
}

/// Settings of the optional local language model.
#[derive(Debug, PartialEq, Eq)]
pub struct AiConfig {
    pub enabled: bool,
    /// A name of the catalog, or the path of a file.
    pub model: String,
    pub context_size: u32,
    pub gpu: bool,
    pub cleanup: bool,
}

/// The contents of an [`AiConfig`].
pub struct AiConfigView {
    pub enabled: bool,
    pub model: Seq<char>,
    pub context_size: u32,
    pub gpu: bool,
    pub cleanup: bool,
}

impl View for AiConfig {
    type V = AiConfigView;

    open spec fn view(&self) -> AiConfigView {
        AiConfigView {
            enabled: self.enabled,
            model: self.model@,
            context_size: self.context_size,
            gpu: self.gpu,
            cleanup: self.cleanup,
        }
    }
}

impl AiConfigView {
    /// What holds where the configuration file says nothing.
    pub open spec fn defaults() -> AiConfigView {
        AiConfigView {
            enabled: false,
            model: "qwen3.5-2b"@,
            context_size: 2048,
            gpu: true,
            cleanup: true,
        }
    }
}

impl Default for AiConfig {
    fn default() -> (r: AiConfig)
        ensures
            r@ == AiConfigView::defaults(),
    {
        AiConfig {
            enabled: false,
            model: "qwen3.5-2b".to_owned(),
            context_size: 2048,
            gpu: true,
            cleanup: true,
        }
    }
}

impl Clone for AiConfig {
    fn clone(&self) -> (r: AiConfig)
        ensures
            r@ == self@,
    {
        AiConfig {
            enabled: self.enabled,
            model: self.model.clone(),
            context_size: self.context_size,
            gpu: self.gpu,
            cleanup: self.cleanup,
        }
    }
}

impl AiConfig {
    /// Do both say the same of the language model?
    pub fn same(&self, other: &AiConfig) -> (r: bool)
        ensures
            r == (self@ == other@),
    {
        self.enabled == other.enabled && same_text(self.model.as_str(), other.model.as_str())
            && self.context_size == other.context_size && self.gpu == other.gpu && self.cleanup
            == other.cleanup
    }
}

/// Everything that the user can configure.
#[derive(Debug, PartialEq, Eq)]
pub struct Config {
    pub language: Language,
    pub model: String,
    pub insert_mode: InsertMode,
    pub remove_fillers: bool,
    pub punctuation: bool,
    pub final_period: bool,
    pub gpu_device: i32,
    pub threads: u32,
    /// Name of the PipeWire audio node; `None` is the default source.
    pub source: Option<String>,
    pub ai: AiConfig,
}

/// The contents of a [`Config`].
pub struct ConfigView {
    pub language: Language,
    pub model: Seq<char>,
    pub insert_mode: InsertMode,
    pub remove_fillers: bool,
    pub punctuation: bool,
    pub final_period: bool,
    pub gpu_device: i32,
    pub threads: u32,
    pub source: Option<Seq<char>>,
    pub ai: AiConfigView,
}

impl View for Config {
    type V = ConfigView;

    open spec fn view(&self) -> ConfigView {
        ConfigView {
            language: self.language,
            model: self.model@,
            insert_mode: self.insert_mode,
            remove_fillers: self.remove_fillers,
            punctuation: self.punctuation,
            final_period: self.final_period,
            gpu_device: self.gpu_device,
            threads: self.threads,
            source: text_of(self.source),
            ai: self.ai@,
        }
    }
}

/// The model recommended to the user.
pub fn default_model() -> (r: &'static str)
    ensures
        r@ == "small"@,
{
    "small"
}

impl ConfigView {
    /// What holds where there is no configuration file.
    pub open spec fn defaults() -> ConfigView {
        ConfigView {
            language: Language::Pt,
            model: "small"@,
            insert_mode: InsertMode::Fallback,
            remove_fillers: true,
            punctuation: true,
            final_period: true,
            gpu_device: 0,
            threads: 4,
            source: None,
            ai: AiConfigView::defaults(),
        }
    }

    /// The settings that the loaded engine depends on are the same.
    pub open spec fn same_engine(self, other: ConfigView) -> bool {
        self.model == other.model && self.gpu_device == other.gpu_device && self.threads
            == other.threads
    }
}

impl Default for Config {
    fn default() -> (r: Config)
        ensures
            r@ == ConfigView::defaults(),
    {
        Config {
            language: Language::Pt,
            model: default_model().to_owned(),
            insert_mode: InsertMode::Fallback,
            remove_fillers: true,
            punctuation: true,
            final_period: true,
            gpu_device: 0,
            threads: 4,
            source: None,
            ai: AiConfig::default(),
        }
    }
}

impl Clone for Config {
    fn clone(&self) -> (r: Config)
        ensures
            r@ == self@,
    {
        Config {
            language: self.language,
            model: self.model.clone(),
            insert_mode: self.insert_mode,
            remove_fillers: self.remove_fillers,
            punctuation: self.punctuation,
            final_period: self.final_period,
            gpu_device: self.gpu_device,
            threads: self.threads,
            source: clone_text(&self.source),
            ai: self.ai.clone(),
        }
    }
}

/// The `[ai]` table as it stands in the file; `None` is an absent key.
#[derive(Debug, Clone, PartialEq, Eq)]
pub struct RawAiConfig {
    pub enabled: Option<bool>,
    pub model: Option<String>,
    pub context_size: Option<u32>,
    pub gpu: Option<bool>,
    pub cleanup: Option<bool>,
}

/// The configuration file as it stands; `None` is an absent key.
#[derive(Debug, Clone, PartialEq, Eq)]
pub struct RawConfig {
    pub language: Option<String>,
    pub model: Option<String>,
    pub insert_mode: Option<String>,
    pub remove_fillers: Option<bool>,
    pub punctuation: Option<bool>,
    pub final_period: Option<bool>,
    pub gpu_device: Option<i32>,
    pub threads: Option<u32>,
    pub source: Option<String>,
    pub ai: Option<RawAiConfig>,
}

impl Default for RawAiConfig {
    fn default() -> (r: RawAiConfig)
        ensures
            r.enabled is None && r.model is None && r.context_size is None && r.gpu is None
                && r.cleanup is None,
    {
        RawAiConfig { enabled: None, model: None, context_size: None, gpu: None, cleanup: None }
    }
}

impl Default for RawConfig {
    fn default() -> (r: RawConfig)
        ensures
            r.language is None && r.model is None && r.insert_mode is None,
            r.remove_fillers is None && r.punctuation is None && r.final_period is None,
            r.gpu_device is None && r.threads is None && r.source is None && r.ai is None,
    {
        RawConfig {
            language: None,
            model: None,
            insert_mode: None,
            remove_fillers: None,
            punctuation: None,
            final_period: None,
            gpu_device: None,
            threads: None,
            source: None,
            ai: None,
        }
    }
}

/// A key whose value is none of those that it can have.
#[derive(Debug, Clone, PartialEq, Eq)]
pub enum ConfigError {
    Language { value: String },
    InsertMode { value: String },
}

/// `value`, or `default` where the key is absent.
pub open spec fn or_default<T>(value: Option<T>, default: T) -> T {
    match value {
        Some(v) => v,
        None => default,
    }
}

/// The language key holds no language.
pub open spec fn bad_language(raw: RawConfig) -> bool {
    raw.language matches Some(value) && forall|language: Language|
        value@ != #[trigger] language.label_text()
}

/// The insert mode key holds no mode.
pub open spec fn bad_insert_mode(raw: RawConfig) -> bool {
    raw.insert_mode matches Some(value) && InsertMode::parsed(value@) is None
}

/// The table with its absent keys filled in.
pub open spec fn completed_ai(raw: RawAiConfig) -> AiConfigView {
    let d = AiConfigView::defaults();
    AiConfigView {
        enabled: or_default(raw.enabled, d.enabled),
        model: or_default(text_of(raw.model), d.model),
        context_size: or_default(raw.context_size, d.context_size),
        gpu: or_default(raw.gpu, d.gpu),
        cleanup: or_default(raw.cleanup, d.cleanup),
    }
}

/// `cfg` is the file's contents with the absent keys filled in.
pub open spec fn completes(raw: RawConfig, cfg: ConfigView) -> bool {
    let d = ConfigView::defaults();
    &&& match raw.language {
        Some(value) => cfg.language.label_text() == value@,
        None => cfg.language == d.language,
    }
    &&& match raw.insert_mode {
        Some(value) => InsertMode::parsed(value@) == Some(cfg.insert_mode),
        None => cfg.insert_mode == d.insert_mode,
    }
    &&& cfg.model == or_default(text_of(raw.model), d.model)
    &&& cfg.remove_fillers == or_default(raw.remove_fillers, d.remove_fillers)
    &&& cfg.punctuation == or_default(raw.punctuation, d.punctuation)
    &&& cfg.final_period == or_default(raw.final_period, d.final_period)
    &&& cfg.gpu_device == or_default(raw.gpu_device, d.gpu_device)
    &&& cfg.threads == or_default(raw.threads, d.threads)
    &&& cfg.source == text_of(raw.source)
    &&& cfg.ai == match raw.ai {
        Some(ai) => completed_ai(ai),
        None => d.ai,
    }
}

/// Every key of the file is there, with the canonical value of `cfg`.
pub open spec fn spells(raw: RawConfig, cfg: ConfigView) -> bool {
    &&& text_of(raw.language) == Some(cfg.language.label_text())
    &&& text_of(raw.model) == Some(cfg.model)
    &&& text_of(raw.insert_mode) == Some(cfg.insert_mode.value_text())
    &&& raw.remove_fillers == Some(cfg.remove_fillers)
    &&& raw.punctuation == Some(cfg.punctuation)
    &&& raw.final_period == Some(cfg.final_period)
    &&& raw.gpu_device == Some(cfg.gpu_device)
    &&& raw.threads == Some(cfg.threads)
    &&& text_of(raw.source) == cfg.source
    &&& raw.ai matches Some(ai) && ai.enabled == Some(cfg.ai.enabled) && text_of(ai.model) == Some(
        cfg.ai.model,
    ) && ai.context_size == Some(cfg.ai.context_size) && ai.gpu == Some(cfg.ai.gpu) && ai.cleanup
        == Some(cfg.ai.cleanup)
}

fn or_value<T>(value: Option<T>, default: T) -> (r: T)
    ensures
        r == or_default(value, default),
{
    match value {
        Some(v) => v,
        None => default,
    }
}

fn or_text(value: Option<String>, default: String) -> (r: String)
    ensures
        r@ == or_default(text_of(value), default@),
{
    match value {
        Some(v) => v,
        None => default,
    }
}

impl AiConfig {
    /// The table with its absent keys filled in.
    pub fn from_raw(raw: RawAiConfig) -> (r: AiConfig)
        ensures
            r@ == completed_ai(raw),
    {
        let d = AiConfig::default();
        AiConfig {
            enabled: or_value(raw.enabled, d.enabled),
            model: or_text(raw.model, d.model),
            context_size: or_value(raw.context_size, d.context_size),
            gpu: or_value(raw.gpu, d.gpu),
            cleanup: or_value(raw.cleanup, d.cleanup),
        }
    }
}

impl Config {
    /// The configuration that a file spells; absent keys take their defaults.
    pub fn from_raw(raw: RawConfig) -> (r: Result<Config, ConfigError>)
        ensures
            match r {
                Ok(cfg) => !bad_language(raw) && !bad_insert_mode(raw) && completes(raw, cfg@),
                Err(ConfigError::Language { value }) => bad_language(raw) && Some(value@)
                    == text_of(raw.language),
                Err(ConfigError::InsertMode { value }) => !bad_language(raw) && bad_insert_mode(raw)
                    && Some(value@) == text_of(raw.insert_mode),
            },
    {
        let d = Config::default();
        let language = match raw.language {
            Some(value) => match Language::parse(value.as_str()) {
                Some(language) => language,
                None => {
                    return Err(ConfigError::Language { value });
                },
            },
            None => d.language,
        };
        let insert_mode = match raw.insert_mode {
            Some(value) => match InsertMode::parse(value.as_str()) {
                Some(mode) => mode,
                None => {
                    return Err(ConfigError::InsertMode { value });
                },
            },
            None => d.insert_mode,
        };
        let ai = match raw.ai {
            Some(table) => AiConfig::from_raw(table),
            None => d.ai,
        };
        Ok(
            Config {
                language,
                model: or_text(raw.model, d.model),
                insert_mode,
                remove_fillers: or_value(raw.remove_fillers, d.remove_fillers),
                punctuation: or_value(raw.punctuation, d.punctuation),
                final_period: or_value(raw.final_period, d.final_period),
                gpu_device: or_value(raw.gpu_device, d.gpu_device),
                threads: or_value(raw.threads, d.threads),
                source: raw.source,
                ai,
            },
        )
    }

    /// The configuration as it is saved: every key, with its canonical value.
    pub fn to_raw(&self) -> (raw: RawConfig)
        ensures
            spells(raw, self@),
    {
        RawConfig {
            language: Some(self.language.label().to_owned()),
            model: Some(self.model.clone()),
            insert_mode: Some(self.insert_mode.value().to_owned()),
            remove_fillers: Some(self.remove_fillers),
            punctuation: Some(self.punctuation),
            final_period: Some(self.final_period),
            gpu_device: Some(self.gpu_device),
            threads: Some(self.threads),
            source: clone_text(&self.source),
            ai: Some(
                RawAiConfig {
                    enabled: Some(self.ai.enabled),
                    model: Some(self.ai.model.clone()),
                    context_size: Some(self.ai.context_size),
                    gpu: Some(self.ai.gpu),
                    cleanup: Some(self.ai.cleanup),
                },
            ),
        }
    }

    /// Do both configurations load the same engine?
    pub fn same_engine(&self, other: &Config) -> (r: bool)
        ensures
            r == self@.same_engine(other@),
    {
        same_text(self.model.as_str(), other.model.as_str()) && self.gpu_device == other.gpu_device
            && self.threads == other.threads
    }
}

/// A configuration that was saved is read back as it was, and reading it
/// does not fail.
pub proof fn law_saved_configuration_is_read_back(raw: RawConfig, cfg: ConfigView)
    requires
        spells(raw, cfg),
    ensures
        !bad_language(raw),
        !bad_insert_mode(raw),
        completes(raw, cfg),
        forall|other: ConfigView| #[trigger] completes(raw, other) ==> other == cfg,
{
    law_insert_mode_roundtrip(cfg.insert_mode);
    assert(raw.language->0@ == cfg.language.label_text());
    assert forall|other: ConfigView| #[trigger] completes(raw, other) implies other == cfg by {
        law_language_labels_distinct(other.language, cfg.language);
    }
}

// ---------------------------------------------------------------------------
// Paths
// ---------------------------------------------------------------------------

/// The path of `name` inside `base`; an absolute `name` stands for itself.
pub open spec fn joined(base: Seq<char>, name: Seq<char>) -> Seq<char> {
    if name.len() > 0 && name[0] == '/' {
        name
    } else if base.len() == 0 || base.last() == '/' {
        base + name
    } else {
        base + seq!['/'] + name
    }
}

/// The path of `name` inside `base`; an absolute `name` stands for itself.
pub fn join(base: &str, name: &str) -> (out: String)
    ensures
        out@ == joined(base@, name@),
{
    let b = chars_of(base);
    let n = chars_of(name);
    if n.len() > 0 && n[0] == '/' {
        return name.to_owned();
    }
    if b.len() == 0 || b[b.len() - 1] == '/' {
        return cat2(base, name);
    }
    proof {
        reveal_strlit("/");
        assert("/"@ =~= seq!['/']);
    }
    cat3(base, "/", name)
}

/// The environment variables that place the daemon's files; `None` is a
/// variable that is not set, or not Unicode.
#[derive(Debug, Clone, PartialEq, Eq)]
pub struct XdgEnv {
    pub config_home: Option<String>,
    pub data_home: Option<String>,
    pub state_home: Option<String>,
    pub runtime_dir: Option<String>,
    pub home: Option<String>,
}

/// The directory that `var` gives, or `default` below the home directory.
pub open spec fn base_dir(
    var: Option<Seq<char>>,
    home: Option<Seq<char>>,
    default: Seq<char>,
) -> Seq<char> {
    match var {
        Some(dir) => dir,
        None => joined(or_default(home, "/tmp"@), default),
    }
}

impl XdgEnv {
    pub open spec fn config_dir(self) -> Seq<char> {
        joined(base_dir(text_of(self.config_home), text_of(self.home), ".config"@), "whisper"@)
    }

    pub open spec fn data_dir(self) -> Seq<char> {
        joined(base_dir(text_of(self.data_home), text_of(self.home), ".local/share"@), "whisper"@)
    }

    pub open spec fn state_dir(self) -> Seq<char> {
        joined(base_dir(text_of(self.state_home), text_of(self.home), ".local/state"@), "whisper"@)
    }

    pub open spec fn models_dir(self) -> Seq<char> {
        joined(self.data_dir(), "models"@)
    }
}

/// The directory that `var` gives, or `default` below the home directory.
pub fn xdg(var: &Option<String>, home: &Option<String>, default: &str) -> (out: String)
    ensures
        out@ == base_dir(text_of(*var), text_of(*home), default@),
{
    match var {
        Some(dir) => dir.clone(),
        None => match home {
            Some(home) => join(home.as_str(), default),
            None => join("/tmp", default),
        },
    }
}

/// Where the configuration lives.
pub fn config_dir(env: &XdgEnv) -> (out: String)
    ensures
        out@ == env.config_dir(),
{
    join(xdg(&env.config_home, &env.home, ".config").as_str(), "whisper")
}

/// Where models are kept.
pub fn data_dir(env: &XdgEnv) -> (out: String)
    ensures
        out@ == env.data_dir(),
{
    join(xdg(&env.data_home, &env.home, ".local/share").as_str(), "whisper")
}

/// The configuration file.
pub fn config_path(env: &XdgEnv) -> (out: String)
    ensures
        out@ == joined(env.config_dir(), "config.toml"@),
{
    join(config_dir(env).as_str(), "config.toml")
}

/// Where logs are kept.
pub fn state_dir(env: &XdgEnv) -> (out: String)
    ensures
        out@ == env.state_dir(),
{
    join(xdg(&env.state_home, &env.home, ".local/state").as_str(), "whisper")
}

/// The log of the daemon.
pub fn log_path(env: &XdgEnv) -> (out: String)
    ensures
        out@ == joined(env.state_dir(), "daemon.log"@),
{
    join(state_dir(env).as_str(), "daemon.log")
}

/// The socket on which the daemon listens.
pub fn socket_path(env: &XdgEnv) -> (out: String)
    ensures
        out@ == joined(
            base_dir(text_of(env.runtime_dir), text_of(env.home), "/tmp"@),
            "whisper.sock"@,
        ),
{
    join(xdg(&env.runtime_dir, &env.home, "/tmp").as_str(), "whisper.sock")
}

/// Without a runtime directory the socket lies in `/tmp`, wherever home is.
pub proof fn law_socket_without_runtime_dir(home: Option<Seq<char>>)
    ensures
        joined(base_dir(None, home, "/tmp"@), "whisper.sock"@) == "/tmp/whisper.sock"@,
{
    reveal_strlit("/tmp");
    reveal_strlit("whisper.sock");
    reveal_strlit("/tmp/whisper.sock");
    assert("/tmp"@ + seq!['/'] + "whisper.sock"@ =~= "/tmp/whisper.sock"@);
}

/// The name holds a slash, so it is a path and no catalog entry.
pub open spec fn is_path(model: Seq<char>) -> bool {
    contains(model, "/"@)
}

/// Where the file of the language model is looked for: at the path that the
/// setting spells, or below the models directory for a name of the catalog.
pub open spec fn ai_model_file(model: Seq<char>, env: XdgEnv) -> Option<Seq<char>> {
    if is_path(model) {
        Some(model)
    } else {
        match model::lookup(model::llm_catalog(), model) {
            Some(spec) => Some(joined(env.models_dir(), spec.file@)),
            None => None,
        }
    }
}

impl AiConfig {
    /// Where the file of the language model is looked for.
    pub fn model_file(&self, env: &XdgEnv) -> (r: Option<String>)
        ensures
            text_of(r) == ai_model_file(self.model@, *env),
    {
        let slash: [char; 1] = ['/'];
        proof {
            reveal_strlit("/");
            assert(slash@ =~= "/"@);
        }
        let chars = chars_of(self.model.as_str());
        if has_text(chars.as_slice(), &slash) {
            return Some(self.model.clone());
        }
        match model::find_llm(self.model.as_str()) {
            Some(spec) => Some(join(model::models_dir(env).as_str(), spec.file)),
            None => None,
        }
    }
}

impl Config {
    /// The file of the transcription model; for a name that the catalog does
    /// not have, the models directory itself.
    pub fn model_path(&self, env: &XdgEnv) -> (out: String)
        ensures
            out@ == joined(
                env.models_dir(),
                match model::lookup(model::catalog(), self.model@) {
                    Some(spec) => spec.file@,
                    None => ""@,
                },
            ),
    {
        let dir = model::models_dir(env);
        match model::file_name(self.model.as_str()) {
            Some(file) => join(dir.as_str(), file),
            None => join(dir.as_str(), ""),
        }
    }

    /// The file of the language model; `is_file` says whether
    /// [`AiConfig::model_file`] names a regular file. Without one there is no
    /// language model to use.
    pub fn ai_model_path(&self, env: &XdgEnv, is_file: bool) -> (r: Option<String>)
        ensures
            text_of(r) == if is_file {
                ai_model_file(self.ai.model@, *env)
            } else {
                None
            },
    {
        if is_file {
            self.ai.model_file(env)
        } else {
            None
        }
    }
}

/// Without a file, Portuguese is dictated to the small model; typing falls back
/// to the clipboard, all cleanups are on, and the language model is off.
pub proof fn law_defaults(raw: RawConfig, cfg: ConfigView)
    requires
        completes(raw, cfg),
        raw.language is None && raw.model is None && raw.insert_mode is None,
        raw.remove_fillers is None && raw.punctuation is None && raw.final_period is None,
        raw.gpu_device is None && raw.threads is None && raw.source is None && raw.ai is None,
    ensures
        cfg.language == Language::Pt,
        cfg.model == "small"@,
        cfg.insert_mode == InsertMode::Fallback,
        cfg.remove_fillers && cfg.punctuation && cfg.final_period,
        cfg.gpu_device == 0 && cfg.threads == 4 && cfg.source is None,
        !cfg.ai.enabled && cfg.ai.model == "qwen3.5-2b"@ && cfg.ai.context_size == 2048
            && cfg.ai.gpu && cfg.ai.cleanup,
{
}

/// Each key that the file has is taken, independently of the others.
pub proof fn law_given_keys_are_taken(raw: RawConfig, cfg: ConfigView)
    requires
        completes(raw, cfg),
    ensures
        raw.model matches Some(m) ==> cfg.model == m@,
        raw.remove_fillers matches Some(b) ==> cfg.remove_fillers == b,
        raw.punctuation matches Some(b) ==> cfg.punctuation == b,
        raw.final_period matches Some(b) ==> cfg.final_period == b,
        raw.gpu_device matches Some(n) ==> cfg.gpu_device == n,
        raw.threads matches Some(n) ==> cfg.threads == n,
        raw.source matches Some(s) ==> cfg.source == Some(s@),
        raw.language matches Some(l) ==> (l@ == "pt"@ && cfg.language == Language::Pt) || (l@
            == "en"@ && cfg.language == Language::En) || (l@ == "auto"@ && cfg.language
            == Language::Auto),
        raw.insert_mode matches Some(m) ==> ((m@ == "insert"@ || m@ == "type"@) && cfg.insert_mode
            == InsertMode::InsertText) || (m@ == "clipboard"@ && cfg.insert_mode
            == InsertMode::CopyToClipboard) || (m@ == "fallback"@ && cfg.insert_mode
            == InsertMode::Fallback) || (m@ == "both"@ && cfg.insert_mode == InsertMode::Both),
        raw.ai matches Some(ai) ==> (ai.enabled matches Some(b) ==> cfg.ai.enabled == b) && (
        ai.model matches Some(m) ==> cfg.ai.model == m@) && (ai.context_size matches Some(n)
            ==> cfg.ai.context_size == n) && (ai.gpu matches Some(b) ==> cfg.ai.gpu == b) && (
        ai.cleanup matches Some(b) ==> cfg.ai.cleanup == b),
{
}

/// The files lie where the variables say, else below the home directory; an
/// absolute name stands for itself.
pub proof fn law_files_lie_below_their_directory(base: Seq<char>, name: Seq<char>)
    requires
        name.len() > 0,
    ensures
        name[0] == '/' ==> joined(base, name) == name,
        name[0] != '/' && base.len() > 0 && base.last() != '/' ==> joined(base, name) == base
            + seq!['/'] + name,
        name[0] != '/' && base.len() > 0 && base.last() == '/' ==> joined(base, name) == base
            + name,
{
}

/// A directory that a variable names is taken; without the variable it lies
/// below the home directory, and without that below `/tmp`.
pub proof fn law_directories_follow_the_environment(
    dir: Seq<char>,
    home: Seq<char>,
    default: Seq<char>,
)
    ensures
        base_dir(Some(dir), Some(home), default) == dir,
        base_dir(Some(dir), None, default) == dir,
        base_dir(None, Some(home), default) == joined(home, default),
        base_dir(None, None, default) == joined("/tmp"@, default),
{
}

/// The directories of the program below those of the user.
pub proof fn law_directories_of_the_program(env: XdgEnv)
    ensures
        env.config_home matches Some(dir) ==> env.config_dir() == joined(dir@, "whisper"@),
        env.data_home matches Some(dir) ==> env.data_dir() == joined(dir@, "whisper"@),
        env.state_home matches Some(dir) ==> env.state_dir() == joined(dir@, "whisper"@),
        env.home matches Some(home) ==> (env.config_home is None ==> env.config_dir() == joined(
            joined(home@, ".config"@),
            "whisper"@,
        )) && (env.data_home is None ==> env.data_dir() == joined(
            joined(home@, ".local/share"@),
            "whisper"@,
        )) && (env.state_home is None ==> env.state_dir() == joined(
            joined(home@, ".local/state"@),
            "whisper"@,
        )),
        env.models_dir() == joined(env.data_dir(), "models"@),
{
}

/// A language model that is spelled as a path is looked for there; a name of
/// the catalog stands for its file below the models directory; any other name
/// for none.
pub proof fn law_where_the_language_model_lies(
    before: Seq<char>,
    behind: Seq<char>,
    name: Seq<char>,
    env: XdgEnv,
)
    requires
        forall|i: int| 0 <= i < name.len() ==> #[trigger] name[i] != '/',
    ensures
        ai_model_file(before + seq!['/'] + behind, env) == Some(before + seq!['/'] + behind),
        ai_model_file(name, env) == match model::lookup(model::llm_catalog(), name) {
            Some(spec) => Some(joined(env.models_dir(), spec.file@)),
            None => None,
        },
{
    reveal_strlit("/");
    let path = before + seq!['/'] + behind;
    let k = before.len() as int;
    assert(path.subrange(k, k + 1) =~= "/"@);
    assert(crate::search::occurs_at(path, "/"@, k));
    assert forall|i: int| !crate::search::occurs_at(name, "/"@, i) by {
        if 0 <= i && i + 1 <= name.len() {
            assert(name.subrange(i, i + 1)[0] == name[i]);
            assert("/"@[0] == '/');
        }
    }
}

} // verus!
