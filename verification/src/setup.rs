//! The guided setup: choices from flags or questions, the plan of downloads,
//! and what the user reads.
use vstd::prelude::*;

use crate::config::{
    config_path, default_model, join, joined, Config, ConfigView, InsertMode, Language, XdgEnv,
};
use crate::decimal::{decimal, decimal_text};
use crate::insert::{error_text, wtype_hint};
use crate::model::{
    catalog, find, find_llm, law_catalog_names_unique, lemma_lookup, llm_catalog, llm_models,
    lookup, models, models_dir, vad_model, vad_model_path, vad_spec, ModelSpec,
};
use crate::text::{cat2, cat3, cat4, same_text, text_of, texts};

verus! {

/// The choices that were given as flags.
#[derive(Debug, Clone, PartialEq, Eq)]
pub struct SetupOptions {
    pub lang: Option<String>,
    pub model: Option<String>,
    pub ai_model: Option<String>,
    pub insert_mode: Option<String>,
    pub no_ai: bool,
    /// Accept the summary without a question.
    pub yes: bool,
}

impl Default for SetupOptions {
    fn default() -> (r: Self)
        ensures
            r.lang is None,
            r.model is None,
            r.ai_model is None,
            r.insert_mode is None,
            !r.no_ai,
            !r.yes,
    {
        SetupOptions {
            lang: None,
            model: None,
            ai_model: None,
            insert_mode: None,
            no_ai: false,
            yes: false,
        }
    }
}

/// A choice that was made, or one that the user is to make.
#[derive(Debug, Clone, Copy, PartialEq, Eq)]
pub enum Choice<T> {
    Chosen(T),
    /// Offer the list with that entry marked.
    Ask { default: usize },
}

// ---------------------------------------------------------------------------
// Choices
// ---------------------------------------------------------------------------

/// A choice is left to the user: no flag makes it, and there is a user.
pub open spec fn left_to_user(flag_given: bool, interactive: bool) -> bool {
    !flag_given && interactive
}

/// The choice is one for the user.
pub open spec fn is_question<T>(r: Result<Choice<T>, String>) -> bool {
    r matches Ok(choice) && choice is Ask
}

/// The languages as they are offered.
pub fn language_items() -> (r: Vec<&'static str>)
    ensures
        r@ == seq!["Português", "Inglês", "Detectar automaticamente"],
{
    vec!["Português", "Inglês", "Detectar automaticamente"]
}

/// The language that a flag names.
pub fn parse_language(value: &str) -> (r: Result<Language, String>)
    ensures
        match r {
            Ok(language) => value@ == language.label_text(),
            Err(e) => (forall|language: Language| value@ != #[trigger] language.label_text())
                && e@ == "língua inválida: "@ + value@ + " (use pt, en ou auto)"@,
        },
{
    match Language::parse(value) {
        Some(language) => Ok(language),
        None => Err(cat3("língua inválida: ", value, " (use pt, en ou auto)")),
    }
}

/// The language: from the flag, else the user's answer, else the present one.
pub fn select_language(flag: Option<&str>, current: Language, interactive: bool) -> (r: Result<
    Choice<Language>,
    String,
>)
    ensures
        match flag {
            Some(value) => match r {
                Ok(choice) => choice matches Choice::Chosen(language) && value@
                    == language.label_text(),
                Err(e) => (forall|language: Language| value@ != #[trigger] language.label_text())
                    && e@ == "língua inválida: "@ + value@ + " (use pt, en ou auto)"@,
            },
            None => r matches Ok(choice) && if interactive {
                choice matches Choice::Ask { default } && default < 3
                    && Language::listed()[default as int] == current
            } else {
                choice == Choice::Chosen(current)
            },
        },
        is_question(r) == left_to_user(flag is Some, interactive),
{
    match flag {
        Some(value) => match parse_language(value) {
            Ok(language) => Ok(Choice::Chosen(language)),
            Err(e) => Err(e),
        },
        None => if interactive {
            Ok(Choice::Ask { default: current.position() })
        } else {
            Ok(Choice::Chosen(current))
        },
    }
}

/// The transcription model in use: the configured one, else the recommended
/// one.
pub open spec fn current_model(name: Seq<char>) -> ModelSpec {
    match lookup(catalog(), name) {
        Some(spec) => spec,
        None => catalog()[2],
    }
}

/// The recommended model is in the catalog.
pub proof fn law_recommended_model_is_offered()
    ensures
        lookup(catalog(), "small"@) == Some(catalog()[2]),
{
    law_catalog_names_unique(2);
}

fn position_of(spec: &ModelSpec) -> (r: usize)
    requires
        catalog().contains(*spec),
    ensures
        r < catalog().len(),
        catalog()[r as int] == *spec,
{
    let list = models();
    let mut i: usize = 0;
    let ghost at = choose|k: int| 0 <= k < catalog().len() && catalog()[k] == *spec;
    while i < list.len()
        invariant
            i <= list@.len(),
            list@ == catalog(),
            0 <= at < catalog().len(),
            catalog()[at] == *spec,
            i <= at,
        decreases list@.len() - i,
    {
        if same_text(list[i].name, spec.name) {
            proof {
                law_catalog_names_unique(i as int);
                law_catalog_names_unique(at);
            }
            return i;
        }
        i += 1;
    }
    0
}

/// The transcription model: from the flag, else the user's answer, else the
/// present one.
pub fn select_model(flag: Option<&str>, current: &str, interactive: bool) -> (r: Result<
    Choice<ModelSpec>,
    String,
>)
    ensures
        match flag {
            Some(value) => match lookup(catalog(), value@) {
                Some(spec) => r == Ok::<Choice<ModelSpec>, String>(Choice::Chosen(spec)),
                None => r matches Err(e) && e@ == "modelo inválido: "@ + value@
                    + " (use tiny, base, small, medium, large-v3 ou turbo)"@,
            },
            None => r matches Ok(choice) && if interactive {
                choice matches Choice::Ask { default } && default < catalog().len()
                    && catalog()[default as int] == current_model(current@)
            } else {
                choice == Choice::Chosen(current_model(current@))
            },
        },
        is_question(r) == left_to_user(flag is Some, interactive),
{
    if let Some(value) = flag {
        return match find(value) {
            Some(spec) => Ok(Choice::Chosen(spec)),
            None => Err(
                cat3(
                    "modelo inválido: ",
                    value,
                    " (use tiny, base, small, medium, large-v3 ou turbo)",
                ),
            ),
        };
    }
    proof {
        law_recommended_model_is_offered();
        lemma_lookup(catalog(), current@);
        assert(catalog().contains(catalog()[2]));
    }
    let spec = match find(current) {
        Some(spec) => spec,
        None => match find(default_model()) {
            Some(spec) => spec,
            None => vad_model(),
        },
    };
    if interactive {
        Ok(Choice::Ask { default: position_of(&spec) })
    } else {
        Ok(Choice::Chosen(spec))
    }
}

/// A model as it is offered.
pub open spec fn offered(spec: ModelSpec) -> Seq<char> {
    spec.name@ + " — "@ + spec.description@ + " (~"@ + decimal(spec.size_mb as nat) + " MB)"@
}

/// A model as it is offered.
pub fn model_item_label(spec: &ModelSpec) -> (r: String)
    ensures
        r@ == offered(*spec),
{
    let mut out = cat4(spec.name, " — ", spec.description, " (~");
    out.append(decimal_text(spec.size_mb).as_str());
    out.append(" MB)");
    out
}

/// The modes of insertion as they are offered.
pub fn insert_items() -> (r: Vec<&'static str>)
    ensures
        r@ == seq![
            "Digitar automaticamente; clipboard só se falhar (recomendado)",
            "Digitar automaticamente",
            "Somente copiar para o clipboard",
            "Digitar e copiar para o clipboard",
        ],
{
    vec![
        "Digitar automaticamente; clipboard só se falhar (recomendado)",
        "Digitar automaticamente",
        "Somente copiar para o clipboard",
        "Digitar e copiar para o clipboard",
    ]
}

/// What is said of a mode that there is not.
pub open spec fn bad_mode(value: Seq<char>) -> Seq<char> {
    "modo de inserção inválido: "@ + value
        + " (use insert, clipboard, fallback ou both; type é alias legado)"@
}

/// The mode of insertion that a flag names.
pub fn parse_insert_mode(value: &str) -> (r: Result<InsertMode, String>)
    ensures
        match r {
            Ok(mode) => InsertMode::parsed(value@) == Some(mode),
            Err(e) => InsertMode::parsed(value@) is None && e@ == bad_mode(value@),
        },
{
    match InsertMode::parse(value) {
        Some(mode) => Ok(mode),
        None => Err(
            cat3(
                "modo de inserção inválido: ",
                value,
                " (use insert, clipboard, fallback ou both; type é alias legado)",
            ),
        ),
    }
}

/// The position at which a mode is offered.
pub open spec fn mode_position(mode: InsertMode) -> usize {
    match mode {
        InsertMode::Fallback => 0,
        InsertMode::InsertText => 1,
        InsertMode::CopyToClipboard => 2,
        InsertMode::Both => 3,
    }
}

/// The mode that is offered at a position.
pub open spec fn mode_at(index: usize) -> InsertMode {
    if index == 0 {
        InsertMode::Fallback
    } else if index == 1 {
        InsertMode::InsertText
    } else if index == 2 {
        InsertMode::CopyToClipboard
    } else {
        InsertMode::Both
    }
}

/// The position at which a mode is offered.
pub fn insert_mode_index(mode: InsertMode) -> (r: usize)
    ensures
        r == mode_position(mode),
{
    match mode {
        InsertMode::Fallback => 0,
        InsertMode::InsertText => 1,
        InsertMode::CopyToClipboard => 2,
        InsertMode::Both => 3,
    }
}

/// The mode that is offered at a position.
pub fn insert_mode_at(index: usize) -> (r: InsertMode)
    ensures
        r == mode_at(index),
{
    if index == 0 {
        InsertMode::Fallback
    } else if index == 1 {
        InsertMode::InsertText
    } else if index == 2 {
        InsertMode::CopyToClipboard
    } else {
        InsertMode::Both
    }
}

/// The entry that is marked at first is the mode in use.
pub proof fn law_insert_mode_positions(mode: InsertMode, index: usize)
    ensures
        mode_at(mode_position(mode)) == mode,
        index < 4 ==> mode_position(mode_at(index)) == index,
{
}

/// The mode of insertion: from the flag, else the user's answer, else the
/// present one.
pub fn select_insert_mode(flag: Option<&str>, current: InsertMode, interactive: bool) -> (r: Result<
    Choice<InsertMode>,
    String,
>)
    ensures
        match flag {
            Some(value) => match InsertMode::parsed(value@) {
                Some(mode) => r == Ok::<Choice<InsertMode>, String>(Choice::Chosen(mode)),
                None => r matches Err(e) && e@ == bad_mode(value@),
            },
            None => r == Ok::<Choice<InsertMode>, String>(
                if interactive {
                    Choice::Ask { default: mode_position(current) }
                } else {
                    Choice::Chosen(current)
                },
            ),
        },
        is_question(r) == left_to_user(flag is Some, interactive),
{
    match flag {
        Some(value) => match parse_insert_mode(value) {
            Ok(mode) => Ok(Choice::Chosen(mode)),
            Err(e) => Err(e),
        },
        None => if interactive {
            Ok(Choice::Ask { default: insert_mode_index(current) })
        } else {
            Ok(Choice::Chosen(current))
        },
    }
}

/// What is known about the language model.
#[derive(Debug, Clone, Copy, PartialEq, Eq, Structural)]
pub enum AiChoice {
    /// Is it used, and is it to be downloaded?
    Chosen { enabled: bool, download: bool },
    /// Ask the user, with that answer marked.
    Ask { default: bool },
}

/// The same configuration with another language model.
pub open spec fn with_ai_model(cfg: ConfigView, name: Seq<char>) -> ConfigView {
    ConfigView { ai: crate::config::AiConfigView { model: name, ..cfg.ai }, ..cfg }
}

/// The language model: switched off by a flag, named by a flag, else the
/// user's answer, else as configured. `file_present` says whether the
/// configured model is there.
pub fn select_ai(
    options: &SetupOptions,
    cfg: &mut Config,
    config_exists: bool,
    interactive: bool,
    file_present: bool,
) -> (r: Result<AiChoice, String>)
    ensures
        ({
            let named = text_of(options.ai_model);
            if options.no_ai {
                r == Ok::<AiChoice, String>(AiChoice::Chosen { enabled: false, download: false })
                    && final(cfg)@ == old(cfg)@
            } else if named is Some {
                match lookup(llm_catalog(), named->0) {
                    Some(spec) => r == Ok::<AiChoice, String>(
                        AiChoice::Chosen { enabled: true, download: true },
                    ) && final(cfg)@ == with_ai_model(old(cfg)@, spec.name@),
                    None => r matches Err(e) && e@ == "modelo AI inválido: "@ + named->0
                        + " (use qwen3.5-0.8b)"@ && final(cfg)@ == old(cfg)@,
                }
            } else if interactive {
                r == Ok::<AiChoice, String>(
                    AiChoice::Ask { default: old(cfg).ai.enabled && file_present },
                ) && final(cfg)@ == old(cfg)@
            } else {
                r == Ok::<AiChoice, String>(
                    AiChoice::Chosen {
                        enabled: config_exists && old(cfg).ai.enabled,
                        download: false,
                    },
                ) && final(cfg)@ == old(cfg)@
            }
        }),
        (r matches Ok(choice) && choice is Ask) == left_to_user(
            options.no_ai || options.ai_model is Some,
            interactive,
        ),
{
    if options.no_ai {
        return Ok(AiChoice::Chosen { enabled: false, download: false });
    }
    if let Some(name) = &options.ai_model {
        return match find_llm(name.as_str()) {
            Some(spec) => {
                cfg.ai.model = spec.name.to_owned();
                Ok(AiChoice::Chosen { enabled: true, download: true })
            },
            None => Err(cat3("modelo AI inválido: ", name.as_str(), " (use qwen3.5-0.8b)")),
        };
    }
    if interactive {
        return Ok(AiChoice::Ask { default: cfg.ai.enabled && file_present });
    }
    Ok(AiChoice::Chosen { enabled: config_exists && cfg.ai.enabled, download: false })
}

/// Puts the first language model of the catalog in place of one that is
/// neither in the catalog nor on disk.
pub fn ensure_catalog_ai_model(cfg: &mut Config, file_present: bool)
    ensures
        final(cfg)@ == if lookup(llm_catalog(), old(cfg).ai.model@) is None && !file_present {
            with_ai_model(old(cfg)@, llm_catalog()[0].name@)
        } else {
            old(cfg)@
        },
{
    if find_llm(cfg.ai.model.as_str()).is_none() && !file_present {
        let list = llm_models();
        cfg.ai.model = list[0].name.to_owned();
    }
}

/// The user's answer on the language model.
pub fn answer_ai(cfg: &mut Config, wanted: bool, file_present: bool) -> (r: (bool, bool))
    ensures
        r == (wanted, wanted),
        final(cfg)@ == if wanted && lookup(llm_catalog(), old(cfg).ai.model@) is None
            && !file_present {
            with_ai_model(old(cfg)@, llm_catalog()[0].name@)
        } else {
            old(cfg)@
        },
{
    if wanted {
        ensure_catalog_ai_model(cfg, file_present);
    }
    (wanted, wanted)
}

/// Writes the choices into the configuration.
pub fn apply_choices(
    cfg: &mut Config,
    language: Language,
    model: &ModelSpec,
    insert_mode: InsertMode,
    ai_enabled: bool,
)
    ensures
        final(cfg)@ == (ConfigView {
            language,
            model: model.name@,
            insert_mode,
            ai: crate::config::AiConfigView { enabled: ai_enabled, ..old(cfg)@.ai },
            ..old(cfg)@
        }),
{
    cfg.language = language;
    cfg.model = model.name.to_owned();
    cfg.insert_mode = insert_mode;
    cfg.ai.enabled = ai_enabled;
}

// ---------------------------------------------------------------------------
// Downloads
// ---------------------------------------------------------------------------

/// What a file is for.
#[derive(Debug, Clone, Copy, PartialEq, Eq, Structural)]
pub enum DownloadKind {
    Whisper,
    Vad,
    Qwen,
}

/// A file that is missing.
#[derive(Debug, Clone, PartialEq, Eq)]
pub struct PendingDownload {
    pub kind: DownloadKind,
    pub spec: ModelSpec,
    pub dest: String,
    pub label: &'static str,
}

/// The contents of a [`PendingDownload`].
#[verifier::ext_equal]
pub struct PendingView {
    pub kind: DownloadKind,
    pub spec: ModelSpec,
    pub dest: Seq<char>,
    pub label: Seq<char>,
}

impl View for PendingDownload {
    type V = PendingView;

    open spec fn view(&self) -> PendingView {
        PendingView { kind: self.kind, spec: self.spec, dest: self.dest@, label: self.label@ }
    }
}

/// The contents of a list of downloads.
pub open spec fn pending_views(list: Seq<PendingDownload>) -> Seq<PendingView> {
    list.map_values(|p: PendingDownload| p@)
}

/// Adds a file that is not there yet.
pub fn add_pending(
    pending: &mut Vec<PendingDownload>,
    kind: DownloadKind,
    spec: ModelSpec,
    dest: String,
    label: &'static str,
    present: bool,
)
    ensures
        pending_views(final(pending)@) == if present {
            pending_views(old(pending)@)
        } else {
            pending_views(old(pending)@).push(
                PendingView { kind, spec, dest: dest@, label: label@ },
            )
        },
{
    if !present {
        pending.push(PendingDownload { kind, spec, dest, label });
        proof {
            assert(pending_views(pending@) =~= pending_views(old(pending)@).push(
                PendingView { kind, spec, dest: dest@, label: label@ },
            ));
        }
    }
}

/// Which files are there already.
#[derive(Debug, Clone, Copy, PartialEq, Eq, Structural)]
pub struct OnDisk {
    pub model: bool,
    pub vad: bool,
    /// The configured language model, as the catalog names its file.
    pub qwen: bool,
    /// The configured language model, as a file of the user's own.
    pub ai_file: bool,
}

/// What the setup is about to do.
#[derive(Debug)]
pub struct SetupPlan {
    pub cfg: Config,
    pub model: ModelSpec,
    pub model_dest: String,
    pub vad_dest: String,
    pub pending: Vec<PendingDownload>,
}

/// The files that are missing: the transcription model, the voice detection
/// model, and the language model where it is wanted.
pub open spec fn missing_files(
    cfg: ConfigView,
    model: ModelSpec,
    download_qwen: bool,
    env: XdgEnv,
    disk: OnDisk,
) -> Seq<PendingView> {
    let whisper = PendingView {
        kind: DownloadKind::Whisper,
        spec: model,
        dest: joined(env.models_dir(), model.file@),
        label: "modelo Whisper"@,
    };
    let vad = PendingView {
        kind: DownloadKind::Vad,
        spec: vad_spec(),
        dest: joined(env.models_dir(), vad_spec().file@),
        label: "modelo VAD"@,
    };
    let first = if disk.model {
        Seq::empty()
    } else {
        seq![whisper]
    };
    let second = if disk.vad {
        first
    } else {
        first.push(vad)
    };
    match lookup(llm_catalog(), cfg.ai.model) {
        Some(spec) => if cfg.ai.enabled && download_qwen && !disk.qwen {
            second.push(
                PendingView {
                    kind: DownloadKind::Qwen,
                    spec,
                    dest: joined(env.models_dir(), spec.file@),
                    label: "modelo Qwen"@,
                },
            )
        } else {
            second
        },
        None => second,
    }
}

impl SetupPlan {
    /// The plan for these choices. A language model that is to be used has to
    /// be in the catalog or on disk.
    pub fn new(
        cfg: Config,
        model: ModelSpec,
        download_qwen: bool,
        env: &XdgEnv,
        disk: OnDisk,
    ) -> (r: Result<SetupPlan, String>)
        ensures
            match r {
                Ok(plan) => !(cfg@.ai.enabled && download_qwen && lookup(
                    llm_catalog(),
                    cfg@.ai.model,
                ) is None && !disk.ai_file) && plan.cfg == cfg && plan.model == model
                    && plan.model_dest@ == joined(env.models_dir(), model.file@) && plan.vad_dest@
                    == joined(env.models_dir(), vad_spec().file@) && pending_views(plan.pending@)
                    == missing_files(cfg@, model, download_qwen, *env, disk) && (
                catalog().contains(model) ==> total_size(pending_views(plan.pending@))
                    <= u64::MAX),
                Err(e) => cfg@.ai.enabled && download_qwen && lookup(
                    llm_catalog(),
                    cfg@.ai.model,
                ) is None && !disk.ai_file && e@ == "modelo Qwen não encontrado: "@ + cfg@.ai.model
                    + "; desative AI ou escolha qwen3.5-0.8b"@,
            },
    {
        let dir = models_dir(env);
        let model_dest = join(dir.as_str(), model.file);
        let vad_dest = vad_model_path(env);
        let mut pending: Vec<PendingDownload> = Vec::new();
        proof {
            assert(pending_views(pending@) =~= Seq::empty());
        }
        add_pending(
            &mut pending,
            DownloadKind::Whisper,
            model,
            model_dest.clone(),
            "modelo Whisper",
            disk.model,
        );
        add_pending(
            &mut pending,
            DownloadKind::Vad,
            vad_model(),
            vad_dest.clone(),
            "modelo VAD",
            disk.vad,
        );
        if cfg.ai.enabled && download_qwen {
            match find_llm(cfg.ai.model.as_str()) {
                Some(spec) => {
                    add_pending(
                        &mut pending,
                        DownloadKind::Qwen,
                        spec,
                        join(dir.as_str(), spec.file),
                        "modelo Qwen",
                        disk.qwen,
                    );
                },
                None => if !disk.ai_file {
                    return Err(
                        cat3(
                            "modelo Qwen não encontrado: ",
                            cfg.ai.model.as_str(),
                            "; desative AI ou escolha qwen3.5-0.8b",
                        ),
                    );
                },
            }
        }
        proof {
            if catalog().contains(model) {
                law_missing_sizes_fit(cfg@, model, download_qwen, *env, disk);
            }
        }
        Ok(SetupPlan { cfg, model, model_dest, vad_dest, pending })
    }
}

/// Nothing is downloaded twice: with all files there, nothing is missing.
pub proof fn law_nothing_missing_when_all_is_there(
    cfg: ConfigView,
    model: ModelSpec,
    download_qwen: bool,
    env: XdgEnv,
)
    ensures
        missing_files(
            cfg,
            model,
            download_qwen,
            env,
            OnDisk { model: true, vad: true, qwen: true, ai_file: true },
        ).len() == 0,
{
}

/// The language model is never downloaded where it is not used.
pub proof fn law_unused_language_model_is_not_downloaded(
    cfg: ConfigView,
    model: ModelSpec,
    download_qwen: bool,
    env: XdgEnv,
    disk: OnDisk,
    i: int,
)
    requires
        !cfg.ai.enabled || !download_qwen,
        0 <= i < missing_files(cfg, model, download_qwen, env, disk).len(),
    ensures
        missing_files(cfg, model, download_qwen, env, disk)[i].kind != DownloadKind::Qwen,
{
}

/// The size of the files together, in MB.
pub open spec fn total_size(list: Seq<PendingView>) -> nat
    decreases list.len(),
{
    if list.len() == 0 {
        0
    } else {
        total_size(list.drop_last()) + list.last().spec.size_mb as nat
    }
}

proof fn lemma_total_size_prefix(list: Seq<PendingView>, n: int)
    requires
        0 <= n <= list.len(),
    ensures
        total_size(list.take(n)) <= total_size(list),
    decreases list.len() - n,
{
    if n < list.len() {
        lemma_total_size_prefix(list, n + 1);
        assert(list.take(n + 1).drop_last() =~= list.take(n));
    } else {
        assert(list.take(n) =~= list);
    }
}

/// The size of the files together, in MB.
pub fn pending_download_total(pending: &[PendingDownload]) -> (r: u64)
    requires
        total_size(pending_views(pending@)) <= u64::MAX,
    ensures
        r == total_size(pending_views(pending@)),
{
    let ghost all = pending_views(pending@);
    let mut total: u64 = 0;
    let mut i: usize = 0;
    while i < pending.len()
        invariant
            i <= pending@.len(),
            all == pending_views(pending@),
            total_size(all) <= u64::MAX,
            total == total_size(all.take(i as int)),
        decreases pending@.len() - i,
    {
        proof {
            lemma_total_size_prefix(all, i + 1);
            assert(all.take(i + 1).drop_last() =~= all.take(i as int));
            assert(all.take(i + 1).last() == pending@[i as int]@);
        }
        total += pending[i].spec.size_mb;
        i += 1;
    }
    proof {
        assert(all.take(i as int) =~= all);
    }
    total
}

/// The sizes of the files that are missing for a model of the catalog add up
/// within the range of a size.
pub proof fn law_missing_sizes_fit(
    cfg: ConfigView,
    model: ModelSpec,
    download_qwen: bool,
    env: XdgEnv,
    disk: OnDisk,
)
    requires
        catalog().contains(model),
    ensures
        total_size(missing_files(cfg, model, download_qwen, env, disk)) <= u64::MAX,
{
    reveal_with_fuel(total_size, 4);
    lemma_lookup(llm_catalog(), cfg.ai.model);
}

/// Were all choices given as flags?
pub open spec fn fully_given(options: SetupOptions) -> bool {
    options.lang is Some && options.model is Some && options.insert_mode is Some && (
    options.ai_model is Some || options.no_ai)
}

/// Were all choices given as flags?
pub fn all_choices_provided(options: &SetupOptions) -> (r: bool)
    ensures
        r == fully_given(*options),
{
    options.lang.is_some() && options.model.is_some() && options.insert_mode.is_some() && (
    options.ai_model.is_some() || options.no_ai)
}

/// What stands between the plan and its downloads.
#[derive(Debug, Clone, PartialEq, Eq)]
pub enum Confirmation {
    Given,
    /// Ask the user.
    Ask,
    /// There is nobody to ask.
    Impossible(String),
}

/// The user is to confirm the downloads.
pub open spec fn confirmation_due(due: bool, options: SetupOptions, interactive: bool) -> bool {
    due && !options.yes && !fully_given(options) && interactive
}

/// With all choices in flags the setup asks nothing, from the first choice
/// to the start of the daemon; nor does it without a terminal.
pub proof fn law_scripted_setup_asks_nothing(options: SetupOptions, interactive: bool, due: bool)
    requires
        fully_given(options) || !interactive,
    ensures
        !left_to_user(options.lang is Some, interactive),
        !left_to_user(options.model is Some, interactive),
        !left_to_user(options.insert_mode is Some, interactive),
        !left_to_user(options.no_ai || options.ai_model is Some, interactive),
        !confirmation_due(due, options, interactive),
        !start_offered(options, interactive),
{
}

/// The user is offered to start the daemon.
pub open spec fn start_offered(options: SetupOptions, interactive: bool) -> bool {
    interactive && !options.yes && !fully_given(options)
}

/// What stands between the plan and its downloads.
pub fn confirm_downloads(plan: &SetupPlan, options: &SetupOptions, interactive: bool) -> (r:
    Confirmation)
    ensures
        if plan.pending@.len() == 0 || options.yes || fully_given(*options) {
            r is Given
        } else if interactive {
            r is Ask
        } else {
            r matches Confirmation::Impossible(e) && e@
                == "setup não interativo precisa de --yes ou de todas as escolhas em flags"@
        },
        r is Ask == confirmation_due(plan.pending@.len() > 0, *options, interactive),
{
    if plan.pending.len() == 0 || options.yes || all_choices_provided(options) {
        Confirmation::Given
    } else if interactive {
        Confirmation::Ask
    } else {
        Confirmation::Impossible(
            "setup não interativo precisa de --yes ou de todas as escolhas em flags".to_owned(),
        )
    }
}

/// Is the user asked, at the end, whether to start the daemon?
pub fn asks_to_start(options: &SetupOptions, interactive: bool) -> (r: bool)
    ensures
        r == start_offered(*options, interactive),
{
    interactive && !options.yes && !all_choices_provided(options)
}

/// What the downloads came to.
#[derive(Debug, Clone, Copy, PartialEq, Eq, Structural)]
pub struct DownloadReport {
    pub vad_downloaded: bool,
}

/// What follows a download.
#[derive(Debug, Clone, PartialEq, Eq)]
pub enum AfterDownload {
    Continue,
    /// Tell the user and go on.
    Warn(String),
    Abort(String),
}

impl DownloadReport {
    /// Nothing was downloaded yet.
    pub fn new() -> (r: Self)
        ensures
            !r.vad_downloaded,
    {
        DownloadReport { vad_downloaded: false }
    }

    /// Takes the result of one download. The voice detection model is not
    /// essential: without it the setup goes on.
    pub fn record(&mut self, kind: DownloadKind, result: Result<(), String>) -> (r: AfterDownload)
        ensures
            match result {
                Ok(()) => r is Continue,
                Err(e) => if kind == DownloadKind::Vad {
                    r matches AfterDownload::Warn(w) && w@
                        == "aviso: falha ao baixar o modelo VAD: "@ + e@
                        + "\n  o ditado funciona sem filtro de voz; rode 'whisper setup' de novo para tentar."@
                } else {
                    r matches AfterDownload::Abort(a) && a@ == e@
                },
            },
            final(self).vad_downloaded == (old(self).vad_downloaded || (kind == DownloadKind::Vad
                && result is Ok)),
    {
        match result {
            Ok(()) => {
                if kind == DownloadKind::Vad {
                    self.vad_downloaded = true;
                }
                AfterDownload::Continue
            },
            Err(e) => if kind == DownloadKind::Vad {
                AfterDownload::Warn(
                    cat3(
                        "aviso: falha ao baixar o modelo VAD: ",
                        e.as_str(),
                        "\n  o ditado funciona sem filtro de voz; rode 'whisper setup' de novo para tentar.",
                    ),
                )
            } else {
                AfterDownload::Abort(e)
            },
        }
    }
}

/// The setup cannot go on without that file.
pub open spec fn is_essential(kind: DownloadKind) -> bool {
    kind != DownloadKind::Vad
}

/// The error of the first essential download that failed; `errors` holds those
/// of the downloads that were made, in their order.
pub open spec fn essential_failure(
    kinds: Seq<DownloadKind>,
    errors: Seq<Option<Seq<char>>>,
) -> Option<Seq<char>>
    decreases errors.len(),
{
    if kinds.len() == 0 || errors.len() == 0 {
        None
    } else if is_essential(kinds[0]) && errors[0] is Some {
        errors[0]
    } else {
        essential_failure(kinds.drop_first(), errors.drop_first())
    }
}

/// What the setup does next.
#[derive(Debug, Clone, PartialEq, Eq)]
pub enum SetupStep {
    /// Ask whether to go on.
    Ask,
    /// The end: the user declined.
    Cancel,
    /// Download that file of the plan.
    Download { index: usize },
    /// The end: nothing was saved.
    Abort(String),
    /// Save the configuration.
    Save,
}

/// The contents of a [`SetupStep`].
pub enum SetupStepView {
    Ask,
    Cancel,
    Download { index: int },
    Abort { error: Seq<char> },
    Save,
}

impl View for SetupStep {
    type V = SetupStepView;

    open spec fn view(&self) -> SetupStepView {
        match *self {
            SetupStep::Ask => SetupStepView::Ask,
            SetupStep::Cancel => SetupStepView::Cancel,
            SetupStep::Download { index } => SetupStepView::Download { index: index as int },
            SetupStep::Abort(e) => SetupStepView::Abort { error: e@ },
            SetupStep::Save => SetupStepView::Save,
        }
    }
}

/// What stands between the plan and its downloads, as texts.
pub enum ConfirmationView {
    Given,
    Ask,
    Impossible { error: Seq<char> },
}

impl View for Confirmation {
    type V = ConfirmationView;

    open spec fn view(&self) -> ConfirmationView {
        match *self {
            Confirmation::Given => ConfirmationView::Given,
            Confirmation::Ask => ConfirmationView::Ask,
            Confirmation::Impossible(e) => ConfirmationView::Impossible { error: e@ },
        }
    }
}

/// What the setup does next: it asks where it has to, downloads what is
/// missing in the order of the plan, and saves once all essential files are
/// there.
pub open spec fn setup_course(
    kinds: Seq<DownloadKind>,
    confirmation: ConfirmationView,
    answer: Option<bool>,
    errors: Seq<Option<Seq<char>>>,
) -> SetupStepView {
    match (confirmation, answer) {
        (ConfirmationView::Impossible { error }, _) => SetupStepView::Abort { error },
        (ConfirmationView::Ask, None) => SetupStepView::Ask,
        (ConfirmationView::Ask, Some(false)) => SetupStepView::Cancel,
        _ => match essential_failure(kinds, errors) {
            Some(error) => SetupStepView::Abort { error },
            None => if errors.len() < kinds.len() {
                SetupStepView::Download { index: errors.len() as int }
            } else {
                SetupStepView::Save
            },
        },
    }
}

/// The kinds of the files of a plan.
pub open spec fn kinds_of(list: Seq<PendingDownload>) -> Seq<DownloadKind> {
    list.map_values(|p: PendingDownload| p.kind)
}

/// The errors of downloads.
pub open spec fn errors_of(results: Seq<Result<(), String>>) -> Seq<Option<Seq<char>>> {
    results.map_values(|r: Result<(), String>| error_text(r))
}

fn failed_essential(pending: &Vec<PendingDownload>, results: &Vec<Result<(), String>>) -> (r:
    Option<String>)
    ensures
        text_of(r) == essential_failure(kinds_of(pending@), errors_of(results@)),
{
    let ghost kinds = kinds_of(pending@);
    let ghost errors = errors_of(results@);
    let mut i: usize = 0;
    proof {
        assert(kinds.skip(0) =~= kinds);
        assert(errors.skip(0) =~= errors);
    }
    while i < pending.len() && i < results.len()
        invariant
            i <= pending@.len(),
            i <= results@.len(),
            kinds == kinds_of(pending@),
            errors == errors_of(results@),
            essential_failure(kinds, errors) == essential_failure(
                kinds.skip(i as int),
                errors.skip(i as int),
            ),
        decreases pending@.len() - i,
    {
        proof {
            assert(kinds.skip(i as int).drop_first() =~= kinds.skip(i + 1));
            assert(errors.skip(i as int).drop_first() =~= errors.skip(i + 1));
        }
        if let Err(e) = &results[i] {
            match pending[i].kind {
                DownloadKind::Whisper | DownloadKind::Qwen => return Some(e.clone()),
                DownloadKind::Vad => {},
            }
        }
        i += 1;
    }
    None
}

/// What the setup does next; `answer` is what the user said where they were
/// asked, `results` what the downloads came to that were made so far.
pub fn setup_step(
    plan: &SetupPlan,
    confirmation: &Confirmation,
    answer: Option<bool>,
    results: &Vec<Result<(), String>>,
) -> (r: SetupStep)
    ensures
        r@ == setup_course(
            kinds_of(plan.pending@),
            confirmation@,
            answer,
            errors_of(results@),
        ),
{
    match (confirmation, answer) {
        (Confirmation::Impossible(e), _) => SetupStep::Abort(e.clone()),
        (Confirmation::Ask, None) => SetupStep::Ask,
        (Confirmation::Ask, Some(false)) => SetupStep::Cancel,
        (Confirmation::Ask, Some(true)) | (Confirmation::Given, _) => match failed_essential(
            &plan.pending,
            results,
        ) {
            Some(e) => SetupStep::Abort(e),
            None => if results.len() < plan.pending.len() {
                SetupStep::Download { index: results.len() }
            } else {
                SetupStep::Save
            },
        },
    }
}

proof fn lemma_no_essential_failure(kinds: Seq<DownloadKind>, errors: Seq<Option<Seq<char>>>)
    requires
        essential_failure(kinds, errors) is None,
    ensures
        forall|i: int|
            0 <= i < kinds.len() && i < errors.len() && is_essential(kinds[i])
                ==> #[trigger] errors[i] is None,
    decreases errors.len(),
{
    if kinds.len() > 0 && errors.len() > 0 {
        lemma_no_essential_failure(kinds.drop_first(), errors.drop_first());
        assert forall|i: int|
            0 <= i < kinds.len() && i < errors.len() && is_essential(
                kinds[i],
            ) implies #[trigger] errors[i] is None by {
            if i > 0 {
                assert(errors.drop_first()[i - 1] == errors[i]);
            }
        }
    }
}

/// The configuration is saved only where the summary needed no answer or was
/// accepted, every download of the plan was made, and no essential one failed.
pub proof fn law_saved_only_when_complete(
    kinds: Seq<DownloadKind>,
    confirmation: ConfirmationView,
    answer: Option<bool>,
    errors: Seq<Option<Seq<char>>>,
)
    requires
        setup_course(kinds, confirmation, answer, errors) is Save,
    ensures
        confirmation is Given || (confirmation is Ask && answer == Some(true)),
        errors.len() >= kinds.len(),
        forall|i: int|
            0 <= i < kinds.len() && is_essential(kinds[i]) ==> #[trigger] errors[i] is None,
{
    lemma_no_essential_failure(kinds, errors);
}

/// Only the voice detection model can be done without.
pub proof fn law_what_is_essential()
    ensures
        is_essential(DownloadKind::Whisper),
        is_essential(DownloadKind::Qwen),
        !is_essential(DownloadKind::Vad),
{
}

/// A declined summary ends the setup: nothing is downloaded or saved.
pub proof fn law_declined_setup_does_nothing(
    kinds: Seq<DownloadKind>,
    errors: Seq<Option<Seq<char>>>,
)
    ensures
        setup_course(kinds, ConfirmationView::Ask, Some(false), errors) is Cancel,
{
}

/// A failed download of an essential file ends the setup: nothing more is
/// downloaded, and nothing is saved.
pub proof fn law_failed_essential_download_aborts(
    kinds: Seq<DownloadKind>,
    confirmation: ConfirmationView,
    answer: Option<bool>,
    errors: Seq<Option<Seq<char>>>,
    i: int,
)
    requires
        0 <= i < kinds.len(),
        i < errors.len(),
        is_essential(kinds[i]),
        errors[i] is Some,
    ensures
        !(setup_course(kinds, confirmation, answer, errors) is Save),
        !(setup_course(kinds, confirmation, answer, errors) is Download),
{
    if essential_failure(kinds, errors) is None {
        lemma_no_essential_failure(kinds, errors);
    }
}

// ---------------------------------------------------------------------------
// What the user reads
// ---------------------------------------------------------------------------

/// The question on the language model, with the size of the model that a yes
/// asks for: the configured one, else the first of the catalog.
pub fn ai_question(cfg: &Config) -> (r: String)
    ensures
        r@ == "Ativar pós-processamento inteligente local com Qwen (~"@ + decimal(
            match lookup(llm_catalog(), cfg@.ai.model) {
                Some(spec) => spec.size_mb as nat,
                None => llm_catalog()[0].size_mb as nat,
            },
        ) + " MB)?"@,
{
    let size: u64 = match find_llm(cfg.ai.model.as_str()) {
        Some(spec) => spec.size_mb,
        None => llm_models()[0].size_mb,
    };
    cat3(
        "Ativar pós-processamento inteligente local com Qwen (~",
        decimal_text(size).as_str(),
        " MB)?",
    )
}

/// The lines on the downloads that are due.
pub open spec fn download_lines(list: Seq<PendingView>) -> Seq<Seq<char>> {
    list.map_values(
        |p: PendingView| "  "@ + p.label + " — ~"@ + decimal(p.spec.size_mb as nat) + " MB"@,
    )
}

/// The summary before the downloads.
pub open spec fn summary(cfg: ConfigView, model: ModelSpec, list: Seq<PendingView>) -> Seq<
    Seq<char>,
> {
    let head = seq![
        ""@,
        "Configuração"@,
        ""@,
        "  Idioma       "@ + cfg.language.label_text(),
        "  Modelo       "@ + model.name@ + " — "@ + model.description@,
        "  Inserção     "@ + cfg.insert_mode.label_text(),
        if cfg.ai.enabled {
            "  Qwen cleanup Ativado ("@ + cfg.ai.model + ")"@
        } else {
            "  Qwen cleanup Desativado"@
        },
        ""@,
    ];
    if list.len() == 0 {
        head + seq!["  Downloads pendentes: nenhum"@, ""@]
    } else {
        head.push("Downloads pendentes:"@) + download_lines(list) + seq![
            "  Total aproximado: ~"@ + decimal(total_size(list)) + " MB"@,
            ""@,
        ]
    }
}

/// The summary before the downloads.
pub fn summary_lines(plan: &SetupPlan) -> (out: Vec<String>)
    requires
        total_size(pending_views(plan.pending@)) <= u64::MAX,
    ensures
        texts(out@) == summary(plan.cfg@, plan.model, pending_views(plan.pending@)),
{
    let ghost list = pending_views(plan.pending@);
    let ghost head = summary(plan.cfg@, plan.model, Seq::empty()).take(8);
    let mut out: Vec<String> = Vec::new();
    out.push("".to_owned());
    out.push("Configuração".to_owned());
    out.push("".to_owned());
    out.push(cat2("  Idioma       ", plan.cfg.language.label()));
    out.push(cat4("  Modelo       ", plan.model.name, " — ", plan.model.description));
    out.push(cat2("  Inserção     ", plan.cfg.insert_mode.label()));
    if plan.cfg.ai.enabled {
        out.push(cat3("  Qwen cleanup Ativado (", plan.cfg.ai.model.as_str(), ")"));
    } else {
        out.push("  Qwen cleanup Desativado".to_owned());
    }
    out.push("".to_owned());
    proof {
        assert(texts(out@) =~= head);
    }
    if plan.pending.len() == 0 {
        out.push("  Downloads pendentes: nenhum".to_owned());
        out.push("".to_owned());
        proof {
            assert(list.len() == 0);
            assert(texts(out@) =~= summary(plan.cfg@, plan.model, list));
        }
        return out;
    }
    out.push("Downloads pendentes:".to_owned());
    let ghost start = head.push("Downloads pendentes:"@);
    proof {
        assert(texts(out@) =~= start);
        assert(start + download_lines(list).take(0) =~= start);
    }
    let mut i: usize = 0;
    while i < plan.pending.len()
        invariant
            i <= plan.pending@.len(),
            list == pending_views(plan.pending@),
            texts(out@) == start + download_lines(list).take(i as int),
        decreases plan.pending@.len() - i,
    {
        let download = &plan.pending[i];
        let mut line = cat3("  ", download.label, " — ~");
        line.append(decimal_text(download.spec.size_mb).as_str());
        line.append(" MB");
        let ghost before = texts(out@);
        out.push(line);
        proof {
            assert(texts(out@) =~= before.push(line@));
            assert(line@ == download_lines(list)[i as int]);
            assert(download_lines(list).take(i + 1) =~= download_lines(list).take(i as int).push(
                line@,
            ));
            assert(texts(out@) =~= start + download_lines(list).take(i + 1));
        }
        i += 1;
    }
    proof {
        assert(download_lines(list).take(i as int) =~= download_lines(list));
    }
    let ghost before = texts(out@);
    let total: u64 = pending_download_total(plan.pending.as_slice());
    let line = cat3("  Total aproximado: ~", decimal_text(total).as_str(), " MB");
    out.push(line);
    out.push("".to_owned());
    proof {
        assert(texts(out@) =~= before.push(line@).push(""@));
        assert(texts(out@) =~= summary(plan.cfg@, plan.model, list));
    }
    out
}

/// What the user reads at the end.
pub open spec fn completion(
    plan: SetupPlan,
    report: DownloadReport,
    env: XdgEnv,
    wtype_available: bool,
) -> Seq<Seq<char>> {
    let head = seq![
        "✓ Configuração concluída"@,
        ""@,
        "Configuração salva em "@ + joined(env.config_dir(), "config.toml"@),
        "Modelo       "@ + plan.model.name@,
        "Modelo em    "@ + plan.model_dest@,
        "VAD em       "@ + plan.vad_dest@,
        "Inserção     "@ + plan.cfg.insert_mode.label_text(),
        if plan.cfg.ai.enabled {
            "Qwen cleanup "@ + "ativado ("@ + plan.cfg.ai.model@ + ")"@
        } else {
            "Qwen cleanup "@ + "desativado"@
        },
        ""@,
        "Próximo passo:"@,
        "  whisper start"@,
    ];
    let restart = if report.vad_downloaded {
        seq![
            ""@,
            "aviso: se o daemon já estiver ativo, reinicie-o para carregar o novo VAD (whisper restart)."@,
        ]
    } else {
        Seq::empty()
    };
    let typing = if plan.cfg.insert_mode.types() && !wtype_available {
        seq![
            ""@,
            "aviso: 'wtype' não está no PATH — a digitação na app focada não vai funcionar"@,
            "  o texto ficará só no clipboard. "@
                + "instale o pacote wtype (NixOS: adicione pkgs.wtype ao environment.systemPackages; Arch: pacman -S wtype; Debian/Ubuntu: apt install wtype)"@,
            "  Depois de instalar, reinicie o daemon (whisper restart)."@,
        ]
    } else {
        Seq::empty()
    };
    head + restart + typing
}

/// What the user reads at the end.
pub fn completion_lines(
    plan: &SetupPlan,
    report: DownloadReport,
    env: &XdgEnv,
    wtype_available: bool,
) -> (out: Vec<String>)
    ensures
        texts(out@) == completion(*plan, report, *env, wtype_available),
{
    let mut out: Vec<String> = Vec::new();
    out.push("✓ Configuração concluída".to_owned());
    out.push("".to_owned());
    out.push(cat2("Configuração salva em ", config_path(env).as_str()));
    out.push(cat2("Modelo       ", plan.model.name));
    out.push(cat2("Modelo em    ", plan.model_dest.as_str()));
    out.push(cat2("VAD em       ", plan.vad_dest.as_str()));
    out.push(cat2("Inserção     ", plan.cfg.insert_mode.label()));
    if plan.cfg.ai.enabled {
        out.push(cat4("Qwen cleanup ", "ativado (", plan.cfg.ai.model.as_str(), ")"));
    } else {
        out.push(cat2("Qwen cleanup ", "desativado"));
    }
    out.push("".to_owned());
    out.push("Próximo passo:".to_owned());
    out.push("  whisper start".to_owned());
    if report.vad_downloaded {
        out.push("".to_owned());
        out.push(
            "aviso: se o daemon já estiver ativo, reinicie-o para carregar o novo VAD (whisper restart).".to_owned(),
        );
    }
    if plan.cfg.insert_mode.uses_wtype() && !wtype_available {
        out.push("".to_owned());
        out.push(
            "aviso: 'wtype' não está no PATH — a digitação na app focada não vai funcionar".to_owned(),
        );
        out.push(cat2("  o texto ficará só no clipboard. ", wtype_hint()));
        out.push("  Depois de instalar, reinicie o daemon (whisper restart).".to_owned());
    }
    proof {
        assert(texts(out@) =~= completion(*plan, report, *env, wtype_available));
    }
    out
}

/// What the user reads before a download, or in place of one for a file that
/// is there.
pub fn download_message(spec: &ModelSpec, dest: &str, label: &str, present: bool) -> (r: String)
    ensures
        r@ == if present {
            label@ + " já baixado: "@ + dest@
        } else {
            "baixando "@ + label@ + " "@ + spec.file@ + " (~"@ + decimal(spec.size_mb as nat)
                + " MB) do HuggingFace…"@
        },
{
    if present {
        cat3(label, " já baixado: ", dest)
    } else {
        let mut out = cat4("baixando ", label, " ", spec.file);
        out.append(" (~");
        out.append(decimal_text(spec.size_mb).as_str());
        out.append(" MB) do HuggingFace…");
        out
    }
}

/// Each file is downloaded just where it is missing: the transcription model
/// and the voice detection model always, the language model where it is used,
/// asked for and in the catalog.
pub proof fn law_missing_files_are_planned(
    cfg: ConfigView,
    model: ModelSpec,
    download_qwen: bool,
    env: XdgEnv,
    disk: OnDisk,
)
    ensures
        ({
            let list = missing_files(cfg, model, download_qwen, env, disk);
            let qwen = lookup(llm_catalog(), cfg.ai.model);
            &&& (exists|i: int|
                0 <= i < list.len() && (#[trigger] list[i]).kind == DownloadKind::Whisper
                    && list[i].spec == model) == !disk.model
            &&& (exists|i: int|
                0 <= i < list.len() && (#[trigger] list[i]).kind == DownloadKind::Vad
                    && list[i].spec == vad_spec()) == !disk.vad
            &&& (exists|i: int|
                0 <= i < list.len() && (#[trigger] list[i]).kind == DownloadKind::Qwen && Some(
                    list[i].spec,
                ) == qwen) == (!disk.qwen && cfg.ai.enabled && download_qwen && qwen is Some)
            &&& forall|i: int|
                0 <= i < list.len() ==> (#[trigger] list[i]).dest == joined(
                    env.models_dir(),
                    list[i].spec.file@,
                )
            &&& list.len() <= 3
        }),
{
    let list = missing_files(cfg, model, download_qwen, env, disk);
    if !disk.model {
        assert(list[0].kind == DownloadKind::Whisper);
    }
    if !disk.vad {
        assert(list[if disk.model { 0int } else { 1 }].kind == DownloadKind::Vad);
    }
    let qwen = lookup(llm_catalog(), cfg.ai.model);
    if !disk.qwen && cfg.ai.enabled && download_qwen && qwen is Some {
        assert(list[list.len() - 1].kind == DownloadKind::Qwen);
    }
}

/// The total is the sum of the sizes.
pub proof fn law_total_is_the_sum(list: Seq<PendingView>, p: PendingView)
    ensures
        total_size(Seq::empty()) == 0,
        total_size(list.push(p)) == total_size(list) + p.spec.size_mb,
{
    assert(list.push(p).drop_last() =~= list);
}

} // verus!
