//! The daemon as a state machine: commands and events go in, actions come
//! out. Nothing here reads a clock, a file or a device.
use vstd::prelude::*;

use crate::config::{Config, ConfigView, InsertMode};
use crate::insert::wtype_hint;
use crate::ipc::{Cmd, Response};
use crate::llm::Llm;
use crate::osd::{
    Feedback, FeedbackKind, OsdEvent, Phase as UiPhase, UiState, UiView,
};
use crate::search::{contains, occurs_at};
use crate::session::{ActionView, DaemonView, EventView, NoticeView};
use crate::text::{cat2, cat3, chars_of, text_of, trim_text};
use crate::transcribe::WorkerOutcome;

verus! {

// ---------------------------------------------------------------------------
// Phases and commands
// ---------------------------------------------------------------------------

/// What the daemon is doing.
#[derive(Debug, Clone, Copy, PartialEq, Eq, Structural)]
pub enum Phase {
    Idle,
    Recording,
    Paused,
    Transcribing,
    Loading,
}

impl Phase {
    /// What the overlay shows in this phase.
    pub open spec fn shown(self) -> Option<UiPhase> {
        match self {
            Phase::Idle => None,
            Phase::Recording => Some(UiPhase::Recording),
            Phase::Paused => Some(UiPhase::Paused),
            Phase::Transcribing => Some(UiPhase::Transcribing),
            Phase::Loading => Some(UiPhase::Loading),
        }
    }

    /// Is a recording running or paused?
    pub open spec fn in_recording(self) -> bool {
        self == Phase::Recording || self == Phase::Paused
    }

    /// What the overlay shows in this phase; nothing when idle.
    pub fn ui_phase(self) -> (r: Option<UiPhase>)
        ensures
            r == self.shown(),
    {
        match self {
            Phase::Idle => None,
            Phase::Recording => Some(UiPhase::Recording),
            Phase::Paused => Some(UiPhase::Paused),
            Phase::Transcribing => Some(UiPhase::Transcribing),
            Phase::Loading => Some(UiPhase::Loading),
        }
    }

    fn records(self) -> (r: bool)
        ensures
            r == self.in_recording(),
    {
        match self {
            Phase::Recording | Phase::Paused => true,
            Phase::Idle | Phase::Transcribing | Phase::Loading => false,
        }
    }

    /// The phase as a client reads it.
    pub open spec fn state_text(self) -> Seq<char> {
        match self {
            Phase::Idle => "idle"@,
            Phase::Recording => "recording"@,
            Phase::Paused => "paused"@,
            Phase::Transcribing => "transcribing"@,
            Phase::Loading => "loading"@,
        }
    }
}

/// What a command comes to.
#[derive(Debug, Clone, Copy, PartialEq, Eq, Structural)]
pub enum CommandAction {
    Start,
    Resume,
    Commit,
    Cancel,
    Pause,
    Noop,
}

/// What a command comes to in each phase.
pub open spec fn action_for(phase: Phase, cmd: Cmd) -> CommandAction {
    match cmd {
        Cmd::Toggle => if phase == Phase::Idle {
            CommandAction::Start
        } else if phase.in_recording() {
            CommandAction::Commit
        } else {
            CommandAction::Noop
        },
        Cmd::Record => if phase == Phase::Idle {
            CommandAction::Start
        } else if phase == Phase::Paused {
            CommandAction::Resume
        } else {
            CommandAction::Noop
        },
        Cmd::Commit => if phase.in_recording() {
            CommandAction::Commit
        } else {
            CommandAction::Noop
        },
        Cmd::Cancel => if phase == Phase::Idle {
            CommandAction::Noop
        } else {
            CommandAction::Cancel
        },
        Cmd::Pause => if phase == Phase::Recording {
            CommandAction::Pause
        } else {
            CommandAction::Noop
        },
        Cmd::Status | Cmd::Stop => CommandAction::Noop,
    }
}

/// What a command comes to in a phase.
pub fn command_action(phase: Phase, cmd: Cmd) -> (r: CommandAction)
    ensures
        r == action_for(phase, cmd),
{
    match cmd {
        Cmd::Toggle => match phase {
            Phase::Idle => CommandAction::Start,
            Phase::Recording | Phase::Paused => CommandAction::Commit,
            Phase::Loading | Phase::Transcribing => CommandAction::Noop,
        },
        Cmd::Record => match phase {
            Phase::Idle => CommandAction::Start,
            Phase::Paused => CommandAction::Resume,
            Phase::Recording | Phase::Loading | Phase::Transcribing => CommandAction::Noop,
        },
        Cmd::Commit => match phase {
            Phase::Recording | Phase::Paused => CommandAction::Commit,
            Phase::Idle | Phase::Loading | Phase::Transcribing => CommandAction::Noop,
        },
        Cmd::Cancel => match phase {
            Phase::Recording | Phase::Paused | Phase::Loading
            | Phase::Transcribing => CommandAction::Cancel,
            Phase::Idle => CommandAction::Noop,
        },
        Cmd::Pause => match phase {
            Phase::Recording => CommandAction::Pause,
            Phase::Idle | Phase::Paused | Phase::Loading
            | Phase::Transcribing => CommandAction::Noop,
        },
        Cmd::Status | Cmd::Stop => CommandAction::Noop,
    }
}

// ---------------------------------------------------------------------------
// Temporary messages
// ---------------------------------------------------------------------------

/// The longest wait for an event, in nanoseconds.
pub const EVENT_POLL_INTERVAL: u64 = 1_000_000_000;

/// How long a message on the audio stays, in nanoseconds.
pub const AUDIO_FEEDBACK_DURATION: u64 = 2_000_000_000;

/// How long a message on the processing stays, in nanoseconds.
pub const PROCESSING_FEEDBACK_DURATION: u64 = 2_500_000_000;

/// How long a message on an empty recording stays, in nanoseconds.
pub const EMPTY_FEEDBACK_DURATION: u64 = 1_200_000_000;

/// A message that ends its session once its time is over. Times are in
/// nanoseconds since some fixed moment.
#[derive(Debug, Clone, Copy, PartialEq, Eq, Structural)]
pub struct PendingFeedback {
    pub session: u64,
    pub deadline: u64,
}

impl PendingFeedback {
    /// A message that stays for `duration`.
    pub fn new(session: u64, duration: u64, now: u64) -> (r: Self)
        requires
            now + duration <= u64::MAX,
        ensures
            r == (PendingFeedback { session, deadline: (now + duration) as u64 }),
    {
        PendingFeedback { session, deadline: now + duration }
    }

    /// Is its time over?
    pub fn is_expired(self, now: u64) -> (r: bool)
        ensures
            r == (now >= self.deadline),
    {
        now >= self.deadline
    }

    /// How long it still stays.
    pub fn remaining(self, now: u64) -> (r: u64)
        ensures
            r == remaining_time(self.deadline, now),
    {
        if now >= self.deadline {
            0
        } else {
            self.deadline - now
        }
    }
}

/// The time up to a deadline; none once it has passed.
pub open spec fn remaining_time(deadline: u64, now: u64) -> int {
    if now >= deadline {
        0
    } else {
        deadline - now
    }
}

/// How long to wait for an event: not past the end of the message, and not
/// past the usual interval.
pub open spec fn wait_until(deadline: Option<u64>, now: u64) -> int {
    match deadline {
        Some(d) => if remaining_time(d, now) < EVENT_POLL_INTERVAL {
            remaining_time(d, now)
        } else {
            EVENT_POLL_INTERVAL as int
        },
        None => EVENT_POLL_INTERVAL as int,
    }
}

/// The deadline of a message, if there is one.
pub open spec fn deadline_of(feedback: Option<PendingFeedback>) -> Option<u64> {
    match feedback {
        Some(f) => Some(f.deadline),
        None => None,
    }
}

/// How long to wait for an event while that message is shown.
pub fn feedback_wait_duration(feedback: Option<PendingFeedback>, now: u64) -> (r: u64)
    ensures
        r == wait_until(deadline_of(feedback), now),
{
    match feedback {
        Some(f) => {
            let rest: u64 = f.remaining(now);
            if rest < EVENT_POLL_INTERVAL {
                rest
            } else {
                EVENT_POLL_INTERVAL
            }
        },
        None => EVENT_POLL_INTERVAL,
    }
}

/// What the overlay shows with a message of that kind.
pub open spec fn phase_of(kind: FeedbackKind) -> UiPhase {
    match kind {
        FeedbackKind::Info => UiPhase::Info,
        FeedbackKind::Error => UiPhase::Error,
    }
}

/// What the overlay shows with a message of that kind.
pub fn feedback_phase(kind: FeedbackKind) -> (r: UiPhase)
    ensures
        r == phase_of(kind),
{
    match kind {
        FeedbackKind::Info => UiPhase::Info,
        FeedbackKind::Error => UiPhase::Error,
    }
}

/// Is an engine that was loaded for an earlier session to be loaded again?
pub fn should_retry_engine_reload(
    event_session: u64,
    current_session: u64,
    has_engine: bool,
) -> (r: bool)
    ensures
        r == (event_session != current_session && has_engine),
{
    event_session != current_session && has_engine
}

// ---------------------------------------------------------------------------
// Warnings
// ---------------------------------------------------------------------------

/// The warning in the footer, from what is missing.
pub open spec fn warning_text(wtype: bool, vad: bool, qwen: bool) -> Option<Seq<char>> {
    match (wtype, vad, qwen) {
        (false, false, false) => None,
        (true, false, false) => Some(
            "wtype ausente — a digitação na app não vai funcionar (só clipboard)"@,
        ),
        (false, true, false) => Some(
            "VAD ausente — transcrevendo sem filtro de voz; rode whisper setup"@,
        ),
        (true, true, false) => Some(
            "wtype ausente (só clipboard) · VAD ausente (sem filtro de voz)"@,
        ),
        (false, false, true) => Some("Qwen ausente — cleanup Rust; rode whisper setup"@),
        (true, false, true) => Some("wtype e Qwen ausentes — digitação e cleanup limitados"@),
        (false, true, true) => Some(
            "VAD e Qwen ausentes — cleanup limitado; rode whisper setup"@,
        ),
        (true, true, true) => Some(
            "wtype, VAD e Qwen ausentes — digitação e cleanup limitados"@,
        ),
    }
}

/// The warning in the footer where typing or voice detection is missing.
pub fn compose_warning(wtype_missing: bool, vad_missing: bool) -> (r: Option<String>)
    ensures
        text_of(r) == warning_text(wtype_missing, vad_missing, false),
{
    compose_full_warning(wtype_missing, vad_missing, false)
}

/// The warning in the footer where typing, voice detection or the language
/// model is missing.
pub fn compose_full_warning(wtype_missing: bool, vad_missing: bool, qwen_missing: bool) -> (r:
    Option<String>)
    ensures
        text_of(r) == warning_text(wtype_missing, vad_missing, qwen_missing),
{
    match (wtype_missing, vad_missing, qwen_missing) {
        (false, false, false) => None,
        (true, false, false) => Some(
            "wtype ausente — a digitação na app não vai funcionar (só clipboard)".to_owned(),
        ),
        (false, true, false) => Some(
            "VAD ausente — transcrevendo sem filtro de voz; rode whisper setup".to_owned(),
        ),
        (true, true, false) => Some(
            "wtype ausente (só clipboard) · VAD ausente (sem filtro de voz)".to_owned(),
        ),
        (false, false, true) => Some(
            "Qwen ausente — cleanup Rust; rode whisper setup".to_owned(),
        ),
        (true, false, true) => Some(
            "wtype e Qwen ausentes — digitação e cleanup limitados".to_owned(),
        ),
        (false, true, true) => Some(
            "VAD e Qwen ausentes — cleanup limitado; rode whisper setup".to_owned(),
        ),
        (true, true, true) => Some(
            "wtype, VAD e Qwen ausentes — digitação e cleanup limitados".to_owned(),
        ),
    }
}

/// What the log says at the start where typing is asked for and not possible.
pub open spec fn typing_notice(missing: bool) -> Option<Seq<char>> {
    if missing {
        Some(
            "whisper: aviso: wtype não encontrado no PATH — a digitação na app focada vai falhar (o texto irá só para o clipboard). "@
                + "instale o pacote wtype (NixOS: adicione pkgs.wtype ao environment.systemPackages; Arch: pacman -S wtype; Debian/Ubuntu: apt install wtype)"@,
        )
    } else {
        None
    }
}

/// What the log says at the start where the language model is switched on and
/// cannot be asked.
pub open spec fn model_notice(missing: bool) -> Option<Seq<char>> {
    if missing {
        Some(
            "whisper: aviso: Qwen indisponível — o texto passará só pelo cleanup Rust; rode 'whisper setup' ou "@
                + "instale llama-server (llama.cpp ≥ b7973) no PATH — ex.: pacote llama-cpp da sua distribuição — ou desative com [ai] enabled = false"@,
        )
    } else {
        None
    }
}

/// What the log says at the start where typing is asked for and not possible.
pub fn missing_wtype_notice(cfg: &Config, wtype_available: bool) -> (r: Option<String>)
    ensures
        text_of(r) == typing_notice(cfg.insert_mode.types() && !wtype_available),
{
    if cfg.insert_mode.uses_wtype() && !wtype_available {
        Some(
            cat2(
                "whisper: aviso: wtype não encontrado no PATH — a digitação na app focada vai falhar (o texto irá só para o clipboard). ",
                wtype_hint(),
            ),
        )
    } else {
        None
    }
}

/// What the log says at the start where the language model is switched on and
/// cannot be asked.
pub fn missing_model_notice(cfg: &Config, available: bool) -> (r: Option<String>)
    ensures
        text_of(r) == model_notice(cfg.ai.enabled && !available),
{
    if cfg.ai.enabled && !available {
        Some(
            cat2(
                "whisper: aviso: Qwen indisponível — o texto passará só pelo cleanup Rust; rode 'whisper setup' ou ",
                Llm::hint(),
            ),
        )
    } else {
        None
    }
}

/// The language and the model, as the overlay shows them.
pub open spec fn lang_model_text(cfg: ConfigView) -> Seq<char> {
    cfg.language.label_text() + " · "@ + cfg.model
}

/// The language and the model, as the overlay shows them.
pub fn lang_model(cfg: &Config) -> (r: String)
    ensures
        r@ == lang_model_text(cfg@),
{
    cat3(cfg.language.label(), " · ", cfg.model.as_str())
}

// ---------------------------------------------------------------------------
// The state machine
// ---------------------------------------------------------------------------

/// What the daemon knows of a loaded engine.
#[derive(Debug, Clone, Copy, PartialEq, Eq, Structural)]
pub struct EngineInfo {
    pub vad_available: bool,
}

/// What an event finds outside of the daemon.
#[derive(Debug, Clone, Copy, PartialEq, Eq, Structural)]
pub struct Ambient {
    /// Nanoseconds since some fixed moment.
    pub now: u64,
    pub wtype_available: bool,
    /// Are the language model and its server there?
    pub ai_available: bool,
}

/// What the log is told.
#[derive(Debug, Clone, PartialEq, Eq)]
pub enum Notice {
    StaleOsdEvent,
    StaleAudioEnd,
    StaleOutcome,
    StaleEngine,
    NoVad,
    EngineReloaded,
    /// The engine could not be loaded anew.
    EngineKept { error: String },
    ConfigReloaded,
    /// The new configuration is invalid.
    ConfigKept { error: String },
}

impl View for Notice {
    type V = NoticeView;

    open spec fn view(&self) -> NoticeView {
        match *self {
            Notice::StaleOsdEvent => NoticeView::StaleOsdEvent,
            Notice::StaleAudioEnd => NoticeView::StaleAudioEnd,
            Notice::StaleOutcome => NoticeView::StaleOutcome,
            Notice::StaleEngine => NoticeView::StaleEngine,
            Notice::NoVad => NoticeView::NoVad,
            Notice::EngineReloaded => NoticeView::EngineReloaded,
            Notice::EngineKept { error } => NoticeView::EngineKept { error: error@ },
            Notice::ConfigReloaded => NoticeView::ConfigReloaded,
            Notice::ConfigKept { error } => NoticeView::ConfigKept { error: error@ },
        }
    }
}

impl Notice {
    /// The line for the log.
    pub fn message(&self) -> (r: String)
        ensures
            r@ == match self@ {
                NoticeView::StaleOsdEvent => "whisper: evento do OSD descartado (sessão antiga)"@,
                NoticeView::StaleAudioEnd => "whisper: fim de áudio descartado (sessão antiga)"@,
                NoticeView::StaleOutcome => "whisper: resultado descartado (sessão cancelada)"@,
                NoticeView::StaleEngine => "whisper: modelo descartado (sessão antiga)"@,
                NoticeView::NoVad =>
                    "whisper: aviso: VAD indisponível — transcrevendo sem filtro de voz; rode 'whisper setup' e reinicie o daemon"@,
                NoticeView::EngineReloaded => "whisper: modelo recarregado"@,
                NoticeView::EngineKept { error } =>
                    "whisper: falha ao recarregar modelo, mantendo o atual: "@ + error,
                NoticeView::ConfigReloaded => "whisper: config recarregada"@,
                NoticeView::ConfigKept { error } =>
                    "whisper: config inválida, mantendo a anterior: "@ + error,
            },
    {
        match self {
            Notice::StaleOsdEvent => "whisper: evento do OSD descartado (sessão antiga)".to_owned(),
            Notice::StaleAudioEnd => "whisper: fim de áudio descartado (sessão antiga)".to_owned(),
            Notice::StaleOutcome => "whisper: resultado descartado (sessão cancelada)".to_owned(),
            Notice::StaleEngine => "whisper: modelo descartado (sessão antiga)".to_owned(),
            Notice::NoVad =>
                "whisper: aviso: VAD indisponível — transcrevendo sem filtro de voz; rode 'whisper setup' e reinicie o daemon".to_owned(),
            Notice::EngineReloaded => "whisper: modelo recarregado".to_owned(),
            Notice::EngineKept { error } => cat2(
                "whisper: falha ao recarregar modelo, mantendo o atual: ",
                error.as_str(),
            ),
            Notice::ConfigReloaded => "whisper: config recarregada".to_owned(),
            Notice::ConfigKept { error } => cat2(
                "whisper: config inválida, mantendo a anterior: ",
                error.as_str(),
            ),
        }
    }
}

/// What the daemon asks to be done, in the order of the list.
#[derive(Debug)]
pub enum Action<S> {
    /// End the recorder.
    StopCapture,
    CloseOsd,
    /// Open the overlay for that session.
    OpenOsd { session: u64 },
    /// Load the engine in the background.
    LoadEngine { session: u64 },
    /// Start the recorder and report the result.
    StartCapture { session: u64 },
    /// Process the recording in the background.
    Transcribe { session: u64, samples: Vec<S>, smart: bool },
    Insert { text: String, mode: InsertMode },
    /// The engine that was just loaded is the one to use.
    KeepEngine,
    /// End the server of the language model.
    KillServer,
    Note(Notice),
}

impl<S> View for Action<S> {
    type V = ActionView<S>;

    open spec fn view(&self) -> ActionView<S> {
        match *self {
            Action::StopCapture => ActionView::StopCapture,
            Action::CloseOsd => ActionView::CloseOsd,
            Action::OpenOsd { session } => ActionView::OpenOsd { session },
            Action::LoadEngine { session } => ActionView::LoadEngine { session },
            Action::StartCapture { session } => ActionView::StartCapture { session },
            Action::Transcribe { session, samples, smart } => ActionView::Transcribe {
                session,
                samples: samples@,
                smart,
            },
            Action::Insert { text, mode } => ActionView::Insert { text: text@, mode },
            Action::KeepEngine => ActionView::KeepEngine,
            Action::KillServer => ActionView::KillServer,
            Action::Note(notice) => ActionView::Note(notice@),
        }
    }
}

/// The contents of a list of actions.
pub open spec fn action_views<S>(list: Seq<Action<S>>) -> Seq<ActionView<S>> {
    list.map_values(|a: Action<S>| a@)
}

fn put<S>(list: &mut Vec<Action<S>>, action: Action<S>)
    ensures
        action_views(final(list)@) == action_views(old(list)@).push(action@),
{
    list.push(action);
    proof {
        assert(action_views(list@) =~= action_views(old(list)@).push(action@));
    }
}

/// What happens to the daemon.
#[derive(Debug)]
pub enum Event<S> {
    Command(Cmd),
    Osd { session: u64, event: OsdEvent },
    /// A block of samples, with its level.
    Audio { session: u64, samples: Vec<S>, level: S },
    /// The recorder has ended. `stderr` is what it wrote there.
    AudioEnded { session: u64, error: Option<String>, stderr: String },
    Worker(WorkerOutcome),
    EngineLoaded { session: u64, result: Result<EngineInfo, String> },
    /// The answer to [`Action::StartCapture`].
    CaptureStarted(Result<(), String>),
    /// The configuration file changed and was read.
    ConfigLoaded { mtime: Option<i128>, loaded: Result<Config, String> },
    /// Time has passed.
    Tick,
}

/// The contents of a result with a text as its error.
pub open spec fn result_text<T>(r: Result<T, String>) -> Result<T, Seq<char>> {
    match r {
        Ok(v) => Ok(v),
        Err(e) => Err(e@),
    }
}

/// The contents of a configuration that was read.
pub open spec fn config_result(r: Result<Config, String>) -> Result<ConfigView, Seq<char>> {
    match r {
        Ok(cfg) => Ok(cfg@),
        Err(e) => Err(e@),
    }
}

impl<S> View for Event<S> {
    type V = EventView<S>;

    open spec fn view(&self) -> EventView<S> {
        match *self {
            Event::Command(cmd) => EventView::Command(cmd),
            Event::Osd { session, event } => EventView::Osd { session, event },
            Event::Audio { session, samples, level } => EventView::Audio {
                session,
                samples: samples@,
                level,
            },
            Event::AudioEnded { session, error, stderr } => EventView::AudioEnded {
                session,
                error: text_of(error),
                stderr: stderr@,
            },
            Event::Worker(out) => EventView::Worker(out@),
            Event::EngineLoaded { session, result } => EventView::EngineLoaded {
                session,
                result: result_text(result),
            },
            Event::CaptureStarted(result) => EventView::CaptureStarted(result_text(result)),
            Event::ConfigLoaded { mtime, loaded } => EventView::ConfigLoaded {
                mtime,
                loaded: config_result(loaded),
            },
            Event::Tick => EventView::Tick,
        }
    }
}

/// The daemon. `S` is the type of a sample and of a level.
#[derive(Debug)]
pub struct Daemon<S> {
    pub cfg: Config,
    /// When the configuration file was changed, as last read; in nanoseconds.
    pub cfg_mtime: Option<i128>,
    /// Is the engine to be loaded anew as soon as the daemon is idle?
    pub pending_engine_reload: bool,
    pub phase: Phase,
    pub engine: Option<EngineInfo>,
    /// What was recorded so far.
    pub buffer: Vec<S>,
    /// Does the recorder run?
    pub capturing: bool,
    pub ui: UiState<S>,
    pub osd_open: bool,
    /// A text that waits for the overlay to close: while it is open, the
    /// overlay has the keyboard, and typing would go there.
    pub pending_insert: Option<String>,
    /// Tells the events of a session from those of earlier ones.
    pub session: u64,
    /// A message that ends the session.
    pub feedback: Option<PendingFeedback>,
    /// When a message that does not end the session goes away.
    pub notice: Option<u64>,
}

impl<S> View for Daemon<S> {
    type V = DaemonView<S>;

    open spec fn view(&self) -> DaemonView<S> {
        DaemonView {
            cfg: self.cfg@,
            cfg_mtime: self.cfg_mtime,
            pending_engine_reload: self.pending_engine_reload,
            phase: self.phase,
            engine: self.engine,
            buffer: self.buffer@,
            capturing: self.capturing,
            ui: self.ui@,
            osd_open: self.osd_open,
            pending_insert: text_of(self.pending_insert),
            session: self.session,
            feedback: self.feedback,
            notice: self.notice,
        }
    }
}

/// The clock leaves room for the longest message.
pub open spec fn in_time(now: u64) -> bool {
    now + PROCESSING_FEEDBACK_DURATION <= u64::MAX
}

impl<S> Daemon<S> {
    /// An idle daemon.
    pub fn new(cfg: Config, cfg_mtime: Option<i128>) -> (r: Daemon<S>)
        ensures
            r@ == DaemonView::<S>::initial(cfg@, cfg_mtime),
    {
        Daemon {
            cfg,
            cfg_mtime,
            pending_engine_reload: false,
            phase: Phase::Idle,
            engine: None,
            buffer: Vec::new(),
            capturing: false,
            ui: UiState::new(String::new()),
            osd_open: false,
            pending_insert: None,
            session: 0,
            feedback: None,
            notice: None,
        }
    }

    /// The phase as a client reads it.
    pub fn state_str(&self) -> (r: &'static str)
        ensures
            r@ == self.phase.state_text(),
    {
        match self.phase {
            Phase::Idle => "idle",
            Phase::Recording => "recording",
            Phase::Paused => "paused",
            Phase::Transcribing => "transcribing",
            Phase::Loading => "loading",
        }
    }

    /// How long to wait for an event.
    pub fn event_wait_duration(&self, now: u64) -> (r: u64)
        ensures
            r == if wait_until(self.notice, now) < wait_until(deadline_of(self.feedback), now) {
                wait_until(self.notice, now)
            } else {
                wait_until(deadline_of(self.feedback), now)
            },
    {
        let wait: u64 = feedback_wait_duration(self.feedback, now);
        match self.notice {
            Some(deadline) => {
                let rest: u64 = feedback_wait_duration(
                    Some(PendingFeedback { session: self.session, deadline }),
                    now,
                );
                if rest < wait {
                    rest
                } else {
                    wait
                }
            },
            None => wait,
        }
    }

    fn stop_capture(&mut self, list: &mut Vec<Action<S>>)
        ensures
            final(self)@ == (DaemonView { capturing: false, ..old(self)@ }),
            action_views(final(list)@) == action_views(old(list)@) + old(self)@.stopping(),
    {
        if self.capturing {
            self.capturing = false;
            put(list, Action::StopCapture);
        }
    }

    fn close_osd(&mut self, list: &mut Vec<Action<S>>)
        ensures
            final(self)@ == (DaemonView { osd_open: false, ..old(self)@ }),
            action_views(final(list)@) == action_views(old(list)@) + old(self)@.closing(),
    {
        if self.osd_open {
            self.osd_open = false;
            put(list, Action::CloseOsd);
        }
    }

    fn set_phase(&mut self, phase: Phase, status: Option<String>)
        ensures
            final(self)@ == old(self)@.in_phase(phase, text_of(status)),
    {
        self.phase = phase;
        if let Some(ui_phase) = phase.ui_phase() {
            self.ui.phase = ui_phase;
            self.ui.status = status;
        }
    }

    fn clear_temporary_feedback(&mut self)
        ensures
            final(self)@ == old(self)@.without_feedback(),
    {
        self.feedback = None;
        self.notice = None;
        self.ui.feedback = None;
    }

    fn refresh_warning(&mut self, ambient: &Ambient)
        ensures
            final(self)@ == (DaemonView {
                ui: UiView { warning: old(self)@.warning(*ambient), ..old(self)@.ui },
                ..old(self)@
            }),
    {
        let wtype_missing = self.cfg.insert_mode.uses_wtype() && !ambient.wtype_available;
        let vad_missing = match self.engine {
            Some(engine) => !engine.vad_available,
            None => false,
        };
        let qwen_missing = self.cfg.ai.enabled && !ambient.ai_available;
        self.ui.warning = compose_full_warning(wtype_missing, vad_missing, qwen_missing);
    }

    /// Ends the session and lets go of what it held.
    pub fn cancel_session(&mut self) -> (list: Vec<Action<S>>)
        ensures
            final(self)@ == old(self)@.cancelled(),
            action_views(list@) == old(self)@.cancelling(),
    {
        let mut list: Vec<Action<S>> = Vec::new();
        self.cancel_into(&mut list);
        list
    }

    fn cancel_into(&mut self, list: &mut Vec<Action<S>>)
        ensures
            final(self)@ == old(self)@.cancelled(),
            action_views(final(list)@) == action_views(old(list)@) + old(self)@.cancelling(),
    {
        self.stop_capture(list);
        self.close_osd(list);
        self.pending_insert = None;
        self.clear_temporary_feedback();
        self.phase = Phase::Idle;
    }

    /// Ends the session with a message that stays for `duration`.
    pub fn show_feedback(
        &mut self,
        kind: FeedbackKind,
        msg: String,
        duration: u64,
        now: u64,
    ) -> (list: Vec<Action<S>>)
        requires
            now + duration <= u64::MAX,
        ensures
            final(self)@ == old(self)@.with_message(kind, msg@, duration, now),
            action_views(list@) == old(self)@.stopping(),
    {
        let mut list: Vec<Action<S>> = Vec::new();
        self.show_into(kind, msg, duration, now, &mut list);
        list
    }

    fn show_into(
        &mut self,
        kind: FeedbackKind,
        msg: String,
        duration: u64,
        now: u64,
        list: &mut Vec<Action<S>>,
    )
        requires
            now + duration <= u64::MAX,
        ensures
            final(self)@ == old(self)@.with_message(kind, msg@, duration, now),
            action_views(final(list)@) == action_views(old(list)@) + old(self)@.stopping(),
    {
        self.stop_capture(list);
        self.pending_insert = None;
        self.notice = None;
        self.phase = Phase::Idle;
        self.ui.phase = feedback_phase(kind);
        self.ui.status = None;
        self.ui.feedback = Some(Feedback { kind, message: msg });
        self.feedback = Some(PendingFeedback::new(self.session, duration, now));
    }

    /// Ends the session: with a message on an empty recording, or without.
    pub fn finish_session(&mut self, msg: Option<String>, now: u64) -> (list: Vec<Action<S>>)
        requires
            in_time(now),
        ensures
            match msg {
                Some(m) => final(self)@ == old(self)@.with_message(
                    FeedbackKind::Info,
                    m@,
                    EMPTY_FEEDBACK_DURATION,
                    now,
                ) && action_views(list@) == old(self)@.stopping(),
                None => final(self)@ == old(self)@.cancelled() && action_views(list@) == old(
                    self,
                )@.cancelling(),
            },
    {
        match msg {
            Some(m) => self.show_feedback(FeedbackKind::Info, m, EMPTY_FEEDBACK_DURATION, now),
            None => self.cancel_session(),
        }
    }

    /// Begins a session: it records, or waits for the engine.
    pub fn start_session(&mut self, ambient: &Ambient) -> (list: Vec<Action<S>>)
        ensures
            final(self)@ == old(self)@.started(*ambient),
            action_views(list@) == old(self)@.starting(),
    {
        let mut list: Vec<Action<S>> = Vec::new();
        self.close_osd(&mut list);
        self.clear_temporary_feedback();
        self.pending_insert = None;
        self.session = self.session.wrapping_add(1);
        self.ui = UiState::new(lang_model(&self.cfg));
        self.refresh_warning(ambient);
        self.osd_open = true;
        self.buffer = Vec::new();
        let session: u64 = self.session;
        put(&mut list, Action::OpenOsd { session });
        if self.engine.is_none() {
            self.set_phase(Phase::Loading, Some("carregando modelo…".to_owned()));
            put(&mut list, Action::LoadEngine { session });
        } else {
            self.set_phase(Phase::Recording, None);
            put(&mut list, Action::StartCapture { session });
        }
        list
    }

    /// Hands the recording over, where one runs.
    pub fn commit(&mut self, now: u64) -> (list: Vec<Action<S>>)
        requires
            in_time(now),
        ensures
            final(self)@ == old(self)@.committed(now),
            action_views(list@) == old(self)@.committing(),
    {
        let mut list: Vec<Action<S>> = Vec::new();
        if !self.phase.records() {
            return list;
        }
        self.stop_capture(&mut list);
        if self.buffer.len() == 0 {
            self.show_into(
                FeedbackKind::Info,
                "nada gravado".to_owned(),
                EMPTY_FEEDBACK_DURATION,
                now,
                &mut list,
            );
            return list;
        }
        if self.engine.is_none() {
            self.show_into(
                FeedbackKind::Error,
                "modelo não carregado: rode 'whisper setup'".to_owned(),
                PROCESSING_FEEDBACK_DURATION,
                now,
                &mut list,
            );
            return list;
        }
        self.set_phase(Phase::Transcribing, Some("Transcrevendo".to_owned()));
        let mut samples: Vec<S> = Vec::new();
        std::mem::swap(&mut samples, &mut self.buffer);
        put(
            &mut list,
            Action::Transcribe { session: self.session, samples, smart: self.ui.smart },
        );
        list
    }

    /// Carries out a command.
    pub fn handle_cmd(&mut self, cmd: Cmd, ambient: &Ambient) -> (list: Vec<Action<S>>)
        requires
            in_time(ambient.now),
        ensures
            final(self)@ == old(self)@.after_command(cmd, *ambient),
            action_views(list@) == old(self)@.command_actions(cmd),
    {
        if cmd == Cmd::Stop {
            let mut list = self.cancel_session();
            put(&mut list, Action::KillServer);
            return list;
        }
        if cmd == Cmd::Cancel && self.feedback.is_some() {
            return self.cancel_session();
        }
        match command_action(self.phase, cmd) {
            CommandAction::Start => self.start_session(ambient),
            CommandAction::Commit => self.commit(ambient.now),
            CommandAction::Cancel => self.cancel_session(),
            CommandAction::Resume => {
                self.set_phase(Phase::Recording, None);
                Vec::new()
            },
            CommandAction::Pause => {
                self.set_phase(Phase::Paused, None);
                Vec::new()
            },
            CommandAction::Noop => Vec::new(),
        }
    }

    /// The answer to a command that was carried out; `exe` is the program that
    /// runs the daemon.
    pub fn respond(&self, cmd: Cmd, exe: Option<String>) -> (r: Response)
        ensures
            r@ == self@.response(cmd, text_of(exe)),
    {
        if cmd == Cmd::Stop {
            return Response::of_state("stopping");
        }
        let mut resp = Response::of_state(self.state_str());
        if cmd == Cmd::Status {
            resp.exe = exe;
            resp.language = Some(self.cfg.language.label().to_owned());
            resp.model = Some(self.cfg.model.clone());
            resp.smart = Some(self.phase != Phase::Idle && self.ui.smart);
        }
        resp
    }

    /// Takes an event of the overlay.
    pub fn handle_osd(&mut self, session: u64, event: OsdEvent, ambient: &Ambient) -> (list: Vec<
        Action<S>,
    >)
        requires
            in_time(ambient.now),
        ensures
            final(self)@ == old(self)@.after_osd(session, event, *ambient),
            action_views(list@) == old(self)@.osd_actions(session, event),
    {
        let mut list: Vec<Action<S>> = Vec::new();
        if session != self.session {
            put(&mut list, Action::Note(Notice::StaleOsdEvent));
            return list;
        }
        if self.feedback.is_some() && event != OsdEvent::Cancel && event != OsdEvent::Closed {
            return list;
        }
        match event {
            OsdEvent::PauseToggle => {
                self.clear_temporary_feedback();
                match self.phase {
                    Phase::Recording => self.set_phase(Phase::Paused, None),
                    Phase::Paused => self.set_phase(Phase::Recording, None),
                    Phase::Idle | Phase::Loading | Phase::Transcribing => {},
                }
                list
            },
            OsdEvent::Commit => {
                self.clear_temporary_feedback();
                self.commit(ambient.now)
            },
            OsdEvent::SmartToggle => {
                self.toggle_smart(ambient);
                list
            },
            OsdEvent::Cancel => self.cancel_session(),
            OsdEvent::Closed => {
                let mut text: Option<String> = None;
                std::mem::swap(&mut text, &mut self.pending_insert);
                if let Some(text) = text {
                    put(&mut list, Action::Insert { text, mode: self.cfg.insert_mode });
                }
                self.cancel_into(&mut list);
                list
            },
        }
    }

    fn toggle_smart(&mut self, ambient: &Ambient)
        requires
            in_time(ambient.now),
        ensures
            final(self)@ == old(self)@.smart_toggled(*ambient),
    {
        self.clear_temporary_feedback();
        if !self.phase.records() {
            return;
        }
        if ambient.ai_available {
            self.ui.smart = !self.ui.smart;
        } else {
            self.ui.feedback = Some(
                Feedback { kind: FeedbackKind::Info, message: "Smart indisponível".to_owned() },
            );
            self.notice = Some(ambient.now + AUDIO_FEEDBACK_DURATION);
        }
    }

    /// Takes a block of samples, with its level.
    pub fn handle_audio(&mut self, session: u64, samples: Vec<S>, level: S)
        ensures
            final(self)@ == old(self)@.after_audio(session, samples@, level),
    {
        if session == self.session && self.phase == Phase::Recording {
            let mut samples = samples;
            self.buffer.append(&mut samples);
            self.ui.push_level(level);
        }
    }

    /// Is the output of the recorder needed to say why it ended?
    pub fn needs_stderr(&self, session: u64, error: &Option<String>) -> (r: bool)
        ensures
            r == (session == self.session && self.phase.in_recording() && self.capturing
                && error is None),
    {
        session == self.session && self.phase.records() && self.capturing && error.is_none()
    }

    /// The recorder has ended by itself.
    pub fn handle_audio_ended(
        &mut self,
        session: u64,
        error: Option<String>,
        stderr: &str,
        now: u64,
    ) -> (list: Vec<Action<S>>)
        requires
            in_time(now),
        ensures
            final(self)@ == old(self)@.after_audio_ended(session, text_of(error), stderr@, now),
            action_views(list@) == old(self)@.audio_ended_actions(session),
    {
        let mut list: Vec<Action<S>> = Vec::new();
        if session != self.session {
            put(&mut list, Action::Note(Notice::StaleAudioEnd));
            return list;
        }
        if !self.phase.records() {
            return list;
        }
        let detail: String = match error {
            Some(e) => e,
            None => if self.capturing {
                trim_text(stderr)
            } else {
                String::new()
            },
        };
        let msg = if chars_of(detail.as_str()).len() == 0 {
            "captura de áudio encerrou".to_owned()
        } else {
            cat2("áudio indisponível: ", detail.as_str())
        };
        self.show_feedback(FeedbackKind::Error, msg, AUDIO_FEEDBACK_DURATION, now)
    }

    /// Takes the outcome of the processing.
    pub fn handle_worker(&mut self, out: WorkerOutcome, now: u64) -> (list: Vec<Action<S>>)
        requires
            in_time(now),
        ensures
            final(self)@ == old(self)@.after_worker(out@, now),
            action_views(list@) == old(self)@.worker_actions(out@),
    {
        let mut list: Vec<Action<S>> = Vec::new();
        if self.phase != Phase::Transcribing || out.session() != self.session {
            put(&mut list, Action::Note(Notice::StaleOutcome));
            return list;
        }
        match out {
            WorkerOutcome::Transcribed { text, .. } => {
                if chars_of(text.as_str()).len() == 0 {
                    return self.finish_session(Some("nada detectado".to_owned()), now);
                }
                self.pending_insert = Some(text);
                self.close_osd(&mut list);
                list
            },
            WorkerOutcome::Failed { msg, .. } => self.show_feedback(
                FeedbackKind::Error,
                msg,
                PROCESSING_FEEDBACK_DURATION,
                now,
            ),
        }
    }

    /// An engine was loaded, or could not be.
    pub fn handle_engine_loaded(
        &mut self,
        session: u64,
        result: Result<EngineInfo, String>,
        ambient: &Ambient,
    ) -> (list: Vec<Action<S>>)
        requires
            in_time(ambient.now),
        ensures
            final(self)@ == old(self)@.after_engine(session, result_text(result), *ambient),
            action_views(list@) == old(self)@.engine_actions(session, result_text(result)),
    {
        let mut list: Vec<Action<S>> = Vec::new();
        if session != self.session {
            if should_retry_engine_reload(session, self.session, self.engine.is_some()) {
                self.pending_engine_reload = true;
            }
            put(&mut list, Action::Note(Notice::StaleEngine));
            return list;
        }
        match result {
            Ok(engine) => {
                if !engine.vad_available {
                    put(&mut list, Action::Note(Notice::NoVad));
                }
                self.engine = Some(engine);
                put(&mut list, Action::KeepEngine);
                match self.phase {
                    Phase::Loading => {
                        self.refresh_warning(ambient);
                        self.set_phase(Phase::Recording, None);
                        put(&mut list, Action::StartCapture { session });
                    },
                    Phase::Idle => {
                        put(&mut list, Action::Note(Notice::EngineReloaded));
                    },
                    Phase::Recording | Phase::Paused | Phase::Transcribing => {},
                }
                list
            },
            Err(error) => match self.phase {
                Phase::Loading => {
                    let msg = cat2("modelo indisponível: ", error.as_str());
                    self.show_feedback(
                        FeedbackKind::Error,
                        msg,
                        PROCESSING_FEEDBACK_DURATION,
                        ambient.now,
                    )
                },
                Phase::Idle => {
                    put(&mut list, Action::Note(Notice::EngineKept { error }));
                    list
                },
                Phase::Recording | Phase::Paused | Phase::Transcribing => list,
            },
        }
    }

    /// The recorder was started, or could not be.
    pub fn capture_started(&mut self, result: Result<(), String>, now: u64) -> (list: Vec<
        Action<S>,
    >)
        requires
            in_time(now),
        ensures
            final(self)@ == old(self)@.after_capture(result_text(result), now),
            action_views(list@) == old(self)@.capture_actions(result_text(result)),
    {
        match result {
            Ok(()) => {
                self.capturing = true;
                Vec::new()
            },
            Err(error) => {
                let msg = cat2("áudio: ", error.as_str());
                self.show_feedback(FeedbackKind::Error, msg, AUDIO_FEEDBACK_DURATION, now)
            },
        }
    }

    /// Was the configuration file changed since it was last read?
    pub fn config_changed(&self, mtime: Option<i128>) -> (r: bool)
        ensures
            r == (mtime != self.cfg_mtime),
    {
        match (mtime, self.cfg_mtime) {
            (Some(a), Some(b)) => a != b,
            (None, None) => false,
            (Some(_), None) | (None, Some(_)) => true,
        }
    }

    /// The configuration file was read anew. A valid configuration holds at
    /// once; an invalid one is not taken.
    pub fn config_loaded(&mut self, mtime: Option<i128>, result: Result<Config, String>) -> (list:
        Vec<Action<S>>)
        ensures
            final(self)@ == old(self)@.after_config(mtime, config_result(result)),
            action_views(list@) == old(self)@.config_actions(config_result(result)),
    {
        let mut list: Vec<Action<S>> = Vec::new();
        self.cfg_mtime = mtime;
        match result {
            Ok(cfg) => {
                let engine_changed = !cfg.same_engine(&self.cfg);
                let ai_changed = !cfg.ai.same(&self.cfg.ai);
                self.cfg = cfg;
                if engine_changed {
                    self.pending_engine_reload = true;
                }
                if ai_changed {
                    put(&mut list, Action::KillServer);
                }
                put(&mut list, Action::Note(Notice::ConfigReloaded));
            },
            Err(error) => {
                put(&mut list, Action::Note(Notice::ConfigKept { error }));
            },
        }
        list
    }

    /// Loads the engine anew where that is due and the daemon is idle.
    pub fn reload_engine_if_pending(&mut self) -> (list: Vec<Action<S>>)
        ensures
            final(self)@ == old(self)@.after_reload(),
            action_views(list@) == old(self)@.reload_actions(),
    {
        let mut list: Vec<Action<S>> = Vec::new();
        if self.pending_engine_reload && self.phase == Phase::Idle && self.engine.is_some() {
            self.pending_engine_reload = false;
            put(&mut list, Action::LoadEngine { session: self.session });
        }
        list
    }

    /// Ends the messages whose time is over.
    pub fn expire_feedback_if_due(&mut self, now: u64) -> (list: Vec<Action<S>>)
        ensures
            final(self)@ == old(self)@.after_expiry(now),
            action_views(list@) == old(self)@.expiry_actions(now),
    {
        if let Some(deadline) = self.notice {
            if now >= deadline {
                self.notice = None;
                self.ui.feedback = None;
            }
        }
        let feedback = match self.feedback {
            Some(f) => f,
            None => {
                return Vec::new();
            },
        };
        if !feedback.is_expired(now) {
            return Vec::new();
        }
        self.feedback = None;
        if feedback.session != self.session {
            return Vec::new();
        }
        self.cancel_session()
    }

    /// Takes any event.
    pub fn handle_event(&mut self, event: Event<S>, ambient: &Ambient) -> (list: Vec<Action<S>>)
        requires
            in_time(ambient.now),
        ensures
            final(self)@ == old(self)@.after(event@, *ambient),
            action_views(list@) == old(self)@.actions(event@, *ambient),
    {
        match event {
            Event::Command(cmd) => self.handle_cmd(cmd, ambient),
            Event::Osd { session, event } => self.handle_osd(session, event, ambient),
            Event::Audio { session, samples, level } => {
                self.handle_audio(session, samples, level);
                Vec::new()
            },
            Event::AudioEnded { session, error, stderr } => self.handle_audio_ended(
                session,
                error,
                stderr.as_str(),
                ambient.now,
            ),
            Event::Worker(out) => self.handle_worker(out, ambient.now),
            Event::EngineLoaded { session, result } => self.handle_engine_loaded(
                session,
                result,
                ambient,
            ),
            Event::CaptureStarted(result) => self.capture_started(result, ambient.now),
            Event::ConfigLoaded { mtime, loaded } => self.config_loaded(mtime, loaded),
            Event::Tick => {
                let mut list = self.reload_engine_if_pending();
                let ghost first = action_views(list@);
                let mut rest = self.expire_feedback_if_due(ambient.now);
                let ghost second = action_views(rest@);
                list.append(&mut rest);
                proof {
                    assert(action_views(list@) =~= first + second);
                }
                list
            },
        }
    }
}

/// The daemon waits up to the end of a message, but never longer than a second,
/// and not at all once its time is over.
pub proof fn law_wait_ends_with_the_message(deadline: u64, now: u64)
    ensures
        0 <= wait_until(Some(deadline), now) <= 1_000_000_000,
        now >= deadline ==> wait_until(Some(deadline), now) == 0,
        now < deadline ==> 0 < wait_until(Some(deadline), now) <= deadline - now,
        now + 1_000_000_000 <= deadline ==> wait_until(Some(deadline), now) == 1_000_000_000,
        now < deadline < now + 1_000_000_000 ==> wait_until(Some(deadline), now) == deadline - now,
        wait_until(None, now) == 1_000_000_000,
{
}

/// The warning names each thing that is missing, and there is one just where
/// something is.
pub proof fn law_warning_names_what_is_missing(wtype: bool, vad: bool, qwen: bool)
    ensures
        warning_text(wtype, vad, qwen) is Some <==> wtype || vad || qwen,
        warning_text(wtype, vad, qwen) matches Some(text) ==> (wtype ==> contains(text, "wtype"@)),
        warning_text(wtype, vad, qwen) matches Some(text) ==> (vad ==> contains(text, "VAD"@)),
        warning_text(wtype, vad, qwen) matches Some(text) ==> (qwen ==> contains(text, "Qwen"@)),
{
    reveal_strlit("wtype");
    reveal_strlit("VAD");
    reveal_strlit("Qwen");
    reveal_strlit("wtype ausente — a digitação na app não vai funcionar (só clipboard)");
    reveal_strlit("VAD ausente — transcrevendo sem filtro de voz; rode whisper setup");
    reveal_strlit("wtype ausente (só clipboard) · VAD ausente (sem filtro de voz)");
    reveal_strlit("Qwen ausente — cleanup Rust; rode whisper setup");
    reveal_strlit("wtype e Qwen ausentes — digitação e cleanup limitados");
    reveal_strlit("VAD e Qwen ausentes — cleanup limitado; rode whisper setup");
    reveal_strlit("wtype, VAD e Qwen ausentes — digitação e cleanup limitados");
    if let Some(text) = warning_text(wtype, vad, qwen) {
        if wtype {
            assert(text.subrange(0, 5) =~= "wtype"@);
            assert(occurs_at(text, "wtype"@, 0));
        }
        if vad && !wtype {
            assert(text.subrange(0, 3) =~= "VAD"@);
            assert(occurs_at(text, "VAD"@, 0));
        }
        if vad && wtype && !qwen {
            assert(text.subrange(31, 34) =~= "VAD"@);
            assert(occurs_at(text, "VAD"@, 31));
        }
        if vad && wtype && qwen {
            assert(text.subrange(7, 10) =~= "VAD"@);
            assert(occurs_at(text, "VAD"@, 7));
            assert(text.subrange(13, 17) =~= "Qwen"@);
            assert(occurs_at(text, "Qwen"@, 13));
        }
        if qwen && !wtype && !vad {
            assert(text.subrange(0, 4) =~= "Qwen"@);
            assert(occurs_at(text, "Qwen"@, 0));
        }
        if qwen && wtype && !vad {
            assert(text.subrange(8, 12) =~= "Qwen"@);
            assert(occurs_at(text, "Qwen"@, 8));
        }
        if qwen && !wtype && vad {
            assert(text.subrange(6, 10) =~= "Qwen"@);
            assert(occurs_at(text, "Qwen"@, 6));
        }
    }
}

} // verus!
