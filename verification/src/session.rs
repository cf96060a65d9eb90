//! The daemon as a mathematical model: what each event makes of its state,
//! and which actions it asks for.
use vstd::prelude::*;

use crate::config::{ConfigView, InsertMode};
use crate::daemon::{
    action_for, lang_model_text, phase_of, warning_text, Ambient, CommandAction, EngineInfo,
    PendingFeedback, Phase, AUDIO_FEEDBACK_DURATION, EMPTY_FEEDBACK_DURATION,
    PROCESSING_FEEDBACK_DURATION,
};
use crate::ipc::{Cmd, ResponseView};
use crate::osd::{FeedbackKind, FeedbackView, OsdEvent, Phase as UiPhase, UiView};
use crate::text::trim;
use crate::transcribe::OutcomeView;

verus! {

// ---------------------------------------------------------------------------
// State, actions and events
// ---------------------------------------------------------------------------

/// The state of the daemon. `S` is the type of a sample.
#[verifier::ext_equal]
pub struct DaemonView<S> {
    pub cfg: ConfigView,
    pub cfg_mtime: Option<i128>,
    pub pending_engine_reload: bool,
    pub phase: Phase,
    pub engine: Option<EngineInfo>,
    pub buffer: Seq<S>,
    pub capturing: bool,
    pub ui: UiView<S>,
    pub osd_open: bool,
    pub pending_insert: Option<Seq<char>>,
    pub session: u64,
    pub feedback: Option<PendingFeedback>,
    pub notice: Option<u64>,
}

/// What the log is told.
pub enum NoticeView {
    StaleOsdEvent,
    StaleAudioEnd,
    StaleOutcome,
    StaleEngine,
    NoVad,
    EngineReloaded,
    EngineKept { error: Seq<char> },
    ConfigReloaded,
    ConfigKept { error: Seq<char> },
}

/// What the daemon asks to be done.
pub enum ActionView<S> {
    StopCapture,
    CloseOsd,
    OpenOsd { session: u64 },
    LoadEngine { session: u64 },
    StartCapture { session: u64 },
    Transcribe { session: u64, samples: Seq<S>, smart: bool },
    Insert { text: Seq<char>, mode: InsertMode },
    KeepEngine,
    KillServer,
    Note(NoticeView),
}

/// What happens to the daemon.
pub enum EventView<S> {
    Command(Cmd),
    Osd { session: u64, event: OsdEvent },
    Audio { session: u64, samples: Seq<S>, level: S },
    AudioEnded { session: u64, error: Option<Seq<char>>, stderr: Seq<char> },
    Worker(OutcomeView),
    EngineLoaded { session: u64, result: Result<EngineInfo, Seq<char>> },
    CaptureStarted(Result<(), Seq<char>>),
    ConfigLoaded { mtime: Option<i128>, loaded: Result<ConfigView, Seq<char>> },
    Tick,
}

/// The next session number.
pub open spec fn next_session(session: u64) -> u64 {
    if session == u64::MAX {
        0
    } else {
        (session + 1) as u64
    }
}

// ---------------------------------------------------------------------------
// Transitions
// ---------------------------------------------------------------------------

impl<S> DaemonView<S> {
    /// The state at the start of the daemon.
    pub open spec fn initial(cfg: ConfigView, cfg_mtime: Option<i128>) -> DaemonView<S> {
        DaemonView {
            cfg,
            cfg_mtime,
            pending_engine_reload: false,
            phase: Phase::Idle,
            engine: None,
            buffer: Seq::empty(),
            capturing: false,
            ui: UiView::fresh(Seq::empty()),
            osd_open: false,
            pending_insert: None,
            session: 0,
            feedback: None,
            notice: None,
        }
    }

    /// The answer to a command that was carried out: only the status names
    /// the program, the language, the model and the smart mode of the session.
    pub open spec fn response(self, cmd: Cmd, exe: Option<Seq<char>>) -> ResponseView {
        if cmd == Cmd::Stop {
            ResponseView::of_state("stopping"@)
        } else if cmd == Cmd::Status {
            ResponseView {
                exe,
                language: Some(self.cfg.language.label_text()),
                model: Some(self.cfg.model),
                smart: Some(self.phase != Phase::Idle && self.ui.smart),
                ..ResponseView::of_state(self.phase.state_text())
            }
        } else {
            ResponseView::of_state(self.phase.state_text())
        }
    }

    /// The action that ends the recording, where one runs.
    pub open spec fn stopping(self) -> Seq<ActionView<S>> {
        if self.capturing {
            seq![ActionView::StopCapture]
        } else {
            Seq::empty()
        }
    }

    /// The action that closes the overlay, where it is open.
    pub open spec fn closing(self) -> Seq<ActionView<S>> {
        if self.osd_open {
            seq![ActionView::CloseOsd]
        } else {
            Seq::empty()
        }
    }

    /// Without any temporary message.
    pub open spec fn without_feedback(self) -> DaemonView<S> {
        DaemonView {
            feedback: None,
            notice: None,
            ui: UiView { feedback: None, ..self.ui },
            ..self
        }
    }

    /// The session is over and what it held is let go.
    pub open spec fn cancelled(self) -> DaemonView<S> {
        DaemonView {
            phase: Phase::Idle,
            capturing: false,
            osd_open: false,
            pending_insert: None,
            ..self.without_feedback()
        }
    }

    /// What letting go of a session takes.
    pub open spec fn cancelling(self) -> Seq<ActionView<S>> {
        self.stopping() + self.closing()
    }

    /// The session is over and a message stays for a while.
    pub open spec fn with_message(
        self,
        kind: FeedbackKind,
        message: Seq<char>,
        duration: u64,
        now: u64,
    ) -> DaemonView<S> {
        DaemonView {
            phase: Phase::Idle,
            capturing: false,
            pending_insert: None,
            notice: None,
            feedback: Some(
                PendingFeedback { session: self.session, deadline: (now + duration) as u64 },
            ),
            ui: UiView {
                phase: phase_of(kind),
                status: None,
                feedback: Some(FeedbackView { kind, message }),
                ..self.ui
            },
            ..self
        }
    }

    /// The warning that the footer of the overlay shows.
    pub open spec fn warning(self, ambient: Ambient) -> Option<Seq<char>> {
        warning_text(
            self.cfg.insert_mode.types() && !ambient.wtype_available,
            self.engine matches Some(e) && !e.vad_available,
            self.cfg.ai.enabled && !ambient.ai_available,
        )
    }

    /// In another phase, with that status on the overlay.
    pub open spec fn in_phase(self, phase: Phase, status: Option<Seq<char>>) -> DaemonView<S> {
        DaemonView {
            phase,
            ui: match phase.shown() {
                Some(ui_phase) => UiView { phase: ui_phase, status, ..self.ui },
                None => self.ui,
            },
            ..self
        }
    }

    /// A new session has begun: it records, or waits for the engine.
    pub open spec fn started(self, ambient: Ambient) -> DaemonView<S> {
        let fresh = UiView::<S>::fresh(lang_model_text(self.cfg));
        let loading = self.engine is None;
        DaemonView {
            session: next_session(self.session),
            phase: if loading {
                Phase::Loading
            } else {
                Phase::Recording
            },
            ui: UiView {
                phase: if loading {
                    UiPhase::Loading
                } else {
                    UiPhase::Recording
                },
                status: if loading {
                    Some("carregando modelo…"@)
                } else {
                    None
                },
                warning: self.warning(ambient),
                ..fresh
            },
            osd_open: true,
            buffer: Seq::empty(),
            pending_insert: None,
            feedback: None,
            notice: None,
            ..self
        }
    }

    /// What a new session takes.
    pub open spec fn starting(self) -> Seq<ActionView<S>> {
        let session = next_session(self.session);
        self.closing() + seq![ActionView::OpenOsd { session }] + if self.engine is None {
            seq![ActionView::LoadEngine { session }]
        } else {
            seq![ActionView::StartCapture { session }]
        }
    }

    /// The recording is handed over, where one runs.
    pub open spec fn committed(self, now: u64) -> DaemonView<S> {
        if !self.phase.in_recording() {
            self
        } else if self.buffer.len() == 0 {
            self.with_message(
                FeedbackKind::Info,
                "nada gravado"@,
                EMPTY_FEEDBACK_DURATION,
                now,
            )
        } else if self.engine is None {
            self.with_message(
                FeedbackKind::Error,
                "modelo não carregado: rode 'whisper setup'"@,
                PROCESSING_FEEDBACK_DURATION,
                now,
            )
        } else {
            DaemonView { capturing: false, buffer: Seq::empty(), ..self }.in_phase(
                Phase::Transcribing,
                Some("Transcrevendo"@),
            )
        }
    }

    /// What handing over the recording takes.
    pub open spec fn committing(self) -> Seq<ActionView<S>> {
        if !self.phase.in_recording() {
            Seq::empty()
        } else if self.buffer.len() == 0 || self.engine is None {
            self.stopping()
        } else {
            self.stopping() + seq![
                ActionView::Transcribe {
                    session: self.session,
                    samples: self.buffer,
                    smart: self.ui.smart,
                },
            ]
        }
    }

    /// The smart mode is the other way round where the language model is
    /// there; else the user is told so for a while. The recording goes on.
    pub open spec fn smart_toggled(self, ambient: Ambient) -> DaemonView<S> {
        let plain = self.without_feedback();
        if !self.phase.in_recording() {
            plain
        } else if ambient.ai_available {
            DaemonView { ui: UiView { smart: !self.ui.smart, ..plain.ui }, ..plain }
        } else {
            DaemonView {
                notice: Some((ambient.now + AUDIO_FEEDBACK_DURATION) as u64),
                ui: UiView {
                    feedback: Some(
                        FeedbackView {
                            kind: FeedbackKind::Info,
                            message: "Smart indisponível"@,
                        },
                    ),
                    ..plain.ui
                },
                ..plain
            }
        }
    }

    /// The state after a command.
    pub open spec fn after_command(self, cmd: Cmd, ambient: Ambient) -> DaemonView<S> {
        if cmd == Cmd::Stop || (cmd == Cmd::Cancel && self.feedback is Some) {
            self.cancelled()
        } else {
            match action_for(self.phase, cmd) {
                CommandAction::Start => self.started(ambient),
                CommandAction::Resume => self.in_phase(Phase::Recording, None),
                CommandAction::Commit => self.committed(ambient.now),
                CommandAction::Cancel => self.cancelled(),
                CommandAction::Pause => self.in_phase(Phase::Paused, None),
                CommandAction::Noop => self,
            }
        }
    }

    /// What a command takes.
    pub open spec fn command_actions(self, cmd: Cmd) -> Seq<ActionView<S>> {
        if cmd == Cmd::Stop {
            self.cancelling() + seq![ActionView::KillServer]
        } else if cmd == Cmd::Cancel && self.feedback is Some {
            self.cancelling()
        } else {
            match action_for(self.phase, cmd) {
                CommandAction::Start => self.starting(),
                CommandAction::Commit => self.committing(),
                CommandAction::Cancel => self.cancelling(),
                CommandAction::Resume | CommandAction::Pause | CommandAction::Noop => Seq::empty(),
            }
        }
    }

    /// Does the overlay still speak for this session, and does a message let
    /// this event through?
    pub open spec fn heeds(self, session: u64, event: OsdEvent) -> bool {
        session == self.session && (self.feedback is None || event == OsdEvent::Cancel || event
            == OsdEvent::Closed)
    }

    /// The state after an event of the overlay.
    pub open spec fn after_osd(
        self,
        session: u64,
        event: OsdEvent,
        ambient: Ambient,
    ) -> DaemonView<S> {
        if !self.heeds(session, event) {
            self
        } else {
            match event {
                OsdEvent::PauseToggle => match self.phase {
                    Phase::Recording => self.without_feedback().in_phase(Phase::Paused, None),
                    Phase::Paused => self.without_feedback().in_phase(Phase::Recording, None),
                    _ => self.without_feedback(),
                },
                OsdEvent::Commit => self.without_feedback().committed(ambient.now),
                OsdEvent::SmartToggle => self.smart_toggled(ambient),
                OsdEvent::Cancel | OsdEvent::Closed => self.cancelled(),
            }
        }
    }

    /// What an event of the overlay takes. A text that waits is inserted when
    /// the overlay is gone.
    pub open spec fn osd_actions(self, session: u64, event: OsdEvent) -> Seq<ActionView<S>> {
        if session != self.session {
            seq![ActionView::Note(NoticeView::StaleOsdEvent)]
        } else if !self.heeds(session, event) {
            Seq::empty()
        } else {
            match event {
                OsdEvent::PauseToggle | OsdEvent::SmartToggle => Seq::empty(),
                OsdEvent::Commit => self.committing(),
                OsdEvent::Cancel => self.cancelling(),
                OsdEvent::Closed => match self.pending_insert {
                    Some(text) => seq![
                        ActionView::Insert { text, mode: self.cfg.insert_mode },
                    ] + self.cancelling(),
                    None => self.cancelling(),
                },
            }
        }
    }

    /// The state after a block of audio: kept only while recording.
    pub open spec fn after_audio(self, session: u64, samples: Seq<S>, level: S) -> DaemonView<S> {
        if session == self.session && self.phase == Phase::Recording {
            DaemonView { buffer: self.buffer + samples, ui: self.ui.with_level(level), ..self }
        } else {
            self
        }
    }

    /// What is said of a recording that ended by itself.
    pub open spec fn audio_end_message(self, error: Option<Seq<char>>, stderr: Seq<char>) -> Seq<
        char,
    > {
        let detail = match error {
            Some(e) => e,
            None => if self.capturing {
                trim(stderr)
            } else {
                Seq::empty()
            },
        };
        if detail.len() == 0 {
            "captura de áudio encerrou"@
        } else {
            "áudio indisponível: "@ + detail
        }
    }

    /// The state after the recorder has ended.
    pub open spec fn after_audio_ended(
        self,
        session: u64,
        error: Option<Seq<char>>,
        stderr: Seq<char>,
        now: u64,
    ) -> DaemonView<S> {
        if session == self.session && self.phase.in_recording() {
            self.with_message(
                FeedbackKind::Error,
                self.audio_end_message(error, stderr),
                AUDIO_FEEDBACK_DURATION,
                now,
            )
        } else {
            self
        }
    }

    /// What the end of the recorder takes.
    pub open spec fn audio_ended_actions(self, session: u64) -> Seq<ActionView<S>> {
        if session != self.session {
            seq![ActionView::Note(NoticeView::StaleAudioEnd)]
        } else if self.phase.in_recording() {
            self.stopping()
        } else {
            Seq::empty()
        }
    }

    /// Is the daemon waiting for this outcome?
    pub open spec fn awaits(self, out: OutcomeView) -> bool {
        self.phase == Phase::Transcribing && out.session() == self.session
    }

    /// The state after the processing of a recording: a text waits for the
    /// overlay to close.
    pub open spec fn after_worker(self, out: OutcomeView, now: u64) -> DaemonView<S> {
        if !self.awaits(out) {
            self
        } else {
            match out {
                OutcomeView::Transcribed { text, .. } => if text.len() == 0 {
                    self.with_message(
                        FeedbackKind::Info,
                        "nada detectado"@,
                        EMPTY_FEEDBACK_DURATION,
                        now,
                    )
                } else {
                    DaemonView { pending_insert: Some(text), osd_open: false, ..self }
                },
                OutcomeView::Failed { msg, .. } => self.with_message(
                    FeedbackKind::Error,
                    msg,
                    PROCESSING_FEEDBACK_DURATION,
                    now,
                ),
            }
        }
    }

    /// What the outcome of the processing takes.
    pub open spec fn worker_actions(self, out: OutcomeView) -> Seq<ActionView<S>> {
        if !self.awaits(out) {
            seq![ActionView::Note(NoticeView::StaleOutcome)]
        } else {
            match out {
                OutcomeView::Transcribed { text, .. } => if text.len() == 0 {
                    self.stopping()
                } else {
                    self.closing()
                },
                OutcomeView::Failed { .. } => self.stopping(),
            }
        }
    }

    /// The state after an engine was loaded. One of an earlier session is not
    /// taken; where there is one already, it is loaded again later.
    pub open spec fn after_engine(
        self,
        session: u64,
        result: Result<EngineInfo, Seq<char>>,
        ambient: Ambient,
    ) -> DaemonView<S> {
        if session != self.session {
            DaemonView {
                pending_engine_reload: self.pending_engine_reload || self.engine is Some,
                ..self
            }
        } else {
            match result {
                Ok(engine) => {
                    let with_engine = DaemonView { engine: Some(engine), ..self };
                    if self.phase == Phase::Loading {
                        DaemonView {
                            ui: UiView { warning: with_engine.warning(ambient), ..self.ui },
                            ..with_engine
                        }.in_phase(Phase::Recording, None)
                    } else {
                        with_engine
                    }
                },
                Err(error) => if self.phase == Phase::Loading {
                    self.with_message(
                        FeedbackKind::Error,
                        "modelo indisponível: "@ + error,
                        PROCESSING_FEEDBACK_DURATION,
                        ambient.now,
                    )
                } else {
                    self
                },
            }
        }
    }

    /// What an engine that was loaded takes.
    pub open spec fn engine_actions(
        self,
        session: u64,
        result: Result<EngineInfo, Seq<char>>,
    ) -> Seq<ActionView<S>> {
        if session != self.session {
            seq![ActionView::Note(NoticeView::StaleEngine)]
        } else {
            match result {
                Ok(engine) => {
                    let warned: Seq<ActionView<S>> = if engine.vad_available {
                        Seq::empty()
                    } else {
                        seq![ActionView::Note(NoticeView::NoVad)]
                    };
                    let kept = warned.push(ActionView::KeepEngine);
                    match self.phase {
                        Phase::Loading => kept.push(ActionView::StartCapture { session }),
                        Phase::Idle => kept.push(ActionView::Note(NoticeView::EngineReloaded)),
                        _ => kept,
                    }
                },
                Err(error) => match self.phase {
                    Phase::Loading => self.stopping(),
                    Phase::Idle => seq![ActionView::Note(NoticeView::EngineKept { error })],
                    _ => Seq::empty(),
                },
            }
        }
    }

    /// The state after the recorder was started.
    pub open spec fn after_capture(self, result: Result<(), Seq<char>>, now: u64) -> DaemonView<
        S,
    > {
        match result {
            Ok(()) => DaemonView { capturing: true, ..self },
            Err(error) => self.with_message(
                FeedbackKind::Error,
                "áudio: "@ + error,
                AUDIO_FEEDBACK_DURATION,
                now,
            ),
        }
    }

    /// What the start of the recorder takes.
    pub open spec fn capture_actions(self, result: Result<(), Seq<char>>) -> Seq<ActionView<S>> {
        match result {
            Ok(()) => Seq::empty(),
            Err(_) => self.stopping(),
        }
    }

    /// The state after the configuration was read anew: an invalid one leaves
    /// the previous one in place.
    pub open spec fn after_config(
        self,
        mtime: Option<i128>,
        result: Result<ConfigView, Seq<char>>,
    ) -> DaemonView<S> {
        match result {
            Ok(cfg) => DaemonView {
                cfg,
                cfg_mtime: mtime,
                pending_engine_reload: self.pending_engine_reload || !cfg.same_engine(self.cfg),
                ..self
            },
            Err(_) => DaemonView { cfg_mtime: mtime, ..self },
        }
    }

    /// What reading the configuration takes: other settings of the language
    /// model end its server.
    pub open spec fn config_actions(self, result: Result<ConfigView, Seq<char>>) -> Seq<
        ActionView<S>,
    > {
        match result {
            Ok(cfg) => {
                let first: Seq<ActionView<S>> = if cfg.ai == self.cfg.ai {
                    Seq::empty()
                } else {
                    seq![ActionView::KillServer]
                };
                first.push(ActionView::Note(NoticeView::ConfigReloaded))
            },
            Err(error) => seq![ActionView::Note(NoticeView::ConfigKept { error })],
        }
    }

    /// Is it time to load the engine anew?
    pub open spec fn reload_due(self) -> bool {
        self.pending_engine_reload && self.phase == Phase::Idle && self.engine is Some
    }

    /// The state after a look at the engine.
    pub open spec fn after_reload(self) -> DaemonView<S> {
        if self.reload_due() {
            DaemonView { pending_engine_reload: false, ..self }
        } else {
            self
        }
    }

    /// What a look at the engine takes.
    pub open spec fn reload_actions(self) -> Seq<ActionView<S>> {
        if self.reload_due() {
            seq![ActionView::LoadEngine { session: self.session }]
        } else {
            Seq::empty()
        }
    }

    /// The message on the smart mode is gone once its time is over.
    pub open spec fn after_notice(self, now: u64) -> DaemonView<S> {
        if self.notice matches Some(deadline) && now >= deadline {
            DaemonView { notice: None, ui: UiView { feedback: None, ..self.ui }, ..self }
        } else {
            self
        }
    }

    /// The state after a look at the clock: a message whose time is over ends
    /// its session.
    pub open spec fn after_expiry(self, now: u64) -> DaemonView<S> {
        let seen = self.after_notice(now);
        match self.feedback {
            Some(f) => if now < f.deadline {
                seen
            } else if f.session != self.session {
                DaemonView { feedback: None, ..seen }
            } else {
                seen.cancelled()
            },
            None => seen,
        }
    }

    /// What a look at the clock takes.
    pub open spec fn expiry_actions(self, now: u64) -> Seq<ActionView<S>> {
        if self.feedback matches Some(f) && now >= f.deadline && f.session == self.session {
            self.cancelling()
        } else {
            Seq::empty()
        }
    }

    /// The state after an event.
    pub open spec fn after(self, event: EventView<S>, ambient: Ambient) -> DaemonView<S> {
        match event {
            EventView::Command(cmd) => self.after_command(cmd, ambient),
            EventView::Osd { session, event } => self.after_osd(session, event, ambient),
            EventView::Audio { session, samples, level } => self.after_audio(
                session,
                samples,
                level,
            ),
            EventView::AudioEnded { session, error, stderr } => self.after_audio_ended(
                session,
                error,
                stderr,
                ambient.now,
            ),
            EventView::Worker(out) => self.after_worker(out, ambient.now),
            EventView::EngineLoaded { session, result } => self.after_engine(
                session,
                result,
                ambient,
            ),
            EventView::CaptureStarted(result) => self.after_capture(result, ambient.now),
            EventView::ConfigLoaded { mtime, loaded } => self.after_config(mtime, loaded),
            EventView::Tick => self.after_reload().after_expiry(ambient.now),
        }
    }

    /// What an event takes.
    pub open spec fn actions(self, event: EventView<S>, ambient: Ambient) -> Seq<ActionView<S>> {
        match event {
            EventView::Command(cmd) => self.command_actions(cmd),
            EventView::Osd { session, event } => self.osd_actions(session, event),
            EventView::Audio { .. } => Seq::empty(),
            EventView::AudioEnded { session, .. } => self.audio_ended_actions(session),
            EventView::Worker(out) => self.worker_actions(out),
            EventView::EngineLoaded { session, result } => self.engine_actions(session, result),
            EventView::CaptureStarted(result) => self.capture_actions(result),
            EventView::ConfigLoaded { loaded, .. } => self.config_actions(loaded),
            EventView::Tick => self.reload_actions() + self.after_reload().expiry_actions(
                ambient.now,
            ),
        }
    }
}

} // verus!
