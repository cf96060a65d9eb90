//! What holds of the daemon whatever happens to it.
use vstd::prelude::*;

use crate::config::{ConfigView, InsertMode, Language};
use crate::daemon::{warning_text, Ambient, EngineInfo, PendingFeedback, Phase};
use crate::ipc::Cmd;
use crate::osd::{
    law_levels_bounded, FeedbackKind, FeedbackView, OsdEvent, Phase as UiPhase, UiView, MAX_LEVELS,
};
use crate::session::{next_session, ActionView, DaemonView, EventView, NoticeView};
use crate::text::trim;
use crate::transcribe::OutcomeView;

verus! {

// ---------------------------------------------------------------------------
// Consistency
// ---------------------------------------------------------------------------

impl<S> DaemonView<S> {
    /// The parts of the state agree with one another.
    pub open spec fn consistent(self) -> bool {
        // A text waits only after the transcription, with the overlay closing.
        &&& self.pending_insert is Some ==> self.phase == Phase::Transcribing && !self.osd_open
        // The recorder runs only in a recording.
        &&& self.capturing ==> self.phase.in_recording()
        // A message that ends its session is shown once the session is over.
        &&& self.feedback matches Some(f) ==> self.phase == Phase::Idle && f.session
            == self.session && self.ui.feedback is Some
        // A message that does not end the session is shown within a session.
        &&& self.notice is Some ==> self.phase != Phase::Idle && self.ui.feedback is Some
        // The waveform is bounded.
        &&& self.ui.levels.len() <= MAX_LEVELS
        // The overlay shows the phase.
        &&& self.phase.shown() matches Some(p) ==> self.ui.phase == p
        // Only a session that loads the engine is without one.
        &&& self.phase.in_recording() || self.phase == Phase::Transcribing ==> self.engine is Some
        // A session has its overlay, until its text waits.
        &&& self.phase != Phase::Idle ==> self.osd_open || self.pending_insert is Some
        // An idle daemon shows nothing but a message.
        &&& self.phase == Phase::Idle && self.feedback is None ==> !self.osd_open
            && self.ui.feedback is None
    }

    /// The answer to the start of the recorder comes where one was asked for:
    /// in a recording.
    pub open spec fn expects(self, event: EventView<S>) -> bool {
        event is CaptureStarted ==> self.phase == Phase::Recording
    }
}

/// An idle daemon that was just started is consistent.
pub proof fn law_initial_state_is_consistent<S>(cfg: ConfigView, mtime: Option<i128>)
    ensures
        DaemonView::<S>::initial(cfg, mtime).consistent(),
{
}

/// Every event leaves the daemon consistent.
#[verifier::rlimit(40)]
#[verifier::spinoff_prover]
pub proof fn law_events_keep_consistency<S>(
    d: DaemonView<S>,
    event: EventView<S>,
    ambient: Ambient,
)
    requires
        d.consistent(),
        d.expects(event),
    ensures
        d.after(event, ambient).consistent(),
{
    if let EventView::Audio { level, .. } = event {
        law_levels_bounded(d.ui, level);
    }
}

/// Where the recorder is to be started, the daemon records afterwards: the
/// answer to that action is expected.
#[verifier::rlimit(40)]
#[verifier::spinoff_prover]
pub proof fn law_capture_starts_in_a_recording<S>(
    d: DaemonView<S>,
    event: EventView<S>,
    ambient: Ambient,
    session: u64,
)
    requires
        d.consistent(),
        d.actions(event, ambient).contains(ActionView::StartCapture { session }),
    ensures
        d.after(event, ambient).phase == Phase::Recording,
        d.after(event, ambient).session == session,
{
    let action = ActionView::<S>::StartCapture { session };
    let list = d.actions(event, ambient);
    let i = choose|i: int| 0 <= i < list.len() && list[i] == action;
    match event {
        EventView::EngineLoaded { session: s, result } => {
            assert(s == d.session);
        },
        _ => {},
    }
}

/// The state after a list of events.
pub open spec fn run<S>(d: DaemonView<S>, events: Seq<(EventView<S>, Ambient)>) -> DaemonView<S>
    decreases events.len(),
{
    if events.len() == 0 {
        d
    } else {
        run(d, events.drop_last()).after(events.last().0, events.last().1)
    }
}

/// Each event of the list comes where it is expected.
pub open spec fn expected<S>(d: DaemonView<S>, events: Seq<(EventView<S>, Ambient)>) -> bool
    decreases events.len(),
{
    events.len() > 0 ==> expected(d, events.drop_last()) && run(d, events.drop_last()).expects(
        events.last().0,
    )
}

/// Every state that the daemon can reach is consistent.
pub proof fn law_reachable_states_are_consistent<S>(
    cfg: ConfigView,
    mtime: Option<i128>,
    events: Seq<(EventView<S>, Ambient)>,
)
    requires
        expected(DaemonView::<S>::initial(cfg, mtime), events),
    ensures
        run(DaemonView::<S>::initial(cfg, mtime), events).consistent(),
    decreases events.len(),
{
    let start = DaemonView::<S>::initial(cfg, mtime);
    if events.len() > 0 {
        law_reachable_states_are_consistent(cfg, mtime, events.drop_last());
        law_events_keep_consistency(
            run(start, events.drop_last()),
            events.last().0,
            events.last().1,
        );
    }
}

// ---------------------------------------------------------------------------
// Insertion
// ---------------------------------------------------------------------------

/// A text is inserted only when the overlay of its session is gone: while it
/// is there, it has the keyboard.
#[verifier::rlimit(40)]
#[verifier::spinoff_prover]
pub proof fn law_insertion_follows_the_close<S>(
    d: DaemonView<S>,
    event: EventView<S>,
    ambient: Ambient,
    text: Seq<char>,
    mode: InsertMode,
)
    requires
        d.consistent(),
        d.actions(event, ambient).contains(ActionView::Insert { text, mode }),
    ensures
        event == (EventView::<S>::Osd { session: d.session, event: OsdEvent::Closed }),
        !d.osd_open,
        d.pending_insert == Some(text),
        mode == d.cfg.insert_mode,
        d.after(event, ambient).pending_insert is None,
        d.after(event, ambient).phase == Phase::Idle,
{
    let action = ActionView::<S>::Insert { text, mode };
    let list = d.actions(event, ambient);
    let i = choose|i: int| 0 <= i < list.len() && list[i] == action;
}

/// A text waits to be inserted only after it was transcribed for the current
/// session.
pub proof fn law_text_comes_from_its_own_session<S>(
    d: DaemonView<S>,
    event: EventView<S>,
    ambient: Ambient,
)
    requires
        d.after(event, ambient).pending_insert is Some,
        d.after(event, ambient).pending_insert != d.pending_insert,
    ensures
        event matches EventView::Worker(OutcomeView::Transcribed { session, text }) && session
            == d.session && text.len() > 0 && d.after(event, ambient).pending_insert == Some(text),
        d.phase == Phase::Transcribing,
{
}

/// The overlay is told to close before the text that waits is inserted.
pub proof fn law_waiting_text_closes_the_overlay<S>(
    d: DaemonView<S>,
    text: Seq<char>,
    ambient: Ambient,
)
    requires
        d.consistent(),
        d.phase == Phase::Transcribing,
        d.pending_insert is None,
        text.len() > 0,
    ensures
        ({
            let event = EventView::<S>::Worker(
                OutcomeView::Transcribed { session: d.session, text },
            );
            &&& d.actions(event, ambient) == seq![ActionView::<S>::CloseOsd]
            &&& d.after(event, ambient).pending_insert == Some(text)
            &&& !d.after(event, ambient).osd_open
        }),
{
}

// ---------------------------------------------------------------------------
// Sessions
// ---------------------------------------------------------------------------

/// Events of an earlier session change nothing, but that an engine may have
/// to be loaded again.
pub proof fn law_stale_events_change_nothing<S>(
    d: DaemonView<S>,
    session: u64,
    event: OsdEvent,
    samples: Seq<S>,
    level: S,
    error: Option<Seq<char>>,
    stderr: Seq<char>,
    out: OutcomeView,
    result: Result<EngineInfo, Seq<char>>,
    ambient: Ambient,
)
    requires
        session != d.session,
        out.session() == session,
    ensures
        d.after(EventView::Osd { session, event }, ambient) == d,
        d.after(EventView::Audio { session, samples, level }, ambient) == d,
        d.after(EventView::AudioEnded { session, error, stderr }, ambient) == d,
        d.after(EventView::Worker(out), ambient) == d,
        d.after(EventView::EngineLoaded { session, result }, ambient) == (DaemonView {
            pending_engine_reload: d.pending_engine_reload || d.engine is Some,
            ..d
        }),
        d.actions(EventView::Osd { session, event }, ambient) == seq![
            ActionView::<S>::Note(NoticeView::StaleOsdEvent),
        ],
        d.actions(EventView::AudioEnded { session, error, stderr }, ambient) == seq![
            ActionView::<S>::Note(NoticeView::StaleAudioEnd),
        ],
        d.actions(EventView::Worker(out), ambient) == seq![
            ActionView::<S>::Note(NoticeView::StaleOutcome),
        ],
        d.actions(EventView::EngineLoaded { session, result }, ambient) == seq![
            ActionView::<S>::Note(NoticeView::StaleEngine),
        ],
{
}

/// Only a new session has another number, and it does not have that of the
/// session before.
pub proof fn law_session_number_changes_with_the_session<S>(
    d: DaemonView<S>,
    event: EventView<S>,
    ambient: Ambient,
)
    ensures
        d.after(event, ambient).session == d.session || (d.phase == Phase::Idle && (event
            == EventView::<S>::Command(Cmd::Toggle) || event == EventView::<S>::Command(
            Cmd::Record,
        )) && d.after(event, ambient).session == next_session(d.session)),
        next_session(d.session) != d.session,
{
}

/// A toggle starts a session when idle and hands over a recording; while the
/// engine loads or a text is made, it changes nothing.
pub proof fn law_toggle_follows_the_session<S>(d: DaemonView<S>, ambient: Ambient)
    ensures
        d.phase == Phase::Idle ==> d.after(EventView::Command(Cmd::Toggle), ambient) == d.started(
            ambient,
        ),
        d.phase.in_recording() ==> d.after(EventView::Command(Cmd::Toggle), ambient)
            == d.committed(ambient.now),
        d.phase == Phase::Loading || d.phase == Phase::Transcribing ==> d.after(
            EventView::Command(Cmd::Toggle),
            ambient,
        ) == d && d.actions(EventView::Command(Cmd::Toggle), ambient) == Seq::<
            ActionView<S>,
        >::empty(),
{
}

/// Asking for the status changes nothing.
pub proof fn law_status_changes_nothing<S>(d: DaemonView<S>, ambient: Ambient)
    ensures
        d.after(EventView::Command(Cmd::Status), ambient) == d,
        d.actions(EventView::Command(Cmd::Status), ambient) == Seq::<ActionView<S>>::empty(),
{
}

/// Nothing is held: no recorder, no overlay, no text, no message.
pub open spec fn holds_nothing<S>(d: DaemonView<S>) -> bool {
    d.phase == Phase::Idle && !d.capturing && !d.osd_open && d.pending_insert is None
        && d.feedback is None && d.notice is None && d.ui.feedback is None
}

/// A cancelled session holds nothing, and its recording goes nowhere.
pub proof fn law_cancel_discards<S>(d: DaemonView<S>, ambient: Ambient)
    requires
        d.consistent(),
    ensures
        holds_nothing(d.after(EventView::Command(Cmd::Cancel), ambient)),
        holds_nothing(
            d.after(EventView::Osd { session: d.session, event: OsdEvent::Cancel }, ambient),
        ),
        forall|a: ActionView<S>| #[trigger]
            d.actions(EventView::Command(Cmd::Cancel), ambient).contains(a) ==> a is StopCapture
                || a is CloseOsd,
        forall|a: ActionView<S>| #[trigger]
            d.actions(
                EventView::Osd { session: d.session, event: OsdEvent::Cancel },
                ambient,
            ).contains(a) ==> a is StopCapture || a is CloseOsd,
        d.capturing ==> d.actions(EventView::Command(Cmd::Cancel), ambient).contains(
            ActionView::<S>::StopCapture,
        ),
        d.osd_open ==> d.actions(EventView::Command(Cmd::Cancel), ambient).contains(
            ActionView::<S>::CloseOsd,
        ),
{
    let list = d.actions(EventView::Command(Cmd::Cancel), ambient);
    if d.phase != Phase::Idle || d.feedback is Some {
        assert(list == d.stopping() + d.closing());
        if d.capturing {
            assert(list[0] == ActionView::<S>::StopCapture);
        }
        if d.osd_open {
            assert(list[list.len() - 1] == ActionView::<S>::CloseOsd);
        }
    }
}

/// After the stop command nothing is held, and the server of the language
/// model is ended.
pub proof fn law_stop_releases_everything<S>(d: DaemonView<S>, ambient: Ambient)
    ensures
        holds_nothing(d.after(EventView::Command(Cmd::Stop), ambient)),
        d.actions(EventView::Command(Cmd::Stop), ambient).last() == ActionView::<S>::KillServer,
{
}

/// A message whose time is over ends its session; nothing stays behind.
pub proof fn law_expired_message_ends_the_session<S>(d: DaemonView<S>, ambient: Ambient)
    requires
        d.consistent(),
        d.feedback matches Some(f) && f.deadline <= ambient.now,
    ensures
        holds_nothing(d.after(EventView::Tick, ambient)),
        d.osd_open ==> d.actions(EventView::Tick, ambient).contains(ActionView::<S>::CloseOsd),
{
    if d.osd_open {
        let list = d.actions(EventView::Tick, ambient);
        assert(list[list.len() - 1] == ActionView::<S>::CloseOsd);
    }
}

/// A message does not stand in the way of a new session.
pub proof fn law_message_does_not_block_a_session<S>(d: DaemonView<S>, ambient: Ambient)
    requires
        d.consistent(),
        d.feedback is Some,
    ensures
        ({
            let next = d.after(EventView::Command(Cmd::Toggle), ambient);
            next.feedback is None && next.session == next_session(d.session) && next.osd_open
                && next.ui.feedback is None
        }),
{
}

// ---------------------------------------------------------------------------
// Recording
// ---------------------------------------------------------------------------

/// Pausing and resuming leaves the recording as it was.
pub proof fn law_pausing_twice_resumes<S>(d: DaemonView<S>, a: Ambient, b: Ambient)
    requires
        d.consistent(),
        d.phase.in_recording(),
    ensures
        ({
            let toggle = EventView::<S>::Osd { session: d.session, event: OsdEvent::PauseToggle };
            d.after(toggle, a).after(toggle, b) == DaemonView {
                notice: None,
                ui: UiView { status: None, feedback: None, ..d.ui },
                ..d
            }
        }),
{
}

/// The pause command followed by the record command resumes the recording.
pub proof fn law_record_resumes_after_pause<S>(d: DaemonView<S>, a: Ambient, b: Ambient)
    requires
        d.consistent(),
        d.phase == Phase::Recording,
    ensures
        d.after(EventView::Command(Cmd::Pause), a).after(EventView::Command(Cmd::Record), b) == (
        DaemonView { ui: UiView { status: None, ..d.ui }, ..d }),
{
}

/// What is heard while paused is not recorded.
pub proof fn law_paused_audio_is_not_recorded<S>(
    d: DaemonView<S>,
    session: u64,
    samples: Seq<S>,
    level: S,
    ambient: Ambient,
)
    requires
        d.phase != Phase::Recording,
    ensures
        d.after(EventView::Audio { session, samples, level }, ambient) == d,
{
}

/// All blocks, one after the other.
pub open spec fn joined_blocks<S>(blocks: Seq<(Seq<S>, S)>) -> Seq<S>
    decreases blocks.len(),
{
    if blocks.len() == 0 {
        Seq::empty()
    } else {
        joined_blocks(blocks.drop_last()) + blocks.last().0
    }
}

/// The blocks as events of a session.
pub open spec fn block_events<S>(session: u64, blocks: Seq<(Seq<S>, S)>, ambient: Ambient) -> Seq<
    (EventView<S>, Ambient),
> {
    blocks.map_values(
        |b: (Seq<S>, S)| (EventView::Audio { session, samples: b.0, level: b.1 }, ambient),
    )
}

/// While recording, every block is kept, in order, and the recording goes on.
pub proof fn law_recording_keeps_every_block<S>(
    d: DaemonView<S>,
    blocks: Seq<(Seq<S>, S)>,
    ambient: Ambient,
)
    requires
        d.phase == Phase::Recording,
    ensures
        ({
            let end = run(d, block_events(d.session, blocks, ambient));
            end.buffer == d.buffer + joined_blocks(blocks) && end == DaemonView {
                buffer: end.buffer,
                ui: UiView { levels: end.ui.levels, ..d.ui },
                ..d
            }
        }),
    decreases blocks.len(),
{
    let events = block_events(d.session, blocks, ambient);
    if blocks.len() > 0 {
        law_recording_keeps_every_block(d, blocks.drop_last(), ambient);
        assert(events.drop_last() =~= block_events(d.session, blocks.drop_last(), ambient));
        let before = run(d, events.drop_last());
        let block = blocks.last();
        assert(events.last() == (
            EventView::Audio { session: d.session, samples: block.0, level: block.1 },
            ambient,
        ));
        assert(before.phase == Phase::Recording);
        assert(before.session == d.session);
        assert(run(d, events) == before.after_audio(d.session, block.0, block.1));
        assert(d.buffer + joined_blocks(blocks.drop_last()) + block.0 =~= d.buffer
            + joined_blocks(blocks));
    } else {
        assert(d.buffer + joined_blocks(blocks) =~= d.buffer);
    }
}

/// A new session begins with an empty recording, under the next number, with
/// its overlay and no message; it records where there is an engine and waits
/// for one otherwise.
#[verifier::rlimit(40)]
#[verifier::spinoff_prover]
pub proof fn law_session_begins_empty<S>(d: DaemonView<S>, cmd: Cmd, ambient: Ambient)
    requires
        d.phase == Phase::Idle,
        cmd == Cmd::Toggle || cmd == Cmd::Record,
    ensures
        ({
            let next = d.after(EventView::Command(cmd), ambient);
            let actions = d.actions(EventView::Command(cmd), ambient);
            &&& next.buffer == Seq::<S>::empty()
            &&& next.session == if d.session < u64::MAX {
                (d.session + 1) as u64
            } else {
                0
            }
            &&& next.phase == if d.engine is Some {
                Phase::Recording
            } else {
                Phase::Loading
            }
            &&& next.osd_open && next.pending_insert is None && next.feedback is None
                && next.notice is None
            &&& !next.ui.smart && next.ui.levels.len() == 0 && next.ui.feedback is None
            &&& next.ui.status == if d.engine is Some {
                None
            } else {
                Some("carregando modelo…"@)
            }
            &&& next.ui.lang_model == match d.cfg.language {
                Language::Pt => "pt"@,
                Language::En => "en"@,
                Language::Auto => "auto"@,
            } + " · "@ + d.cfg.model
            &&& next.ui.warning == warning_text(
                d.cfg.insert_mode != InsertMode::CopyToClipboard && !ambient.wtype_available,
                d.engine is Some && !d.engine->0.vad_available,
                d.cfg.ai.enabled && !ambient.ai_available,
            )
            &&& next.cfg == d.cfg && next.engine == d.engine
            &&& actions.last() == if d.engine is Some {
                ActionView::<S>::StartCapture { session: next.session }
            } else {
                ActionView::<S>::LoadEngine { session: next.session }
            }
            &&& actions.drop_last().last() == ActionView::<S>::OpenOsd { session: next.session }
            &&& d.osd_open == actions.contains(ActionView::<S>::CloseOsd)
            &&& actions.len() == if d.osd_open {
                3int
            } else {
                2
            }
        }),
{
    let actions = d.actions(EventView::Command(cmd), ambient);
    if d.osd_open {
        assert(actions[0] == ActionView::<S>::CloseOsd);
    } else {
        assert forall|i: int| 0 <= i < actions.len() implies actions[i]
            != ActionView::<S>::CloseOsd by {}
    }
}

/// The event begins a session.
pub open spec fn begins_session<S>(d: DaemonView<S>, event: EventView<S>) -> bool {
    d.phase == Phase::Idle && (event == EventView::<S>::Command(Cmd::Toggle) || event
        == EventView::<S>::Command(Cmd::Record))
}

/// What was heard in the current session, by its own number and while it
/// recorded, since the event that began it.
pub open spec fn heard<S>(d: DaemonView<S>, events: Seq<(EventView<S>, Ambient)>) -> Seq<S>
    decreases events.len(),
{
    if events.len() == 0 {
        Seq::empty()
    } else {
        let before = run(d, events.drop_last());
        let so_far = heard(d, events.drop_last());
        if begins_session(before, events.last().0) {
            Seq::empty()
        } else {
            match events.last().0 {
                EventView::Audio { session, samples, .. } => if session == before.session
                    && before.phase == Phase::Recording {
                    so_far + samples
                } else {
                    so_far
                },
                _ => so_far,
            }
        }
    }
}

proof fn lemma_buffer_is_what_was_heard<S>(
    cfg: ConfigView,
    mtime: Option<i128>,
    events: Seq<(EventView<S>, Ambient)>,
)
    ensures
        ({
            let start = DaemonView::<S>::initial(cfg, mtime);
            let end = run(start, events);
            end.phase.in_recording() || end.phase == Phase::Loading ==> end.buffer == heard(
                start,
                events,
            )
        }),
    decreases events.len(),
{
    if events.len() > 0 {
        lemma_buffer_is_what_was_heard(cfg, mtime, events.drop_last());
    }
}

/// What is handed over for transcription is what was heard in that session and
/// nothing else: no sample of a session that was cancelled, failed or handed
/// over before is among it.
pub proof fn law_only_the_own_session_is_transcribed<S>(
    cfg: ConfigView,
    mtime: Option<i128>,
    events: Seq<(EventView<S>, Ambient)>,
    event: EventView<S>,
    ambient: Ambient,
    session: u64,
    samples: Seq<S>,
    smart: bool,
)
    requires
        run(DaemonView::<S>::initial(cfg, mtime), events).actions(event, ambient).contains(
            ActionView::Transcribe { session, samples, smart },
        ),
    ensures
        samples == heard(DaemonView::<S>::initial(cfg, mtime), events),
        session == run(DaemonView::<S>::initial(cfg, mtime), events).session,
{
    let d = run(DaemonView::<S>::initial(cfg, mtime), events);
    lemma_buffer_is_what_was_heard(cfg, mtime, events);
    law_recording_is_handed_over_whole(d, event, ambient, session, samples, smart);
}

/// The event asks to conclude the recording: the toggle or commit command, or
/// the key of the overlay of this session.
pub open spec fn concludes<S>(d: DaemonView<S>, event: EventView<S>) -> bool {
    event == EventView::<S>::Command(Cmd::Toggle) || event == EventView::<S>::Command(Cmd::Commit)
        || event == (EventView::<S>::Osd { session: d.session, event: OsdEvent::Commit })
}

/// Concluding a recording, running or paused, hands over all that it holds:
/// the recorder is stopped, and the daemon transcribes.
pub proof fn law_concluding_hands_over<S>(d: DaemonView<S>, event: EventView<S>, ambient: Ambient)
    requires
        d.consistent(),
        d.phase == Phase::Recording || d.phase == Phase::Paused,
        d.buffer.len() > 0,
        concludes(d, event),
    ensures
        d.after(event, ambient).phase == Phase::Transcribing,
        d.after(event, ambient).session == d.session,
        d.after(event, ambient).pending_insert is None,
        d.after(event, ambient).feedback is None,
        d.after(event, ambient).osd_open == d.osd_open,
        d.after(event, ambient).ui.phase == UiPhase::Transcribing,
        d.after(event, ambient).ui.status == Some("Transcrevendo"@),
        !d.after(event, ambient).capturing,
        d.actions(event, ambient) == if d.capturing {
            seq![
                ActionView::<S>::StopCapture,
                ActionView::Transcribe {
                    session: d.session,
                    samples: d.buffer,
                    smart: d.ui.smart,
                },
            ]
        } else {
            seq![
                ActionView::<S>::Transcribe {
                    session: d.session,
                    samples: d.buffer,
                    smart: d.ui.smart,
                },
            ]
        },
{
}

/// Concluding a recording that holds nothing ends the session with a message
/// for 1.2 seconds, and nothing is transcribed.
pub proof fn law_empty_recording_is_reported<S>(
    d: DaemonView<S>,
    event: EventView<S>,
    ambient: Ambient,
)
    requires
        d.consistent(),
        d.phase == Phase::Recording || d.phase == Phase::Paused,
        d.buffer.len() == 0,
        concludes(d, event),
    ensures
        shows_message(
            d.after(event, ambient),
            d.session,
            FeedbackKind::Info,
            "nada gravado"@,
            (ambient.now + 1_200_000_000) as u64,
        ),
        d.actions(event, ambient) == if d.capturing {
            seq![ActionView::<S>::StopCapture]
        } else {
            Seq::empty()
        },
{
}

/// The session is over and a message is shown up to a deadline, with nothing
/// else held.
pub open spec fn shows_message<S>(
    d: DaemonView<S>,
    session: u64,
    kind: FeedbackKind,
    message: Seq<char>,
    deadline: u64,
) -> bool {
    &&& d.phase == Phase::Idle && !d.capturing && d.pending_insert is None && d.notice is None
    &&& d.session == session
    &&& d.feedback == Some(PendingFeedback { session, deadline })
    &&& d.ui.feedback == Some(FeedbackView { kind, message })
    &&& d.ui.phase == if kind == FeedbackKind::Info {
        UiPhase::Info
    } else {
        UiPhase::Error
    }
}

/// The message that nothing was recorded comes only of an empty recording.
pub proof fn law_nothing_recorded_only_when_empty<S>(
    d: DaemonView<S>,
    event: EventView<S>,
    ambient: Ambient,
)
    requires
        d.consistent(),
        d.phase.in_recording(),
        concludes(d, event),
        d.after(event, ambient).feedback is Some,
    ensures
        d.buffer.len() == 0,
{
}

/// A recording that was cancelled is gone: the next session hands over just the
/// blocks that it heard itself.
pub proof fn law_cancelled_recording_is_gone<S>(
    d: DaemonView<S>,
    cancel: EventView<S>,
    begin: Cmd,
    blocks: Seq<(Seq<S>, S)>,
    ambient: Ambient,
)
    requires
        d.consistent(),
        d.phase == Phase::Recording || d.phase == Phase::Paused,
        cancel == EventView::<S>::Command(Cmd::Cancel) || cancel == (EventView::<S>::Osd {
            session: d.session,
            event: OsdEvent::Cancel,
        }),
        begin == Cmd::Toggle || begin == Cmd::Record,
        joined_blocks(blocks).len() > 0,
    ensures
        ({
            let next = d.after(cancel, ambient).after(EventView::Command(begin), ambient);
            let end = run(next, block_events(next.session, blocks, ambient));
            &&& next.session != d.session
            &&& end.actions(EventView::Command(Cmd::Toggle), ambient).last()
                == (ActionView::<S>::Transcribe {
                session: next.session,
                samples: joined_blocks(blocks),
                smart: false,
            })
        }),
{
    let next = d.after(cancel, ambient).after(EventView::Command(begin), ambient);
    law_recording_keeps_every_block(next, blocks, ambient);
    assert(next.buffer + joined_blocks(blocks) =~= joined_blocks(blocks));
}

/// The space key pauses a recording and resumes a paused one; nothing of the
/// recording is lost, and nothing is asked to be done.
pub proof fn law_space_pauses_and_resumes<S>(d: DaemonView<S>, ambient: Ambient)
    requires
        d.consistent(),
        d.phase.in_recording(),
    ensures
        ({
            let space = EventView::<S>::Osd { session: d.session, event: OsdEvent::PauseToggle };
            let next = d.after(space, ambient);
            &&& d.phase == Phase::Recording ==> next.phase == Phase::Paused
            &&& d.phase == Phase::Paused ==> next.phase == Phase::Recording
            &&& next.buffer == d.buffer && next.capturing == d.capturing && next.session
                == d.session && next.engine == d.engine && next.ui.smart == d.ui.smart
                && next.osd_open == d.osd_open
            &&& d.actions(space, ambient) == Seq::<ActionView<S>>::empty()
        }),
{
}

/// The phase that each command leads to. Toggle begins and concludes, record
/// begins and resumes, commit concludes, pause pauses, cancel and stop end the
/// session; in all other cases the phase stays.
#[verifier::rlimit(40)]
#[verifier::spinoff_prover]
pub proof fn law_commands_move_between_phases<S>(d: DaemonView<S>, cmd: Cmd, ambient: Ambient)
    requires
        d.consistent(),
    ensures
        ({
            let begun = if d.engine is Some {
                Phase::Recording
            } else {
                Phase::Loading
            };
            let concluded = if d.buffer.len() > 0 {
                Phase::Transcribing
            } else {
                Phase::Idle
            };
            d.after(EventView::Command(cmd), ambient).phase == match (cmd, d.phase) {
                (Cmd::Toggle, Phase::Idle) => begun,
                (Cmd::Record, Phase::Idle) => begun,
                (Cmd::Toggle, Phase::Recording) => concluded,
                (Cmd::Toggle, Phase::Paused) => concluded,
                (Cmd::Commit, Phase::Recording) => concluded,
                (Cmd::Commit, Phase::Paused) => concluded,
                (Cmd::Record, Phase::Paused) => Phase::Recording,
                (Cmd::Pause, Phase::Recording) => Phase::Paused,
                (Cmd::Cancel, _) => Phase::Idle,
                (Cmd::Stop, _) => Phase::Idle,
                _ => d.phase,
            }
        }),
        // Only beginning, concluding and ending take something to be done.
        cmd == Cmd::Pause || cmd == Cmd::Status || (cmd == Cmd::Record && d.phase != Phase::Idle)
            || (cmd == Cmd::Commit && !d.phase.in_recording()) ==> d.actions(
            EventView::Command(cmd),
            ambient,
        ) == Seq::<ActionView<S>>::empty(),
        // Pausing and resuming keep all but the phase.
        cmd == Cmd::Pause || (cmd == Cmd::Record && d.phase != Phase::Idle) ==> ({
            let next = d.after(EventView::Command(cmd), ambient);
            next.buffer == d.buffer && next.capturing == d.capturing && next.session == d.session
                && next.engine == d.engine && next.feedback == d.feedback && next.osd_open
                == d.osd_open && next.pending_insert == d.pending_insert
        }),
{
}

/// A block that is heard by the session that records goes to the end of its
/// recording, and its level to the overlay.
pub proof fn law_block_is_appended<S>(
    d: DaemonView<S>,
    samples: Seq<S>,
    level: S,
    ambient: Ambient,
)
    requires
        d.phase == Phase::Recording,
    ensures
        ({
            let event = EventView::Audio { session: d.session, samples, level };
            let next = d.after(event, ambient);
            &&& next.buffer == d.buffer + samples
            &&& next.ui.levels == if d.ui.levels.len() >= 48 {
                d.ui.levels.push(level).skip(1)
            } else {
                d.ui.levels.push(level)
            }
            &&& next.phase == d.phase && next.session == d.session && next.capturing == d.capturing
            &&& d.actions(event, ambient) == Seq::<ActionView<S>>::empty()
        }),
{
}

/// From the transcription to the insertion: the text waits while the overlay
/// closes, is inserted once it is gone, and the session is over.
pub proof fn law_text_is_inserted<S>(
    d: DaemonView<S>,
    text: Seq<char>,
    a: Ambient,
    b: Ambient,
)
    requires
        d.consistent(),
        d.phase == Phase::Transcribing,
        d.pending_insert is None,
        text.len() > 0,
    ensures
        ({
            let done = EventView::<S>::Worker(
                OutcomeView::Transcribed { session: d.session, text },
            );
            let closed = EventView::<S>::Osd { session: d.session, event: OsdEvent::Closed };
            let waiting = d.after(done, a);
            &&& d.actions(done, a) == seq![ActionView::<S>::CloseOsd]
            &&& waiting.phase == Phase::Transcribing
            &&& waiting.actions(closed, b) == seq![
                ActionView::<S>::Insert { text, mode: d.cfg.insert_mode },
            ]
            &&& holds_nothing(waiting.after(closed, b))
        }),
{
}

/// A transcription without text ends the session with a message for 1.2
/// seconds, a failed one with its error for 2.5 seconds; nothing is inserted.
pub proof fn law_other_outcomes_are_reported<S>(
    d: DaemonView<S>,
    error: Seq<char>,
    ambient: Ambient,
)
    requires
        d.consistent(),
        d.phase == Phase::Transcribing,
    ensures
        shows_message(
            d.after(
                EventView::Worker(
                    OutcomeView::Transcribed { session: d.session, text: Seq::empty() },
                ),
                ambient,
            ),
            d.session,
            FeedbackKind::Info,
            "nada detectado"@,
            (ambient.now + 1_200_000_000) as u64,
        ),
        shows_message(
            d.after(
                EventView::Worker(OutcomeView::Failed { session: d.session, msg: error }),
                ambient,
            ),
            d.session,
            FeedbackKind::Error,
            error,
            (ambient.now + 2_500_000_000) as u64,
        ),
        d.actions(
            EventView::Worker(OutcomeView::Failed { session: d.session, msg: error }),
            ambient,
        ) == Seq::<ActionView<S>>::empty(),
        d.actions(
            EventView::Worker(
                OutcomeView::Transcribed { session: d.session, text: Seq::empty() },
            ),
            ambient,
        ) == Seq::<ActionView<S>>::empty(),
{
}

/// An outcome that is not awaited changes nothing.
pub proof fn law_unawaited_outcome_changes_nothing<S>(
    d: DaemonView<S>,
    out: OutcomeView,
    ambient: Ambient,
)
    requires
        d.phase != Phase::Transcribing,
    ensures
        d.after(EventView::Worker(out), ambient) == d,
{
}

/// A session that waits for the engine records once it is there, and the
/// recorder is started; where the engine cannot be loaded it ends with the
/// error for 2.5 seconds.
#[verifier::rlimit(40)]
#[verifier::spinoff_prover]
pub proof fn law_waiting_session_records_with_the_engine<S>(
    d: DaemonView<S>,
    engine: EngineInfo,
    error: Seq<char>,
    ambient: Ambient,
)
    requires
        d.consistent(),
        d.phase == Phase::Loading,
    ensures
        ({
            let loaded = EventView::<S>::EngineLoaded { session: d.session, result: Ok(engine) };
            let next = d.after(loaded, ambient);
            let actions = d.actions(loaded, ambient);
            &&& next.phase == Phase::Recording && next.engine == Some(engine) && next.buffer
                == d.buffer && next.session == d.session && next.osd_open == d.osd_open
            &&& next.ui.warning == warning_text(
                d.cfg.insert_mode != InsertMode::CopyToClipboard && !ambient.wtype_available,
                !engine.vad_available,
                d.cfg.ai.enabled && !ambient.ai_available,
            )
            &&& actions.last() == (ActionView::<S>::StartCapture { session: d.session })
            &&& actions.drop_last().last() == ActionView::<S>::KeepEngine
        }),
        ({
            let failed = EventView::<S>::EngineLoaded { session: d.session, result: Err(error) };
            &&& shows_message(
                d.after(failed, ambient),
                d.session,
                FeedbackKind::Error,
                "modelo indisponível: "@ + error,
                (ambient.now + 2_500_000_000) as u64,
            )
            &&& d.after(failed, ambient).engine == d.engine
            &&& d.actions(failed, ambient) == Seq::<ActionView<S>>::empty()
        }),
{
}

/// A recorder that runs is noted, and the recording goes on; one that cannot be
/// started, or ends by itself, ends the session with a message for 2 seconds.
#[verifier::rlimit(40)]
#[verifier::spinoff_prover]
pub proof fn law_recorder_failures_are_reported<S>(
    d: DaemonView<S>,
    error: Seq<char>,
    stderr: Seq<char>,
    ambient: Ambient,
)
    requires
        d.consistent(),
        d.phase == Phase::Recording || d.phase == Phase::Paused,
    ensures
        d.after(EventView::CaptureStarted(Ok(())), ambient) == (DaemonView {
            capturing: true,
            ..d
        }),
        shows_message(
            d.after(EventView::CaptureStarted(Err(error)), ambient),
            d.session,
            FeedbackKind::Error,
            "áudio: "@ + error,
            (ambient.now + 2_000_000_000) as u64,
        ),
        error.len() > 0 ==> shows_message(
            d.after(
                EventView::AudioEnded { session: d.session, error: Some(error), stderr },
                ambient,
            ),
            d.session,
            FeedbackKind::Error,
            "áudio indisponível: "@ + error,
            (ambient.now + 2_000_000_000) as u64,
        ),
        shows_message(
            d.after(
                EventView::AudioEnded { session: d.session, error: None, stderr },
                ambient,
            ),
            d.session,
            FeedbackKind::Error,
            if d.capturing && trim(stderr).len() > 0 {
                "áudio indisponível: "@ + trim(stderr)
            } else {
                "captura de áudio encerrou"@
            },
            (ambient.now + 2_000_000_000) as u64,
        ),
        d.capturing ==> d.actions(
            EventView::AudioEnded { session: d.session, error: Some(error), stderr },
            ambient,
        ) == seq![ActionView::<S>::StopCapture],
{
}

/// The end of the recorder outside of a recording changes nothing.
pub proof fn law_late_end_of_recorder_changes_nothing<S>(
    d: DaemonView<S>,
    error: Option<Seq<char>>,
    stderr: Seq<char>,
    ambient: Ambient,
)
    requires
        d.phase != Phase::Recording,
        d.phase != Phase::Paused,
    ensures
        d.after(EventView::AudioEnded { session: d.session, error, stderr }, ambient) == d,
{
}

/// While a message is shown, the overlay heeds only the keys that end it.
pub proof fn law_message_blocks_other_keys<S>(
    d: DaemonView<S>,
    event: OsdEvent,
    ambient: Ambient,
)
    requires
        d.feedback is Some,
        event == OsdEvent::PauseToggle || event == OsdEvent::Commit || event
            == OsdEvent::SmartToggle,
    ensures
        d.after(EventView::Osd { session: d.session, event }, ambient) == d,
        d.actions(EventView::Osd { session: d.session, event }, ambient) == Seq::<
            ActionView<S>,
        >::empty(),
{
}

/// A message stays until its time is over.
pub proof fn law_message_stays_for_its_time<S>(d: DaemonView<S>, ambient: Ambient)
    requires
        d.consistent(),
        d.feedback matches Some(f) && ambient.now < f.deadline,
    ensures
        ({
            let next = d.after(EventView::Tick, ambient);
            next.feedback == d.feedback && next.ui.feedback == d.ui.feedback && next.osd_open
                == d.osd_open && next.phase == d.phase
        }),
        !d.actions(EventView::Tick, ambient).contains(ActionView::<S>::CloseOsd),
{
}

/// The smart key turns the smart mode of a recording round where the language
/// model is there, and changes nothing of the recording.
pub proof fn law_smart_key_turns_the_mode_round<S>(d: DaemonView<S>, ambient: Ambient)
    requires
        d.consistent(),
        d.phase == Phase::Recording || d.phase == Phase::Paused,
    ensures
        ({
            let key = EventView::<S>::Osd { session: d.session, event: OsdEvent::SmartToggle };
            let next = d.after(key, ambient);
            &&& next.ui.smart == (if ambient.ai_available {
                !d.ui.smart
            } else {
                d.ui.smart
            })
            &&& next.phase == d.phase && next.buffer == d.buffer && next.capturing == d.capturing
                && next.session == d.session
            &&& !ambient.ai_available ==> next.ui.feedback == Some(
                FeedbackView { kind: FeedbackKind::Info, message: "Smart indisponível"@ },
            ) && next.notice == Some((ambient.now + 2_000_000_000) as u64)
            &&& d.actions(key, ambient) == Seq::<ActionView<S>>::empty()
        }),
{
}

/// The overlay that closes by itself ends the session; without a text that
/// waits nothing is inserted.
pub proof fn law_closed_overlay_ends_the_session<S>(d: DaemonView<S>, ambient: Ambient)
    requires
        d.consistent(),
        d.pending_insert is None,
    ensures
        ({
            let closed = EventView::<S>::Osd { session: d.session, event: OsdEvent::Closed };
            &&& holds_nothing(d.after(closed, ambient))
            &&& d.capturing ==> d.actions(closed, ambient).contains(ActionView::<S>::StopCapture)
            &&& forall|a: ActionView<S>| #[trigger]
                d.actions(closed, ambient).contains(a) ==> a is StopCapture || a is CloseOsd
        }),
{
    let closed = EventView::<S>::Osd { session: d.session, event: OsdEvent::Closed };
    if d.capturing {
        assert(d.actions(closed, ambient)[0] == ActionView::<S>::StopCapture);
    }
}

/// An idle daemon loads the engine anew, once, where its settings have
/// changed; a session is never disturbed by it.
pub proof fn law_changed_engine_is_loaded_when_idle<S>(d: DaemonView<S>, ambient: Ambient)
    requires
        d.feedback is None,
    ensures
        d.phase == Phase::Idle && d.pending_engine_reload && d.engine is Some ==> d.actions(
            EventView::Tick,
            ambient,
        ) == seq![ActionView::<S>::LoadEngine { session: d.session }] && !d.after(
            EventView::Tick,
            ambient,
        ).pending_engine_reload,
        d.phase != Phase::Idle || !d.pending_engine_reload || d.engine is None ==> d.actions(
            EventView::Tick,
            ambient,
        ) == Seq::<ActionView<S>>::empty() && d.after(
            EventView::Tick,
            ambient,
        ).pending_engine_reload == d.pending_engine_reload,
        d.after(EventView::Tick, ambient).phase == d.phase,
        d.after(EventView::Tick, ambient).buffer == d.buffer,
{
}

/// The answer to each command names the phase; only that to the status names
/// the program, the language, the model and the smart mode.
pub proof fn law_answers_name_the_phase<S>(d: DaemonView<S>, cmd: Cmd, exe: Option<Seq<char>>)
    ensures
        ({
            let r = d.response(cmd, exe);
            &&& r.error is None
            &&& cmd == Cmd::Stop ==> r.state == "stopping"@
            &&& cmd != Cmd::Stop ==> r.state == match d.phase {
                Phase::Idle => "idle"@,
                Phase::Recording => "recording"@,
                Phase::Paused => "paused"@,
                Phase::Transcribing => "transcribing"@,
                Phase::Loading => "loading"@,
            }
            &&& cmd == Cmd::Status ==> r.exe == exe && r.model == Some(d.cfg.model) && r.smart
                == Some(d.ui.smart && d.phase != Phase::Idle) && r.language == Some(
                match d.cfg.language {
                    Language::Pt => "pt"@,
                    Language::En => "en"@,
                    Language::Auto => "auto"@,
                },
            )
            &&& cmd != Cmd::Status ==> r.exe is None && r.model is None && r.smart is None
                && r.language is None
        }),
{
}

/// A recording is handed over as a whole, once, and only by the session that
/// made it.
#[verifier::rlimit(40)]
#[verifier::spinoff_prover]
pub proof fn law_recording_is_handed_over_whole<S>(
    d: DaemonView<S>,
    event: EventView<S>,
    ambient: Ambient,
    session: u64,
    samples: Seq<S>,
    smart: bool,
)
    requires
        d.actions(event, ambient).contains(ActionView::Transcribe { session, samples, smart }),
    ensures
        session == d.session,
        samples == d.buffer,
        samples.len() > 0,
        smart == d.ui.smart,
        d.phase.in_recording(),
        d.after(event, ambient).phase == Phase::Transcribing,
        d.after(event, ambient).buffer.len() == 0,
        !d.after(event, ambient).capturing,
{
    let action = ActionView::<S>::Transcribe { session, samples, smart };
    let list = d.actions(event, ambient);
    let i = choose|i: int| 0 <= i < list.len() && list[i] == action;
}

// ---------------------------------------------------------------------------
// Configuration and engine
// ---------------------------------------------------------------------------

/// An engine is loaded only while no session is running: for a new session
/// that has none, or for settings that have changed.
#[verifier::rlimit(40)]
#[verifier::spinoff_prover]
pub proof fn law_engine_is_loaded_when_idle<S>(
    d: DaemonView<S>,
    event: EventView<S>,
    ambient: Ambient,
    session: u64,
)
    requires
        d.actions(event, ambient).contains(ActionView::LoadEngine { session }),
    ensures
        d.phase == Phase::Idle,
        d.engine is None ==> d.after(event, ambient).phase == Phase::Loading,
        d.engine is Some ==> d.pending_engine_reload && !d.after(
            event,
            ambient,
        ).pending_engine_reload,
        session == d.after(event, ambient).session,
{
    let action = ActionView::<S>::LoadEngine { session };
    let list = d.actions(event, ambient);
    let i = choose|i: int| 0 <= i < list.len() && list[i] == action;
}

/// An engine that was loaded once is there ever after.
pub proof fn law_engine_stays_resident<S>(
    d: DaemonView<S>,
    event: EventView<S>,
    ambient: Ambient,
)
    requires
        d.engine is Some,
    ensures
        d.after(event, ambient).engine is Some,
{
}

/// An engine that cannot be loaded anew leaves the present one in place.
pub proof fn law_failed_reload_keeps_the_engine<S>(
    d: DaemonView<S>,
    error: Seq<char>,
    ambient: Ambient,
)
    requires
        d.phase == Phase::Idle,
    ensures
        d.after(EventView::EngineLoaded { session: d.session, result: Err(error) }, ambient) == d,
{
}

/// An invalid configuration leaves the previous one in place.
pub proof fn law_invalid_configuration_is_ignored<S>(
    d: DaemonView<S>,
    mtime: Option<i128>,
    error: Seq<char>,
    ambient: Ambient,
)
    ensures
        d.after(EventView::ConfigLoaded { mtime, loaded: Err(error) }, ambient) == (DaemonView {
            cfg_mtime: mtime,
            ..d
        }),
{
}

/// A valid configuration holds at once and does not disturb the session; the
/// engine is loaded anew where its own settings have changed.
pub proof fn law_configuration_is_taken_at_once<S>(
    d: DaemonView<S>,
    mtime: Option<i128>,
    cfg: ConfigView,
    ambient: Ambient,
)
    ensures
        ({
            let next = d.after(EventView::ConfigLoaded { mtime, loaded: Ok(cfg) }, ambient);
            &&& next.cfg == cfg
            &&& next == DaemonView {
                cfg,
                cfg_mtime: mtime,
                pending_engine_reload: next.pending_engine_reload,
                ..d
            }
            &&& !d.pending_engine_reload ==> (next.pending_engine_reload <==> cfg.model
                != d.cfg.model || cfg.gpu_device != d.cfg.gpu_device || cfg.threads
                != d.cfg.threads)
        }),
{
}

/// Other settings of the language model end its server and touch neither the
/// engine nor the session.
pub proof fn law_model_settings_end_the_server<S>(
    d: DaemonView<S>,
    mtime: Option<i128>,
    cfg: ConfigView,
    ambient: Ambient,
)
    requires
        cfg.ai != d.cfg.ai,
        cfg.same_engine(d.cfg),
    ensures
        ({
            let event = EventView::<S>::ConfigLoaded { mtime, loaded: Ok(cfg) };
            &&& d.actions(event, ambient)[0] == ActionView::<S>::KillServer
            &&& d.after(event, ambient).pending_engine_reload == d.pending_engine_reload
        }),
{
}

/// Where the smart mode is not possible, the recording goes on: only a
/// message is shown, and it goes away by itself.
pub proof fn law_smart_notice_is_temporary<S>(d: DaemonView<S>, a: Ambient, b: Ambient)
    requires
        d.consistent(),
        d.phase.in_recording(),
        !a.ai_available,
        a.now + crate::daemon::AUDIO_FEEDBACK_DURATION <= b.now,
        !d.reload_due(),
    ensures
        ({
            let toggle = EventView::<S>::Osd { session: d.session, event: OsdEvent::SmartToggle };
            let told = d.after(toggle, a);
            &&& told.phase == d.phase && told.buffer == d.buffer && told.capturing == d.capturing
            &&& told.ui.feedback is Some
            &&& told.after(EventView::Tick, b) == DaemonView {
                notice: None,
                ui: UiView { feedback: None, ..d.ui },
                ..d
            }
        }),
{
}

/// The smart mode belongs to one session: a new one begins without it.
pub proof fn law_smart_mode_ends_with_the_session<S>(d: DaemonView<S>, ambient: Ambient)
    ensures
        !d.started(ambient).ui.smart,
{
}

/// An engine that was loaded for the current session is taken, whatever the
/// phase; only a session that waits for it moves on.
pub proof fn law_loaded_engine_is_taken<S>(d: DaemonView<S>, engine: EngineInfo, ambient: Ambient)
    ensures
        ({
            let loaded = EventView::<S>::EngineLoaded { session: d.session, result: Ok(engine) };
            let next = d.after(loaded, ambient);
            &&& next.engine == Some(engine)
            &&& d.phase != Phase::Loading ==> next == DaemonView { engine: Some(engine), ..d }
            &&& d.actions(loaded, ambient).contains(ActionView::<S>::KeepEngine)
            &&& d.actions(loaded, ambient).contains(
                ActionView::<S>::Note(NoticeView::NoVad),
            ) == !engine.vad_available
        }),
{
    let loaded = EventView::<S>::EngineLoaded { session: d.session, result: Ok(engine) };
    let list = d.actions(loaded, ambient);
    if engine.vad_available {
        assert(list[0] == ActionView::<S>::KeepEngine);
    } else {
        assert(list[0] == ActionView::<S>::Note(NoticeView::NoVad));
        assert(list[1] == ActionView::<S>::KeepEngine);
    }
}

/// The key that cancels and the stop command let go of the recorder and the
/// overlay too, where they are there.
pub proof fn law_every_end_lets_go<S>(d: DaemonView<S>, ambient: Ambient)
    requires
        d.consistent(),
    ensures
        ({
            let key = EventView::<S>::Osd { session: d.session, event: OsdEvent::Cancel };
            let stop = EventView::<S>::Command(Cmd::Stop);
            &&& d.capturing ==> d.actions(key, ambient).contains(ActionView::<S>::StopCapture)
                && d.actions(stop, ambient).contains(ActionView::<S>::StopCapture)
            &&& d.osd_open ==> d.actions(key, ambient).contains(ActionView::<S>::CloseOsd)
                && d.actions(stop, ambient).contains(ActionView::<S>::CloseOsd)
        }),
{
    let key = d.actions(
        EventView::<S>::Osd { session: d.session, event: OsdEvent::Cancel },
        ambient,
    );
    let stop = d.actions(EventView::<S>::Command(Cmd::Stop), ambient);
    if d.capturing {
        assert(key[0] == ActionView::<S>::StopCapture);
        assert(stop[0] == ActionView::<S>::StopCapture);
    }
    if d.osd_open {
        assert(key[key.len() - 1] == ActionView::<S>::CloseOsd);
        assert(stop[stop.len() - 2] == ActionView::<S>::CloseOsd);
    }
}

/// A configuration with the same settings of the language model leaves its
/// server running.
pub proof fn law_other_settings_keep_the_server<S>(
    d: DaemonView<S>,
    mtime: Option<i128>,
    cfg: ConfigView,
    ambient: Ambient,
)
    requires
        cfg.ai == d.cfg.ai,
    ensures
        d.actions(EventView::ConfigLoaded { mtime, loaded: Ok(cfg) }, ambient) == seq![
            ActionView::<S>::Note(NoticeView::ConfigReloaded),
        ],
{
}

} // verus!
