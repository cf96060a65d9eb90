//! State of the overlay: what the daemon shows, which keys it knows, and the
//! size of its buffer.
use std::collections::VecDeque;
use vstd::prelude::*;

use crate::text::text_of;

verus! {

/// What the overlay shows.
#[derive(Debug, Clone, Copy, PartialEq, Eq, Structural)]
pub enum Phase {
    Recording,
    Paused,
    Transcribing,
    Loading,
    Cleaning,
    Info,
    Error,
}

/// The kind of a temporary message.
#[derive(Debug, Clone, Copy, PartialEq, Eq, Structural)]
pub enum FeedbackKind {
    Info,
    Error,
}

/// A temporary message.
#[derive(Debug, Clone, PartialEq, Eq)]
pub struct Feedback {
    pub kind: FeedbackKind,
    pub message: String,
}

/// The contents of a [`Feedback`].
#[verifier::ext_equal]
pub struct FeedbackView {
    pub kind: FeedbackKind,
    pub message: Seq<char>,
}

impl View for Feedback {
    type V = FeedbackView;

    open spec fn view(&self) -> FeedbackView {
        FeedbackView { kind: self.kind, message: self.message@ }
    }
}

/// The contents of an optional [`Feedback`].
pub open spec fn feedback_of(f: Option<Feedback>) -> Option<FeedbackView> {
    match f {
        Some(f) => Some(f@),
        None => None,
    }
}

/// How many levels the waveform keeps.
pub const MAX_LEVELS: usize = 48;

/// The state that the overlay draws. `L` is the type of an audio level.
#[derive(Debug, Clone)]
pub struct UiState<L> {
    pub phase: Phase,
    pub status: Option<String>,
    /// A lasting warning in the footer of the card.
    pub warning: Option<String>,
    /// The latest audio levels, oldest first.
    pub levels: VecDeque<L>,
    pub lang_model: String,
    /// Does the session apply the instruction that it begins with?
    pub smart: bool,
    pub feedback: Option<Feedback>,
}

/// The contents of a [`UiState`].
#[verifier::ext_equal]
pub struct UiView<L> {
    pub phase: Phase,
    pub status: Option<Seq<char>>,
    pub warning: Option<Seq<char>>,
    pub levels: Seq<L>,
    pub lang_model: Seq<char>,
    pub smart: bool,
    pub feedback: Option<FeedbackView>,
}

impl<L> View for UiState<L> {
    type V = UiView<L>;

    open spec fn view(&self) -> UiView<L> {
        UiView {
            phase: self.phase,
            status: text_of(self.status),
            warning: text_of(self.warning),
            levels: self.levels@,
            lang_model: self.lang_model@,
            smart: self.smart,
            feedback: feedback_of(self.feedback),
        }
    }
}

impl<L> UiView<L> {
    /// The state at the beginning of a session.
    pub open spec fn fresh(lang_model: Seq<char>) -> UiView<L> {
        UiView {
            phase: Phase::Loading,
            status: None,
            warning: None,
            levels: Seq::empty(),
            lang_model,
            smart: false,
            feedback: None,
        }
    }

    /// The state after one more level: the oldest one leaves when there are
    /// too many.
    pub open spec fn with_level(self, level: L) -> UiView<L> {
        let pushed = self.levels.push(level);
        UiView {
            levels: if pushed.len() > MAX_LEVELS {
                pushed.skip(1)
            } else {
                pushed
            },
            ..self
        }
    }
}

impl<L> UiState<L> {
    /// The state at the beginning of a session.
    pub fn new(lang_model: String) -> (r: UiState<L>)
        ensures
            r@ == UiView::<L>::fresh(lang_model@),
    {
        UiState {
            phase: Phase::Loading,
            status: None,
            warning: None,
            levels: VecDeque::new(),
            lang_model,
            smart: false,
            feedback: None,
        }
    }

    /// Adds a level to the waveform.
    pub fn push_level(&mut self, rms: L)
        ensures
            final(self)@ == old(self)@.with_level(rms),
    {
        if self.levels.len() >= MAX_LEVELS {
            self.levels.pop_front();
        }
        self.levels.push_back(rms);
        proof {
            let pushed = old(self)@.levels.push(rms);
            assert(pushed.len() > MAX_LEVELS ==> self@.levels =~= pushed.skip(1));
        }
    }
}

/// The waveform never grows past its limit, and the newest level is the last.
pub proof fn law_levels_bounded<L>(ui: UiView<L>, level: L)
    requires
        ui.levels.len() <= MAX_LEVELS,
    ensures
        ui.with_level(level).levels.len() <= MAX_LEVELS,
        ui.with_level(level).levels.last() == level,
        ui.levels.len() < MAX_LEVELS ==> ui.with_level(level).levels == ui.levels.push(level),
        ui.levels.len() == MAX_LEVELS ==> ui.with_level(level).levels == ui.levels.skip(1).push(
            level,
        ),
{
    assert(ui.levels.len() == MAX_LEVELS ==> ui.levels.push(level).skip(1) =~= ui.levels.skip(
        1,
    ).push(level));
}

/// What the overlay reports to the daemon.
#[derive(Debug, Clone, Copy, PartialEq, Eq, Structural)]
pub enum OsdEvent {
    PauseToggle,
    Commit,
    Cancel,
    SmartToggle,
    /// The overlay is gone.
    Closed,
}

/// What the daemon asks of the overlay.
#[derive(Debug, Clone, Copy, PartialEq, Eq, Structural)]
pub enum OsdCommand {
    Close,
}

/// The X key symbols that the overlay knows.
pub const KEY_SPACE: u32 = 0x20;

pub const KEY_RETURN: u32 = 0xff0d;

pub const KEY_KP_ENTER: u32 = 0xff8d;

pub const KEY_ESCAPE: u32 = 0xff1b;

pub const KEY_S: u32 = 0x73;

pub const KEY_SHIFT_S: u32 = 0x53;

/// What a key means to a dictation session.
pub fn key_event(keysym: u32) -> (r: Option<OsdEvent>)
    ensures
        r == if keysym == KEY_SPACE {
            Some(OsdEvent::PauseToggle)
        } else if keysym == KEY_RETURN || keysym == KEY_KP_ENTER {
            Some(OsdEvent::Commit)
        } else if keysym == KEY_ESCAPE {
            Some(OsdEvent::Cancel)
        } else if keysym == KEY_S || keysym == KEY_SHIFT_S {
            Some(OsdEvent::SmartToggle)
        } else {
            None
        },
{
    if keysym == KEY_SPACE {
        Some(OsdEvent::PauseToggle)
    } else if keysym == KEY_RETURN || keysym == KEY_KP_ENTER {
        Some(OsdEvent::Commit)
    } else if keysym == KEY_ESCAPE {
        Some(OsdEvent::Cancel)
    } else if keysym == KEY_S || keysym == KEY_SHIFT_S {
        Some(OsdEvent::SmartToggle)
    } else {
        None
    }
}

/// The scale of an output: at least one.
pub fn output_scale(factor: i32) -> (r: u32)
    ensures
        r == if factor < 1 {
            1
        } else {
            factor as int
        },
{
    if factor < 1 {
        1
    } else {
        factor as u32
    }
}

/// The width of the buffer before scaling.
pub const SURFACE_W: i32 = 1920;

/// The width of the card before scaling.
pub const CARD_W: u32 = 460;

/// The height of the card before scaling.
pub const CARD_H: u32 = 148;

/// The memory that one frame takes.
#[derive(Debug, Clone, Copy, PartialEq, Eq, Structural)]
pub struct FrameSize {
    pub width: i32,
    pub height: i32,
    /// The bytes of one row.
    pub stride: i32,
}

/// The size of a frame: four bytes to a pixel. There is none where the scale
/// is so large that a row would not fit.
pub fn frame_size(scale: u32) -> (r: Option<FrameSize>)
    ensures
        r == if scale * 1920 * 4 <= i32::MAX {
            Some(
                (FrameSize {
                    width: (scale * 1920) as i32,
                    height: (scale * 148) as i32,
                    stride: (scale * 1920 * 4) as i32,
                }),
            )
        } else {
            None
        },
{
    if scale > 279_620 {
        return None;
    }
    let s: i32 = scale as i32;
    Some(FrameSize { width: s * 1920, height: s * 148, stride: s * 1920 * 4 })
}

/// What one round of the loop of the overlay leads to, once the socket was
/// read.
#[derive(Debug, Clone, Copy, PartialEq, Eq, Structural)]
pub enum Round {
    /// Leave the loop.
    Leave,
    /// Draw a frame and go on.
    Draw,
    /// Go on without drawing: the surface has no size yet.
    Skip,
}

/// Decides one round: a socket that failed or a close command ends the loop.
pub fn round(socket_failed: bool, command: Option<OsdCommand>, configured: bool) -> (r: Round)
    ensures
        r == if socket_failed || command is Some {
            Round::Leave
        } else if configured {
            Round::Draw
        } else {
            Round::Skip
        },
{
    if socket_failed {
        return Round::Leave;
    }
    match command {
        Some(OsdCommand::Close) => Round::Leave,
        None => if configured {
            Round::Draw
        } else {
            Round::Skip
        },
    }
}

/// Space pauses and resumes, both enter keys conclude, escape cancels, and the
/// letter `s` turns the smart mode round; no other key means anything.
pub proof fn law_keys_of_the_overlay(keysym: u32, r: Option<OsdEvent>)
    requires
        call_ensures(key_event, (keysym,), r),
    ensures
        r == Some(OsdEvent::PauseToggle) <==> keysym == 0x20,
        r == Some(OsdEvent::Commit) <==> keysym == 0xff0d || keysym == 0xff8d,
        r == Some(OsdEvent::Cancel) <==> keysym == 0xff1b,
        r == Some(OsdEvent::SmartToggle) <==> keysym == 0x73 || keysym == 0x53,
        r != Some(OsdEvent::Closed),
{
}

} // verus!
