//! Putting the text into the focused window: typing it, copying it, or both.
use vstd::pervasive::unreached;
use vstd::prelude::*;

use crate::config::InsertMode;
use crate::text::{cat2, cat3, text_of};

verus! {

/// How to install the program that types.
pub fn wtype_hint() -> (r: &'static str)
    ensures
        r@
            == "instale o pacote wtype (NixOS: adicione pkgs.wtype ao environment.systemPackages; Arch: pacman -S wtype; Debian/Ubuntu: apt install wtype)"@,
{
    "instale o pacote wtype (NixOS: adicione pkgs.wtype ao environment.systemPackages; Arch: pacman -S wtype; Debian/Ubuntu: apt install wtype)"
}

/// What is known of a file: whether it is a regular one, and its permission
/// bits.
#[derive(Debug, Clone, Copy, PartialEq, Eq, Structural)]
pub struct FileInfo {
    pub is_file: bool,
    pub mode: u32,
}

/// A regular file that someone may execute.
pub open spec fn is_executable(info: Option<FileInfo>) -> bool {
    info matches Some(i) && i.is_file && i.mode & 0o111 != 0
}

/// Is it a regular file that someone may execute? There is no `info` on a
/// file that cannot be looked at.
pub fn executable_file(info: Option<FileInfo>) -> (r: bool)
    ensures
        r == is_executable(info),
{
    match info {
        Some(i) => i.is_file && i.mode & 0o111 != 0,
        None => false,
    }
}

/// Does one of the directories hold an executable `wtype`? `candidates` tells
/// what stands under that name in each of them.
pub fn has_wtype_in(candidates: &[Option<FileInfo>]) -> (r: bool)
    ensures
        r == exists|i: int| 0 <= i < candidates@.len() && is_executable(#[trigger] candidates@[i]),
{
    let mut i: usize = 0;
    while i < candidates.len()
        invariant
            i <= candidates@.len(),
            forall|j: int| 0 <= j < i ==> !is_executable(#[trigger] candidates@[j]),
        decreases candidates@.len() - i,
    {
        if executable_file(candidates[i]) {
            proof {
                assert(is_executable(candidates@[i as int]));
            }
            return true;
        }
        i += 1;
    }
    false
}

/// How the text reached the user.
#[derive(Debug, Clone, PartialEq, Eq)]
pub enum InsertOutcome {
    Inserted,
    Copied,
    /// Typing failed, and the text was copied instead.
    Fallback { reason: String },
    InsertedAndCopied,
}

/// What is still to be done, or what came of it. `typed` and `copied` are the
/// results so far; nothing where the program has not run.
#[derive(Debug, PartialEq, Eq)]
pub enum InsertStep {
    Type,
    Copy,
    Done(Result<InsertOutcome, String>),
}

/// The result of a program: `None` before it has run, then its error, if any.
pub type Ran = Option<Option<String>>;

/// The result of a program, as text.
pub open spec fn ran_view(r: Ran) -> Option<Option<Seq<char>>> {
    match r {
        Some(e) => Some(text_of(e)),
        None => None,
    }
}

/// What follows, as a statement over texts: whether to type or copy next, or
/// the outcome or the error.
pub enum StepView {
    Type,
    Copy,
    Inserted,
    Copied,
    Fallback { reason: Seq<char> },
    InsertedAndCopied,
    Failed { error: Seq<char> },
}

/// The contents of an [`InsertStep`].
pub open spec fn step_view(s: InsertStep) -> StepView {
    match s {
        InsertStep::Type => StepView::Type,
        InsertStep::Copy => StepView::Copy,
        InsertStep::Done(Ok(InsertOutcome::Inserted)) => StepView::Inserted,
        InsertStep::Done(Ok(InsertOutcome::Copied)) => StepView::Copied,
        InsertStep::Done(Ok(InsertOutcome::Fallback { reason })) => StepView::Fallback {
            reason: reason@,
        },
        InsertStep::Done(Ok(InsertOutcome::InsertedAndCopied)) => StepView::InsertedAndCopied,
        InsertStep::Done(Err(error)) => StepView::Failed { error: error@ },
    }
}

/// Typing comes first; copying follows where the mode asks for it, or where
/// typing failed and the mode falls back.
pub open spec fn step(
    mode: InsertMode,
    typed: Option<Option<Seq<char>>>,
    copied: Option<Option<Seq<char>>>,
) -> StepView {
    match mode {
        InsertMode::InsertText => match typed {
            None => StepView::Type,
            Some(None) => StepView::Inserted,
            Some(Some(e)) => StepView::Failed { error: e },
        },
        InsertMode::CopyToClipboard => match copied {
            None => StepView::Copy,
            Some(None) => StepView::Copied,
            Some(Some(e)) => StepView::Failed { error: e },
        },
        InsertMode::Fallback => match (typed, copied) {
            (None, _) => StepView::Type,
            (Some(None), _) => StepView::Inserted,
            (Some(Some(_)), None) => StepView::Copy,
            (Some(Some(e)), Some(None)) => StepView::Fallback { reason: e },
            (Some(Some(e)), Some(Some(c))) => StepView::Failed { error: e + "; "@ + c },
        },
        InsertMode::Both => match (typed, copied) {
            (None, _) => StepView::Type,
            (Some(_), None) => StepView::Copy,
            (Some(None), Some(None)) => StepView::InsertedAndCopied,
            (Some(Some(e)), Some(None)) => StepView::Failed {
                error: e + "; texto no clipboard — dá para colar manualmente"@,
            },
            (Some(None), Some(Some(c))) => StepView::Failed { error: c },
            (Some(Some(e)), Some(Some(c))) => StepView::Failed { error: e + "; "@ + c },
        },
    }
}

/// What follows, given the results so far.
pub fn insert_step(mode: InsertMode, typed: &Ran, copied: &Ran) -> (r: InsertStep)
    ensures
        step_view(r) == step(mode, ran_view(*typed), ran_view(*copied)),
{
    match mode {
        InsertMode::InsertText => match typed {
            None => InsertStep::Type,
            Some(None) => InsertStep::Done(Ok(InsertOutcome::Inserted)),
            Some(Some(e)) => InsertStep::Done(Err(e.clone())),
        },
        InsertMode::CopyToClipboard => match copied {
            None => InsertStep::Copy,
            Some(None) => InsertStep::Done(Ok(InsertOutcome::Copied)),
            Some(Some(e)) => InsertStep::Done(Err(e.clone())),
        },
        InsertMode::Fallback => match (typed, copied) {
            (None, _) => InsertStep::Type,
            (Some(None), _) => InsertStep::Done(Ok(InsertOutcome::Inserted)),
            (Some(Some(_)), None) => InsertStep::Copy,
            (Some(Some(e)), Some(None)) => InsertStep::Done(
                Ok(InsertOutcome::Fallback { reason: e.clone() }),
            ),
            (Some(Some(e)), Some(Some(c))) => InsertStep::Done(
                Err(cat3(e.as_str(), "; ", c.as_str())),
            ),
        },
        InsertMode::Both => match (typed, copied) {
            (None, _) => InsertStep::Type,
            (Some(_), None) => InsertStep::Copy,
            (Some(None), Some(None)) => InsertStep::Done(Ok(InsertOutcome::InsertedAndCopied)),
            (Some(Some(e)), Some(None)) => InsertStep::Done(
                Err(cat2(e.as_str(), "; texto no clipboard — dá para colar manualmente")),
            ),
            (Some(None), Some(Some(c))) => InsertStep::Done(Err(c.clone())),
            (Some(Some(e)), Some(Some(c))) => InsertStep::Done(
                Err(cat3(e.as_str(), "; ", c.as_str())),
            ),
        },
    }
}

/// The error of a result, if any.
pub open spec fn error_text(r: Result<(), String>) -> Option<Seq<char>> {
    match r {
        Ok(()) => None,
        Err(e) => Some(e@),
    }
}

fn error_of(r: Result<(), String>) -> (e: Option<String>)
    ensures
        text_of(e) == error_text(r),
{
    match r {
        Ok(()) => None,
        Err(e) => Some(e),
    }
}

/// The mode asks for typing.
pub open spec fn typing_due(mode: InsertMode) -> bool {
    mode != InsertMode::CopyToClipboard
}

/// The mode asks for copying: always, once typing was attempted, or once
/// typing has failed.
pub open spec fn copying_due<Insert>(attempt_insert: Insert, text: &str, mode: InsertMode) -> bool
    where Insert: FnOnce(&str) -> Result<(), String>
 {
    match mode {
        InsertMode::InsertText => false,
        InsertMode::CopyToClipboard => true,
        InsertMode::Both => exists|r: Result<(), String>| #[trigger]
            call_ensures(attempt_insert, (text,), r),
        InsertMode::Fallback => exists|e: String| #[trigger]
            call_ensures(attempt_insert, (text,), Err::<(), String>(e)),
    }
}

/// Types and copies the text as the mode asks, through the two functions that
/// are handed in. Each of them need be callable only where it is due, and is
/// called at most once: copying never in a mode that only types, nor before
/// typing was attempted where both are asked for, nor before it has failed
/// where copying is the fallback.
pub fn insert_with<Insert, Copy>(
    text: &str,
    mode: InsertMode,
    attempt_insert: Insert,
    copy_to_clipboard: Copy,
) -> (r: Result<InsertOutcome, String>) where
    Insert: FnOnce(&str) -> Result<(), String>,
    Copy: FnOnce(&str) -> Result<(), String>,

    requires
        typing_due(mode) ==> call_requires(attempt_insert, (text,)),
        copying_due(attempt_insert, text, mode) ==> call_requires(copy_to_clipboard, (text,)),
    ensures
        exists|typed: Option<Result<(), String>>, copied: Option<Result<(), String>>|
            #[trigger] inserted_by(attempt_insert, copy_to_clipboard, text, mode, typed, copied, r),
{
    let mut typed: Ran = None;
    let mut copied: Ran = None;
    let ghost mut typing: Option<Result<(), String>> = None;
    let ghost mut copying: Option<Result<(), String>> = None;
    match insert_step(mode, &typed, &copied) {
        InsertStep::Type => {
            let result = attempt_insert(text);
            proof {
                typing = Some(result);
            }
            typed = Some(error_of(result));
        },
        InsertStep::Copy | InsertStep::Done(_) => {},
    }
    match insert_step(mode, &typed, &copied) {
        InsertStep::Copy => {
            let result = copy_to_clipboard(text);
            proof {
                copying = Some(result);
            }
            copied = Some(error_of(result));
        },
        InsertStep::Type | InsertStep::Done(_) => {},
    }
    match insert_step(mode, &typed, &copied) {
        InsertStep::Done(outcome) => {
            proof {
                assert(inserted_by(
                    attempt_insert,
                    copy_to_clipboard,
                    text,
                    mode,
                    typing,
                    copying,
                    outcome,
                ));
            }
            outcome
        },
        InsertStep::Type | InsertStep::Copy => unreached(),
    }
}

/// The result of a call, as the rules see it.
pub open spec fn result_view(r: Option<Result<(), String>>) -> Option<Option<Seq<char>>> {
    match r {
        Some(r) => Some(error_text(r)),
        None => None,
    }
}

/// Where `typed` and `copied` are the results of the calls that were made, `r`
/// is the outcome that the rules give for them, and every call that was made
/// was due.
pub open spec fn inserted_by<Insert, Copy>(
    attempt_insert: Insert,
    copy_to_clipboard: Copy,
    text: &str,
    mode: InsertMode,
    typed: Option<Result<(), String>>,
    copied: Option<Result<(), String>>,
    r: Result<InsertOutcome, String>,
) -> bool where
    Insert: FnOnce(&str) -> Result<(), String>,
    Copy: FnOnce(&str) -> Result<(), String>,
 {
    &&& typed matches Some(t) ==> call_ensures(attempt_insert, (text,), t)
    &&& copied matches Some(c) ==> call_ensures(copy_to_clipboard, (text,), c)
    &&& typed is Some ==> step(mode, None, None) is Type
    &&& copied is Some ==> step(mode, result_view(typed), None) is Copy
    &&& step_view(InsertStep::Done(r)) == step(mode, result_view(typed), result_view(copied))
}

/// A mode that only copies never types; a mode that only types never copies;
/// falling back, the text is copied only after typing has failed.
pub proof fn law_modes_keep_to_their_programs(
    typed: Option<Option<Seq<char>>>,
    copied: Option<Option<Seq<char>>>,
)
    ensures
        !(step(InsertMode::CopyToClipboard, typed, copied) is Type),
        !(step(InsertMode::InsertText, typed, copied) is Copy),
        step(InsertMode::Fallback, typed, copied) is Copy ==> typed matches Some(Some(_)),
{
}

/// Where both programs are due, the text is typed before it is copied, and
/// it is copied whether or not typing succeeded.
pub proof fn law_both_copies_after_typing(typed: Option<Option<Seq<char>>>)
    ensures
        step(InsertMode::Both, None, None) is Type,
        typed is Some ==> step(InsertMode::Both, typed, None) is Copy,
{
}

/// The default mode leaves the clipboard alone where typing works.
pub proof fn law_fallback_preserves_clipboard(copied: Option<Option<Seq<char>>>)
    ensures
        step(InsertMode::Fallback, Some(None), copied) is Inserted,
{
}

/// What happened to a program that was run.
#[derive(Debug, Clone, PartialEq, Eq)]
pub enum Exit {
    Success,
    /// It ended with that status.
    Status(String),
    NotFound,
    /// It could not be run.
    Error(String),
}

/// The result of typing.
pub fn typing_result(exit: &Exit) -> (r: Result<(), String>)
    ensures
        error_text(r) == match *exit {
            Exit::Success => None,
            Exit::Status(s) => Some("wtype saiu com status "@ + s@),
            Exit::NotFound => Some(
                "wtype não encontrado no PATH — "@
                    + "instale o pacote wtype (NixOS: adicione pkgs.wtype ao environment.systemPackages; Arch: pacman -S wtype; Debian/Ubuntu: apt install wtype)"@,
            ),
            Exit::Error(e) => Some("wtype: "@ + e@),
        },
{
    match exit {
        Exit::Success => Ok(()),
        Exit::Status(s) => Err(cat2("wtype saiu com status ", s.as_str())),
        Exit::NotFound => Err(cat2("wtype não encontrado no PATH — ", wtype_hint())),
        Exit::Error(e) => Err(cat2("wtype: ", e.as_str())),
    }
}

/// What happened to the program that copies.
#[derive(Debug, Clone, PartialEq, Eq)]
pub enum CopyExit {
    Success,
    Status(String),
    /// It could not be run.
    Spawn(String),
    /// It gave no way to hand it the text.
    NoStdin,
    /// The text could not be handed over.
    Write(String),
    /// Its end could not be awaited.
    Wait(String),
}

/// The result of copying.
pub fn copying_result(exit: &CopyExit) -> (r: Result<(), String>)
    ensures
        error_text(r) == match *exit {
            CopyExit::Success => None,
            CopyExit::Status(s) => Some("wl-copy saiu com status "@ + s@),
            CopyExit::Spawn(e) => Some("wl-copy: "@ + e@),
            CopyExit::NoStdin => Some(
                "wl-copy: escrevendo texto: "@ + "wl-copy não aceitou stdin"@,
            ),
            CopyExit::Write(e) => Some("wl-copy: escrevendo texto: "@ + e@),
            CopyExit::Wait(e) => Some("wl-copy: aguardando processo: "@ + e@),
        },
{
    match exit {
        CopyExit::Success => Ok(()),
        CopyExit::Status(s) => Err(cat2("wl-copy saiu com status ", s.as_str())),
        CopyExit::Spawn(e) => Err(cat2("wl-copy: ", e.as_str())),
        CopyExit::NoStdin => Err(cat2("wl-copy: escrevendo texto: ", "wl-copy não aceitou stdin")),
        CopyExit::Write(e) => Err(cat2("wl-copy: escrevendo texto: ", e.as_str())),
        CopyExit::Wait(e) => Err(cat2("wl-copy: aguardando processo: ", e.as_str())),
    }
}

/// What the log says of an insertion: nothing where the text went as asked.
pub fn insertion_notice(result: &Result<InsertOutcome, String>) -> (r: Option<String>)
    ensures
        text_of(r) == match *result {
            Ok(InsertOutcome::Fallback { reason }) => Some(
                "whisper: não foi possível inserir o texto; ele foi copiado para a área de transferência. Motivo: "@
                    + reason@,
            ),
            Ok(_) => None,
            Err(e) => Some("whisper: inserção falhou: "@ + e@),
        },
{
    match result {
        Ok(InsertOutcome::Fallback { reason }) => Some(
            cat2(
                "whisper: não foi possível inserir o texto; ele foi copiado para a área de transferência. Motivo: ",
                reason.as_str(),
            ),
        ),
        Ok(_) => None,
        Err(e) => Some(cat2("whisper: inserção falhou: ", e.as_str())),
    }
}

/// What the results of the programs come to, in each mode. Where both were
/// run, a failure of either is an error, but for the fallback: there a copy
/// makes up for failed typing.
pub proof fn law_outcomes_of_the_modes(e: Seq<char>, c: Seq<char>)
    ensures
        step(InsertMode::InsertText, None, None) is Type,
        step(InsertMode::InsertText, Some(None), None) is Inserted,
        step(InsertMode::InsertText, Some(Some(e)), None) == (StepView::Failed { error: e }),
        step(InsertMode::CopyToClipboard, None, None) is Copy,
        step(InsertMode::CopyToClipboard, None, Some(None)) is Copied,
        step(InsertMode::CopyToClipboard, None, Some(Some(c))) == (StepView::Failed { error: c }),
        step(InsertMode::Fallback, None, None) is Type,
        step(InsertMode::Fallback, Some(None), None) is Inserted,
        step(InsertMode::Fallback, Some(Some(e)), None) is Copy,
        step(InsertMode::Fallback, Some(Some(e)), Some(None)) == (StepView::Fallback { reason: e }),
        step(InsertMode::Fallback, Some(Some(e)), Some(Some(c))) == (StepView::Failed {
            error: e + "; "@ + c,
        }),
        step(InsertMode::Both, Some(None), Some(None)) is InsertedAndCopied,
        step(InsertMode::Both, Some(Some(e)), Some(None)) == (StepView::Failed {
            error: e + "; texto no clipboard — dá para colar manualmente"@,
        }),
        step(InsertMode::Both, Some(None), Some(Some(c))) == (StepView::Failed { error: c }),
        step(InsertMode::Both, Some(Some(e)), Some(Some(c))) == (StepView::Failed {
            error: e + "; "@ + c,
        }),
{
}

} // verus!
