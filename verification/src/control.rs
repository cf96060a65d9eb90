//! The commands that start and end the daemon, as a course of replies and
//! deeds.
use vstd::prelude::*;

use crate::cli::{
    answer_error, exit_poll, start_poll, start_step, stop_result, Poll, Reply, StartStep,
    StopResult, EXIT_PAUSE, EXIT_TRIES, START_PAUSE, START_TRIES,
};
use crate::text::str_text_of;

verus! {

/// What the user asked for.
#[derive(Debug, Clone, Copy, PartialEq, Eq, Structural)]
pub enum Goal {
    Start,
    Stop,
    Restart,
}

/// The reply that is awaited.
#[derive(Debug, Clone, Copy, PartialEq, Eq, Structural)]
pub enum Awaiting {
    /// Who listens, before a start.
    Status,
    /// The answer to the request to stop.
    Stop,
    /// The end of the old daemon, after `asked` earlier questions.
    Exit { asked: u32 },
    /// The first answer of the new daemon, after `asked` earlier questions.
    Answer { asked: u32 },
}

/// How far a command has come.
#[derive(Debug, Clone, Copy, PartialEq, Eq, Structural)]
pub struct Control {
    pub goal: Goal,
    pub awaiting: Awaiting,
    /// Was there a daemon when it was asked to stop?
    pub was_running: bool,
}

/// What is done next.
#[derive(Debug, PartialEq, Eq)]
pub enum Deed {
    /// Pause for so many milliseconds, then ask for the status.
    AskStatus { pause: u64 },
    /// Ask the daemon to stop, which belongs to another program where one is
    /// being started.
    AskStop { replacing: bool },
    /// Launch the daemon, then ask for the status.
    Launch,
    /// The end: the same program already runs.
    Running,
    /// The end: the daemon that was launched answers.
    Started,
    /// The end: no daemon is left.
    Stopped { was_running: bool },
    /// The end: the daemon answered with an error.
    Refused(String),
    /// The end: the error of the transport, with what was being done.
    Broken { context: Option<&'static str> },
    /// The end: the old daemon did not go.
    Stuck,
    /// The end: the daemon that was launched never answered; end it.
    Kill,
}

/// The contents of a [`Deed`].
pub enum DeedView {
    AskStatus { pause: u64 },
    AskStop { replacing: bool },
    Launch,
    Running,
    Started,
    Stopped { was_running: bool },
    Refused { error: Seq<char> },
    Broken { context: Option<Seq<char>> },
    Stuck,
    Kill,
}

impl View for Deed {
    type V = DeedView;

    open spec fn view(&self) -> DeedView {
        match *self {
            Deed::AskStatus { pause } => DeedView::AskStatus { pause },
            Deed::AskStop { replacing } => DeedView::AskStop { replacing },
            Deed::Launch => DeedView::Launch,
            Deed::Running => DeedView::Running,
            Deed::Started => DeedView::Started,
            Deed::Stopped { was_running } => DeedView::Stopped { was_running },
            Deed::Refused(e) => DeedView::Refused { error: e@ },
            Deed::Broken { context } => DeedView::Broken { context: str_text_of(context) },
            Deed::Stuck => DeedView::Stuck,
            Deed::Kill => DeedView::Kill,
        }
    }
}

impl DeedView {
    /// The command goes on: one more reply is awaited.
    pub open spec fn goes_on(self) -> bool {
        self is AskStatus || self is AskStop || self is Launch
    }
}

/// The daemon answers, and without an error.
pub open spec fn answers(reply: Reply) -> bool {
    reply matches Reply::Answer(response) && answer_error(response@) is None
}

impl Control {
    /// Before any reply: a start asks who listens, the others ask the daemon
    /// to stop.
    pub open spec fn initial(goal: Goal) -> Control {
        Control {
            goal,
            awaiting: match goal {
                Goal::Start => Awaiting::Status,
                Goal::Stop | Goal::Restart => Awaiting::Stop,
            },
            was_running: false,
        }
    }

    /// Waiting for another reply.
    pub open spec fn with(self, awaiting: Awaiting) -> Control {
        Control { awaiting, ..self }
    }

    /// What a reply leads to; `exe` is the program that asks.
    pub open spec fn after(self, reply: Reply, exe: Option<Seq<char>>) -> (Control, DeedView) {
        match self.awaiting {
            Awaiting::Status => match reply {
                Reply::Answer(response) => match answer_error(response@) {
                    Some(error) => (self, DeedView::Refused { error }),
                    None => if response@.exe == exe {
                        (self, DeedView::Running)
                    } else {
                        (self.with(Awaiting::Stop), DeedView::AskStop { replacing: true })
                    },
                },
                Reply::Unavailable => (self.with(Awaiting::Answer { asked: 0 }), DeedView::Launch),
                Reply::Failed => (
                    self,
                    DeedView::Broken { context: Some("consultando o status do daemon"@) },
                ),
            },
            Awaiting::Stop => match reply {
                Reply::Answer(response) => match answer_error(response@) {
                    Some(error) => (self, DeedView::Refused { error }),
                    None => (
                        Control { awaiting: Awaiting::Exit { asked: 0 }, was_running: true, ..self },
                        DeedView::AskStatus { pause: 0 },
                    ),
                },
                Reply::Unavailable => (
                    Control { awaiting: Awaiting::Exit { asked: 0 }, was_running: false, ..self },
                    DeedView::AskStatus { pause: 0 },
                ),
                Reply::Failed => (self, DeedView::Broken { context: None }),
            },
            Awaiting::Exit { asked } => match reply {
                Reply::Answer(_) => if asked + 1 < EXIT_TRIES {
                    (
                        self.with(Awaiting::Exit { asked: (asked + 1) as u32 }),
                        DeedView::AskStatus { pause: EXIT_PAUSE },
                    )
                } else {
                    (self, DeedView::Stuck)
                },
                Reply::Unavailable => match self.goal {
                    Goal::Start => (
                        self.with(Awaiting::Answer { asked: 0 }),
                        DeedView::Launch,
                    ),
                    Goal::Restart => (
                        Control { goal: Goal::Start, awaiting: Awaiting::Status, ..self },
                        DeedView::AskStatus { pause: 0 },
                    ),
                    Goal::Stop => (self, DeedView::Stopped { was_running: self.was_running }),
                },
                Reply::Failed => (
                    self,
                    DeedView::Broken { context: Some("aguardando o daemon encerrar"@) },
                ),
            },
            Awaiting::Answer { asked } => if answers(reply) {
                (self, DeedView::Started)
            } else if asked + 1 < START_TRIES {
                (
                    self.with(Awaiting::Answer { asked: (asked + 1) as u32 }),
                    DeedView::AskStatus { pause: START_PAUSE },
                )
            } else {
                (self, DeedView::Kill)
            },
        }
    }

    /// The command before any reply.
    pub fn new(goal: Goal) -> (r: Control)
        ensures
            r == Control::initial(goal),
    {
        let awaiting = match goal {
            Goal::Start => Awaiting::Status,
            Goal::Stop | Goal::Restart => Awaiting::Stop,
        };
        Control { goal, awaiting, was_running: false }
    }

    /// What is done before any reply.
    pub fn first(&self) -> (r: Deed)
        ensures
            r@ == if self.awaiting == Awaiting::Stop {
                DeedView::AskStop { replacing: false }
            } else {
                DeedView::AskStatus { pause: 0 }
            },
    {
        match self.awaiting {
            Awaiting::Stop => Deed::AskStop { replacing: false },
            Awaiting::Status | Awaiting::Exit { .. } | Awaiting::Answer { .. } => Deed::AskStatus {
                pause: 0,
            },
        }
    }

    /// Takes a reply and tells what is done next; `exe` is the program that
    /// asks.
    pub fn next(&mut self, reply: &Reply, exe: Option<&str>) -> (r: Deed)
        ensures
            (*final(self), r@) == old(self).after(*reply, str_text_of(exe)),
    {
        match self.awaiting {
            Awaiting::Status => match start_step(reply, exe) {
                StartStep::AlreadyRunning => Deed::Running,
                StartStep::Replace => {
                    self.awaiting = Awaiting::Stop;
                    Deed::AskStop { replacing: true }
                },
                StartStep::Launch => {
                    self.awaiting = Awaiting::Answer { asked: 0 };
                    Deed::Launch
                },
                StartStep::Refused(e) => Deed::Refused(e),
                StartStep::Failed => Deed::Broken {
                    context: Some("consultando o status do daemon"),
                },
            },
            Awaiting::Stop => match stop_result(reply) {
                StopResult::Asked => {
                    self.awaiting = Awaiting::Exit { asked: 0 };
                    self.was_running = true;
                    Deed::AskStatus { pause: 0 }
                },
                StopResult::NotRunning => {
                    self.awaiting = Awaiting::Exit { asked: 0 };
                    self.was_running = false;
                    Deed::AskStatus { pause: 0 }
                },
                StopResult::Refused(e) => Deed::Refused(e),
                StopResult::Failed => Deed::Broken { context: None },
            },
            Awaiting::Exit { asked } => match exit_poll(asked, reply) {
                Poll::Again => {
                    self.awaiting = Awaiting::Exit { asked: asked + 1 };
                    Deed::AskStatus { pause: EXIT_PAUSE }
                },
                Poll::Done => match self.goal {
                    Goal::Start => {
                        self.awaiting = Awaiting::Answer { asked: 0 };
                        Deed::Launch
                    },
                    Goal::Restart => {
                        self.goal = Goal::Start;
                        self.awaiting = Awaiting::Status;
                        Deed::AskStatus { pause: 0 }
                    },
                    Goal::Stop => Deed::Stopped { was_running: self.was_running },
                },
                Poll::GiveUp => Deed::Stuck,
                Poll::Failed => Deed::Broken { context: Some("aguardando o daemon encerrar") },
            },
            Awaiting::Answer { asked } => match start_poll(asked, reply) {
                Poll::Done => Deed::Started,
                Poll::Again => {
                    self.awaiting = Awaiting::Answer { asked: asked + 1 };
                    Deed::AskStatus { pause: START_PAUSE }
                },
                Poll::GiveUp | Poll::Failed => Deed::Kill,
            },
        }
    }
}

/// How far a command has come after these replies; nothing where it ended.
pub open spec fn course(goal: Goal, replies: Seq<Reply>, exe: Option<Seq<char>>) -> Option<Control>
    decreases replies.len(),
{
    if replies.len() == 0 {
        Some(Control::initial(goal))
    } else {
        match course(goal, replies.drop_last(), exe) {
            Some(control) => if control.after(replies.last(), exe).1.goes_on() {
                Some(control.after(replies.last(), exe).0)
            } else {
                None
            },
            None => None,
        }
    }
}

/// What the command does on the last of these replies; nothing where it ended
/// before.
pub open spec fn deed(goal: Goal, replies: Seq<Reply>, exe: Option<Seq<char>>) -> Option<DeedView> {
    if replies.len() == 0 {
        None
    } else {
        match course(goal, replies.drop_last(), exe) {
            Some(control) => Some(control.after(replies.last(), exe).1),
            None => None,
        }
    }
}

/// A daemon was launched `asked` replies ago, and none of them was an answer
/// without an error.
spec fn launched_before(
    goal: Goal,
    replies: Seq<Reply>,
    exe: Option<Seq<char>>,
    asked: u32,
) -> bool {
    let n = replies.len();
    &&& asked < START_TRIES
    &&& asked < n
    &&& deed(goal, replies.take(n - asked), exe) == Some(DeedView::Launch)
    &&& forall|j: int| n - asked <= j < n ==> !answers(#[trigger] replies[j])
}

proof fn lemma_launched_before(goal: Goal, replies: Seq<Reply>, exe: Option<Seq<char>>)
    requires
        course(goal, replies, exe) is Some,
    ensures
        course(goal, replies, exe)->0.awaiting matches Awaiting::Answer { asked }
            ==> launched_before(goal, replies, exe, asked),
    decreases replies.len(),
{
    let n = replies.len() as int;
    if n > 0 {
        let before = replies.drop_last();
        let control = course(goal, before, exe)->0;
        lemma_launched_before(goal, before, exe);
        assert(replies.take(n) =~= replies);
        if let Awaiting::Answer { asked } = control.awaiting {
            let k = n - 1 - asked;
            assert(before.take(k) =~= replies.take(k));
        }
    }
}

/// The daemon of another program was asked to stop on the first reply.
spec fn stopping_first(replies: Seq<Reply>, exe: Option<Seq<char>>) -> bool {
    deed(Goal::Start, replies.take(1), exe) == Some(DeedView::AskStop { replacing: true })
}

proof fn lemma_stopping_first(replies: Seq<Reply>, exe: Option<Seq<char>>)
    requires
        course(Goal::Start, replies, exe) is Some,
    ensures
        ({
            let control = course(Goal::Start, replies, exe)->0;
            &&& control.goal == Goal::Start
            &&& match control.awaiting {
                Awaiting::Status => replies.len() == 0,
                Awaiting::Stop => replies.len() == 1 && stopping_first(replies, exe),
                Awaiting::Exit { .. } => replies.len() >= 2 && stopping_first(replies, exe),
                Awaiting::Answer { .. } => replies.len() >= 1,
            }
        }),
    decreases replies.len(),
{
    if replies.len() > 0 {
        let before = replies.drop_last();
        lemma_stopping_first(before, exe);
    }
}

/// The daemon is launched only on a reply that nobody listens.
pub proof fn law_launched_only_where_nobody_listens(
    goal: Goal,
    replies: Seq<Reply>,
    exe: Option<Seq<char>>,
)
    requires
        deed(goal, replies, exe) == Some(DeedView::Launch),
    ensures
        replies.last() is Unavailable,
{
}

/// A start launches the daemon at once, or first asks the daemon of another
/// program to stop and waits until it is gone.
pub proof fn law_old_daemon_goes_first(replies: Seq<Reply>, exe: Option<Seq<char>>)
    requires
        deed(Goal::Start, replies, exe) == Some(DeedView::Launch),
    ensures
        replies.len() == 1 || (replies.len() >= 3 && deed(Goal::Start, replies.take(1), exe)
            == Some(DeedView::AskStop { replacing: true })),
{
    let before = replies.drop_last();
    lemma_stopping_first(before, exe);
}

/// The launched daemon is ended only after ten replies behind the launch, none
/// of them an answer without an error.
pub proof fn law_killed_only_after_ten_questions(
    goal: Goal,
    replies: Seq<Reply>,
    exe: Option<Seq<char>>,
)
    requires
        deed(goal, replies, exe) == Some(DeedView::Kill),
    ensures
        replies.len() > START_TRIES,
        deed(goal, replies.take(replies.len() - START_TRIES), exe) == Some(DeedView::Launch),
        forall|j: int|
            replies.len() - START_TRIES <= j < replies.len() ==> !answers(#[trigger] replies[j]),
{
    let before = replies.drop_last();
    let n = replies.len() as int;
    lemma_launched_before(goal, before, exe);
    assert(before.take(n - START_TRIES) =~= replies.take(n - START_TRIES));
    assert forall|j: int| n - START_TRIES <= j < n implies !answers(#[trigger] replies[j]) by {
        assert(j < n - 1 ==> replies[j] == before[j]);
    }
}

/// Stopping launches nothing and ends no process.
pub proof fn law_stop_launches_nothing(replies: Seq<Reply>, exe: Option<Seq<char>>)
    ensures
        course(Goal::Stop, replies, exe) matches Some(c) ==> c.goal == Goal::Stop && (c.awaiting is Stop
            || c.awaiting is Exit),
        deed(Goal::Stop, replies, exe) matches Some(d) ==> !(d is Launch) && !(d is Kill),
    decreases replies.len(),
{
    if replies.len() > 0 {
        law_stop_launches_nothing(replies.drop_last(), exe);
    }
}

/// How many more replies a command can take.
spec fn replies_left(control: Control) -> int {
    let start = START_TRIES as int;
    let exit = EXIT_TRIES as int;
    match (control.goal, control.awaiting) {
        (_, Awaiting::Answer { asked }) => start - asked,
        (Goal::Stop, Awaiting::Exit { asked }) => exit - asked,
        (Goal::Stop, _) => exit + 1,
        (Goal::Start, Awaiting::Exit { asked }) => start + exit - asked,
        (Goal::Start, Awaiting::Stop) => start + exit + 1,
        (_, Awaiting::Status) => start + exit + 2,
        (Goal::Restart, Awaiting::Exit { asked }) => start + 2 * exit + 2 - asked,
        (Goal::Restart, Awaiting::Stop) => start + 2 * exit + 3,
    }
}

proof fn lemma_replies_left(goal: Goal, replies: Seq<Reply>, exe: Option<Seq<char>>)
    requires
        course(goal, replies, exe) is Some,
    ensures
        ({
            let control = course(goal, replies, exe)->0;
            &&& replies.len() + replies_left(control) <= START_TRIES + 2 * EXIT_TRIES + 3
            &&& control.goal == Goal::Stop ==> control.awaiting is Stop || control.awaiting is Exit
            &&& control.awaiting is Status ==> control.goal == Goal::Start
            &&& control.awaiting matches Awaiting::Exit { asked } ==> asked < EXIT_TRIES
            &&& control.awaiting matches Awaiting::Answer { asked } ==> asked < START_TRIES
        }),
    decreases replies.len(),
{
    if replies.len() > 0 {
        lemma_replies_left(goal, replies.drop_last(), exe);
    }
}

/// Every command comes to an end, whatever the replies.
pub proof fn law_control_ends(goal: Goal, replies: Seq<Reply>, exe: Option<Seq<char>>)
    requires
        replies.len() >= START_TRIES + 2 * EXIT_TRIES + 3,
    ensures
        course(goal, replies, exe) is None,
{
    if course(goal, replies, exe) is Some {
        lemma_replies_left(goal, replies, exe);
    }
}

/// A start leaves the daemon of the same program running and replaces that of
/// any other.
pub proof fn law_same_program_is_left_running(reply: Reply, exe: Option<Seq<char>>)
    requires
        reply matches Reply::Answer(response) && response.error is None,
    ensures
        reply matches Reply::Answer(response) && deed(Goal::Start, seq![reply], exe) == Some(
            if response@.exe == exe {
                DeedView::Running
            } else {
                DeedView::AskStop { replacing: true }
            },
        ),
{
    assert(seq![reply].drop_last() =~= Seq::<Reply>::empty());
}

/// A start where nobody listens launches the daemon.
pub proof fn law_start_launches(exe: Option<Seq<char>>)
    ensures
        deed(Goal::Start, seq![Reply::Unavailable], exe) == Some(DeedView::Launch),
{
    assert(seq![Reply::Unavailable].drop_last() =~= Seq::<Reply>::empty());
}

/// Success is told only on an answer without an error, and every answer
/// without an error behind the launch is success.
pub proof fn law_started_means_answered(control: Control, reply: Reply, exe: Option<Seq<char>>)
    requires
        control.awaiting is Answer,
    ensures
        (control.after(reply, exe).1 is Started) == (reply matches Reply::Answer(response)
            && response.error is None),
{
}

/// A stop is done only once nobody listens, and a restart starts only then.
pub proof fn law_stopped_means_gone(control: Control, reply: Reply, exe: Option<Seq<char>>)
    requires
        control.awaiting matches Awaiting::Exit { asked } && asked < 50,
    ensures
        control.goal == Goal::Stop ==> (control.after(reply, exe).1 is Stopped) == (
        reply is Unavailable),
        control.goal == Goal::Restart ==> (control.after(reply, exe).0.awaiting is Status) == (
        reply is Unavailable),
        control.goal == Goal::Start ==> (control.after(reply, exe).1 is Launch) == (
        reply is Unavailable),
        (control.after(reply, exe).1 is Stuck) == (reply is Answer && control.awaiting == (
        Awaiting::Exit { asked: 49 })),
{
}

} // verus!
