//! What the command line says and does about the daemon.
use vstd::prelude::*;

use crate::config::Config;
use crate::daemon::{model_notice, typing_notice, warning_text};
use crate::insert::wtype_hint;
use crate::ipc::{ensure_response_ok, Response, ResponseView};
use crate::json::{
    flag_member, goes_on_with, is_one_line, json_flag, json_member, json_optional, json_string,
    lemma_end_goes_on_with_nothing, lemma_first_readable, lemma_flag_goes_on, lemma_flag_one_line,
    lemma_flag_readable, lemma_member_one_line, lemma_one_line_concat, lemma_optional_goes_on,
    lemma_optional_one_line, lemma_optional_readable, lemma_six_parts, member, optional_member,
    quoted,
};
use crate::llm::Llm;
use crate::text::{cat2, cat4, clone_text, same_text, str_text_of, text_of, texts};

verus! {

// ---------------------------------------------------------------------------
// Status
// ---------------------------------------------------------------------------

/// The status for scripts.
#[derive(Debug, Clone, PartialEq, Eq)]
pub struct StatusOutput {
    pub daemon: &'static str,
    pub state: Option<String>,
    pub language: Option<String>,
    pub model: Option<String>,
    pub smart: Option<bool>,
    pub exe: Option<String>,
}

/// The contents of a [`StatusOutput`].
#[verifier::ext_equal]
pub struct StatusView {
    pub daemon: Seq<char>,
    pub state: Option<Seq<char>>,
    pub language: Option<Seq<char>>,
    pub model: Option<Seq<char>>,
    pub smart: Option<bool>,
    pub exe: Option<Seq<char>>,
}

impl View for StatusOutput {
    type V = StatusView;

    open spec fn view(&self) -> StatusView {
        StatusView {
            daemon: self.daemon@,
            state: text_of(self.state),
            language: text_of(self.language),
            model: text_of(self.model),
            smart: self.smart,
            exe: text_of(self.exe),
        }
    }
}

impl StatusView {
    /// The status of a daemon that answered.
    pub open spec fn of_running(response: ResponseView) -> StatusView {
        StatusView {
            daemon: "running"@,
            state: Some(response.state),
            language: response.language,
            model: response.model,
            smart: response.smart,
            exe: response.exe,
        }
    }

    /// The status where there is no daemon.
    pub open spec fn of_stopped() -> StatusView {
        StatusView {
            daemon: "stopped"@,
            state: None,
            language: None,
            model: None,
            smart: None,
            exe: None,
        }
    }

    /// The status as a JSON object; what is absent is left out.
    pub open spec fn json(self) -> Seq<char> {
        "{"@ + json_member("daemon"@, json_string(self.daemon)) + (json_optional(
            "state"@,
            self.state,
        ) + json_optional("language"@, self.language) + json_optional("model"@, self.model)
            + json_flag("smart"@, self.smart) + json_optional("exe"@, self.exe)) + "}"@
    }
}

impl StatusOutput {
    /// The status of a daemon that answered.
    pub fn running(response: &Response) -> (r: StatusOutput)
        ensures
            r@ == StatusView::of_running(response@),
    {
        StatusOutput {
            daemon: "running",
            state: Some(response.state.clone()),
            language: clone_text(&response.language),
            model: clone_text(&response.model),
            smart: response.smart,
            exe: clone_text(&response.exe),
        }
    }

    /// The status where there is no daemon.
    pub fn stopped() -> (r: StatusOutput)
        ensures
            r@ == StatusView::of_stopped(),
    {
        StatusOutput {
            daemon: "stopped",
            state: None,
            language: None,
            model: None,
            smart: None,
            exe: None,
        }
    }

    /// The status as a JSON object; what is absent is left out.
    pub fn to_json(&self) -> (out: String)
        ensures
            out@ == self@.json(),
    {
        let first = member("daemon", quoted(self.daemon).as_str());
        let mut rest = cat4(
            optional_member("state", &self.state).as_str(),
            optional_member("language", &self.language).as_str(),
            optional_member("model", &self.model).as_str(),
            flag_member("smart", self.smart).as_str(),
        );
        rest.append(optional_member("exe", &self.exe).as_str());
        cat4("{", first.as_str(), rest.as_str(), "}")
    }
}

/// The status for scripts is one line, whatever its texts hold.
pub proof fn law_status_one_line(s: StatusView)
    ensures
        is_one_line(s.json()),
{
    lemma_member_one_line("daemon"@, s.daemon);
    lemma_optional_one_line("state"@, s.state);
    lemma_optional_one_line("language"@, s.language);
    lemma_optional_one_line("model"@, s.model);
    lemma_optional_one_line("exe"@, s.exe);
    reveal_strlit("{");
    reveal_strlit("}");
    assert(is_one_line("{"@));
    assert(is_one_line("}"@));
    let first = json_member("daemon"@, json_string(s.daemon));
    let a = json_optional("state"@, s.state);
    let b = a + json_optional("language"@, s.language);
    let c = b + json_optional("model"@, s.model);
    let d = c + json_flag("smart"@, s.smart);
    let e = d + json_optional("exe"@, s.exe);
    lemma_flag_one_line("smart"@, s.smart);
    lemma_one_line_concat(a, json_optional("language"@, s.language));
    lemma_one_line_concat(b, json_optional("model"@, s.model));
    lemma_one_line_concat(c, json_flag("smart"@, s.smart));
    lemma_one_line_concat(d, json_optional("exe"@, s.exe));
    lemma_one_line_concat("{"@, first);
    lemma_one_line_concat("{"@ + first, e);
    lemma_one_line_concat("{"@ + first + e, "}"@);
}

/// The keys of a status are distinct.
proof fn lemma_keys_distinct()
    ensures
        "state"@ != "language"@,
        "state"@ != "model"@,
        "state"@ != "smart"@,
        "state"@ != "exe"@,
        "language"@ != "model"@,
        "language"@ != "smart"@,
        "language"@ != "exe"@,
        "model"@ != "smart"@,
        "model"@ != "exe"@,
        "smart"@ != "exe"@,
{
    reveal_strlit("state");
    reveal_strlit("exe");
    reveal_strlit("language");
    reveal_strlit("model");
    reveal_strlit("smart");
    assert("exe"@.len() == 3 && "language"@.len() == 8 && "state"@.len() == 5);
    assert("model"@.len() == 5 && "smart"@.len() == 5);
    assert("state"@[1] == 't' && "model"@[1] == 'o' && "smart"@[1] == 'm');
}

/// What follows a member of a status has no member of its key again.
proof fn lemma_rest_of_status(s: StatusView)
    ensures
        ({
            let end = "}"@;
            let exe = json_optional("exe"@, s.exe) + end;
            let smart = json_flag("smart"@, s.smart) + exe;
            let model = json_optional("model"@, s.model) + smart;
            let language = json_optional("language"@, s.language) + model;
            &&& !goes_on_with(end, "exe"@)
            &&& !goes_on_with(exe, "smart"@)
            &&& !goes_on_with(smart, "model"@)
            &&& !goes_on_with(model, "language"@)
            &&& !goes_on_with(language, "state"@)
        }),
{
    lemma_keys_distinct();
    let end = "}"@;
    let exe = json_optional("exe"@, s.exe) + end;
    let smart = json_flag("smart"@, s.smart) + exe;
    let model = json_optional("model"@, s.model) + smart;
    lemma_end_goes_on_with_nothing("exe"@);
    lemma_end_goes_on_with_nothing("smart"@);
    lemma_optional_goes_on("smart"@, "exe"@, s.exe, end);
    lemma_end_goes_on_with_nothing("model"@);
    lemma_optional_goes_on("model"@, "exe"@, s.exe, end);
    lemma_flag_goes_on("model"@, "smart"@, s.smart, exe);
    lemma_end_goes_on_with_nothing("language"@);
    lemma_optional_goes_on("language"@, "exe"@, s.exe, end);
    lemma_flag_goes_on("language"@, "smart"@, s.smart, exe);
    lemma_optional_goes_on("language"@, "model"@, s.model, smart);
    lemma_end_goes_on_with_nothing("state"@);
    lemma_optional_goes_on("state"@, "exe"@, s.exe, end);
    lemma_flag_goes_on("state"@, "smart"@, s.smart, exe);
    lemma_optional_goes_on("state"@, "model"@, s.model, smart);
    lemma_optional_goes_on("state"@, "language"@, s.language, model);
}

/// The members of a status behind its first one.
spec fn status_rest(s: StatusView) -> Seq<char> {
    json_optional("state"@, s.state) + (json_optional("language"@, s.language) + (json_optional(
        "model"@,
        s.model,
    ) + (json_flag("smart"@, s.smart) + (json_optional("exe"@, s.exe) + "}"@))))
}

proof fn lemma_status_parts(s: StatusView)
    ensures
        s.json() == "{"@ + json_member("daemon"@, json_string(s.daemon)) + status_rest(s),
{
    lemma_six_parts(
        "{"@ + json_member("daemon"@, json_string(s.daemon)),
        json_optional("state"@, s.state),
        json_optional("language"@, s.language),
        json_optional("model"@, s.model),
        json_flag("smart"@, s.smart),
        json_optional("exe"@, s.exe),
        "}"@,
    );
}

/// The line of a status holds all of it: no other status has that line.
pub proof fn law_status_readable(a: StatusView, b: StatusView)
    requires
        a.json() == b.json(),
    ensures
        a == b,
{
    lemma_status_parts(a);
    lemma_status_parts(b);
    lemma_first_readable("daemon"@, a.daemon, b.daemon, status_rest(a), status_rest(b));
    lemma_rest_of_status(a);
    lemma_rest_of_status(b);
    let exe_a = json_optional("exe"@, a.exe) + "}"@;
    let exe_b = json_optional("exe"@, b.exe) + "}"@;
    let smart_a = json_flag("smart"@, a.smart) + exe_a;
    let smart_b = json_flag("smart"@, b.smart) + exe_b;
    let model_a = json_optional("model"@, a.model) + smart_a;
    let model_b = json_optional("model"@, b.model) + smart_b;
    let language_a = json_optional("language"@, a.language) + model_a;
    let language_b = json_optional("language"@, b.language) + model_b;
    lemma_optional_readable("state"@, a.state, b.state, language_a, language_b);
    lemma_optional_readable("language"@, a.language, b.language, model_a, model_b);
    lemma_optional_readable("model"@, a.model, b.model, smart_a, smart_b);
    lemma_flag_readable("smart"@, a.smart, b.smart, exe_a, exe_b);
    lemma_optional_readable("exe"@, a.exe, b.exe, "}"@, "}"@);
}

// ---------------------------------------------------------------------------
// Errors of the transport
// ---------------------------------------------------------------------------

/// The kind of an error of the operating system, as far as it matters here.
#[derive(Debug, Clone, Copy, PartialEq, Eq, Structural)]
pub enum IoKind {
    NotFound,
    ConnectionRefused,
    ConnectionReset,
    BrokenPipe,
    Other,
}

/// One link in the chain of causes of an error.
#[derive(Debug, Clone, Copy, PartialEq, Eq, Structural)]
pub enum Cause {
    Io(IoKind),
    /// A JSON error; `eof` where the text ended too early.
    Json { eof: bool },
    Other,
}

/// The cause shows that nobody listens.
pub open spec fn nobody_listens(cause: Cause) -> bool {
    match cause {
        Cause::Io(kind) => kind != IoKind::Other,
        Cause::Json { eof } => eof,
        Cause::Other => false,
    }
}

/// Does the error mean that there is no daemon, or that it just ended?
pub fn daemon_unavailable(chain: &[Cause]) -> (r: bool)
    ensures
        r == exists|i: int| 0 <= i < chain@.len() && nobody_listens(#[trigger] chain@[i]),
{
    let mut i: usize = 0;
    while i < chain.len()
        invariant
            i <= chain@.len(),
            forall|j: int| 0 <= j < i ==> !nobody_listens(#[trigger] chain@[j]),
        decreases chain@.len() - i,
    {
        let found = match chain[i] {
            Cause::Io(IoKind::Other) => false,
            Cause::Io(_) => true,
            Cause::Json { eof } => eof,
            Cause::Other => false,
        };
        if found {
            proof {
                assert(nobody_listens(chain@[i as int]));
            }
            return true;
        }
        i += 1;
    }
    false
}

/// What came back from the daemon.
#[derive(Debug)]
pub enum Reply {
    Answer(Response),
    /// Nobody listens.
    Unavailable,
    /// Any other error of the transport.
    Failed,
}

// ---------------------------------------------------------------------------
// Commands
// ---------------------------------------------------------------------------

/// The error in an answer.
pub open spec fn answer_error(response: ResponseView) -> Option<Seq<char>> {
    match response.error {
        Some(e) => Some("whisper: "@ + e),
        None => None,
    }
}

/// What the user reads of an answer: its state, and where the daemon comes
/// from.
pub open spec fn answer_lines(response: ResponseView) -> Seq<Seq<char>> {
    match response.exe {
        Some(exe) => seq![response.state, "daemon: "@ + exe],
        None => seq![response.state],
    }
}

/// What the user reads of an answer, or the error in it.
pub fn response_lines(response: &Response) -> (r: Result<Vec<String>, String>)
    ensures
        match r {
            Ok(lines) => answer_error(response@) is None && texts(lines@) == answer_lines(
                response@,
            ),
            Err(e) => answer_error(response@) == Some(e@),
        },
{
    match ensure_response_ok(response) {
        Err(e) => Err(e),
        Ok(()) => {
            let mut lines: Vec<String> = Vec::new();
            lines.push(response.state.clone());
            if let Some(exe) = &response.exe {
                lines.push(cat2("daemon: ", exe.as_str()));
            }
            proof {
                assert(texts(lines@) =~= answer_lines(response@));
            }
            Ok(lines)
        },
    }
}

/// What the status command comes to.
#[derive(Debug)]
pub enum StatusResult {
    /// These lines on the output, and success.
    Print(Vec<String>),
    /// The daemon reports an error.
    Refused(String),
    /// The error of the transport; nothing on the output.
    Failed,
}

/// What the status command comes to: no daemon is a valid status.
pub fn status(json: bool, reply: &Reply) -> (r: StatusResult)
    ensures
        match r {
            StatusResult::Print(lines) => texts(lines@) == match *reply {
                Reply::Answer(response) => if json {
                    seq![StatusView::of_running(response@).json()]
                } else {
                    answer_lines(response@)
                },
                _ => if json {
                    seq![StatusView::of_stopped().json()]
                } else {
                    seq!["stopped"@]
                },
            } && !(reply is Failed) && (*reply matches Reply::Answer(response) ==> answer_error(
                response@,
            ) is None),
            StatusResult::Refused(e) => *reply matches Reply::Answer(response) && answer_error(
                response@,
            ) == Some(e@),
            StatusResult::Failed => reply is Failed,
        },
{
    match reply {
        Reply::Failed => StatusResult::Failed,
        Reply::Unavailable => {
            let line = if json {
                StatusOutput::stopped().to_json()
            } else {
                "stopped".to_owned()
            };
            let mut lines: Vec<String> = Vec::new();
            lines.push(line);
            proof {
                assert(texts(lines@) =~= seq![line@]);
            }
            StatusResult::Print(lines)
        },
        Reply::Answer(response) => match response_lines(response) {
            Err(e) => StatusResult::Refused(e),
            Ok(human) => if json {
                let line = StatusOutput::running(response).to_json();
                let mut lines: Vec<String> = Vec::new();
                lines.push(line);
                proof {
                    assert(texts(lines@) =~= seq![line@]);
                }
                StatusResult::Print(lines)
            } else {
                StatusResult::Print(human)
            },
        },
    }
}

/// What a request to stop comes to.
#[derive(Debug)]
pub enum StopResult {
    /// The daemon was asked to end.
    Asked,
    /// There was none.
    NotRunning,
    Refused(String),
    Failed,
}

/// What a request to stop comes to: no daemon is what was wanted.
pub fn stop_result(reply: &Reply) -> (r: StopResult)
    ensures
        match r {
            StopResult::Asked => *reply matches Reply::Answer(response) && answer_error(
                response@,
            ) is None,
            StopResult::NotRunning => reply is Unavailable,
            StopResult::Refused(e) => *reply matches Reply::Answer(response) && answer_error(
                response@,
            ) == Some(e@),
            StopResult::Failed => reply is Failed,
        },
{
    match reply {
        Reply::Answer(response) => match ensure_response_ok(response) {
            Ok(()) => StopResult::Asked,
            Err(e) => StopResult::Refused(e),
        },
        Reply::Unavailable => StopResult::NotRunning,
        Reply::Failed => StopResult::Failed,
    }
}

/// What the user reads after a stop.
pub fn stop_message(was_running: bool) -> (r: &'static str)
    ensures
        r@ == if was_running {
            "whisper parado"@
        } else {
            "whisper já está parado"@
        },
{
    if was_running {
        "whisper parado"
    } else {
        "whisper já está parado"
    }
}

/// What the start command does first.
#[derive(Debug)]
pub enum StartStep {
    /// The same program already runs.
    AlreadyRunning,
    /// Another program runs: end it first.
    Replace,
    Launch,
    Refused(String),
    Failed,
}

/// What the start command does first; `exe` is its own program.
pub fn start_step(reply: &Reply, exe: Option<&str>) -> (r: StartStep)
    ensures
        match *reply {
            Reply::Answer(response) => match answer_error(response@) {
                Some(error) => r matches StartStep::Refused(e) && e@ == error,
                None => if response@.exe == str_text_of(exe) {
                    r is AlreadyRunning
                } else {
                    r is Replace
                },
            },
            Reply::Unavailable => r is Launch,
            Reply::Failed => r is Failed,
        },
{
    match reply {
        Reply::Answer(response) => match ensure_response_ok(response) {
            Err(e) => StartStep::Refused(e),
            Ok(()) => {
                let same = match (&response.exe, exe) {
                    (Some(a), Some(b)) => same_text(a.as_str(), b),
                    (None, None) => true,
                    (Some(_), None) | (None, Some(_)) => false,
                };
                if same {
                    StartStep::AlreadyRunning
                } else {
                    StartStep::Replace
                }
            },
        },
        Reply::Unavailable => StartStep::Launch,
        Reply::Failed => StartStep::Failed,
    }
}

/// How often the start command asks whether the daemon answers.
pub const START_TRIES: u32 = 10;

/// The pause between two such questions, in milliseconds.
pub const START_PAUSE: u64 = 200;

/// How often the stop command asks whether the daemon is gone.
pub const EXIT_TRIES: u32 = 50;

/// The pause between two such questions, in milliseconds.
pub const EXIT_PAUSE: u64 = 100;

/// What a question to a starting or an ending daemon leads to.
#[derive(Debug, Clone, Copy, PartialEq, Eq, Structural)]
pub enum Poll {
    Done,
    /// Pause and ask again.
    Again,
    GiveUp,
    /// The error of the transport.
    Failed,
}

/// What the reply of a starting daemon leads to, after `asked` earlier
/// questions: it has started once it answers without an error.
pub fn start_poll(asked: u32, reply: &Reply) -> (r: Poll)
    ensures
        r == if *reply matches Reply::Answer(response) && answer_error(response@) is None {
            Poll::Done
        } else if asked + 1 < START_TRIES {
            Poll::Again
        } else {
            Poll::GiveUp
        },
{
    let started = match reply {
        Reply::Answer(response) => ensure_response_ok(response).is_ok(),
        Reply::Unavailable | Reply::Failed => false,
    };
    if started {
        Poll::Done
    } else if asked < START_TRIES - 1 {
        Poll::Again
    } else {
        Poll::GiveUp
    }
}

/// What the reply of an ending daemon leads to, after `asked` earlier
/// questions: it has ended once nobody listens.
pub fn exit_poll(asked: u32, reply: &Reply) -> (r: Poll)
    ensures
        r == match *reply {
            Reply::Answer(_) => if asked + 1 < EXIT_TRIES {
                Poll::Again
            } else {
                Poll::GiveUp
            },
            Reply::Unavailable => Poll::Done,
            Reply::Failed => Poll::Failed,
        },
{
    match reply {
        Reply::Answer(_) => if asked < EXIT_TRIES - 1 {
            Poll::Again
        } else {
            Poll::GiveUp
        },
        Reply::Unavailable => Poll::Done,
        Reply::Failed => Poll::Failed,
    }
}

/// What the start command says of what is missing: typing fails without
/// `wtype`, and the language model is not asked where it is not available.
pub open spec fn warnings(typing_missing: bool, model_missing: bool) -> Seq<Seq<char>> {
    let typing = if typing_missing {
        seq![
            "aviso: wtype não encontrado no PATH — "@
                + "instale o pacote wtype (NixOS: adicione pkgs.wtype ao environment.systemPackages; Arch: pacman -S wtype; Debian/Ubuntu: apt install wtype)"@,
        ]
    } else {
        Seq::empty()
    };
    let model = if model_missing {
        seq![
            "aviso: Qwen indisponível — o texto passará só pelo cleanup Rust; rode 'whisper setup' ou "@
                + "instale llama-server (llama.cpp ≥ b7973) no PATH — ex.: pacote llama-cpp da sua distribuição — ou desative com [ai] enabled = false"@,
        ]
    } else {
        Seq::empty()
    };
    typing + model
}

/// Where typing or the language model is missing, the console, the log and the
/// footer of the overlay all say so; where neither is, the first two are silent.
pub proof fn law_missing_is_said_everywhere(typing: bool, model: bool, vad: bool)
    ensures
        (warnings(typing, model).len() > 0) == (typing || model),
        (typing_notice(typing) is Some || model_notice(model) is Some) == (typing || model),
        typing || model ==> warning_text(typing, vad, model) is Some,
{
}

/// What the start command says of what is missing.
pub fn start_warnings(cfg: &Config, wtype_available: bool, ai_available: bool) -> (out: Vec<String>)
    ensures
        texts(out@) == warnings(
            cfg.insert_mode.types() && !wtype_available,
            cfg.ai.enabled && !ai_available,
        ),
{
    let mut out: Vec<String> = Vec::new();
    if cfg.insert_mode.uses_wtype() && !wtype_available {
        out.push(cat2("aviso: wtype não encontrado no PATH — ", wtype_hint()));
    }
    if cfg.ai.enabled && !ai_available {
        out.push(
            cat2(
                "aviso: Qwen indisponível — o texto passará só pelo cleanup Rust; rode 'whisper setup' ou ",
                Llm::hint(),
            ),
        );
    }
    proof {
        assert(texts(out@) =~= warnings(
            cfg.insert_mode.types() && !wtype_available,
            cfg.ai.enabled && !ai_available,
        ));
    }
    out
}

/// There is no daemon where its socket is missing, refuses, or breaks off; any
/// other error is an error.
pub proof fn law_when_nobody_listens()
    ensures
        nobody_listens(Cause::Io(IoKind::NotFound)),
        nobody_listens(Cause::Io(IoKind::ConnectionRefused)),
        nobody_listens(Cause::Io(IoKind::ConnectionReset)),
        nobody_listens(Cause::Io(IoKind::BrokenPipe)),
        nobody_listens(Cause::Json { eof: true }),
        !nobody_listens(Cause::Io(IoKind::Other)),
        !nobody_listens(Cause::Json { eof: false }),
        !nobody_listens(Cause::Other),
{
}

/// The status for scripts hands on what the daemon answered, and says only
/// that there is none where there is none.
pub proof fn law_status_hands_on_the_answer(r: ResponseView)
    ensures
        StatusView::of_running(r).daemon == "running"@,
        StatusView::of_running(r).state == Some(r.state),
        StatusView::of_running(r).language == r.language,
        StatusView::of_running(r).model == r.model,
        StatusView::of_running(r).smart == r.smart,
        StatusView::of_running(r).exe == r.exe,
        StatusView::of_stopped() == (StatusView {
            daemon: "stopped"@,
            state: None,
            language: None,
            model: None,
            smart: None,
            exe: None,
        }),
{
}

/// Each thing that is missing has its line, the typing first.
pub proof fn law_one_line_for_each_missing_thing(typing: bool, model: bool)
    ensures
        warnings(typing, model) == warnings(typing, false) + warnings(false, model),
        warnings(true, false).len() == 1,
        warnings(false, true).len() == 1,
        warnings(false, false).len() == 0,
{
    assert(warnings(typing, model) =~= warnings(typing, false) + warnings(false, model));
}

} // verus!
