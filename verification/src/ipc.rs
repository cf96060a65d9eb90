//! The protocol between the command line and the daemon: one JSON object per
//! line.
use vstd::prelude::*;

use crate::json::{
    flag_member, goes_on_with, is_one_line, json_flag, json_member, json_optional, json_string,
    lemma_end_goes_on_with_nothing, lemma_first_readable, lemma_flag_goes_on, lemma_flag_one_line,
    lemma_flag_readable, lemma_member_one_line, lemma_one_line_concat, lemma_optional_goes_on,
    lemma_optional_one_line, lemma_optional_readable, lemma_six_parts, member, optional_member, quoted,
};
use crate::text::{cat2, cat3, cat4, same_text, text_of};

verus! {

/// What a client can ask of the daemon.
#[derive(Debug, Clone, Copy, PartialEq, Eq, Structural)]
pub enum Cmd {
    Toggle,
    Record,
    Commit,
    Cancel,
    Pause,
    Status,
    Stop,
}

impl Cmd {
    /// The name of the command on the wire.
    pub open spec fn name_text(self) -> Seq<char> {
        match self {
            Cmd::Toggle => "toggle"@,
            Cmd::Record => "record"@,
            Cmd::Commit => "commit"@,
            Cmd::Cancel => "cancel"@,
            Cmd::Pause => "pause"@,
            Cmd::Status => "status"@,
            Cmd::Stop => "stop"@,
        }
    }

    /// The name of the command on the wire.
    pub fn name(self) -> (r: &'static str)
        ensures
            r@ == self.name_text(),
    {
        match self {
            Cmd::Toggle => "toggle",
            Cmd::Record => "record",
            Cmd::Commit => "commit",
            Cmd::Cancel => "cancel",
            Cmd::Pause => "pause",
            Cmd::Status => "status",
            Cmd::Stop => "stop",
        }
    }

    /// The command of that name.
    pub fn parse(name: &str) -> (r: Option<Cmd>)
        ensures
            match r {
                Some(cmd) => name@ == cmd.name_text(),
                None => forall|cmd: Cmd| name@ != #[trigger] cmd.name_text(),
            },
    {
        if same_text(name, "toggle") {
            Some(Cmd::Toggle)
        } else if same_text(name, "record") {
            Some(Cmd::Record)
        } else if same_text(name, "commit") {
            Some(Cmd::Commit)
        } else if same_text(name, "cancel") {
            Some(Cmd::Cancel)
        } else if same_text(name, "pause") {
            Some(Cmd::Pause)
        } else if same_text(name, "status") {
            Some(Cmd::Status)
        } else if same_text(name, "stop") {
            Some(Cmd::Stop)
        } else {
            None
        }
    }
}

/// Different commands have different names, so a name that was written is
/// read back as the same command.
pub proof fn law_command_names_distinct(a: Cmd, b: Cmd)
    requires
        a.name_text() == b.name_text(),
    ensures
        a == b,
{
    reveal_strlit("toggle");
    reveal_strlit("record");
    reveal_strlit("commit");
    reveal_strlit("cancel");
    reveal_strlit("pause");
    reveal_strlit("status");
    reveal_strlit("stop");
    assert("toggle"@[0] == 't');
    assert("record"@[0] == 'r');
    assert("commit"@[0] == 'c' && "commit"@[1] == 'o');
    assert("cancel"@[0] == 'c' && "cancel"@[1] == 'a');
    assert("pause"@[0] == 'p');
    assert("status"@[0] == 's' && "status"@.len() == 6);
    assert("stop"@[0] == 's' && "stop"@.len() == 4);
}

/// A request to the daemon.
#[derive(Debug, Clone, Copy, PartialEq, Eq, Structural)]
pub struct Request {
    pub cmd: Cmd,
}

/// The answer of the daemon.
#[derive(Debug, Clone, PartialEq, Eq)]
pub struct Response {
    pub state: String,
    pub error: Option<String>,
    /// The program that the daemon runs.
    pub exe: Option<String>,
    pub language: Option<String>,
    pub model: Option<String>,
    /// Does the session apply the instruction that it begins with?
    pub smart: Option<bool>,
}

/// The contents of a [`Response`].
#[verifier::ext_equal]
pub struct ResponseView {
    pub state: Seq<char>,
    pub error: Option<Seq<char>>,
    pub exe: Option<Seq<char>>,
    pub language: Option<Seq<char>>,
    pub model: Option<Seq<char>>,
    pub smart: Option<bool>,
}

impl View for Response {
    type V = ResponseView;

    open spec fn view(&self) -> ResponseView {
        ResponseView {
            state: self.state@,
            error: text_of(self.error),
            exe: text_of(self.exe),
            language: text_of(self.language),
            model: text_of(self.model),
            smart: self.smart,
        }
    }
}

impl ResponseView {
    /// An answer that gives only a state.
    pub open spec fn of_state(state: Seq<char>) -> ResponseView {
        ResponseView { state, error: None, exe: None, language: None, model: None, smart: None }
    }

    /// The answer as a JSON object; what is absent is left out.
    pub open spec fn json(self) -> Seq<char> {
        "{"@ + json_member("state"@, json_string(self.state)) + (json_optional("error"@, self.error)
            + json_optional("exe"@, self.exe) + json_optional("language"@, self.language)
            + json_optional("model"@, self.model) + json_flag("smart"@, self.smart)) + "}"@
    }
}

impl Request {
    /// The request as a JSON object.
    pub fn to_json(&self) -> (out: String)
        ensures
            out@ == "{"@ + json_member("cmd"@, json_string(self.cmd.name_text())) + "}"@,
    {
        cat3("{", member("cmd", quoted(self.cmd.name()).as_str()).as_str(), "}")
    }
}

impl Response {
    /// An answer that gives only a state.
    pub fn of_state(state: &str) -> (r: Response)
        ensures
            r@ == ResponseView::of_state(state@),
    {
        Response {
            state: state.to_owned(),
            error: None,
            exe: None,
            language: None,
            model: None,
            smart: None,
        }
    }

    /// The answer as a JSON object; what is absent is left out.
    pub fn to_json(&self) -> (out: String)
        ensures
            out@ == self@.json(),
    {
        let state = member("state", quoted(self.state.as_str()).as_str());
        let mut rest = cat4(
            optional_member("error", &self.error).as_str(),
            optional_member("exe", &self.exe).as_str(),
            optional_member("language", &self.language).as_str(),
            optional_member("model", &self.model).as_str(),
        );
        rest.append(flag_member("smart", self.smart).as_str());
        cat4("{", state.as_str(), rest.as_str(), "}")
    }
}

/// An answer fits on one line, whatever its texts hold: a reader that stops
/// at the line break reads all of it.
pub proof fn law_response_one_line(r: ResponseView)
    ensures
        is_one_line(r.json()),
{
    lemma_member_one_line("state"@, r.state);
    lemma_optional_one_line("error"@, r.error);
    lemma_optional_one_line("exe"@, r.exe);
    lemma_optional_one_line("language"@, r.language);
    lemma_optional_one_line("model"@, r.model);
    reveal_strlit("{");
    reveal_strlit("}");
    assert(is_one_line("{"@));
    assert(is_one_line("}"@));
    let state = json_member("state"@, json_string(r.state));
    let a = json_optional("error"@, r.error);
    let b = a + json_optional("exe"@, r.exe);
    let c = b + json_optional("language"@, r.language);
    let d = c + json_optional("model"@, r.model);
    let e = d + json_flag("smart"@, r.smart);
    lemma_flag_one_line("smart"@, r.smart);
    lemma_one_line_concat(d, json_flag("smart"@, r.smart));
    lemma_one_line_concat(a, json_optional("exe"@, r.exe));
    lemma_one_line_concat(b, json_optional("language"@, r.language));
    lemma_one_line_concat(c, json_optional("model"@, r.model));
    lemma_one_line_concat("{"@, state);
    lemma_one_line_concat("{"@ + state, e);
    lemma_one_line_concat("{"@ + state + e, "}"@);
}

/// The keys of an answer are distinct.
proof fn lemma_keys_distinct()
    ensures
        "error"@ != "exe"@,
        "error"@ != "language"@,
        "error"@ != "model"@,
        "error"@ != "smart"@,
        "exe"@ != "language"@,
        "exe"@ != "model"@,
        "exe"@ != "smart"@,
        "language"@ != "model"@,
        "language"@ != "smart"@,
        "model"@ != "smart"@,
{
    reveal_strlit("error");
    reveal_strlit("exe");
    reveal_strlit("language");
    reveal_strlit("model");
    reveal_strlit("smart");
    assert("error"@.len() == 5 && "exe"@.len() == 3 && "language"@.len() == 8);
    assert("model"@.len() == 5 && "smart"@.len() == 5);
    assert("error"@[0] == 'e' && "model"@[0] == 'm' && "smart"@[0] == 's');
}

/// What follows a member of an answer has no member of its key again.
proof fn lemma_rest_of_answer(r: ResponseView)
    ensures
        ({
            let end = "}"@;
            let smart = json_flag("smart"@, r.smart) + end;
            let model = json_optional("model"@, r.model) + smart;
            let language = json_optional("language"@, r.language) + model;
            let exe = json_optional("exe"@, r.exe) + language;
            &&& !goes_on_with(end, "smart"@)
            &&& !goes_on_with(smart, "model"@)
            &&& !goes_on_with(model, "language"@)
            &&& !goes_on_with(language, "exe"@)
            &&& !goes_on_with(exe, "error"@)
        }),
{
    lemma_keys_distinct();
    let end = "}"@;
    let smart = json_flag("smart"@, r.smart) + end;
    let model = json_optional("model"@, r.model) + smart;
    let language = json_optional("language"@, r.language) + model;
    lemma_end_goes_on_with_nothing("smart"@);
    lemma_end_goes_on_with_nothing("model"@);
    lemma_flag_goes_on("model"@, "smart"@, r.smart, end);
    lemma_end_goes_on_with_nothing("language"@);
    lemma_flag_goes_on("language"@, "smart"@, r.smart, end);
    lemma_optional_goes_on("language"@, "model"@, r.model, smart);
    lemma_end_goes_on_with_nothing("exe"@);
    lemma_flag_goes_on("exe"@, "smart"@, r.smart, end);
    lemma_optional_goes_on("exe"@, "model"@, r.model, smart);
    lemma_optional_goes_on("exe"@, "language"@, r.language, model);
    lemma_end_goes_on_with_nothing("error"@);
    lemma_flag_goes_on("error"@, "smart"@, r.smart, end);
    lemma_optional_goes_on("error"@, "model"@, r.model, smart);
    lemma_optional_goes_on("error"@, "language"@, r.language, model);
    lemma_optional_goes_on("error"@, "exe"@, r.exe, language);
}

/// The members of an answer, one inside the other.
spec fn answer_rest(r: ResponseView) -> Seq<char> {
    json_optional("error"@, r.error) + (json_optional("exe"@, r.exe) + (json_optional(
        "language"@,
        r.language,
    ) + (json_optional("model"@, r.model) + (json_flag("smart"@, r.smart) + "}"@))))
}

proof fn lemma_answer_parts(r: ResponseView)
    ensures
        r.json() == "{"@ + json_member("state"@, json_string(r.state)) + answer_rest(r),
{
    lemma_six_parts(
        "{"@ + json_member("state"@, json_string(r.state)),
        json_optional("error"@, r.error),
        json_optional("exe"@, r.exe),
        json_optional("language"@, r.language),
        json_optional("model"@, r.model),
        json_flag("smart"@, r.smart),
        "}"@,
    );
}

/// The line of an answer holds all of it: no other answer has that line.
pub proof fn law_response_readable(a: ResponseView, b: ResponseView)
    requires
        a.json() == b.json(),
    ensures
        a == b,
{
    lemma_answer_parts(a);
    lemma_answer_parts(b);
    lemma_first_readable("state"@, a.state, b.state, answer_rest(a), answer_rest(b));
    lemma_rest_of_answer(a);
    lemma_rest_of_answer(b);
    let smart_a = json_flag("smart"@, a.smart) + "}"@;
    let smart_b = json_flag("smart"@, b.smart) + "}"@;
    let model_a = json_optional("model"@, a.model) + smart_a;
    let model_b = json_optional("model"@, b.model) + smart_b;
    let language_a = json_optional("language"@, a.language) + model_a;
    let language_b = json_optional("language"@, b.language) + model_b;
    let exe_a = json_optional("exe"@, a.exe) + language_a;
    let exe_b = json_optional("exe"@, b.exe) + language_b;
    lemma_optional_readable("error"@, a.error, b.error, exe_a, exe_b);
    lemma_optional_readable("exe"@, a.exe, b.exe, language_a, language_b);
    lemma_optional_readable("language"@, a.language, b.language, model_a, model_b);
    lemma_optional_readable("model"@, a.model, b.model, smart_a, smart_b);
    lemma_flag_readable("smart"@, a.smart, b.smart, "}"@, "}"@);
}

/// The line of a request holds its command: no other command has that line.
pub proof fn law_request_readable(a: Cmd, b: Cmd)
    requires
        "{"@ + json_member("cmd"@, json_string(a.name_text())) + "}"@ == "{"@ + json_member(
            "cmd"@,
            json_string(b.name_text()),
        ) + "}"@,
    ensures
        a == b,
{
    lemma_first_readable("cmd"@, a.name_text(), b.name_text(), "}"@, "}"@);
    law_command_names_distinct(a, b);
}

/// A request fits on one line.
pub proof fn law_request_one_line(cmd: Cmd)
    ensures
        is_one_line("{"@ + json_member("cmd"@, json_string(cmd.name_text())) + "}"@),
{
    lemma_member_one_line("cmd"@, cmd.name_text());
    reveal_strlit("{");
    reveal_strlit("}");
    assert(is_one_line("{"@));
    assert(is_one_line("}"@));
    let m = json_member("cmd"@, json_string(cmd.name_text()));
    lemma_one_line_concat("{"@, m);
    lemma_one_line_concat("{"@ + m, "}"@);
}

/// What a starting daemon does about the socket.
#[derive(Debug, Clone, PartialEq, Eq)]
pub enum SocketStep {
    Bind,
    /// The file is left over from a daemon that is gone.
    RemoveFirst,
    /// Another daemon listens.
    Refuse(String),
}

/// What a starting daemon does about the socket: there is never a second
/// daemon on it. `answers` says whether a connection was accepted.
pub fn socket_step(path: &str, present: bool, answers: bool) -> (r: SocketStep)
    ensures
        if !present {
            r is Bind
        } else if answers {
            r matches SocketStep::Refuse(e) && e@ == "outro daemon já está em execução ("@ + path@
                + ")"@
        } else {
            r is RemoveFirst
        },
{
    if !present {
        SocketStep::Bind
    } else if answers {
        SocketStep::Refuse(cat3("outro daemon já está em execução (", path, ")"))
    } else {
        SocketStep::RemoveFirst
    }
}

/// Does the answer report no error?
pub fn ensure_response_ok(resp: &Response) -> (r: Result<(), String>)
    ensures
        match r {
            Ok(()) => resp@.error is None,
            Err(e) => resp@.error matches Some(text) && e@ == "whisper: "@ + text,
        },
{
    match &resp.error {
        Some(err) => Err(cat2("whisper: ", err.as_str())),
        None => Ok(()),
    }
}

/// There is never a second daemon on the socket: a starting one binds it only
/// where nobody answers, and takes a left-over file away first.
pub proof fn law_no_second_daemon(path: &str, present: bool, answers: bool, r: SocketStep)
    requires
        call_ensures(socket_step, (path, present, answers), r),
    ensures
        (r is Refuse) == (present && answers),
        (r is RemoveFirst) == (present && !answers),
        (r is Bind) == !present,
{
}

} // verus!
