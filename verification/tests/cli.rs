use whisper::cli::{
    daemon_unavailable, exit_poll, response_lines, start_poll, start_step, start_warnings, status,
    stop_message, stop_result, Cause, IoKind, Poll, Reply, StartStep, StatusOutput, StatusResult,
    StopResult,
};
use whisper::config::Config;
use whisper::ipc::{ensure_response_ok, socket_step, Cmd, Request, Response, SocketStep};

/// The chain of causes of an error, as the library sees it.
fn causes(error: &anyhow::Error) -> Vec<Cause> {
    error
        .chain()
        .map(|cause| {
            if let Some(io) = cause.downcast_ref::<std::io::Error>() {
                return Cause::Io(match io.kind() {
                    std::io::ErrorKind::NotFound => IoKind::NotFound,
                    std::io::ErrorKind::ConnectionRefused => IoKind::ConnectionRefused,
                    std::io::ErrorKind::ConnectionReset => IoKind::ConnectionReset,
                    std::io::ErrorKind::BrokenPipe => IoKind::BrokenPipe,
                    _ => IoKind::Other,
                });
            }
            match cause.downcast_ref::<serde_json::Error>() {
                Some(json) => Cause::Json { eof: json.is_eof() },
                None => Cause::Other,
            }
        })
        .collect()
}

fn answer(exe: Option<&str>, error: Option<&str>) -> Response {
    Response {
        state: "recording".to_string(),
        error: error.map(|e| e.to_string()),
        exe: exe.map(|e| e.to_string()),
        language: Some("pt".to_string()),
        model: Some("small".to_string()),
        smart: None,
    }
}

fn lines(result: StatusResult) -> Vec<String> {
    match result {
        StatusResult::Print(lines) => lines,
        other => panic!("{other:?}"),
    }
}

#[test]
fn stopped_status_serializes_without_session_fields() {
    let output = StatusOutput::stopped();

    assert_eq!(output.to_json(), r#"{"daemon":"stopped"}"#);
}

#[test]
fn running_status_serializes_daemon_metadata() {
    let response = Response {
        state: "recording".to_string(),
        error: None,
        exe: Some("/bin/whisper".to_string()),
        language: Some("pt".to_string()),
        model: Some("small".to_string()),
        smart: None,
    };

    let output = StatusOutput::running(&response);

    assert_eq!(
        output.to_json(),
        r#"{"daemon":"running","state":"recording","language":"pt","model":"small","exe":"/bin/whisper"}"#
    );
}

#[test]
fn connection_refused_is_a_stopped_daemon() {
    let error = anyhow::Error::new(std::io::Error::from(std::io::ErrorKind::ConnectionRefused));

    assert!(daemon_unavailable(&causes(&error)));
}

#[test]
fn permission_errors_are_not_reported_as_stopped() {
    let error = anyhow::Error::new(std::io::Error::from(std::io::ErrorKind::PermissionDenied));

    assert!(!daemon_unavailable(&causes(&error)));
}

#[test]
fn end_of_response_is_treated_as_shutdown() {
    let json_error = serde_json::from_str::<serde_json::Value>("").unwrap_err();
    let error = anyhow::Error::new(json_error);

    assert!(daemon_unavailable(&causes(&error)));
}

#[test]
fn malformed_response_is_not_treated_as_shutdown() {
    let json_error = serde_json::from_str::<serde_json::Value>("not-json").unwrap_err();
    let error = anyhow::Error::new(json_error);

    assert!(!daemon_unavailable(&causes(&error)));
}

#[test]
fn cause_is_found_below_its_context() {
    let error = anyhow::Error::new(std::io::Error::from(std::io::ErrorKind::NotFound))
        .context("daemon não está rodando");
    assert!(daemon_unavailable(&causes(&error)));
    for kind in [IoKind::ConnectionReset, IoKind::BrokenPipe] {
        assert!(daemon_unavailable(&[Cause::Other, Cause::Io(kind)]));
    }
    assert!(!daemon_unavailable(&[]));
}

#[test]
fn status_without_exe_matches_the_documented_line() {
    assert_eq!(
        StatusOutput::running(&answer(None, None)).to_json(),
        r#"{"daemon":"running","state":"recording","language":"pt","model":"small"}"#
    );
}

#[test]
fn status_tells_the_smart_mode() {
    let mut response = answer(Some("/caminho/para/whisper"), None);
    response.model = Some("turbo".to_string());
    response.smart = Some(false);
    assert_eq!(
        StatusOutput::running(&response).to_json(),
        r#"{"daemon":"running","state":"recording","language":"pt","model":"turbo","smart":false,"exe":"/caminho/para/whisper"}"#
    );
    response.smart = Some(true);
    assert!(response.to_json().ends_with(r#","smart":true}"#));
}

#[test]
fn status_prints_one_object_or_human_lines() {
    let reply = Reply::Answer(answer(Some("/bin/whisper"), None));
    assert_eq!(lines(status(true, &reply)).len(), 1);
    assert_eq!(lines(status(false, &reply)), ["recording", "daemon: /bin/whisper"]);
    assert_eq!(lines(status(true, &Reply::Unavailable)), [r#"{"daemon":"stopped"}"#]);
    assert_eq!(lines(status(false, &Reply::Unavailable)), ["stopped"]);
    assert!(matches!(status(true, &Reply::Failed), StatusResult::Failed));
    match status(true, &Reply::Answer(answer(None, Some("quebrou")))) {
        StatusResult::Refused(e) => assert_eq!(e, "whisper: quebrou"),
        other => panic!("{other:?}"),
    }
}

#[test]
fn status_texts_stay_on_one_line() {
    let mut response = answer(None, None);
    response.model = Some("a\nb\"c\\d\u{7}".to_string());
    let json = StatusOutput::running(&response).to_json();
    assert!(!json.contains('\n'));
    let value: serde_json::Value = serde_json::from_str(&json).unwrap();
    assert_eq!(value["model"], "a\nb\"c\\d\u{7}");
}

#[test]
fn answers_are_printed_or_refused() {
    assert_eq!(response_lines(&answer(None, None)).unwrap(), ["recording"]);
    assert_eq!(
        response_lines(&answer(None, Some("x"))),
        Err("whisper: x".to_string())
    );
    assert_eq!(ensure_response_ok(&answer(None, None)), Ok(()));
}

#[test]
fn stop_is_idempotent() {
    assert!(matches!(stop_result(&Reply::Answer(answer(None, None))), StopResult::Asked));
    assert!(matches!(stop_result(&Reply::Unavailable), StopResult::NotRunning));
    assert!(matches!(stop_result(&Reply::Failed), StopResult::Failed));
    assert!(matches!(
        stop_result(&Reply::Answer(answer(None, Some("x")))),
        StopResult::Refused(_)
    ));
    assert_eq!(stop_message(true), "whisper parado");
    assert_eq!(stop_message(false), "whisper já está parado");
}

#[test]
fn start_replaces_another_program() {
    let reply = Reply::Answer(answer(Some("/bin/whisper"), None));
    assert!(matches!(start_step(&reply, Some("/bin/whisper")), StartStep::AlreadyRunning));
    assert!(matches!(start_step(&reply, Some("/dev/whisper")), StartStep::Replace));
    assert!(matches!(start_step(&reply, None), StartStep::Replace));
    assert!(matches!(
        start_step(&Reply::Answer(answer(None, None)), Some("/bin/whisper")),
        StartStep::Replace
    ));
    assert!(matches!(start_step(&Reply::Unavailable, None), StartStep::Launch));
    assert!(matches!(start_step(&Reply::Failed, None), StartStep::Failed));
    assert!(matches!(
        start_step(&Reply::Answer(answer(None, Some("x"))), None),
        StartStep::Refused(_)
    ));
}

#[test]
fn polls_end() {
    let up = Reply::Answer(answer(None, None));
    assert_eq!(start_poll(0, &up), Poll::Done);
    assert_eq!(start_poll(8, &Reply::Unavailable), Poll::Again);
    assert_eq!(start_poll(9, &Reply::Unavailable), Poll::GiveUp);
    assert_eq!(start_poll(9, &up), Poll::Done);
    assert_eq!(start_poll(0, &Reply::Answer(answer(None, Some("x")))), Poll::Again);
    assert_eq!(exit_poll(0, &up), Poll::Again);
    assert_eq!(exit_poll(48, &up), Poll::Again);
    assert_eq!(exit_poll(49, &Reply::Unavailable), Poll::Done);
    assert_eq!(exit_poll(49, &up), Poll::GiveUp);
    assert_eq!(exit_poll(0, &Reply::Failed), Poll::Failed);
}

#[test]
fn start_warns_about_missing_wtype() {
    let cfg = Config::default();
    assert!(start_warnings(&cfg, true, false).is_empty());
    let warnings = start_warnings(&cfg, false, false);
    assert_eq!(warnings.len(), 1);
    assert!(warnings[0].starts_with("aviso: wtype não encontrado no PATH — instale"));
}

#[test]
fn start_warns_about_missing_model() {
    let mut cfg = Config::default();
    cfg.ai.enabled = true;
    assert!(start_warnings(&cfg, true, true).is_empty());
    let warnings = start_warnings(&cfg, true, false);
    assert_eq!(
        warnings,
        ["aviso: Qwen indisponível — o texto passará só pelo cleanup Rust; rode 'whisper setup' ou instale llama-server (llama.cpp ≥ b7973) no PATH — ex.: pacote llama-cpp da sua distribuição — ou desative com [ai] enabled = false"]
    );
    assert_eq!(start_warnings(&cfg, false, false).len(), 2);
}

#[test]
fn requests_and_answers_are_json_lines() {
    assert_eq!(Request { cmd: Cmd::Toggle }.to_json(), r#"{"cmd":"toggle"}"#);
    assert_eq!(Response::of_state("idle").to_json(), r#"{"state":"idle"}"#);
    let json = answer(Some("/b\n"), Some("e\"")).to_json();
    assert!(!json.contains('\n'));
    let value: serde_json::Value = serde_json::from_str(&json).unwrap();
    assert_eq!(value["state"], "recording");
    assert_eq!(value["error"], "e\"");
    assert_eq!(value["exe"], "/b\n");
    assert_eq!(value["language"], "pt");
    assert_eq!(value["model"], "small");
    assert_eq!(value.as_object().unwrap().len(), 5);
}

#[test]
fn command_names_are_read_back() {
    for cmd in [
        Cmd::Toggle,
        Cmd::Record,
        Cmd::Commit,
        Cmd::Cancel,
        Cmd::Pause,
        Cmd::Status,
        Cmd::Stop,
    ] {
        assert_eq!(Cmd::parse(cmd.name()), Some(cmd));
    }
    assert_eq!(Cmd::parse("Toggle"), None);
    assert_eq!(Cmd::parse(""), None);
}

#[test]
fn second_daemon_is_refused() {
    assert_eq!(socket_step("/run/w", false, false), SocketStep::Bind);
    assert_eq!(socket_step("/run/w", true, false), SocketStep::RemoveFirst);
    assert_eq!(
        socket_step("/run/w", true, true),
        SocketStep::Refuse("outro daemon já está em execução (/run/w)".to_string())
    );
}
