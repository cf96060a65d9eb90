use whisper::cli::Reply;
use whisper::control::{Control, Deed, Goal};
use whisper::ipc::Response;

fn up(exe: &str) -> Reply {
    let mut response = Response::of_state("idle");
    response.exe = Some(exe.to_string());
    Reply::Answer(response)
}

fn broken(error: &str) -> Reply {
    let mut response = Response::of_state("idle");
    response.error = Some(error.to_string());
    Reply::Answer(response)
}

#[test]
fn start_launches_at_once_where_nobody_listens() {
    let mut control = Control::new(Goal::Start);
    assert_eq!(control.first(), Deed::AskStatus { pause: 0 });
    assert_eq!(control.next(&Reply::Unavailable, Some("/a")), Deed::Launch);
    assert_eq!(
        control.next(&Reply::Unavailable, Some("/a")),
        Deed::AskStatus { pause: 200 }
    );
    assert_eq!(
        control.next(&broken("x"), Some("/a")),
        Deed::AskStatus { pause: 200 }
    );
    assert_eq!(control.next(&up("/a"), Some("/a")), Deed::Started);
}

#[test]
fn start_of_a_running_program_does_nothing() {
    let mut control = Control::new(Goal::Start);
    assert_eq!(control.next(&up("/a"), Some("/a")), Deed::Running);
}

#[test]
fn start_replaces_the_daemon_of_another_program() {
    let mut control = Control::new(Goal::Start);
    let b = Some("/b");
    assert_eq!(control.next(&up("/a"), b), Deed::AskStop { replacing: true });
    assert_eq!(control.next(&up("/a"), b), Deed::AskStatus { pause: 0 });
    assert_eq!(control.next(&up("/a"), b), Deed::AskStatus { pause: 100 });
    assert_eq!(control.next(&Reply::Unavailable, b), Deed::Launch);
    assert_eq!(control.next(&up("/b"), b), Deed::Started);
}

#[test]
fn launched_daemon_is_killed_after_ten_questions() {
    let mut control = Control::new(Goal::Start);
    assert_eq!(control.next(&Reply::Unavailable, None), Deed::Launch);
    for _ in 0..9 {
        assert_eq!(
            control.next(&Reply::Failed, None),
            Deed::AskStatus { pause: 200 }
        );
    }
    assert_eq!(control.next(&Reply::Failed, None), Deed::Kill);
}

#[test]
fn old_daemon_that_stays_is_given_up() {
    let mut control = Control::new(Goal::Stop);
    assert_eq!(control.first(), Deed::AskStop { replacing: false });
    assert_eq!(control.next(&up("/a"), None), Deed::AskStatus { pause: 0 });
    for _ in 0..49 {
        assert_eq!(control.next(&up("/a"), None), Deed::AskStatus { pause: 100 });
    }
    assert_eq!(control.next(&up("/a"), None), Deed::Stuck);
}

#[test]
fn stop_tells_whether_a_daemon_ran() {
    let mut control = Control::new(Goal::Stop);
    control.next(&up("/a"), None);
    assert_eq!(
        control.next(&Reply::Unavailable, None),
        Deed::Stopped { was_running: true }
    );
    let mut control = Control::new(Goal::Stop);
    control.next(&Reply::Unavailable, None);
    assert_eq!(
        control.next(&Reply::Unavailable, None),
        Deed::Stopped { was_running: false }
    );
}

#[test]
fn restart_stops_waits_and_starts() {
    let mut control = Control::new(Goal::Restart);
    assert_eq!(control.first(), Deed::AskStop { replacing: false });
    assert_eq!(control.next(&up("/a"), Some("/a")), Deed::AskStatus { pause: 0 });
    assert_eq!(
        control.next(&Reply::Unavailable, Some("/a")),
        Deed::AskStatus { pause: 0 }
    );
    assert_eq!(control.next(&Reply::Unavailable, Some("/a")), Deed::Launch);
    assert_eq!(control.next(&up("/a"), Some("/a")), Deed::Started);
}

#[test]
fn errors_end_the_command() {
    let mut control = Control::new(Goal::Start);
    assert_eq!(
        control.next(&broken("x"), None),
        Deed::Refused("whisper: x".to_string())
    );
    let mut control = Control::new(Goal::Start);
    assert_eq!(
        control.next(&Reply::Failed, None),
        Deed::Broken { context: Some("consultando o status do daemon") }
    );
    let mut control = Control::new(Goal::Stop);
    assert_eq!(control.next(&Reply::Failed, None), Deed::Broken { context: None });
    let mut control = Control::new(Goal::Stop);
    assert_eq!(
        control.next(&broken("y"), None),
        Deed::Refused("whisper: y".to_string())
    );
    let mut control = Control::new(Goal::Stop);
    control.next(&up("/a"), None);
    assert_eq!(
        control.next(&Reply::Failed, None),
        Deed::Broken { context: Some("aguardando o daemon encerrar") }
    );
}
