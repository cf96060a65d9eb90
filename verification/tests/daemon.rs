use whisper::config::{Config, InsertMode, Language};
use whisper::daemon::{
    command_action, compose_full_warning, compose_warning, feedback_phase, feedback_wait_duration,
    lang_model, missing_model_notice, missing_wtype_notice, should_retry_engine_reload, Action, Ambient, CommandAction,
    Daemon, EngineInfo, Event, Notice, PendingFeedback, Phase, AUDIO_FEEDBACK_DURATION,
    EVENT_POLL_INTERVAL,
};
use whisper::ipc::Cmd;
use whisper::osd::{FeedbackKind, OsdEvent, Phase as UiPhase, UiState};
use whisper::postprocess::rust_cleanup;
use whisper::transcribe::WorkerOutcome;

const SECOND: u64 = 1_000_000_000;

const NOW: u64 = 100 * SECOND;

fn ambient() -> Ambient {
    Ambient { now: NOW, wtype_available: true, ai_available: false }
}

fn at(now: u64) -> Ambient {
    Ambient { now, wtype_available: true, ai_available: false }
}

fn test_daemon(session: u64, phase: Phase) -> Daemon<f32> {
    let mut daemon = Daemon::new(Config::default(), None);
    daemon.phase = phase;
    daemon.session = session;
    daemon.ui = UiState::new("pt · turbo".to_string());
    daemon
}

/// A daemon in the middle of a recording.
fn recording() -> Daemon<f32> {
    let mut daemon: Daemon<f32> = Daemon::new(Config::default(), None);
    daemon.handle_cmd(Cmd::Toggle, &ambient());
    let session = daemon.session;
    daemon.handle_engine_loaded(session, Ok(EngineInfo { vad_available: true }), &ambient());
    daemon.capture_started(Ok(()), NOW);
    daemon
}

fn names(actions: &[Action<f32>]) -> Vec<String> {
    actions.iter().map(|a| format!("{a:?}")).collect()
}

#[test]
fn feedback_deadline_is_not_expired_before_duration() {
    let feedback = PendingFeedback { session: 1, deadline: NOW + SECOND };

    assert!(!feedback.is_expired(NOW));
}

#[test]
fn feedback_deadline_expires_after_duration() {
    let feedback = PendingFeedback { session: 1, deadline: NOW + SECOND };

    assert!(feedback.is_expired(NOW + SECOND));
}

#[test]
fn cancelled_feedback_returns_to_regular_event_polling() {
    assert_eq!(feedback_wait_duration(None, NOW), EVENT_POLL_INTERVAL);
}

#[test]
fn feedback_kinds_map_to_distinct_ui_phases() {
    assert_eq!(feedback_phase(FeedbackKind::Info), UiPhase::Info);
    assert_eq!(feedback_phase(FeedbackKind::Error), UiPhase::Error);
}

#[test]
fn status_response_includes_current_session_metadata() {
    let mut daemon = test_daemon(1, Phase::Recording);
    daemon.cfg.language = Language::En;
    daemon.cfg.model = "small".to_string();

    daemon.handle_cmd(Cmd::Status, &ambient());
    let response = daemon.respond(Cmd::Status, Some("/bin/whisper".to_string()));

    assert_eq!(response.language.as_deref(), Some("en"));
    assert_eq!(response.model.as_deref(), Some("small"));
    assert_eq!(response.exe.as_deref(), Some("/bin/whisper"));
    assert_eq!(response.state, "recording");
    assert_eq!(response.error, None);
}

#[test]
fn non_status_response_does_not_include_session_metadata() {
    let mut daemon = test_daemon(1, Phase::Recording);

    daemon.handle_cmd(Cmd::Toggle, &ambient());
    let response = daemon.respond(Cmd::Toggle, Some("/bin/whisper".to_string()));

    assert_eq!(response.language, None);
    assert_eq!(response.model, None);
    assert_eq!(response.exe, None);
    assert_eq!(response.smart, None);
    assert_eq!(response.state, "idle");
}

#[test]
fn stale_hot_reload_is_retried_when_engine_exists() {
    assert!(should_retry_engine_reload(1, 2, true));
}

#[test]
fn stale_initial_engine_load_is_not_retried_without_engine() {
    assert!(!should_retry_engine_reload(1, 2, false));
}

#[test]
fn stale_audio_chunk_does_not_enter_current_session() {
    let mut daemon = test_daemon(2, Phase::Recording);
    daemon.handle_audio(1, vec![1.0, 2.0], 0.5);

    assert!(daemon.buffer.is_empty());
}

#[test]
fn stale_osd_close_does_not_cancel_current_session() {
    let mut daemon = test_daemon(2, Phase::Transcribing);
    daemon.pending_insert = Some("texto atual".to_string());
    daemon.handle_osd(1, OsdEvent::Closed, &ambient());

    assert_eq!(daemon.pending_insert.as_deref(), Some("texto atual"));
}

#[test]
fn cancel_clears_feedback_before_deadline() {
    let mut daemon = test_daemon(1, Phase::Idle);
    daemon.feedback = Some(PendingFeedback { session: 1, deadline: NOW + SECOND });

    daemon.handle_cmd(Cmd::Cancel, &ambient());

    assert!(daemon.feedback.is_none());
}

#[test]
fn expired_feedback_returns_to_idle() {
    let mut daemon = test_daemon(1, Phase::Recording);
    daemon.feedback = Some(PendingFeedback { session: 1, deadline: NOW - SECOND });

    daemon.expire_feedback_if_due(NOW);

    assert_eq!(daemon.phase, Phase::Idle);
}

#[test]
fn terminal_feedback_keeps_ignoring_non_cancel_osd_controls() {
    let mut daemon = test_daemon(1, Phase::Idle);
    daemon.show_feedback(FeedbackKind::Info, "nada detectado".to_string(), SECOND, NOW);

    daemon.handle_osd(1, OsdEvent::PauseToggle, &ambient());
    daemon.handle_osd(1, OsdEvent::Commit, &ambient());

    assert!(daemon.feedback.is_some());
}

#[test]
fn empty_result_uses_informational_feedback() {
    let mut daemon = test_daemon(1, Phase::Transcribing);

    daemon.finish_session(Some("nada detectado".to_string()), NOW);

    assert_eq!(daemon.phase, Phase::Idle);
    assert_eq!(daemon.ui.phase, UiPhase::Info);
    assert_eq!(daemon.ui.feedback.as_ref().unwrap().kind, FeedbackKind::Info);
}

#[test]
fn real_failure_uses_error_feedback() {
    let mut daemon = test_daemon(1, Phase::Recording);

    daemon.show_feedback(FeedbackKind::Error, "transcrição falhou".to_string(), SECOND, NOW);

    assert_eq!(daemon.ui.phase, UiPhase::Error);
}

#[test]
fn idle_has_no_ui_phase() {
    assert_eq!(Phase::Idle.ui_phase(), None);
}

#[test]
fn active_phases_map_to_their_ui_phase() {
    let cases = [
        (Phase::Recording, UiPhase::Recording),
        (Phase::Paused, UiPhase::Paused),
        (Phase::Transcribing, UiPhase::Transcribing),
        (Phase::Loading, UiPhase::Loading),
    ];

    for (phase, expected) in cases {
        assert_eq!(phase.ui_phase(), Some(expected));
    }
}

#[test]
fn toggle_follows_the_global_shortcut_session_flow() {
    let cases = [
        (Phase::Idle, CommandAction::Start),
        (Phase::Recording, CommandAction::Commit),
        (Phase::Paused, CommandAction::Commit),
        (Phase::Loading, CommandAction::Noop),
        (Phase::Transcribing, CommandAction::Noop),
    ];

    for (phase, expected) in cases {
        assert_eq!(command_action(phase, Cmd::Toggle), expected);
    }
}

#[test]
fn explicit_session_commands_only_allow_valid_transitions() {
    let cases = [
        (Phase::Idle, Cmd::Record, CommandAction::Start),
        (Phase::Paused, Cmd::Record, CommandAction::Resume),
        (Phase::Recording, Cmd::Record, CommandAction::Noop),
        (Phase::Loading, Cmd::Record, CommandAction::Noop),
        (Phase::Transcribing, Cmd::Record, CommandAction::Noop),
        (Phase::Recording, Cmd::Commit, CommandAction::Commit),
        (Phase::Paused, Cmd::Commit, CommandAction::Commit),
        (Phase::Idle, Cmd::Commit, CommandAction::Noop),
        (Phase::Loading, Cmd::Commit, CommandAction::Noop),
        (Phase::Transcribing, Cmd::Commit, CommandAction::Noop),
        (Phase::Idle, Cmd::Cancel, CommandAction::Noop),
        (Phase::Recording, Cmd::Cancel, CommandAction::Cancel),
        (Phase::Paused, Cmd::Cancel, CommandAction::Cancel),
        (Phase::Loading, Cmd::Cancel, CommandAction::Cancel),
        (Phase::Transcribing, Cmd::Cancel, CommandAction::Cancel),
        (Phase::Recording, Cmd::Pause, CommandAction::Pause),
        (Phase::Idle, Cmd::Pause, CommandAction::Noop),
        (Phase::Paused, Cmd::Pause, CommandAction::Noop),
        (Phase::Loading, Cmd::Pause, CommandAction::Noop),
        (Phase::Transcribing, Cmd::Pause, CommandAction::Noop),
    ];

    for (phase, cmd, expected) in cases {
        assert_eq!(command_action(phase, cmd), expected);
    }
}

#[test]
fn warning_composes_all_dependency_combinations() {
    assert_eq!(compose_warning(false, false), None);
    assert!(compose_warning(true, false).unwrap().contains("wtype ausente"));
    assert!(compose_warning(false, true).unwrap().contains("VAD ausente"));
    let both = compose_warning(true, true).unwrap();
    assert!(both.contains("wtype ausente") && both.contains("VAD ausente"));
}

#[test]
fn rust_cleanup_respects_flags() {
    let cfg = Config::default();
    assert_eq!(rust_cleanup("hmm então ahn vamos", &cfg), "Então vamos.");
    let mut disabled = cfg.clone();
    disabled.remove_fillers = false;
    disabled.punctuation = false;
    assert_eq!(rust_cleanup("hmm então ahn vamos", &disabled), "hmm então ahn vamos");
}

#[test]
fn warnings_name_the_language_model() {
    assert_eq!(
        compose_full_warning(false, false, true).as_deref(),
        Some("Qwen ausente — cleanup Rust; rode whisper setup")
    );
    assert_eq!(
        compose_full_warning(true, false, true).as_deref(),
        Some("wtype e Qwen ausentes — digitação e cleanup limitados")
    );
    assert_eq!(
        compose_full_warning(false, true, true).as_deref(),
        Some("VAD e Qwen ausentes — cleanup limitado; rode whisper setup")
    );
    assert_eq!(
        compose_full_warning(true, true, true).as_deref(),
        Some("wtype, VAD e Qwen ausentes — digitação e cleanup limitados")
    );
}

#[test]
fn missing_wtype_is_told_only_where_it_matters() {
    let mut cfg = Config::default();
    assert!(missing_wtype_notice(&cfg, false).unwrap().contains("pacman -S wtype"));
    assert_eq!(missing_wtype_notice(&cfg, true), None);
    cfg.insert_mode = InsertMode::CopyToClipboard;
    assert_eq!(missing_wtype_notice(&cfg, false), None);
}

#[test]
fn log_warns_about_missing_model() {
    let mut cfg = Config::default();
    assert_eq!(missing_model_notice(&cfg, false), None);
    cfg.ai.enabled = true;
    assert_eq!(missing_model_notice(&cfg, true), None);
    assert_eq!(
        missing_model_notice(&cfg, false).unwrap(),
        "whisper: aviso: Qwen indisponível — o texto passará só pelo cleanup Rust; rode 'whisper setup' ou instale llama-server (llama.cpp ≥ b7973) no PATH — ex.: pacote llama-cpp da sua distribuição — ou desative com [ai] enabled = false"
    );
}

#[test]
fn language_and_model_are_shown_together() {
    assert_eq!(lang_model(&Config::default()), "pt · small");
}

#[test]
fn first_session_loads_the_engine_and_then_records() {
    let mut daemon: Daemon<f32> = Daemon::new(Config::default(), None);
    let actions = daemon.handle_cmd(Cmd::Toggle, &ambient());
    assert_eq!(
        names(&actions),
        ["OpenOsd { session: 1 }", "LoadEngine { session: 1 }"]
    );
    assert_eq!(daemon.phase, Phase::Loading);
    assert_eq!(daemon.ui.status.as_deref(), Some("carregando modelo…"));
    assert_eq!(daemon.respond(Cmd::Toggle, None).state, "loading");

    let actions =
        daemon.handle_engine_loaded(1, Ok(EngineInfo { vad_available: false }), &ambient());
    assert_eq!(
        names(&actions),
        ["Note(NoVad)", "KeepEngine", "StartCapture { session: 1 }"]
    );
    assert_eq!(daemon.phase, Phase::Recording);
    assert!(daemon.ui.warning.as_deref().unwrap().contains("VAD ausente"));
    assert_eq!(names(&daemon.capture_started(Ok(()), NOW)), Vec::<String>::new());
    assert!(daemon.capturing);
}

#[test]
fn later_sessions_record_at_once() {
    let mut daemon = recording();
    daemon.handle_cmd(Cmd::Cancel, &ambient());
    let actions = daemon.handle_cmd(Cmd::Record, &ambient());
    assert_eq!(
        names(&actions),
        ["OpenOsd { session: 2 }", "StartCapture { session: 2 }"]
    );
    assert_eq!(daemon.phase, Phase::Recording);
}

#[test]
fn text_is_inserted_only_after_the_overlay_closed() {
    let mut daemon = recording();
    daemon.handle_audio(1, vec![0.1, 0.2], 0.15);
    let actions = daemon.handle_cmd(Cmd::Toggle, &ambient());
    assert_eq!(
        names(&actions),
        ["StopCapture", "Transcribe { session: 1, samples: [0.1, 0.2], smart: false }"]
    );
    assert!(daemon.buffer.is_empty());

    let actions = daemon.handle_worker(
        WorkerOutcome::Transcribed { session: 1, text: "Olá.".to_string() },
        NOW,
    );
    assert_eq!(names(&actions), ["CloseOsd"]);
    assert_eq!(daemon.pending_insert.as_deref(), Some("Olá."));

    let actions = daemon.handle_osd(1, OsdEvent::Closed, &ambient());
    assert_eq!(names(&actions), ["Insert { text: \"Olá.\", mode: Fallback }"]);
    assert_eq!(daemon.phase, Phase::Idle);
    assert_eq!(daemon.pending_insert, None);
}

#[test]
fn overlay_that_closes_early_cancels() {
    let mut daemon = recording();
    let actions = daemon.handle_osd(1, OsdEvent::Closed, &ambient());
    assert_eq!(names(&actions), ["StopCapture", "CloseOsd"]);
    assert_eq!(daemon.phase, Phase::Idle);
}

#[test]
fn cancel_discards_the_session_in_every_phase() {
    for phase in [Phase::Recording, Phase::Paused, Phase::Loading, Phase::Transcribing] {
        let mut daemon = test_daemon(4, phase);
        daemon.capturing = true;
        daemon.osd_open = true;
        daemon.pending_insert = Some("texto".to_string());
        let actions = daemon.handle_cmd(Cmd::Cancel, &ambient());
        assert_eq!(names(&actions), ["StopCapture", "CloseOsd"]);
        assert_eq!(daemon.phase, Phase::Idle);
        assert!(!daemon.capturing && !daemon.osd_open && daemon.pending_insert.is_none());
    }
}

#[test]
fn toggle_is_ignored_while_loading_and_transcribing() {
    for phase in [Phase::Loading, Phase::Transcribing] {
        let mut daemon = test_daemon(4, phase);
        assert!(daemon.handle_cmd(Cmd::Toggle, &ambient()).is_empty());
        assert_eq!((daemon.phase, daemon.session), (phase, 4));
    }
}

#[test]
fn space_pauses_and_resumes() {
    let mut daemon = recording();
    daemon.handle_audio(1, vec![1.0], 0.1);
    daemon.handle_osd(1, OsdEvent::PauseToggle, &ambient());
    assert_eq!((daemon.phase, daemon.ui.phase), (Phase::Paused, UiPhase::Paused));
    daemon.handle_audio(1, vec![2.0], 0.1);
    assert_eq!(daemon.buffer, [1.0]);
    daemon.handle_osd(1, OsdEvent::PauseToggle, &ambient());
    assert_eq!((daemon.phase, daemon.ui.phase), (Phase::Recording, UiPhase::Recording));
    daemon.handle_audio(1, vec![3.0], 0.1);
    assert_eq!(daemon.buffer, [1.0, 3.0]);
    daemon.handle_cmd(Cmd::Pause, &ambient());
    daemon.handle_cmd(Cmd::Record, &ambient());
    assert_eq!(daemon.phase, Phase::Recording);
}

#[test]
fn every_block_is_kept_in_order() {
    let mut daemon = recording();
    for i in 0..100 {
        daemon.handle_audio(1, vec![i as f32, i as f32 + 0.5], i as f32);
    }
    assert_eq!(daemon.buffer.len(), 200);
    assert_eq!(&daemon.buffer[..3], [0.0, 0.5, 1.0]);
    assert_eq!(daemon.ui.levels.len(), 48);
    assert_eq!(daemon.ui.levels[0], 52.0);
    assert_eq!(daemon.ui.levels[47], 99.0);
}

#[test]
fn empty_recording_is_told() {
    let mut daemon = recording();
    let actions = daemon.handle_osd(1, OsdEvent::Commit, &ambient());
    assert_eq!(names(&actions), ["StopCapture"]);
    let feedback = daemon.ui.feedback.clone().unwrap();
    assert_eq!((feedback.kind, feedback.message.as_str()), (FeedbackKind::Info, "nada gravado"));
    assert_eq!(daemon.feedback.unwrap().deadline, NOW + 1_200_000_000);
}

#[test]
fn silence_is_told() {
    let mut daemon = recording();
    daemon.handle_audio(1, vec![0.0], 0.0);
    daemon.handle_cmd(Cmd::Commit, &ambient());
    daemon.handle_worker(
        WorkerOutcome::Transcribed { session: 1, text: String::new() },
        NOW,
    );
    assert_eq!(daemon.ui.feedback.as_ref().unwrap().message, "nada detectado");
    assert_eq!(daemon.phase, Phase::Idle);
    assert!(daemon.osd_open);
}

#[test]
fn failed_processing_is_told() {
    let mut daemon = recording();
    daemon.handle_audio(1, vec![0.0], 0.0);
    daemon.handle_cmd(Cmd::Commit, &ambient());
    daemon.handle_worker(
        WorkerOutcome::Failed { session: 1, msg: "transcrição falhou: x".to_string() },
        NOW,
    );
    assert_eq!(daemon.ui.phase, UiPhase::Error);
    assert_eq!(daemon.feedback.unwrap().deadline, NOW + 2_500_000_000);
}

#[test]
fn commit_without_an_engine_is_told() {
    let mut daemon = test_daemon(1, Phase::Recording);
    daemon.buffer = vec![1.0];
    daemon.commit(NOW);
    assert_eq!(
        daemon.ui.feedback.as_ref().unwrap().message,
        "modelo não carregado: rode 'whisper setup'"
    );
}

#[test]
fn stale_outcome_is_dropped() {
    let mut daemon = recording();
    daemon.handle_audio(1, vec![0.0], 0.0);
    daemon.handle_cmd(Cmd::Commit, &ambient());
    let actions = daemon.handle_worker(
        WorkerOutcome::Transcribed { session: 0, text: "velho".to_string() },
        NOW,
    );
    assert_eq!(names(&actions), ["Note(StaleOutcome)"]);
    assert_eq!(daemon.pending_insert, None);
    assert_eq!(daemon.phase, Phase::Transcribing);
}

#[test]
fn recorder_that_ends_is_told() {
    let mut daemon = recording();
    assert!(daemon.needs_stderr(1, &None));
    assert!(!daemon.needs_stderr(0, &None));
    let actions = daemon.handle_audio_ended(1, None, " no target node available\n", NOW);
    assert_eq!(names(&actions), ["StopCapture"]);
    assert_eq!(
        daemon.ui.feedback.as_ref().unwrap().message,
        "áudio indisponível: no target node available"
    );
    assert_eq!(daemon.feedback.unwrap().deadline, NOW + AUDIO_FEEDBACK_DURATION);

    let mut daemon = recording();
    daemon.handle_audio_ended(1, Some("erro de leitura".to_string()), "x", NOW);
    assert_eq!(
        daemon.ui.feedback.as_ref().unwrap().message,
        "áudio indisponível: erro de leitura"
    );

    let mut daemon = recording();
    daemon.handle_audio_ended(1, None, " \n", NOW);
    assert_eq!(daemon.ui.feedback.as_ref().unwrap().message, "captura de áudio encerrou");

    let mut daemon = recording();
    let actions = daemon.handle_audio_ended(7, None, "", NOW);
    assert_eq!(names(&actions), ["Note(StaleAudioEnd)"]);
    assert_eq!(daemon.phase, Phase::Recording);
}

#[test]
fn recorder_that_does_not_start_is_told() {
    let mut daemon = recording();
    daemon.handle_cmd(Cmd::Cancel, &ambient());
    daemon.handle_cmd(Cmd::Toggle, &ambient());
    daemon.capture_started(Err("sem PipeWire".to_string()), NOW);
    assert_eq!(daemon.ui.feedback.as_ref().unwrap().message, "áudio: sem PipeWire");
    assert_eq!(daemon.respond(Cmd::Toggle, None).state, "idle");
}

#[test]
fn engine_that_does_not_load_is_told() {
    let mut daemon: Daemon<f32> = Daemon::new(Config::default(), None);
    daemon.handle_cmd(Cmd::Toggle, &ambient());
    daemon.handle_engine_loaded(1, Err("arquivo ausente".to_string()), &ambient());
    assert_eq!(
        daemon.ui.feedback.as_ref().unwrap().message,
        "modelo indisponível: arquivo ausente"
    );
}

#[test]
fn stale_engine_is_loaded_again_later() {
    let mut daemon = recording();
    let actions =
        daemon.handle_engine_loaded(0, Ok(EngineInfo { vad_available: true }), &ambient());
    assert_eq!(names(&actions), ["Note(StaleEngine)"]);
    assert!(daemon.pending_engine_reload);
    assert!(daemon.reload_engine_if_pending().is_empty());
    daemon.handle_cmd(Cmd::Cancel, &ambient());
    assert_eq!(names(&daemon.reload_engine_if_pending()), ["LoadEngine { session: 1 }"]);
    assert!(!daemon.pending_engine_reload);
    let actions = daemon.handle_engine_loaded(1, Err("x".to_string()), &ambient());
    assert_eq!(names(&actions), ["Note(EngineKept { error: \"x\" })"]);
    assert!(daemon.engine.is_some());
    let actions =
        daemon.handle_engine_loaded(1, Ok(EngineInfo { vad_available: true }), &ambient());
    assert_eq!(names(&actions), ["KeepEngine", "Note(EngineReloaded)"]);
}

#[test]
fn configuration_is_taken_at_once() {
    let mut daemon = recording();
    assert!(daemon.config_changed(Some(5)));
    let mut cfg = Config::default();
    cfg.language = Language::En;
    let actions = daemon.config_loaded(Some(5), Ok(cfg));
    assert_eq!(names(&actions), ["Note(ConfigReloaded)"]);
    assert_eq!(daemon.cfg.language, Language::En);
    assert_eq!(daemon.phase, Phase::Recording);
    assert!(!daemon.pending_engine_reload);
    assert!(!daemon.config_changed(Some(5)));
    assert!(daemon.config_changed(None));
}

#[test]
fn other_model_schedules_a_reload() {
    let mut daemon = recording();
    let mut cfg = Config::default();
    cfg.model = "turbo".to_string();
    daemon.config_loaded(Some(5), Ok(cfg));
    assert!(daemon.pending_engine_reload);
}

#[test]
fn other_language_model_ends_the_server() {
    let mut daemon = recording();
    let mut cfg = Config::default();
    cfg.ai.gpu = false;
    let actions = daemon.config_loaded(Some(5), Ok(cfg));
    assert_eq!(names(&actions), ["KillServer", "Note(ConfigReloaded)"]);
    assert!(!daemon.pending_engine_reload);
}

#[test]
fn invalid_configuration_is_ignored() {
    let mut daemon = recording();
    daemon.cfg.threads = 9;
    let actions = daemon.config_loaded(Some(5), Err("linha 1".to_string()));
    assert_eq!(names(&actions), ["Note(ConfigKept { error: \"linha 1\" })"]);
    assert_eq!(daemon.cfg.threads, 9);
    assert_eq!(daemon.cfg_mtime, Some(5));
}

#[test]
fn stop_releases_everything() {
    let mut daemon = recording();
    let actions = daemon.handle_cmd(Cmd::Stop, &ambient());
    assert_eq!(names(&actions), ["StopCapture", "CloseOsd", "KillServer"]);
    assert_eq!(daemon.phase, Phase::Idle);
    assert_eq!(daemon.respond(Cmd::Stop, None).state, "stopping");
}

#[test]
fn message_does_not_block_a_new_session() {
    let mut daemon = recording();
    daemon.handle_cmd(Cmd::Commit, &ambient());
    assert!(daemon.feedback.is_some());
    let actions = daemon.handle_cmd(Cmd::Toggle, &ambient());
    assert_eq!(
        names(&actions),
        ["CloseOsd", "OpenOsd { session: 2 }", "StartCapture { session: 2 }"]
    );
    assert!(daemon.feedback.is_none());
    assert!(daemon.ui.feedback.is_none());
}

#[test]
fn message_goes_away_and_closes_the_overlay() {
    let mut daemon = recording();
    daemon.handle_cmd(Cmd::Commit, &ambient());
    assert!(daemon.handle_event(Event::Tick, &at(NOW + SECOND)).is_empty());
    assert_eq!(daemon.event_wait_duration(NOW + SECOND), 200_000_000);
    let actions = daemon.handle_event(Event::Tick, &at(NOW + 1_200_000_000));
    assert_eq!(names(&actions), ["CloseOsd"]);
    assert!(daemon.feedback.is_none() && daemon.ui.feedback.is_none());
    assert_eq!(daemon.event_wait_duration(NOW), EVENT_POLL_INTERVAL);
}

#[test]
fn message_of_another_session_only_expires() {
    let mut daemon = test_daemon(2, Phase::Recording);
    daemon.feedback = Some(PendingFeedback { session: 1, deadline: NOW });
    assert!(daemon.expire_feedback_if_due(NOW).is_empty());
    assert_eq!(daemon.phase, Phase::Recording);
    assert!(daemon.feedback.is_none());
}

#[test]
fn smart_mode_is_switched_where_the_model_is_there() {
    let mut daemon = recording();
    let here = Ambient { now: NOW, wtype_available: true, ai_available: true };
    assert_eq!(daemon.respond(Cmd::Status, None).smart, Some(false));
    daemon.handle_osd(1, OsdEvent::SmartToggle, &here);
    assert!(daemon.ui.smart);
    assert_eq!(daemon.respond(Cmd::Status, None).smart, Some(true));
    daemon.handle_audio(1, vec![1.0], 0.5);
    let actions = daemon.handle_cmd(Cmd::Toggle, &here);
    assert_eq!(
        names(&actions)[1],
        "Transcribe { session: 1, samples: [1.0], smart: true }"
    );
    daemon.handle_cmd(Cmd::Cancel, &here);
    daemon.handle_cmd(Cmd::Toggle, &here);
    assert!(!daemon.ui.smart);
}

#[test]
fn missing_smart_mode_is_told_for_a_while() {
    let mut daemon = recording();
    daemon.handle_osd(1, OsdEvent::SmartToggle, &ambient());
    assert!(!daemon.ui.smart);
    assert_eq!(daemon.ui.feedback.as_ref().unwrap().message, "Smart indisponível");
    assert_eq!(daemon.phase, Phase::Recording);
    assert_eq!(daemon.event_wait_duration(NOW + 1_500_000_000), 500_000_000);
    daemon.expire_feedback_if_due(NOW + AUDIO_FEEDBACK_DURATION);
    assert!(daemon.ui.feedback.is_none());
    assert_eq!(daemon.phase, Phase::Recording);
}

#[test]
fn session_numbers_wrap() {
    let mut daemon = test_daemon(u64::MAX, Phase::Idle);
    daemon.start_session(&ambient());
    assert_eq!(daemon.session, 0);
}

#[test]
fn warning_follows_what_is_missing() {
    let mut daemon: Daemon<f32> = Daemon::new(Config::default(), None);
    daemon.cfg.ai.enabled = true;
    daemon.start_session(&Ambient { now: NOW, wtype_available: false, ai_available: false });
    assert_eq!(
        daemon.ui.warning.as_deref(),
        Some("wtype e Qwen ausentes — digitação e cleanup limitados")
    );
}

#[test]
fn notices_have_their_lines() {
    assert_eq!(
        Notice::EngineKept { error: "e".to_string() }.message(),
        "whisper: falha ao recarregar modelo, mantendo o atual: e"
    );
    assert_eq!(Notice::ConfigReloaded.message(), "whisper: config recarregada");
    assert_eq!(
        Notice::StaleOsdEvent.message(),
        "whisper: evento do OSD descartado (sessão antiga)"
    );
}

#[test]
fn events_are_dispatched() {
    let mut daemon: Daemon<f32> = Daemon::new(Config::default(), None);
    daemon.handle_event(Event::Command(Cmd::Toggle), &ambient());
    daemon.handle_event(
        Event::EngineLoaded { session: 1, result: Ok(EngineInfo { vad_available: true }) },
        &ambient(),
    );
    daemon.handle_event(Event::CaptureStarted(Ok(())), &ambient());
    daemon.handle_event(
        Event::Audio { session: 1, samples: vec![0.25], level: 0.5 },
        &ambient(),
    );
    assert_eq!(daemon.buffer, [0.25]);
    daemon.handle_event(Event::Osd { session: 1, event: OsdEvent::Commit }, &ambient());
    daemon.handle_event(
        Event::Worker(WorkerOutcome::Transcribed { session: 1, text: "Oi.".to_string() }),
        &ambient(),
    );
    let actions =
        daemon.handle_event(Event::Osd { session: 1, event: OsdEvent::Closed }, &ambient());
    assert_eq!(names(&actions), ["Insert { text: \"Oi.\", mode: Fallback }"]);
    daemon.handle_event(
        Event::ConfigLoaded { mtime: Some(1), loaded: Err("x".to_string()) },
        &ambient(),
    );
    assert_eq!(daemon.cfg_mtime, Some(1));
    let actions = daemon.handle_event(
        Event::AudioEnded { session: 9, error: None, stderr: String::new() },
        &ambient(),
    );
    assert_eq!(names(&actions), ["Note(StaleAudioEnd)"]);
}
