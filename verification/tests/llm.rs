use whisper::config::{state_dir, AiConfig, Config, XdgEnv};
use whisper::llm::{
    ai_available, basic_ok, chat_request, choose_text, plausible, reply_text, server_args,
    server_url, strip_think, system_prompt, wants_model, AfterFailure, Ensure, Health, Llm,
    Process, ReplyError,
};

fn env() -> XdgEnv {
    XdgEnv {
        config_home: None,
        data_home: None,
        state_home: None,
        runtime_dir: None,
        home: Some("/home/ana".to_string()),
    }
}

#[test]
fn server_args_include_required_flags() {
    let cfg = AiConfig {
        context_size: 4096,
        ..AiConfig::default()
    };
    let args = server_args("/tmp/model.gguf", 43123, &cfg, 7, 999, &env());
    assert_eq!(args[0], "llama-server");
    assert!(args.windows(2).any(|w| w == ["--model", "/tmp/model.gguf"]));
    assert!(args.windows(2).any(|w| w == ["--host", "127.0.0.1"]));
    assert!(args.windows(2).any(|w| w == ["--port", "43123"]));
    assert!(args.windows(2).any(|w| w == ["-c", "4096"]));
    assert!(args.windows(2).any(|w| w == ["-t", "7"]));
    assert!(args.windows(2).any(|w| w == ["-ngl", "999"]));
    assert!(args.windows(2).any(|w| w == ["--reasoning", "off"]));
    assert!(args
        .windows(2)
        .any(|w| { w == ["--chat-template-kwargs", r#"{"enable_thinking":false}"#] }));
    assert!(args.windows(2).any(|w| w == ["--no-webui", "--sleep-idle-seconds"]));
    assert!(args.windows(2).any(|w| w == ["--sleep-idle-seconds", "300"]));
    assert!(args
        .windows(2)
        .any(|w| w == ["--log-file".to_string(), format!("{}/llama.log", state_dir(&env()))]));
}

#[test]
fn strip_think_removes_first_block() {
    assert_eq!(strip_think("  texto  "), "texto");
    assert_eq!(strip_think("<think>raciocínio</think>resultado"), "resultado");
    assert_eq!(strip_think("antes <think>raciocínio</think> depois"), "antes  depois");
}

#[test]
fn strip_think_keeps_what_is_not_a_block() {
    assert_eq!(strip_think(" <think>aberto "), "<think>aberto");
    assert_eq!(strip_think("</think>fora<think>"), "</think>fora<think>");
    assert_eq!(strip_think("<think>a</think>b<think>c</think>"), "b<think>c</think>");
    assert_eq!(strip_think(""), "");
}

#[test]
fn plausible_rejects_empty_think_growth_numbers_and_urls() {
    assert!(!plausible("texto", ""));
    assert!(!plausible("texto", "<think>segredo</think>"));
    assert!(!plausible("curto", &"x".repeat(600)));
    assert!(!plausible("o código 1234", "o código"));
    assert!(!plausible("acesse https://example.com/a", "acesse"));
}

#[test]
fn plausible_accepts_good_text_and_reordered_numbers() {
    assert!(plausible(
        "marque para 1234 ou 56 em https://example.com",
        "Marque para 56 ou 1234 em https://example.com"
    ));
}

#[test]
fn basic_ok_checks_only_general_shape() {
    assert!(basic_ok("uma resposta", "texto curto"));
    assert!(!basic_ok("   ", "texto"));
    assert!(!basic_ok("<think>não", "texto"));
    assert!(!basic_ok(&"x".repeat(600), "curto"));
}

#[test]
fn length_limit_counts_bytes() {
    let raw = "é";
    assert!(basic_ok(&"x".repeat(520), raw));
    assert!(!basic_ok(&"x".repeat(521), raw));
    assert!(basic_ok(&"é".repeat(260), raw));
    assert!(!basic_ok(&"é".repeat(261), raw));
}

#[test]
fn single_digits_may_change_and_every_url_counts() {
    assert!(plausible("tenho 1 gato", "tenho um gato"));
    assert!(!plausible("10 e 20", "10 e vinte"));
    assert!(!plausible("http://a.b e http://c.d", "http://a.b"));
    assert!(plausible("http://a.b e http://c.d", "http://c.d http://a.b"));
    assert!(!plausible("http://a.b,", "http://a.b"));
    assert!(plausible("fim 12", "fim 12"));
}

#[test]
fn unchanged_text_is_plausible() {
    for raw in ["marque 1234 em https://a.b/c?d=12 agora", "é", "12"] {
        assert!(plausible(raw, raw));
    }
}

#[test]
fn chat_request_is_the_expected_json() {
    for smart in [false, true] {
        let raw = "diga \"oi\"\n\tagora \u{1} ção";
        let body: serde_json::Value = serde_json::from_str(&chat_request(raw, smart)).unwrap();
        assert_eq!(body["model"], "qwen");
        assert_eq!(body["messages"][0]["role"], "system");
        assert_eq!(body["messages"][0]["content"], system_prompt(smart));
        assert_eq!(body["messages"][1]["role"], "user");
        assert_eq!(body["messages"][1]["content"], raw);
        assert_eq!(body["temperature"], if smart { 0.7 } else { 0.3 });
        assert_eq!(body["top_p"], 0.8);
        assert_eq!(body["top_k"], 20);
        assert_eq!(body["max_tokens"], if smart { 1024 } else { 512 });
        assert_eq!(body["stream"], false);
        assert_eq!(body.as_object().unwrap().len(), 7);
        assert_eq!(serde_json::to_string(&body).unwrap(), chat_request(raw, smart));
    }
}

#[test]
fn replies_are_checked() {
    assert_eq!(reply_text(Some("<think>x</think> Oi ")), Ok("Oi".to_string()));
    assert_eq!(reply_text(None), Err(ReplyError::NoChoices));
    assert_eq!(reply_text(Some(" <think>x</think> ")), Err(ReplyError::Empty));
    assert_eq!(ReplyError::NoChoices.message(), "resposta do llama-server sem choices");
    assert_eq!(ReplyError::Empty.message(), "resposta vazia do llama-server");
}

#[test]
fn rejected_answers_fall_back_to_the_plain_cleanup() {
    let cfg = Config::default();
    let raw = "hmm então 1234";
    assert_eq!(choose_text(raw, None, false, &cfg), "Então 1234.");
    assert_eq!(choose_text(raw, Some("perdeu".to_string()), false, &cfg), "Então 1234.");
    assert_eq!(
        choose_text(raw, Some("Agora, 1234!".to_string()), false, &cfg),
        "Agora, 1234!"
    );
    assert_eq!(choose_text(raw, Some("perdeu".to_string()), true, &cfg), "perdeu");
    assert_eq!(choose_text(raw, Some("  ".to_string()), true, &cfg), "Então 1234.");
}

#[test]
fn model_is_asked_where_it_is_wanted() {
    let mut cfg = Config::default();
    assert!(!ai_available(&cfg, true, true));
    cfg.ai.enabled = true;
    assert!(ai_available(&cfg, true, true));
    assert!(!ai_available(&cfg, false, true));
    assert!(!ai_available(&cfg, true, false));
    assert!(wants_model(&cfg, false, true));
    cfg.ai.cleanup = false;
    assert!(!wants_model(&cfg, false, true));
    assert!(wants_model(&cfg, true, true));
    assert!(!wants_model(&cfg, true, false));
}

#[test]
fn server_starts_on_the_gpu_and_falls_back_to_the_cpu() {
    let cfg = AiConfig::default();
    let mut llm = Llm::new();
    assert_eq!(llm.ensure(&cfg, Process::Exited), Ensure::Start { ngl: 999 });
    llm.started(4000);
    assert_eq!(llm.start_failed(&cfg, None), AfterFailure::Retry { ngl: 0 });
    assert_eq!(llm.port, None);
    assert_eq!(
        llm.start_failed(&cfg, Some("sem VRAM")),
        AfterFailure::GiveUp {
            context: "iniciando llama-server (tentativa GPU falhou: sem VRAM)".to_string()
        }
    );
    let cpu = AiConfig { gpu: false, ..AiConfig::default() };
    assert_eq!(llm.ensure(&cpu, Process::Running), Ensure::Start { ngl: 0 });
    assert_eq!(
        llm.start_failed(&cpu, None),
        AfterFailure::GiveUp { context: "iniciando llama-server".to_string() }
    );
}

#[test]
fn running_server_is_used_again() {
    let cfg = AiConfig::default();
    let mut llm = Llm::default();
    llm.started(4000);
    assert_eq!(llm.ensure(&cfg, Process::Running), Ensure::Use { port: 4000 });
    assert_eq!(llm.running_port(Process::Running), Some(4000));
    assert_eq!(llm.running_port(Process::Exited), None);
    assert!(!llm.kill());
    llm.started(4001);
    assert!(llm.kill());
    assert_eq!(llm.port, None);
}

#[test]
fn health_is_awaited_until_the_deadline() {
    let mut llm = Llm::new();
    assert_eq!(llm.health_step(Process::Running, true, 0, 10), Health::Vanished);
    llm.started(1);
    assert_eq!(llm.health_step(Process::Running, false, 9, 10), Health::Wait);
    assert_eq!(llm.health_step(Process::Running, true, 99, 10), Health::Ready);
    assert_eq!(llm.health_step(Process::Running, false, 10, 10), Health::TimedOut);
    assert_eq!(llm.health_step(Process::Exited, false, 0, 10), Health::Exited);
    assert_eq!(llm.port, None);
    assert_eq!(Health::Wait.failure(""), None);
    assert_eq!(
        Health::Exited.failure("exit status: 1").unwrap(),
        "llama-server encerrou durante a inicialização (exit status: 1)"
    );
    assert_eq!(
        Health::TimedOut.failure("").unwrap(),
        "llama-server não respondeu a /health em 30 segundos"
    );
}

#[test]
fn server_messages_and_addresses() {
    assert_eq!(server_url(8080, "/health"), "http://127.0.0.1:8080/health");
    assert!(Llm::start_error(true, "x").contains(Llm::hint()));
    assert_eq!(Llm::start_error(false, "negado"), "iniciando llama-server: negado");
}

#[test]
fn failed_request_ends_the_server() {
    let mut llm = Llm::new();
    assert!(!llm.request_done(false));
    llm.started(4000);
    assert!(!llm.request_done(true));
    assert_eq!(llm.port, Some(4000));
    assert!(llm.request_done(false));
    assert_eq!(llm.port, None);
}
