use whisper::config::{default_model, Config, InsertMode, Language, XdgEnv};
use whisper::model::{find, find_llm, vad_model};
use whisper::setup::{
    ai_question, all_choices_provided, answer_ai, apply_choices, asks_to_start, completion_lines,
    confirm_downloads, download_message, ensure_catalog_ai_model, insert_items, insert_mode_at,
    insert_mode_index, language_items, model_item_label, parse_insert_mode, parse_language,
    pending_download_total, select_ai, select_insert_mode, select_language, select_model,
    setup_step, summary_lines, AfterDownload, AiChoice, Choice, Confirmation, DownloadKind, DownloadReport,
    OnDisk, PendingDownload, SetupOptions, SetupPlan, SetupStep,
};

fn env() -> XdgEnv {
    XdgEnv {
        config_home: None,
        data_home: Some("/d".to_string()),
        state_home: None,
        runtime_dir: None,
        home: Some("/h".to_string()),
    }
}

fn nothing() -> OnDisk {
    OnDisk { model: false, vad: false, qwen: false, ai_file: false }
}

fn plan(cfg: Config, download: bool, disk: OnDisk) -> Result<SetupPlan, String> {
    SetupPlan::new(cfg, find("small").unwrap(), download, &env(), disk)
}

#[test]
fn recommended_model_is_small() {
    assert_eq!(default_model(), "small");
    assert_eq!(find(default_model()).unwrap().name, "small");
}

#[test]
fn insert_mode_values_have_stable_meaning() {
    assert_eq!(parse_insert_mode("insert").unwrap(), InsertMode::InsertText);
    assert_eq!(parse_insert_mode("type").unwrap(), InsertMode::InsertText);
    assert_eq!(parse_insert_mode("clipboard").unwrap(), InsertMode::CopyToClipboard);
    assert_eq!(parse_insert_mode("fallback").unwrap(), InsertMode::Fallback);
    assert_eq!(parse_insert_mode("both").unwrap(), InsertMode::Both);

    for mode in [
        InsertMode::Fallback,
        InsertMode::InsertText,
        InsertMode::CopyToClipboard,
        InsertMode::Both,
    ] {
        assert_eq!(insert_mode_at(insert_mode_index(mode)), mode);
    }
}

#[test]
fn invalid_insert_mode_is_rejected() {
    assert!(parse_insert_mode("invalid").is_err());
}

#[test]
fn explicit_ai_model_enables_download_without_interaction() {
    let mut cfg = Config::default();
    let options = SetupOptions {
        ai_model: Some("qwen3.5-0.8b".to_string()),
        ..SetupOptions::default()
    };

    assert_eq!(
        select_ai(&options, &mut cfg, false, false, false).unwrap(),
        AiChoice::Chosen { enabled: true, download: true }
    );
    assert_eq!(cfg.ai.model, "qwen3.5-0.8b");
}

#[test]
fn noninteractive_setup_preserves_existing_ai_choice() {
    let mut cfg = Config::default();
    cfg.ai.enabled = true;
    let options = SetupOptions::default();

    assert_eq!(
        select_ai(&options, &mut cfg, true, false, false).unwrap(),
        AiChoice::Chosen { enabled: true, download: false }
    );
}

#[test]
fn direct_ai_model_path_is_not_replaced_by_catalog_model() {
    let mut cfg = Config::default();
    cfg.ai.model = "/tmp/whisper-setup-ai.gguf".to_string();
    ensure_catalog_ai_model(&mut cfg, true);

    assert_eq!(cfg.ai.model, "/tmp/whisper-setup-ai.gguf");
}

#[test]
fn pending_download_total_sums_selected_components() {
    let pending = vec![
        PendingDownload {
            kind: DownloadKind::Whisper,
            spec: find("small").unwrap(),
            dest: "/tmp/small".to_string(),
            label: "modelo Whisper",
        },
        PendingDownload {
            kind: DownloadKind::Vad,
            spec: vad_model(),
            dest: "/tmp/vad".to_string(),
            label: "modelo VAD",
        },
    ];

    assert_eq!(pending_download_total(&pending), 467);
}

#[test]
fn missing_ai_model_is_replaced_by_the_catalog() {
    let mut cfg = Config::default();
    cfg.ai.model = "/x.gguf".to_string();
    ensure_catalog_ai_model(&mut cfg, false);
    assert_eq!(cfg.ai.model, "qwen3.5-0.8b");
    cfg.ai.model = "qwen3.5-2b".to_string();
    ensure_catalog_ai_model(&mut cfg, false);
    assert_eq!(cfg.ai.model, "qwen3.5-2b");
    cfg.ai.model = "outro".to_string();
    assert_eq!(answer_ai(&mut cfg, false, false), (false, false));
    assert_eq!(cfg.ai.model, "outro");
    assert_eq!(answer_ai(&mut cfg, true, false), (true, true));
    assert_eq!(cfg.ai.model, "qwen3.5-0.8b");
}

#[test]
fn ai_choices_follow_the_flags() {
    let mut cfg = Config::default();
    cfg.ai.enabled = true;
    let off = SetupOptions { no_ai: true, ..SetupOptions::default() };
    assert_eq!(
        select_ai(&off, &mut cfg, true, true, true).unwrap(),
        AiChoice::Chosen { enabled: false, download: false }
    );
    let bad = SetupOptions { ai_model: Some("gpt".to_string()), ..SetupOptions::default() };
    assert_eq!(
        select_ai(&bad, &mut cfg, true, true, true),
        Err("modelo AI inválido: gpt (use qwen3.5-0.8b)".to_string())
    );
    let ask = SetupOptions::default();
    assert_eq!(
        select_ai(&ask, &mut cfg, true, true, true).unwrap(),
        AiChoice::Ask { default: true }
    );
    assert_eq!(
        select_ai(&ask, &mut cfg, true, true, false).unwrap(),
        AiChoice::Ask { default: false }
    );
    assert_eq!(
        select_ai(&ask, &mut cfg, false, false, true).unwrap(),
        AiChoice::Chosen { enabled: false, download: false }
    );
}

#[test]
fn languages_are_chosen_or_asked() {
    assert_eq!(parse_language("en"), Ok(Language::En));
    assert_eq!(
        parse_language("de"),
        Err("língua inválida: de (use pt, en ou auto)".to_string())
    );
    assert_eq!(
        select_language(Some("auto"), Language::Pt, true),
        Ok(Choice::Chosen(Language::Auto))
    );
    assert_eq!(
        select_language(None, Language::En, false),
        Ok(Choice::Chosen(Language::En))
    );
    assert_eq!(
        select_language(None, Language::En, true),
        Ok(Choice::Ask { default: 1 })
    );
    assert_eq!(language_items().len(), 3);
}

#[test]
fn models_are_chosen_or_asked() {
    assert_eq!(
        select_model(Some("turbo"), "small", true),
        Ok(Choice::Chosen(find("turbo").unwrap()))
    );
    assert_eq!(
        select_model(Some("huge"), "small", true),
        Err("modelo inválido: huge (use tiny, base, small, medium, large-v3 ou turbo)".to_string())
    );
    assert_eq!(select_model(None, "turbo", true), Ok(Choice::Ask { default: 5 }));
    assert_eq!(select_model(None, "huge", true), Ok(Choice::Ask { default: 2 }));
    assert_eq!(
        select_model(None, "huge", false),
        Ok(Choice::Chosen(find("small").unwrap()))
    );
    assert_eq!(
        model_item_label(&find("small").unwrap()),
        "small — recomendado · equilíbrio entre precisão e recursos (~466 MB)"
    );
}

#[test]
fn insert_modes_are_chosen_or_asked() {
    assert_eq!(
        select_insert_mode(Some("both"), InsertMode::Fallback, true),
        Ok(Choice::Chosen(InsertMode::Both))
    );
    assert_eq!(
        select_insert_mode(None, InsertMode::CopyToClipboard, true),
        Ok(Choice::Ask { default: 2 })
    );
    assert_eq!(
        select_insert_mode(None, InsertMode::Both, false),
        Ok(Choice::Chosen(InsertMode::Both))
    );
    assert!(select_insert_mode(Some("x"), InsertMode::Both, false)
        .unwrap_err()
        .starts_with("modo de inserção inválido: x (use insert"));
    for (i, item) in insert_items().iter().enumerate() {
        assert_eq!(insert_mode_at(i).label(), *item);
    }
}

#[test]
fn plan_lists_what_is_missing() {
    let mut cfg = Config::default();
    cfg.ai.enabled = true;
    cfg.ai.model = "qwen3.5-0.8b".to_string();
    let all = plan(cfg.clone(), true, nothing()).unwrap();
    assert_eq!(
        all.pending.iter().map(|p| p.dest.as_str()).collect::<Vec<_>>(),
        [
            "/d/whisper/models/ggml-small.bin",
            "/d/whisper/models/ggml-silero-v6.2.0.bin",
            "/d/whisper/models/Qwen_Qwen3.5-0.8B-Q5_K_M.gguf",
        ]
    );
    assert_eq!(pending_download_total(&all.pending), 466 + 1 + 650);
    assert_eq!(plan(cfg.clone(), false, nothing()).unwrap().pending.len(), 2);
    let some = OnDisk { vad: true, ..nothing() };
    let kinds: Vec<DownloadKind> =
        plan(cfg.clone(), true, some).unwrap().pending.iter().map(|p| p.kind).collect();
    assert_eq!(kinds, [DownloadKind::Whisper, DownloadKind::Qwen]);
    let everything = OnDisk { model: true, vad: true, qwen: true, ai_file: true };
    assert!(plan(cfg, true, everything).unwrap().pending.is_empty());
}

#[test]
fn plan_needs_a_known_language_model() {
    let mut cfg = Config::default();
    cfg.ai.enabled = true;
    cfg.ai.model = "/x.gguf".to_string();
    assert_eq!(
        plan(cfg.clone(), true, nothing()).unwrap_err(),
        "modelo Qwen não encontrado: /x.gguf; desative AI ou escolha qwen3.5-0.8b"
    );
    let own = OnDisk { ai_file: true, ..nothing() };
    assert_eq!(plan(cfg.clone(), true, own).unwrap().pending.len(), 2);
    assert!(plan(cfg, false, nothing()).is_ok());
}

#[test]
fn confirmation_follows_the_flags() {
    let due = plan(Config::default(), false, nothing()).unwrap();
    let none = SetupOptions::default();
    assert_eq!(confirm_downloads(&due, &none, true), Confirmation::Ask);
    assert_eq!(
        confirm_downloads(&due, &none, false),
        Confirmation::Impossible(
            "setup não interativo precisa de --yes ou de todas as escolhas em flags".to_string()
        )
    );
    let yes = SetupOptions { yes: true, ..SetupOptions::default() };
    assert_eq!(confirm_downloads(&due, &yes, false), Confirmation::Given);
    let mut given = SetupOptions {
        lang: Some("pt".to_string()),
        model: Some("small".to_string()),
        insert_mode: Some("both".to_string()),
        ..SetupOptions::default()
    };
    assert!(!all_choices_provided(&given));
    given.no_ai = true;
    assert!(all_choices_provided(&given));
    assert_eq!(confirm_downloads(&due, &given, false), Confirmation::Given);
    let there = OnDisk { model: true, vad: true, qwen: false, ai_file: false };
    let nothing_due = plan(Config::default(), false, there).unwrap();
    assert_eq!(confirm_downloads(&nothing_due, &none, false), Confirmation::Given);
    assert!(asks_to_start(&none, true));
    assert!(!asks_to_start(&none, false));
    assert!(!asks_to_start(&yes, true));
    assert!(!asks_to_start(&given, true));
}

#[test]
fn failed_vad_download_does_not_abort() {
    let mut report = DownloadReport::new();
    assert_eq!(report.record(DownloadKind::Whisper, Ok(())), AfterDownload::Continue);
    assert!(!report.vad_downloaded);
    assert_eq!(
        report.record(DownloadKind::Vad, Err("404".to_string())),
        AfterDownload::Warn(
            "aviso: falha ao baixar o modelo VAD: 404\n  o ditado funciona sem filtro de voz; rode 'whisper setup' de novo para tentar.".to_string()
        )
    );
    assert!(!report.vad_downloaded);
    assert_eq!(report.record(DownloadKind::Vad, Ok(())), AfterDownload::Continue);
    assert!(report.vad_downloaded);
    assert_eq!(
        report.record(DownloadKind::Qwen, Err("404".to_string())),
        AfterDownload::Abort("404".to_string())
    );
}

#[test]
fn setup_saves_last() {
    let due = plan(Config::default(), false, nothing()).unwrap();
    let ask = Confirmation::Ask;
    assert_eq!(setup_step(&due, &ask, None, &vec![]), SetupStep::Ask);
    assert_eq!(setup_step(&due, &ask, Some(false), &vec![]), SetupStep::Cancel);
    assert_eq!(
        setup_step(&due, &ask, Some(true), &vec![]),
        SetupStep::Download { index: 0 }
    );
    assert_eq!(
        setup_step(&due, &Confirmation::Given, None, &vec![Ok(())]),
        SetupStep::Download { index: 1 }
    );
    assert_eq!(
        setup_step(&due, &ask, Some(true), &vec![Ok(()), Ok(())]),
        SetupStep::Save
    );
}

#[test]
fn setup_without_essential_file_saves_nothing() {
    let due = plan(Config::default(), false, nothing()).unwrap();
    let given = Confirmation::Given;
    let failed = || Err("404".to_string());
    assert_eq!(
        setup_step(&due, &given, None, &vec![failed()]),
        SetupStep::Abort("404".to_string())
    );
    assert_eq!(
        setup_step(&due, &given, None, &vec![Ok(()), failed()]),
        SetupStep::Save
    );
    assert_eq!(
        setup_step(&due, &Confirmation::Impossible("não".to_string()), None, &vec![Ok(()), Ok(())]),
        SetupStep::Abort("não".to_string())
    );
}

#[test]
fn question_names_the_size_of_the_model() {
    let mut cfg = Config::default();
    cfg.ai.model = "qwen3.5-0.8b".to_string();
    let question = "Ativar pós-processamento inteligente local com Qwen (~650 MB)?";
    assert_eq!(ai_question(&cfg), question);
    cfg.ai.model = "/m/own.gguf".to_string();
    assert_eq!(ai_question(&cfg), question);
}

#[test]
fn sizes_of_the_largest_plan_add_up() {
    let mut cfg = Config::default();
    cfg.ai.enabled = true;
    cfg.ai.model = "qwen3.5-0.8b".to_string();
    let due = SetupPlan::new(cfg, find("large-v3").unwrap(), true, &env(), nothing()).unwrap();
    assert_eq!(pending_download_total(&due.pending), 3744);
}

#[test]
fn summary_shows_choices_and_sizes() {
    let due = plan(Config::default(), false, nothing()).unwrap();
    assert_eq!(
        summary_lines(&due),
        [
            "",
            "Configuração",
            "",
            "  Idioma       pt",
            "  Modelo       small — recomendado · equilíbrio entre precisão e recursos",
            "  Inserção     Digitar automaticamente; clipboard só se falhar (recomendado)",
            "  Qwen cleanup Desativado",
            "",
            "Downloads pendentes:",
            "  modelo Whisper — ~466 MB",
            "  modelo VAD — ~1 MB",
            "  Total aproximado: ~467 MB",
            "",
        ]
    );
    let mut cfg = Config::default();
    cfg.ai.enabled = true;
    let there = OnDisk { model: true, vad: true, qwen: true, ai_file: true };
    let lines = summary_lines(&plan(cfg, true, there).unwrap());
    assert_eq!(lines[6], "  Qwen cleanup Ativado (qwen3.5-2b)");
    assert_eq!(lines[8], "  Downloads pendentes: nenhum");
    assert_eq!(lines.len(), 10);
}

#[test]
fn completion_shows_places_and_warnings() {
    let done = plan(Config::default(), false, nothing()).unwrap();
    let lines = completion_lines(&done, DownloadReport::new(), &env(), true);
    assert_eq!(lines.len(), 11);
    assert_eq!(lines[2], "Configuração salva em /h/.config/whisper/config.toml");
    assert_eq!(lines[7], "Qwen cleanup desativado");
    let lines = completion_lines(&done, DownloadReport { vad_downloaded: true }, &env(), false);
    assert_eq!(lines.len(), 17);
    assert!(lines[12].contains("whisper restart"));
    assert!(lines[14].contains("'wtype' não está no PATH"));
}

#[test]
fn choices_are_written_into_the_configuration() {
    let mut cfg = Config::default();
    apply_choices(
        &mut cfg,
        Language::En,
        &find("turbo").unwrap(),
        InsertMode::Both,
        true,
    );
    assert_eq!((cfg.language, cfg.insert_mode), (Language::En, InsertMode::Both));
    assert_eq!(cfg.model, "turbo");
    assert!(cfg.ai.enabled);
    assert_eq!(cfg.threads, 4);
}

#[test]
fn downloads_are_announced() {
    let spec = find_llm("qwen3.5-0.8b").unwrap();
    assert_eq!(
        download_message(&spec, "/d/x", "modelo Qwen", false),
        "baixando modelo Qwen Qwen_Qwen3.5-0.8B-Q5_K_M.gguf (~650 MB) do HuggingFace…"
    );
    assert_eq!(
        download_message(&spec, "/d/x", "modelo Qwen", true),
        "modelo Qwen já baixado: /d/x"
    );
}
