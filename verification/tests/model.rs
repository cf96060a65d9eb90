use whisper::config::XdgEnv;
use whisper::model::{
    check_length, check_partial, chunk_ranges, content_range_total, download_step, download_url,
    file_name, find, find_llm, llm_models, models, models_dir, range_header, transfer_plan, vad_model,
    vad_model_path, ByteRange, DownloadStep, Tally, Transfer,
};

fn env() -> XdgEnv {
    XdgEnv {
        config_home: None,
        data_home: Some("/d".to_string()),
        state_home: None,
        runtime_dir: None,
        home: None,
    }
}

#[test]
fn catalog_contains_expected_models() {
    for name in ["tiny", "base", "small", "medium", "large-v3", "turbo"] {
        assert!(find(name).is_some(), "faltando {name}");
    }
    assert_eq!(find("turbo").unwrap().file, "ggml-large-v3-turbo.bin");
    assert!(find("inexistente").is_none());
}

#[test]
fn llm_catalog_is_separate_and_exact() {
    let spec = find_llm("qwen3.5-0.8b").unwrap();
    assert!(find("qwen3.5-0.8b").is_none());
    assert_eq!(spec.file, "Qwen_Qwen3.5-0.8B-Q5_K_M.gguf");
    assert_eq!(spec.size_mb, 650);
    assert_eq!(
        spec.base_url,
        "https://huggingface.co/bartowski/Qwen_Qwen3.5-0.8B-GGUF/resolve/main"
    );
    assert!(find_llm("inexistente").is_none());
}

#[test]
fn vad_model_is_not_selectable_but_has_expected_origin() {
    let vad = vad_model();
    assert!(find(vad.name).is_none());
    assert_eq!(vad.file, "ggml-silero-v6.2.0.bin");
    assert_eq!(
        vad.base_url,
        "https://huggingface.co/ggml-org/whisper-vad/resolve/main"
    );
    assert_eq!(vad.size_mb, 1);
    assert_eq!(vad_model_path(&env()), format!("{}/{}", models_dir(&env()), vad.file));
}

#[test]
fn parse_content_range_total() {
    let mut h = reqwest::header::HeaderMap::new();
    let total = |h: &reqwest::header::HeaderMap| {
        content_range_total(h.get(reqwest::header::CONTENT_RANGE).map(|v| v.as_bytes()))
    };
    h.insert(
        reqwest::header::CONTENT_RANGE,
        "bytes 0-0/123456789".parse().unwrap(),
    );
    assert_eq!(total(&h), Some(123456789));
    h.insert(
        reqwest::header::CONTENT_RANGE,
        "bytes 0-0/*".parse().unwrap(),
    );
    assert_eq!(total(&h), None);
    h.insert(reqwest::header::CONTENT_RANGE, "lixo".parse().unwrap());
    assert_eq!(total(&h), None);
}

#[test]
fn content_range_edges() {
    assert_eq!(content_range_total(None), None);
    assert_eq!(content_range_total(Some(b"a/b/42")), Some(42));
    assert_eq!(content_range_total(Some(b"/+7")), Some(7));
    assert_eq!(content_range_total(Some(b"/18446744073709551615")), Some(u64::MAX));
    assert_eq!(content_range_total(Some(b"/18446744073709551616")), None);
    assert_eq!(content_range_total(Some(b"/ 7")), None);
    assert_eq!(content_range_total(Some(b"/")), None);
    assert_eq!(content_range_total(Some(b"\x01/7")), None);
    assert_eq!(content_range_total(Some(b"\xff/7")), None);
}

#[test]
fn catalogs_find_their_own_entries() {
    for spec in models() {
        assert_eq!(find(spec.name), Some(spec));
        assert_eq!(file_name(spec.name), Some(spec.file));
        assert_eq!(find_llm(spec.name), None);
    }
    for spec in llm_models() {
        assert_eq!(find_llm(spec.name), Some(spec));
        assert_eq!(find(spec.name), None);
    }
    assert_eq!(models().len(), 6);
    assert_eq!(file_name("x"), None);
}

#[test]
fn urls_join_repository_and_file() {
    assert_eq!(
        download_url(&find("tiny").unwrap()),
        "https://huggingface.co/ggerganov/whisper.cpp/resolve/main/ggml-tiny.bin"
    );
}

#[test]
fn probe_decides_how_to_download() {
    assert_eq!(
        transfer_plan(206, Some(b"bytes 0-0/100")),
        Transfer::Parallel { total: 100 }
    );
    assert_eq!(transfer_plan(206, Some(b"bytes 0-0/*")), Transfer::Fresh);
    assert_eq!(transfer_plan(206, None), Transfer::Fresh);
    assert_eq!(transfer_plan(200, Some(b"bytes 0-0/100")), Transfer::UseProbe);
}

#[test]
fn ranges_partition_the_file() {
    const CHUNK: u64 = 32 * 1024 * 1024;
    for total in [1, 2, 1000, CHUNK - 1, CHUNK, CHUNK + 1, 5 * CHUNK, 16 * CHUNK + 5, 40 * CHUNK] {
        let ranges = chunk_ranges(total);
        assert_eq!(ranges.len() as u64, total.div_ceil(CHUNK).clamp(1, 16));
        let mut next = 0;
        for range in &ranges {
            assert_eq!(range.start, next);
            assert!(range.start <= range.end);
            next = range.end + 1;
        }
        assert_eq!(next, total);
    }
    assert_eq!(
        chunk_ranges(3 * CHUNK)[1],
        ByteRange { start: CHUNK, end: 2 * CHUNK - 1 }
    );
}

#[test]
fn parts_are_requested_and_checked() {
    let range = ByteRange { start: 10, end: 19 };
    assert_eq!(range_header(range), "bytes=10-19");
    assert_eq!(check_partial(206), Ok(()));
    assert_eq!(
        check_partial(200),
        Err("servidor não honrou o Range (resposta não-206)".to_string())
    );
    assert_eq!(check_length(range, 10), Ok(()));
    assert_eq!(
        check_length(range, 9),
        Err("resposta curta: 9 de 10 bytes".to_string())
    );
}

#[test]
fn reports_are_tallied() {
    let mut tally = Tally::new(3);
    tally.record(Ok(()));
    assert_eq!(tally.remaining, 2);
    assert_eq!(
        tally.outcome(),
        Err("download incompleto: conexões sem resposta: 2".to_string())
    );
    tally.record(Err("a".to_string()));
    assert_eq!(
        tally.outcome(),
        Err("download incompleto: a; conexões sem resposta: 1".to_string())
    );
    tally.record(Err("b".to_string()));
    assert_eq!(tally.remaining, 0);
    assert_eq!(tally.outcome(), Err("download incompleto: a; b".to_string()));
    let mut complete = Tally::new(1);
    complete.record(Ok(()));
    assert_eq!(complete.outcome(), Ok(()));
}

#[test]
fn partial_files_are_removed_and_whole_ones_kept() {
    assert_eq!(download_step(true, None), DownloadStep::Skip);
    assert_eq!(download_step(true, Some(false)), DownloadStep::Skip);
    assert_eq!(download_step(false, None), DownloadStep::Fetch);
    assert_eq!(download_step(false, Some(true)), DownloadStep::Done);
    assert_eq!(download_step(false, Some(false)), DownloadStep::RemovePartial);
}
