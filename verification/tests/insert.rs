use std::cell::RefCell;
use whisper::config::InsertMode;
use whisper::insert::{
    copying_result, executable_file, has_wtype_in, insert_step, insert_with, insertion_notice,
    typing_result, wtype_hint, CopyExit, Exit, FileInfo, InsertOutcome, InsertStep,
};

#[test]
fn insert_text_calls_only_wtype() {
    let calls = RefCell::new(Vec::new());
    let outcome = insert_with(
        "texto",
        InsertMode::InsertText,
        |text| {
            calls.borrow_mut().push(format!("wtype:{text}"));
            Ok(())
        },
        |text| {
            calls.borrow_mut().push(format!("wl-copy:{text}"));
            Ok(())
        },
    )
    .unwrap();

    assert_eq!(outcome, InsertOutcome::Inserted);
    assert_eq!(calls.into_inner(), ["wtype:texto"]);
}

#[test]
fn insert_text_returns_wtype_failure_without_copying() {
    let calls = RefCell::new(Vec::new());
    let result = insert_with(
        "texto",
        InsertMode::InsertText,
        |_| {
            calls.borrow_mut().push("wtype");
            Err("wtype falhou".to_string())
        },
        |_| {
            calls.borrow_mut().push("wl-copy");
            Ok(())
        },
    );

    assert_eq!(result, Err("wtype falhou".to_string()));
    assert_eq!(calls.into_inner(), ["wtype"]);
}

#[test]
fn copy_to_clipboard_calls_only_wl_copy() {
    let calls = RefCell::new(Vec::new());
    let outcome = insert_with(
        "texto",
        InsertMode::CopyToClipboard,
        |_| {
            calls.borrow_mut().push("wtype".to_string());
            Ok(())
        },
        |text| {
            calls.borrow_mut().push(format!("wl-copy:{text}"));
            Ok(())
        },
    )
    .unwrap();

    assert_eq!(outcome, InsertOutcome::Copied);
    assert_eq!(calls.into_inner(), ["wl-copy:texto"]);
}

#[test]
fn fallback_does_not_copy_after_successful_insertion() {
    let calls = RefCell::new(Vec::new());
    let outcome = insert_with(
        "texto",
        InsertMode::Fallback,
        |_| {
            calls.borrow_mut().push("wtype");
            Ok(())
        },
        |_| {
            calls.borrow_mut().push("wl-copy");
            Ok(())
        },
    )
    .unwrap();

    assert_eq!(outcome, InsertOutcome::Inserted);
    assert_eq!(calls.into_inner(), ["wtype"]);
}

#[test]
fn fallback_copies_after_insertion_failure() {
    let calls = RefCell::new(Vec::new());
    let outcome = insert_with(
        "texto",
        InsertMode::Fallback,
        |_| {
            calls.borrow_mut().push("wtype");
            Err("wtype falhou".to_string())
        },
        |_| {
            calls.borrow_mut().push("wl-copy");
            Ok(())
        },
    )
    .unwrap();

    assert_eq!(
        outcome,
        InsertOutcome::Fallback {
            reason: "wtype falhou".to_string()
        }
    );
    assert_eq!(calls.into_inner(), ["wtype", "wl-copy"]);
}

#[test]
fn fallback_returns_real_error_when_both_operations_fail() {
    let result = insert_with(
        "texto",
        InsertMode::Fallback,
        |_| Err("wtype falhou".to_string()),
        |_| Err("wl-copy falhou".to_string()),
    );

    assert_eq!(result, Err("wtype falhou; wl-copy falhou".to_string()));
}

#[test]
fn both_calls_both_operations_even_when_insertion_fails() {
    let calls = RefCell::new(Vec::new());
    let result = insert_with(
        "texto",
        InsertMode::Both,
        |_| {
            calls.borrow_mut().push("wtype");
            Err("wtype falhou".to_string())
        },
        |_| {
            calls.borrow_mut().push("wl-copy");
            Ok(())
        },
    );

    assert_eq!(calls.into_inner(), ["wtype", "wl-copy"]);
    assert_eq!(
        result,
        Err("wtype falhou; texto no clipboard — dá para colar manualmente".to_string())
    );
}

#[test]
fn both_reports_success_when_both_operations_succeed() {
    let outcome = insert_with("texto", InsertMode::Both, |_| Ok(()), |_| Ok(())).unwrap();
    assert_eq!(outcome, InsertOutcome::InsertedAndCopied);
}

#[test]
fn both_reports_the_remaining_failures() {
    let result = insert_with(
        "texto",
        InsertMode::Both,
        |_| Ok(()),
        |_| Err("wl-copy falhou".to_string()),
    );
    assert_eq!(result, Err("wl-copy falhou".to_string()));
    let result = insert_with(
        "texto",
        InsertMode::Both,
        |_| Err("wtype falhou".to_string()),
        |_| Err("wl-copy falhou".to_string()),
    );
    assert_eq!(result, Err("wtype falhou; wl-copy falhou".to_string()));
    let result = insert_with(
        "texto",
        InsertMode::CopyToClipboard,
        |_| Ok(()),
        |_| Err("wl-copy falhou".to_string()),
    );
    assert_eq!(result, Err("wl-copy falhou".to_string()));
}

#[test]
fn steps_follow_the_mode() {
    assert_eq!(insert_step(InsertMode::Both, &None, &None), InsertStep::Type);
    assert_eq!(insert_step(InsertMode::Both, &Some(None), &None), InsertStep::Copy);
    assert_eq!(
        insert_step(InsertMode::Both, &Some(Some("e".to_string())), &None),
        InsertStep::Copy
    );
    assert_eq!(
        insert_step(InsertMode::Fallback, &Some(None), &None),
        InsertStep::Done(Ok(InsertOutcome::Inserted))
    );
    assert_eq!(
        insert_step(InsertMode::Fallback, &Some(Some("e".to_string())), &None),
        InsertStep::Copy
    );
    assert_eq!(insert_step(InsertMode::CopyToClipboard, &None, &None), InsertStep::Copy);
}

#[test]
fn finds_executable_wtype_in_path() {
    assert!(has_wtype_in(&[Some(FileInfo { is_file: true, mode: 0o755 })]));
}

#[test]
fn ignores_non_executable_wtype() {
    assert!(!has_wtype_in(&[Some(FileInfo { is_file: true, mode: 0o644 })]));
}

#[test]
fn ignores_dir_without_wtype() {
    assert!(!has_wtype_in(&[None]));
}

#[test]
fn wtype_is_looked_for_in_every_directory() {
    let exec = Some(FileInfo { is_file: true, mode: 0o100 });
    let dir = Some(FileInfo { is_file: false, mode: 0o755 });
    assert!(has_wtype_in(&[None, dir, exec]));
    assert!(!has_wtype_in(&[None, dir]));
    assert!(!has_wtype_in(&[]));
    assert!(executable_file(exec) && !executable_file(dir));
}

#[test]
fn program_results_have_their_messages() {
    assert_eq!(typing_result(&Exit::Success), Ok(()));
    assert_eq!(
        typing_result(&Exit::Status("exit status: 1".to_string())),
        Err("wtype saiu com status exit status: 1".to_string())
    );
    assert_eq!(
        typing_result(&Exit::NotFound),
        Err(format!("wtype não encontrado no PATH — {}", wtype_hint()))
    );
    assert_eq!(
        typing_result(&Exit::Error("negado".to_string())),
        Err("wtype: negado".to_string())
    );
    assert_eq!(copying_result(&CopyExit::Success), Ok(()));
    assert_eq!(
        copying_result(&CopyExit::NoStdin),
        Err("wl-copy: escrevendo texto: wl-copy não aceitou stdin".to_string())
    );
    assert_eq!(
        copying_result(&CopyExit::Spawn("x".to_string())),
        Err("wl-copy: x".to_string())
    );
    assert_eq!(
        copying_result(&CopyExit::Write("x".to_string())),
        Err("wl-copy: escrevendo texto: x".to_string())
    );
    assert_eq!(
        copying_result(&CopyExit::Wait("x".to_string())),
        Err("wl-copy: aguardando processo: x".to_string())
    );
    assert_eq!(
        copying_result(&CopyExit::Status("2".to_string())),
        Err("wl-copy saiu com status 2".to_string())
    );
}

#[test]
fn insertions_are_logged_where_something_went_wrong() {
    assert_eq!(insertion_notice(&Ok(InsertOutcome::Inserted)), None);
    assert_eq!(
        insertion_notice(&Ok(InsertOutcome::Fallback { reason: "r".to_string() })).unwrap(),
        "whisper: não foi possível inserir o texto; ele foi copiado para a área de transferência. Motivo: r"
    );
    assert_eq!(
        insertion_notice(&Err("e".to_string())).unwrap(),
        "whisper: inserção falhou: e"
    );
}
