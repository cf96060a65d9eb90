use whisper::config::{Config, Language};
use whisper::postprocess::{
    char_is_settled, fix_punctuation, remove_fillers, rust_cleanup, text_is_settled,
};

#[test]
fn remove_fillers_pt() {
    assert_eq!(
        remove_fillers("hmm então ahn vamos eh testar", Language::Pt),
        "então vamos testar"
    );
}

#[test]
fn remove_fillers_keeps_real_words() {
    assert_eq!(
        remove_fillers("tipo é um teste", Language::Pt),
        "tipo é um teste"
    );
    assert_eq!(
        remove_fillers("um, uh, let me think", Language::En),
        "let me think"
    );
}

#[test]
fn remove_fillers_case_and_punctuation_insensitive() {
    assert_eq!(remove_fillers("Hmm, ahn!", Language::Pt), "");
}

#[test]
fn punctuation_collapses_spaces_and_capitalizes() {
    assert_eq!(
        fix_punctuation("olá   mundo .  como vai ?", true),
        "Olá mundo. Como vai?"
    );
}

#[test]
fn punctuation_final_period() {
    assert_eq!(fix_punctuation("isto é um teste", true), "Isto é um teste.");
    assert_eq!(fix_punctuation("isto é um teste", false), "Isto é um teste");
    assert_eq!(fix_punctuation("já tem ponto.", true), "Já tem ponto.");
    assert_eq!(fix_punctuation("pergunta?", true), "Pergunta?");
    assert_eq!(fix_punctuation("", true), "");
}

#[test]
fn punctuation_does_not_capitalize_mid_sentence() {
    assert_eq!(fix_punctuation("a b c", true), "A b c.");
}

#[test]
fn capitals_of_other_scripts_come_from_std() {
    assert_eq!(fix_punctuation("éramos", false), "Éramos");
    assert_eq!(fix_punctuation("ßa", false), "SSa");
    assert_eq!(fix_punctuation("ǆa", false), "Ǆa");
    assert_eq!(fix_punctuation("1a", false), "1A");
    assert_eq!(fix_punctuation("日本", false), "日本");
}

#[test]
fn auto_language_has_no_fillers() {
    assert_eq!(remove_fillers("hmm um", Language::Auto), "hmm um");
}

#[test]
fn fillers_stay_removed() {
    for text in ["hmm então ahn", "eh, ahã mmm fim", "ãhn"] {
        let once = remove_fillers(text, Language::Pt);
        assert_eq!(remove_fillers(&once, Language::Pt), once);
    }
}

#[test]
fn fillers_with_a_tilde_in_capitals() {
    assert_eq!(remove_fillers("ÃHN vamos", Language::Pt), "vamos");
    assert_eq!(remove_fillers("Ãhn, vamos AHÃ.", Language::Pt), "vamos");
    assert_eq!(remove_fillers("ÃHN vamos", Language::En), "ÃHN vamos");
}

#[test]
fn punctuation_stays_fixed() {
    for text in [" olá  , mundo .tudo bem ? sim", "ßa. ŉ! ǆ", "", " . ", "1 2", "a.b"] {
        for final_period in [true, false] {
            let once = fix_punctuation(text, final_period);
            assert_eq!(fix_punctuation(&once, final_period), once);
        }
    }
}

#[test]
fn upper_case_of_every_character_is_settled() {
    for c in '\0'..=char::MAX {
        assert!(char_is_settled(c), "{c:?}");
    }
    assert!(text_is_settled("ŉ ß. Olá!"));
}

#[test]
fn punctuation_stays_fixed_for_every_letter() {
    for c in ('\0'..=char::MAX).filter(|c| c.is_alphabetic()) {
        let once = fix_punctuation(&format!("{c}b"), true);
        assert_eq!(fix_punctuation(&once, true), once);
    }
}

#[test]
fn collapsed_spaces_stay_collapsed() {
    let once = fix_punctuation("  a \n b  , c  ", true);
    assert_eq!(fix_punctuation(&once, true), once);
}

#[test]
fn final_period_is_the_only_difference() {
    for text in ["olá mundo", "olá. mundo", "fim!"] {
        let with = fix_punctuation(text, true);
        let without = fix_punctuation(text, false);
        assert!(with == without || with == format!("{without}."));
    }
}

#[test]
fn cleanup_can_be_turned_off() {
    let mut cfg = Config::default();
    cfg.remove_fillers = false;
    cfg.punctuation = false;
    cfg.final_period = true;
    assert_eq!(rust_cleanup("  hmm  ", &cfg), "  hmm  ");
}
