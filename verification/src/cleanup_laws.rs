//! What the cleanup of a transcription does to any text.
use vstd::prelude::*;

use crate::config::{ConfigView, Language};
use crate::postprocess::{
    at_sentence_start, capitalized, char_is_alphabetic, char_upper, cleaned, collapsed, filtered,
    fillers, is_filler, lemma_letters_push, lemma_spaced_push, lemma_word_len,
    lemma_words_are_words, lemma_words_front, lemma_without_fillers, law_words_of_spaced,
    letters_of, punctuated, spaced, token_of, without_fillers, word_len, words,
};
use crate::text::{is_white_space, lemma_leading, lemma_trailing};

verus! {

// ---------------------------------------------------------------------------
// Words
// ---------------------------------------------------------------------------

/// Whitespace is what Unicode calls so: in ASCII the space and the characters
/// from the tab to the carriage return, beyond it the other spaces and the
/// separators of lines and paragraphs.
pub proof fn law_white_space(c: char)
    ensures
        (c as u32) < 128 ==> is_white_space(c) == (c == ' ' || c == '\t' || c == '\n' || c as u32
            == 11 || c as u32 == 12 || c == '\r'),
        (c as u32) >= 128 ==> is_white_space(c) == (c as u32 == 0x85 || c as u32 == 0xa0 || c as u32
            == 0x1680 || (0x2000 <= c as u32 && c as u32 <= 0x200a) || c as u32 == 0x2028
            || c as u32 == 0x2029 || c as u32 == 0x202f || c as u32 == 0x205f || c as u32
            == 0x3000),
{
}

/// Whitespace separates words: those before it and those behind it are the
/// words of the text.
pub proof fn law_words_split_at_whitespace(a: Seq<char>, c: char, b: Seq<char>)
    requires
        is_white_space(c),
    ensures
        words(a.push(c) + b) == words(a) + words(b),
    decreases a.len(),
{
    let s = a.push(c) + b;
    if a.len() == 0 {
        assert(s.drop_first() =~= b);
        assert(words(a) + words(b) =~= words(b));
    } else if is_white_space(a[0]) {
        law_words_split_at_whitespace(a.drop_first(), c, b);
        assert(s.drop_first() =~= a.drop_first().push(c) + b);
    } else {
        lemma_word_len(a);
        let n = word_len(a) as int;
        let w = a.take(n);
        let rest = a.skip(n);
        let more = rest.push(c) + b;
        assert forall|i: int| 0 <= i < w.len() implies !is_white_space(#[trigger] w[i]) by {
            assert(w[i] == a[i]);
        }
        assert(rest.len() > 0 ==> rest[0] == a[n]);
        lemma_words_front(w, rest);
        lemma_words_front(w, more);
        assert(w + rest =~= a);
        assert(w + more =~= s);
        law_words_split_at_whitespace(rest, c, b);
        assert(words(s) =~= words(a) + words(b));
    }
}

/// A text without whitespace is one word, and no text is no word.
pub proof fn law_word_is_kept_whole(w: Seq<char>)
    requires
        forall|i: int| 0 <= i < w.len() ==> !is_white_space(#[trigger] w[i]),
    ensures
        words(w) == if w.len() == 0 {
            Seq::empty()
        } else {
            seq![w]
        },
{
    if w.len() > 0 {
        lemma_words_front(w, Seq::empty());
        assert(w + Seq::<char>::empty() =~= w);
        assert(words(Seq::empty()) =~= Seq::empty());
        assert(words(w) =~= seq![w]);
    }
}

/// Words are put together with one space between neighbours.
pub proof fn law_one_space_between_words(list: Seq<Seq<char>>, w: Seq<char>)
    ensures
        spaced(Seq::empty()) == Seq::<char>::empty(),
        spaced(seq![w]) == w,
        list.len() > 0 ==> spaced(list.push(w)) == spaced(list) + seq![' '] + w,
{
    lemma_spaced_push(list, w);
}

// ---------------------------------------------------------------------------
// Fillers
// ---------------------------------------------------------------------------

/// The fillers of each language, in lower case. A word is one of them if it
/// is, in lower case, in the list; where the language is detected, none is.
pub proof fn law_filler_words(core: Seq<char>)
    ensures
        ({
            let low = core.map_values(
                |c: char|
                    if 'A' <= c <= 'Z' {
                        ((c as u32) + 32) as char
                    } else if c == 'Ã' {
                        'ã'
                    } else {
                        c
                    },
            );
            &&& is_filler(core, Language::Pt) == (low == "hmm"@ || low == "ahn"@ || low == "ãhn"@
                || low == "eh"@ || low == "hm"@ || low == "mmm"@ || low == "ahã"@)
            &&& is_filler(core, Language::En) == (low == "um"@ || low == "uh"@ || low == "hmm"@
                || low == "ah"@ || low == "er"@ || low == "mm"@)
            &&& !is_filler(core, Language::Auto)
        }),
{
    reveal_strlit("hmm");
    reveal_strlit("ahn");
    reveal_strlit("ãhn");
    reveal_strlit("eh");
    reveal_strlit("hm");
    reveal_strlit("mmm");
    reveal_strlit("ahã");
    reveal_strlit("um");
    reveal_strlit("uh");
    reveal_strlit("ah");
    reveal_strlit("er");
    reveal_strlit("mm");
    let fold = |c: char| crate::postprocess::folded(c);
    let low = core.map_values(
        |c: char|
            if 'A' <= c <= 'Z' {
                ((c as u32) + 32) as char
            } else if c == 'Ã' {
                'ã'
            } else {
                c
            },
    );
    assert(core.map_values(fold) =~= low);
    let pt = fillers(Language::Pt);
    let en = fillers(Language::En);
    assert forall|k: int| 0 <= k < pt.len() implies (#[trigger] pt[k]).map_values(fold)
        == pt[k] by {
        assert(pt[k].map_values(fold) =~= pt[k]);
    }
    assert forall|k: int| 0 <= k < en.len() implies (#[trigger] en[k]).map_values(fold)
        == en[k] by {
        assert(en[k].map_values(fold) =~= en[k]);
    }
    assert(pt[0] == "hmm"@ && pt[1] == "ahn"@ && pt[2] == "ãhn"@ && pt[3] == "eh"@ && pt[4]
        == "hm"@ && pt[5] == "mmm"@ && pt[6] == "ahã"@);
    assert(en[0] == "um"@ && en[1] == "uh"@ && en[2] == "hmm"@ && en[3] == "ah"@ && en[4] == "er"@
        && en[5] == "mm"@);
}

/// What is not alphabetic at the two ends of a word does not count: the core
/// runs from the first letter to the last.
pub proof fn law_core_runs_from_letter_to_letter(
    before: Seq<char>,
    core: Seq<char>,
    behind: Seq<char>,
)
    requires
        core.len() > 0,
        char_is_alphabetic(core[0]),
        char_is_alphabetic(core.last()),
        forall|i: int| 0 <= i < before.len() ==> !char_is_alphabetic(#[trigger] before[i]),
        forall|i: int| 0 <= i < behind.len() ==> !char_is_alphabetic(#[trigger] behind[i]),
    ensures
        token_of(before + core + behind).core_text() == core,
{
    let w = before + core + behind;
    let token = token_of(w);
    let mark = token.letters.map_values(|b: bool| !b);
    let a = before.len() as int;
    let b = a + core.len();
    assert forall|i: int| 0 <= i < a implies mark[i] by {
        assert(w[i] == before[i]);
    }
    assert(w[a] == core[0]);
    assert forall|i: int| b <= i < mark.len() implies mark[i] by {
        assert(w[i] == behind[i - b]);
    }
    assert(w[b - 1] == core.last());
    lemma_leading(mark, a);
    lemma_trailing(mark, b);
    assert(token.core_text() =~= core);
}

/// The words that stay, as a filter.
proof fn lemma_kept_words(list: Seq<Seq<char>>, lang: Language)
    ensures
        without_fillers(list.map_values(|w: Seq<char>| token_of(w)), lang) == list.filter(
            |w: Seq<char>| !is_filler(token_of(w).core_text(), lang),
        ),
    decreases list.len(),
{
    let f = |w: Seq<char>| token_of(w);
    reveal(Seq::filter);
    if list.len() > 0 {
        assert(list.map_values(f).drop_last() =~= list.drop_last().map_values(f));
        assert(list.map_values(f).last() == token_of(list.last()));
        lemma_kept_words(list.drop_last(), lang);
    }
}

/// Only fillers are removed: every other word of the text stays, as often as
/// it was there and in the same order, whatever stands next to it.
pub proof fn law_only_fillers_are_removed(s: Seq<char>, lang: Language)
    requires
        lang != Language::Auto,
    ensures
        words(filtered(s, lang)) == words(s).filter(
            |w: Seq<char>| !is_filler(token_of(w).core_text(), lang),
        ),
{
    lemma_words_are_words(s);
    lemma_without_fillers(words(s), lang);
    lemma_kept_words(words(s), lang);
    law_words_of_spaced(without_fillers(words(s).map_values(|w: Seq<char>| token_of(w)), lang));
}

/// The words that stay are one space apart, with nothing around them; where
/// the language is detected the text stays as it is.
pub proof fn law_filtered_text_is_its_words(s: Seq<char>, lang: Language)
    ensures
        lang != Language::Auto ==> filtered(s, lang) == spaced(words(filtered(s, lang))),
        filtered(s, Language::Auto) == s,
{
    if lang != Language::Auto {
        lemma_words_are_words(s);
        lemma_without_fillers(words(s), lang);
        law_words_of_spaced(
            without_fillers(words(s).map_values(|w: Seq<char>| token_of(w)), lang),
        );
    }
}

/// Fillers are removed on each side of a whitespace as if the other side were
/// not there.
pub proof fn law_fillers_are_removed_locally(
    a: Seq<char>,
    c: char,
    b: Seq<char>,
    lang: Language,
)
    requires
        is_white_space(c),
        lang != Language::Auto,
    ensures
        words(filtered(a.push(c) + b, lang)) == words(filtered(a, lang)) + words(
            filtered(b, lang),
        ),
{
    let p = |w: Seq<char>| !is_filler(token_of(w).core_text(), lang);
    law_only_fillers_are_removed(a.push(c) + b, lang);
    law_only_fillers_are_removed(a, lang);
    law_only_fillers_are_removed(b, lang);
    law_words_split_at_whitespace(a, c, b);
    Seq::filter_distributes_over_add(words(a), words(b), p);
}

// ---------------------------------------------------------------------------
// Spacing
// ---------------------------------------------------------------------------

/// Each character in turn: whitespace vanishes; what follows whitespace gets
/// one space before it, unless it is one of `,` `.` `!` `?` `;` `:` `…`; all
/// else is kept.
pub proof fn law_spacing_of_each_character(s: Seq<char>, i: int)
    requires
        0 <= i < s.len(),
    ensures
        collapsed(Seq::empty()) == Seq::<char>::empty(),
        is_white_space(s[i]) ==> collapsed(s.take(i + 1)) == collapsed(s.take(i)),
        !is_white_space(s[i]) && i > 0 && is_white_space(s[i - 1]) && s[i] != ',' && s[i] != '.'
            && s[i] != '!' && s[i] != '?' && s[i] != ';' && s[i] != ':' && s[i] != '…'
            ==> collapsed(s.take(i + 1)) == collapsed(s.take(i)).push(' ').push(s[i]),
        !is_white_space(s[i]) && (i == 0 || !is_white_space(s[i - 1]) || s[i] == ',' || s[i] == '.'
            || s[i] == '!' || s[i] == '?' || s[i] == ';' || s[i] == ':' || s[i] == '…')
            ==> collapsed(s.take(i + 1)) == collapsed(s.take(i)).push(s[i]),
{
    let t = s.take(i + 1);
    assert(t.drop_last() =~= s.take(i));
    assert(t.last() == s[i]);
    if i > 0 {
        assert(t[t.len() - 2] == s[i - 1]);
    }
    let before = collapsed(s.take(i));
    if is_white_space(s[i]) {
        assert(collapsed(t) =~= before);
    } else if i > 0 && is_white_space(s[i - 1]) && !crate::postprocess::is_punctuation(s[i]) {
        assert(collapsed(t) =~= before.push(' ').push(s[i]));
    } else {
        assert(collapsed(t) =~= before.push(s[i]));
    }
}

// ---------------------------------------------------------------------------
// Capitals
// ---------------------------------------------------------------------------

/// The text with its capitals, up to a position.
proof fn lemma_capitals_step(t: Seq<char>, i: int)
    requires
        0 <= i < t.len(),
    ensures
        capitalized(letters_of(t.take(i + 1))) == if char_is_alphabetic(t[i])
            && at_sentence_start(letters_of(t.take(i))) {
            capitalized(letters_of(t.take(i))) + char_upper(t[i])
        } else {
            capitalized(letters_of(t.take(i))).push(t[i])
        },
        at_sentence_start(letters_of(t.take(i + 1))) == (crate::postprocess::is_terminal(t[i]) || (
        !char_is_alphabetic(t[i]) && at_sentence_start(letters_of(t.take(i))))),
{
    assert(t.take(i + 1) =~= t.take(i).push(t[i]));
    lemma_letters_push(t.take(i), t[i]);
}

/// What capitals make of the beginning of a text stands at the beginning of
/// what they make of the whole.
pub proof fn law_capitals_from_left_to_right(t: Seq<char>, i: int)
    requires
        0 <= i <= t.len(),
    ensures
        capitalized(letters_of(t.take(i))).is_prefix_of(capitalized(letters_of(t))),
        capitalized(letters_of(Seq::empty())) == Seq::<char>::empty(),
    decreases t.len() - i,
{
    assert(letters_of(Seq::empty()) =~= Seq::empty());
    if i < t.len() {
        law_capitals_from_left_to_right(t, i + 1);
        lemma_capitals_step(t, i);
    } else {
        assert(t.take(i) =~= t);
    }
}

/// The first letter of a text is in upper case, and what stands before it is
/// kept.
pub proof fn law_first_letter_is_a_capital(t: Seq<char>, i: int)
    requires
        0 <= i < t.len(),
        char_is_alphabetic(t[i]),
        forall|k: int| 0 <= k < i ==> !char_is_alphabetic(#[trigger] t[k]),
    ensures
        capitalized(letters_of(t.take(i + 1))) == t.take(i) + char_upper(t[i]),
        (t.take(i) + char_upper(t[i])).is_prefix_of(capitalized(letters_of(t))),
{
    lemma_before_first_letter(t, i);
    lemma_capitals_step(t, i);
    law_capitals_from_left_to_right(t, i + 1);
}

proof fn lemma_before_first_letter(t: Seq<char>, i: int)
    requires
        0 <= i <= t.len(),
        forall|k: int| 0 <= k < i ==> !char_is_alphabetic(#[trigger] t[k]),
    ensures
        capitalized(letters_of(t.take(i))) == t.take(i),
        at_sentence_start(letters_of(t.take(i))),
    decreases i,
{
    if i == 0 {
        assert(letters_of(t.take(0)) =~= Seq::empty());
        assert(t.take(0) =~= Seq::empty());
    } else {
        lemma_before_first_letter(t, i - 1);
        lemma_capitals_step(t, i - 1);
        assert(t.take(i) =~= t.take(i - 1).push(t[i - 1]));
    }
}

proof fn lemma_behind_mark(t: Seq<char>, j: int, i: int)
    requires
        0 <= j < i <= t.len(),
        t[j] == '.' || t[j] == '!' || t[j] == '?' || t[j] == '…',
        forall|k: int| j < k < i ==> !char_is_alphabetic(#[trigger] t[k]),
    ensures
        at_sentence_start(letters_of(t.take(i))),
    decreases i,
{
    if i > j + 1 {
        lemma_behind_mark(t, j, i - 1);
    }
    lemma_capitals_step(t, i - 1);
}

/// The first letter behind each of `.` `!` `?` `…` is in upper case.
pub proof fn law_letter_behind_a_mark_is_a_capital(t: Seq<char>, j: int, i: int)
    requires
        0 <= j < i < t.len(),
        t[j] == '.' || t[j] == '!' || t[j] == '?' || t[j] == '…',
        char_is_alphabetic(t[i]),
        forall|k: int| j < k < i ==> !char_is_alphabetic(#[trigger] t[k]),
    ensures
        capitalized(letters_of(t.take(i + 1))) == capitalized(letters_of(t.take(i))) + char_upper(
            t[i],
        ),
{
    lemma_behind_mark(t, j, i);
    lemma_capitals_step(t, i);
}

proof fn lemma_within_sentence(t: Seq<char>, j: int, i: int)
    requires
        0 <= j < i <= t.len(),
        char_is_alphabetic(t[j]),
        forall|k: int|
            j <= k < i ==> #[trigger] t[k] != '.' && t[k] != '!' && t[k] != '?' && t[k] != '…',
    ensures
        !at_sentence_start(letters_of(t.take(i))),
    decreases i,
{
    if i > j + 1 {
        lemma_within_sentence(t, j, i - 1);
    }
    lemma_capitals_step(t, i - 1);
}

/// All else is kept: what is no letter, and any character behind a letter with
/// none of `.` `!` `?` `…` since.
pub proof fn law_all_else_is_kept(t: Seq<char>, j: int, i: int)
    requires
        0 <= i < t.len(),
        !char_is_alphabetic(t[i]) || (0 <= j < i && char_is_alphabetic(t[j]) && forall|k: int|
            j <= k < i ==> #[trigger] t[k] != '.' && t[k] != '!' && t[k] != '?' && t[k] != '…'),
    ensures
        capitalized(letters_of(t.take(i + 1))) == capitalized(letters_of(t.take(i))).push(t[i]),
{
    lemma_capitals_step(t, i);
    if char_is_alphabetic(t[i]) {
        lemma_within_sentence(t, j, i);
    }
}

// ---------------------------------------------------------------------------
// The whole
// ---------------------------------------------------------------------------

/// Punctuating puts the spacing in order, then the capitals, then, where it is
/// asked for, the end: a period, unless the text is empty or ends with one of
/// `.` `!` `?` `…`.
pub proof fn law_parts_of_punctuation(s: Seq<char>)
    ensures
        punctuated(s, false) == capitalized(letters_of(collapsed(s))),
        ({
            let t = punctuated(s, false);
            punctuated(s, true) == if t.len() == 0 || t.last() == '.' || t.last() == '!' || t.last()
                == '?' || t.last() == '…' {
                t
            } else {
                t.push('.')
            }
        }),
{
}

/// Fillers are removed before the punctuation is put in order, and each of the
/// two only where it is switched on.
pub proof fn law_parts_of_the_cleanup(s: Seq<char>, cfg: ConfigView)
    ensures
        cfg.remove_fillers && cfg.punctuation ==> cleaned(s, cfg) == punctuated(
            filtered(s, cfg.language),
            cfg.final_period,
        ),
        cfg.remove_fillers && !cfg.punctuation ==> cleaned(s, cfg) == filtered(s, cfg.language),
        !cfg.remove_fillers && cfg.punctuation ==> cleaned(s, cfg) == punctuated(
            s,
            cfg.final_period,
        ),
        !cfg.remove_fillers && !cfg.punctuation ==> cleaned(s, cfg) == s,
{
}

} // verus!
