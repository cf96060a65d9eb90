//! Cleanup of a transcription: filler words, spacing, capitals and the final
//! period.
use vstd::prelude::*;

use crate::config::{Config, ConfigView, Language};
use crate::search::{ascii_lower, lower};
use crate::text::{
    char_texts, chars_of, is_white_space, leading, lemma_trim_bounds, string_of, trim_by_marks,
    trim_marked, white_space,
};

verus! {

// ---------------------------------------------------------------------------
// Character properties
// ---------------------------------------------------------------------------

/// Whether a character has the Unicode property `Alphabetic`, as
/// `char::is_alphabetic` reports it.
pub uninterp spec fn char_is_alphabetic(c: char) -> bool;

/// The upper case of a character, as `char::to_uppercase` yields it.
pub uninterp spec fn char_upper(c: char) -> Seq<char>;

/// `c` is one of the letters of ASCII.
pub open spec fn is_ascii_letter(c: char) -> bool {
    'a' <= c <= 'z' || 'A' <= c <= 'Z'
}

/// `c` with the ASCII letters `a` to `z` in upper case.
pub open spec fn ascii_upper(c: char) -> char {
    if 'a' <= c <= 'z' {
        ((c as u32) - 32) as char
    } else {
        c
    }
}

/// `char::is_alphabetic` depends on the character alone. In ASCII just the
/// letters are alphabetic.
pub assume_specification[ char::is_alphabetic ](c: char) -> (r: bool)
    ensures
        r == char_is_alphabetic(c),
        (c as u32) < 128 ==> r == is_ascii_letter(c),
;

/// `char::to_uppercase` yields one or more characters that depend on the
/// character alone. An ASCII letter yields its capital and any other ASCII
/// character itself.
#[verifier::external_body]
fn uppercase(c: char) -> (r: Vec<char>)
    ensures
        r@ == char_upper(c),
        r@.len() >= 1,
        (c as u32) < 128 ==> r@ == seq![ascii_upper(c)],
{
    c.to_uppercase().collect()
}

// ---------------------------------------------------------------------------
// Words
// ---------------------------------------------------------------------------

/// The length of the word with which `s` begins.
pub open spec fn word_len(s: Seq<char>) -> nat {
    leading(s.map_values(|c: char| !is_white_space(c)))
}

/// A word ends where whitespace begins.
pub proof fn lemma_word_len(s: Seq<char>)
    ensures
        word_len(s) <= s.len(),
        s.len() > 0 && !is_white_space(s[0]) ==> word_len(s) >= 1,
        forall|i: int| 0 <= i < word_len(s) ==> !is_white_space(#[trigger] s[i]),
        word_len(s) < s.len() ==> is_white_space(s[word_len(s) as int]),
{
    let mark = s.map_values(|c: char| !is_white_space(c));
    lemma_trim_bounds(mark);
    assert forall|i: int| 0 <= i < word_len(s) implies !is_white_space(#[trigger] s[i]) by {
        assert(mark[i]);
    }
}

/// The words of `s`: its longest pieces without whitespace, in order.
pub open spec fn words(s: Seq<char>) -> Seq<Seq<char>>
    decreases s.len(),
{
    if s.len() == 0 {
        Seq::empty()
    } else if is_white_space(s[0]) {
        words(s.drop_first())
    } else {
        let n = word_len(s) as int;
        proof {
            lemma_word_len(s);
        }
        seq![s.take(n)] + words(s.skip(n))
    }
}

/// The words with one space between neighbours.
pub open spec fn spaced(list: Seq<Seq<char>>) -> Seq<char>
    decreases list.len(),
{
    if list.len() == 0 {
        Seq::empty()
    } else if list.len() == 1 {
        list[0]
    } else {
        list[0] + seq![' '] + spaced(list.drop_first())
    }
}

/// The word is not empty and holds no whitespace.
pub open spec fn is_word(w: Seq<char>) -> bool {
    w.len() > 0 && forall|i: int| 0 <= i < w.len() ==> !is_white_space(#[trigger] w[i])
}

/// `words` gives words.
pub proof fn lemma_words_are_words(s: Seq<char>)
    ensures
        forall|k: int| 0 <= k < words(s).len() ==> is_word(#[trigger] words(s)[k]),
    decreases s.len(),
{
    if s.len() > 0 {
        if is_white_space(s[0]) {
            lemma_words_are_words(s.drop_first());
            assert(words(s) == words(s.drop_first()));
        } else {
            lemma_word_len(s);
            let n = word_len(s) as int;
            lemma_words_are_words(s.skip(n));
            assert(is_word(s.take(n))) by {
                assert forall|i: int| 0 <= i < n implies !is_white_space(
                    #[trigger] s.take(n)[i],
                ) by {
                    assert(s.take(n)[i] == s[i]);
                }
            }
            assert forall|k: int| 0 <= k < words(s).len() implies is_word(
                #[trigger] words(s)[k],
            ) by {
                assert(words(s) == seq![s.take(n)] + words(s.skip(n)));
                if k > 0 {
                    assert(words(s)[k] == words(s.skip(n))[k - 1]);
                }
            }
        }
    }
}

/// A word, and behind it nothing or whitespace, is split off whole.
pub proof fn lemma_words_front(w: Seq<char>, rest: Seq<char>)
    requires
        is_word(w),
        rest.len() > 0 ==> is_white_space(rest[0]),
    ensures
        words(w + rest) == seq![w] + words(rest),
{
    let s = w + rest;
    lemma_word_len(s);
    let n = word_len(s) as int;
    assert(s[0] == w[0]);
    if n < w.len() {
        assert(s[n] == w[n]);
        assert(false);
    }
    if n > w.len() {
        assert(s[w.len() as int] == rest[0]);
        assert(false);
    }
    assert(s.take(n) =~= w);
    assert(s.skip(n) =~= rest);
}

/// Splitting what was put together from words gives the words back.
pub proof fn law_words_of_spaced(list: Seq<Seq<char>>)
    requires
        forall|k: int| 0 <= k < list.len() ==> is_word(#[trigger] list[k]),
    ensures
        words(spaced(list)) == list,
    decreases list.len(),
{
    if list.len() == 1 {
        lemma_words_front(list[0], Seq::empty());
        assert(list[0] + Seq::<char>::empty() =~= list[0]);
        assert(seq![list[0]] + words(Seq::empty()) =~= list);
    } else if list.len() > 1 {
        let tail = list.drop_first();
        assert forall|k: int| 0 <= k < tail.len() implies is_word(#[trigger] tail[k]) by {
            assert(tail[k] == list[k + 1]);
        }
        law_words_of_spaced(tail);
        let rest = seq![' '] + spaced(tail);
        assert(rest[0] == ' ');
        assert(is_white_space(' '));
        lemma_words_front(list[0], rest);
        assert(list[0] + rest =~= spaced(list));
        assert(rest.drop_first() =~= spaced(tail));
        assert(seq![list[0]] + tail =~= list);
    }
}

/// Adding one more word behind the others.
pub proof fn lemma_spaced_push(list: Seq<Seq<char>>, w: Seq<char>)
    ensures
        spaced(list.push(w)) == if list.len() == 0 {
            w
        } else {
            spaced(list) + seq![' '] + w
        },
    decreases list.len(),
{
    let more = list.push(w);
    if list.len() > 0 {
        assert(more.drop_first() =~= list.drop_first().push(w));
        lemma_spaced_push(list.drop_first(), w);
        assert(spaced(more) =~= spaced(list) + seq![' '] + w);
    }
}

/// The words of `chars`.
pub fn split_words(chars: &[char]) -> (out: Vec<Vec<char>>)
    ensures
        char_texts(out@) == words(chars@),
{
    let n: usize = chars.len();
    let mut out: Vec<Vec<char>> = Vec::new();
    let mut i: usize = 0;
    proof {
        assert(chars@.skip(0) =~= chars@);
        assert(char_texts(out@) + words(chars@) =~= words(chars@));
    }
    while i < n
        invariant
            i <= n,
            n == chars@.len(),
            words(chars@) == char_texts(out@) + words(chars@.skip(i as int)),
        decreases n - i,
    {
        let ghost s = chars@.skip(i as int);
        proof {
            assert(s[0] == chars@[i as int]);
        }
        if white_space(chars[i]) {
            proof {
                assert(s.drop_first() =~= chars@.skip(i + 1));
            }
            i += 1;
        } else {
            let mut word: Vec<char> = Vec::new();
            let start: usize = i;
            while i < n && !white_space(chars[i])
                invariant
                    start <= i <= n,
                    n == chars@.len(),
                    word@ == chars@.subrange(start as int, i as int),
                    forall|k: int| start <= k < i ==> !is_white_space(#[trigger] chars@[k]),
                decreases n - i,
            {
                word.push(chars[i]);
                i += 1;
                proof {
                    assert(word@ =~= chars@.subrange(start as int, i as int));
                }
            }
            proof {
                lemma_word_len(s);
                let w = word_len(s) as int;
                if w < i - start {
                    assert(s[w] == chars@[start + w]);
                    assert(false);
                }
                if w > i - start {
                    assert(s[i - start] == chars@[i as int]);
                    assert(false);
                }
                assert(s.take(w) =~= word@);
                assert(s.skip(w) =~= chars@.skip(i as int));
                assert(char_texts(out@.push(word)) =~= char_texts(out@).push(word@));
                assert(char_texts(out@) + (seq![word@] + words(chars@.skip(i as int)))
                    =~= char_texts(out@).push(word@) + words(chars@.skip(i as int)));
            }
            out.push(word);
        }
    }
    proof {
        assert(chars@.skip(n as int) =~= Seq::empty());
        assert(char_texts(out@) + words(chars@.skip(n as int)) =~= char_texts(out@));
    }
    out
}

/// The words with one space between neighbours.
pub fn join_words(list: &Vec<Vec<char>>) -> (out: Vec<char>)
    ensures
        out@ == spaced(char_texts(list@)),
{
    let ghost all = char_texts(list@);
    let mut out: Vec<char> = Vec::new();
    let mut i: usize = 0;
    proof {
        assert(all.take(0) =~= Seq::empty());
    }
    while i < list.len()
        invariant
            i <= list@.len(),
            all == char_texts(list@),
            out@ == spaced(all.take(i as int)),
        decreases list@.len() - i,
    {
        proof {
            lemma_spaced_push(all.take(i as int), all[i as int]);
            assert(all.take(i as int).push(all[i as int]) =~= all.take(i + 1));
        }
        if i > 0 {
            out.push(' ');
        }
        push_all(&mut out, list[i].as_slice());
        i += 1;
        proof {
            assert(out@ =~= spaced(all.take(i as int)));
        }
    }
    proof {
        assert(all.take(all.len() as int) =~= all);
    }
    out
}

fn push_all(out: &mut Vec<char>, more: &[char])
    ensures
        final(out)@ == old(out)@ + more@,
{
    let mut i: usize = 0;
    while i < more.len()
        invariant
            i <= more@.len(),
            out@ == old(out)@ + more@.take(i as int),
        decreases more@.len() - i,
    {
        out.push(more[i]);
        i += 1;
        proof {
            assert(out@ =~= old(out)@ + more@.take(i as int));
        }
    }
    proof {
        assert(more@.take(more@.len() as int) =~= more@);
    }
}

// ---------------------------------------------------------------------------
// Filler words
// ---------------------------------------------------------------------------

/// Sounds of hesitation, by language; words of the language are not among
/// them.
pub open spec fn fillers(lang: Language) -> Seq<Seq<char>> {
    match lang {
        Language::Pt => seq!["hmm"@, "ahn"@, "ãhn"@, "eh"@, "hm"@, "mmm"@, "ahã"@],
        Language::En => seq!["um"@, "uh"@, "hmm"@, "ah"@, "er"@, "mm"@],
        Language::Auto => Seq::empty(),
    }
}

/// The letters of the fillers in lower case: those of ASCII and the `Ã`.
pub open spec fn folded(c: char) -> char {
    if c == 'Ã' {
        'ã'
    } else {
        ascii_lower(c)
    }
}

/// The two words are equal but for the case of the letters that fillers have.
pub open spec fn same_folded(a: Seq<char>, b: Seq<char>) -> bool {
    a.map_values(|c: char| folded(c)) == b.map_values(|c: char| folded(c))
}

/// The word is a filler, whatever its case.
pub open spec fn is_filler(core: Seq<char>, lang: Language) -> bool {
    exists|k: int|
        0 <= k < fillers(lang).len() && same_folded(core, #[trigger] fillers(lang)[k])
}

/// A word and, for each of its characters, whether it is alphabetic.
#[derive(Debug)]
pub struct Token {
    pub chars: Vec<char>,
    pub letters: Vec<bool>,
}

/// The contents of a [`Token`].
#[verifier::ext_equal]
pub struct TokenView {
    pub chars: Seq<char>,
    pub letters: Seq<bool>,
}

impl View for Token {
    type V = TokenView;

    open spec fn view(&self) -> TokenView {
        TokenView { chars: self.chars@, letters: self.letters@ }
    }
}

impl TokenView {
    /// The word without what is not alphabetic at its two ends.
    pub open spec fn core_text(self) -> Seq<char> {
        trim_marked(self.chars, self.letters.map_values(|b: bool| !b))
    }
}

/// The token of a word.
pub open spec fn token_of(w: Seq<char>) -> TokenView {
    TokenView { chars: w, letters: w.map_values(|c: char| char_is_alphabetic(c)) }
}

/// The words of the tokens whose core is no filler, in order.
pub open spec fn without_fillers(tokens: Seq<TokenView>, lang: Language) -> Seq<Seq<char>>
    decreases tokens.len(),
{
    if tokens.len() == 0 {
        Seq::empty()
    } else {
        let before = without_fillers(tokens.drop_last(), lang);
        if is_filler(tokens.last().core_text(), lang) {
            before
        } else {
            before.push(tokens.last().chars)
        }
    }
}

/// The text without fillers; a language without fillers keeps it as it is.
pub open spec fn filtered(s: Seq<char>, lang: Language) -> Seq<char> {
    if fillers(lang).len() == 0 {
        s
    } else {
        spaced(without_fillers(words(s).map_values(|w: Seq<char>| token_of(w)), lang))
    }
}

fn fold(c: char) -> (r: char)
    ensures
        r == folded(c),
{
    if c == 'Ã' {
        'ã'
    } else {
        lower(c)
    }
}

fn eq_folded(a: &[char], b: &[char]) -> (r: bool)
    ensures
        r == same_folded(a@, b@),
{
    let ghost fa = a@.map_values(|c: char| folded(c));
    let ghost fb = b@.map_values(|c: char| folded(c));
    if a.len() != b.len() {
        proof {
            assert(fa.len() != fb.len());
        }
        return false;
    }
    let mut i: usize = 0;
    while i < a.len()
        invariant
            i <= a@.len(),
            a@.len() == b@.len(),
            fa == a@.map_values(|c: char| folded(c)),
            fb == b@.map_values(|c: char| folded(c)),
            forall|j: int| 0 <= j < i ==> fa[j] == fb[j],
        decreases a@.len() - i,
    {
        if fold(a[i]) != fold(b[i]) {
            proof {
                assert(fa[i as int] != fb[i as int]);
            }
            return false;
        }
        i += 1;
    }
    proof {
        assert(fa =~= fb);
    }
    true
}

fn filler_list(lang: Language) -> (r: Vec<Vec<char>>)
    ensures
        char_texts(r@) == fillers(lang),
{
    let mut list: Vec<Vec<char>> = Vec::new();
    match lang {
        Language::Pt => {
            list.push(chars_of("hmm"));
            list.push(chars_of("ahn"));
            list.push(chars_of("ãhn"));
            list.push(chars_of("eh"));
            list.push(chars_of("hm"));
            list.push(chars_of("mmm"));
            list.push(chars_of("ahã"));
        },
        Language::En => {
            list.push(chars_of("um"));
            list.push(chars_of("uh"));
            list.push(chars_of("hmm"));
            list.push(chars_of("ah"));
            list.push(chars_of("er"));
            list.push(chars_of("mm"));
        },
        Language::Auto => {},
    }
    proof {
        assert(char_texts(list@) =~= fillers(lang));
    }
    list
}

/// Is the token a filler?
pub fn token_is_filler(token: &Token, lang: Language) -> (r: bool)
    requires
        token.chars@.len() == token.letters@.len(),
    ensures
        r == is_filler(token@.core_text(), lang),
{
    let mut mark: Vec<bool> = Vec::new();
    let mut i: usize = 0;
    while i < token.letters.len()
        invariant
            i <= token.letters@.len(),
            mark@ == token.letters@.take(i as int).map_values(|b: bool| !b),
        decreases token.letters@.len() - i,
    {
        mark.push(!token.letters[i]);
        i += 1;
        proof {
            assert(mark@ =~= token.letters@.take(i as int).map_values(|b: bool| !b));
        }
    }
    proof {
        assert(token.letters@.take(token.letters@.len() as int) =~= token.letters@);
    }
    let core = trim_by_marks(token.chars.as_slice(), mark.as_slice());
    let list = filler_list(lang);
    let mut k: usize = 0;
    while k < list.len()
        invariant
            k <= list@.len(),
            core@ == token@.core_text(),
            char_texts(list@) == fillers(lang),
            forall|j: int|
                0 <= j < k ==> !same_folded(core@, #[trigger] fillers(lang)[j]),
        decreases list@.len() - k,
    {
        proof {
            assert(fillers(lang)[k as int] == list@[k as int]@);
        }
        if eq_folded(core.as_slice(), list[k].as_slice()) {
            return true;
        }
        k += 1;
    }
    proof {
        assert(fillers(lang).len() == list@.len());
    }
    false
}

/// The views of the tokens.
pub open spec fn token_views(tokens: Seq<Token>) -> Seq<TokenView> {
    tokens.map_values(|t: Token| t@)
}

/// The words of the tokens whose core is no filler, in order.
pub fn drop_fillers(tokens: &Vec<Token>, lang: Language) -> (out: Vec<Vec<char>>)
    requires
        forall|i: int|
            0 <= i < tokens@.len() ==> (#[trigger] tokens@[i]).chars@.len()
                == tokens@[i].letters@.len(),
    ensures
        char_texts(out@) == without_fillers(token_views(tokens@), lang),
{
    let ghost all = token_views(tokens@);
    let mut out: Vec<Vec<char>> = Vec::new();
    let mut i: usize = 0;
    proof {
        assert(all.take(0) =~= Seq::empty());
        assert(char_texts(out@) =~= Seq::empty());
    }
    while i < tokens.len()
        invariant
            i <= tokens@.len(),
            all == token_views(tokens@),
            char_texts(out@) == without_fillers(all.take(i as int), lang),
            forall|i: int|
                0 <= i < tokens@.len() ==> (#[trigger] tokens@[i]).chars@.len()
                    == tokens@[i].letters@.len(),
        decreases tokens@.len() - i,
    {
        proof {
            assert(all.take(i + 1).drop_last() =~= all.take(i as int));
            assert(all.take(i + 1).last() == tokens@[i as int]@);
        }
        if !token_is_filler(&tokens[i], lang) {
            let mut word: Vec<char> = Vec::new();
            push_all(&mut word, tokens[i].chars.as_slice());
            proof {
                assert(word@ =~= tokens@[i as int].chars@);
                assert(char_texts(out@.push(word)) =~= char_texts(out@).push(word@));
            }
            out.push(word);
        }
        i += 1;
    }
    proof {
        assert(all.take(all.len() as int) =~= all);
    }
    out
}

fn classify_word(word: &[char]) -> (r: Token)
    ensures
        r@ == token_of(word@),
        r.chars@.len() == r.letters@.len(),
{
    let mut chars: Vec<char> = Vec::new();
    let mut letters: Vec<bool> = Vec::new();
    let mut i: usize = 0;
    while i < word.len()
        invariant
            i <= word@.len(),
            chars@ == word@.take(i as int),
            letters@ == word@.take(i as int).map_values(|c: char| char_is_alphabetic(c)),
        decreases word@.len() - i,
    {
        chars.push(word[i]);
        letters.push(word[i].is_alphabetic());
        i += 1;
        proof {
            assert(chars@ =~= word@.take(i as int));
            assert(letters@ =~= word@.take(i as int).map_values(
                |c: char| char_is_alphabetic(c),
            ));
        }
    }
    proof {
        assert(word@.take(word@.len() as int) =~= word@);
    }
    Token { chars, letters }
}

/// Removes the sounds of hesitation of the language, whatever their case and
/// the punctuation around them.
pub fn remove_fillers(text: &str, lang: Language) -> (out: String)
    ensures
        out@ == filtered(text@, lang),
{
    if lang == Language::Auto {
        return text.to_owned();
    }
    let chars = chars_of(text);
    let list = split_words(chars.as_slice());
    let ghost all = words(text@);
    let mut tokens: Vec<Token> = Vec::new();
    let mut i: usize = 0;
    while i < list.len()
        invariant
            i <= list@.len(),
            all == char_texts(list@),
            token_views(tokens@) == all.take(i as int).map_values(|w: Seq<char>| token_of(w)),
            forall|i: int|
                0 <= i < tokens@.len() ==> (#[trigger] tokens@[i]).chars@.len()
                    == tokens@[i].letters@.len(),
        decreases list@.len() - i,
    {
        let token = classify_word(list[i].as_slice());
        let ghost before = tokens@;
        tokens.push(token);
        i += 1;
        proof {
            assert(token_views(tokens@) =~= token_views(before).push(token@));
            assert(all.take(i as int) =~= all.take(i - 1).push(all[i - 1]));
            assert(token_views(tokens@) =~= all.take(i as int).map_values(
                |w: Seq<char>| token_of(w),
            ));
        }
    }
    proof {
        assert(all.take(all.len() as int) =~= all);
    }
    let kept = drop_fillers(&tokens, lang);
    let joined = join_words(&kept);
    string_of(joined.as_slice())
}

/// What is kept is words, and none of them is a filler.
pub proof fn lemma_without_fillers(list: Seq<Seq<char>>, lang: Language)
    requires
        forall|k: int| 0 <= k < list.len() ==> is_word(#[trigger] list[k]),
    ensures
        ({
            let kept = without_fillers(list.map_values(|w: Seq<char>| token_of(w)), lang);
            &&& forall|k: int| 0 <= k < kept.len() ==> is_word(#[trigger] kept[k])
            &&& forall|k: int|
                0 <= k < kept.len() ==> !is_filler(token_of(#[trigger] kept[k]).core_text(), lang)
        }),
    decreases list.len(),
{
    let f = |w: Seq<char>| token_of(w);
    if list.len() > 0 {
        assert(list.map_values(f).drop_last() =~= list.drop_last().map_values(f));
        assert(list.map_values(f).last() == token_of(list.last()));
        lemma_without_fillers(list.drop_last(), lang);
        let before = without_fillers(list.drop_last().map_values(f), lang);
        let kept = without_fillers(list.map_values(f), lang);
        assert forall|k: int| 0 <= k < kept.len() implies is_word(#[trigger] kept[k])
            && !is_filler(token_of(kept[k]).core_text(), lang) by {
            if k < before.len() {
                assert(kept[k] == before[k]);
            } else {
                assert(kept[k] == list.last());
            }
        }
    }
}

/// Where no word is a filler, all of them are kept.
proof fn lemma_nothing_to_remove(list: Seq<Seq<char>>, lang: Language)
    requires
        forall|k: int|
            0 <= k < list.len() ==> !is_filler(token_of(#[trigger] list[k]).core_text(), lang),
    ensures
        without_fillers(list.map_values(|w: Seq<char>| token_of(w)), lang) == list,
    decreases list.len(),
{
    let f = |w: Seq<char>| token_of(w);
    if list.len() > 0 {
        assert(list.map_values(f).drop_last() =~= list.drop_last().map_values(f));
        assert(list.map_values(f).last() == token_of(list.last()));
        lemma_nothing_to_remove(list.drop_last(), lang);
        assert(list.drop_last().push(list.last()) =~= list);
    } else {
        assert(without_fillers(list.map_values(f), lang) =~= list);
    }
}

/// No word of the filtered text is a filler.
pub proof fn law_no_fillers_left(s: Seq<char>, lang: Language)
    requires
        fillers(lang).len() > 0,
    ensures
        forall|k: int|
            0 <= k < words(filtered(s, lang)).len() ==> !is_filler(
                token_of(#[trigger] words(filtered(s, lang))[k]).core_text(),
                lang,
            ),
{
    lemma_words_are_words(s);
    lemma_without_fillers(words(s), lang);
    law_words_of_spaced(without_fillers(words(s).map_values(|w: Seq<char>| token_of(w)), lang));
}

/// Removing fillers a second time changes nothing.
pub proof fn law_remove_fillers_idempotent(s: Seq<char>, lang: Language)
    ensures
        filtered(filtered(s, lang), lang) == filtered(s, lang),
{
    if fillers(lang).len() > 0 {
        let kept = without_fillers(words(s).map_values(|w: Seq<char>| token_of(w)), lang);
        lemma_words_are_words(s);
        lemma_without_fillers(words(s), lang);
        law_words_of_spaced(kept);
        lemma_nothing_to_remove(kept, lang);
    }
}

// ---------------------------------------------------------------------------
// Spacing, capitals and the final period
// ---------------------------------------------------------------------------

/// Punctuation that stands directly behind a word.
pub open spec fn is_punctuation(c: char) -> bool {
    c == ',' || c == ';' || c == ':' || is_terminal(c)
}

/// Punctuation that ends a sentence.
pub open spec fn is_terminal(c: char) -> bool {
    c == '.' || c == '!' || c == '?' || c == '…'
}

/// What the last character of `s` becomes: whitespace vanishes, and a
/// character behind whitespace gets one space before it unless it is
/// punctuation.
pub open spec fn last_spaced(s: Seq<char>) -> Seq<char> {
    let c = s.last();
    if is_white_space(c) {
        Seq::empty()
    } else if s.len() >= 2 && is_white_space(s[s.len() - 2]) && !is_punctuation(c) {
        seq![' ', c]
    } else {
        seq![c]
    }
}

/// `s` with each run of whitespace made one space, or nothing before
/// punctuation and at the end.
pub open spec fn collapsed(s: Seq<char>) -> Seq<char>
    decreases s.len(),
{
    if s.len() == 0 {
        Seq::empty()
    } else {
        collapsed(s.drop_last()) + last_spaced(s)
    }
}

fn punctuation(c: char) -> (r: bool)
    ensures
        r == is_punctuation(c),
{
    c == ',' || c == ';' || c == ':' || terminal(c)
}

fn terminal(c: char) -> (r: bool)
    ensures
        r == is_terminal(c),
{
    c == '.' || c == '!' || c == '?' || c == '…'
}

/// `chars` with its spacing normalized.
pub fn collapse_spaces(chars: &[char]) -> (out: Vec<char>)
    ensures
        out@ == collapsed(chars@),
{
    let mut out: Vec<char> = Vec::new();
    let mut prev_ws = false;
    let mut i: usize = 0;
    while i < chars.len()
        invariant
            i <= chars@.len(),
            out@ == collapsed(chars@.take(i as int)),
            prev_ws == (i > 0 && is_white_space(chars@[i - 1])),
        decreases chars@.len() - i,
    {
        let c: char = chars[i];
        let ghost s = chars@.take(i + 1);
        proof {
            assert(s.drop_last() =~= chars@.take(i as int));
            assert(i > 0 ==> s[s.len() - 2] == chars@[i - 1]);
        }
        if white_space(c) {
            prev_ws = true;
            proof {
                assert(out@ + last_spaced(s) =~= out@);
            }
        } else {
            let ghost before = out@;
            if prev_ws && !punctuation(c) {
                out.push(' ');
            }
            out.push(c);
            prev_ws = false;
            proof {
                assert(out@ =~= before + last_spaced(s));
            }
        }
        i += 1;
    }
    proof {
        assert(chars@.take(chars@.len() as int) =~= chars@);
    }
    out
}

/// A character, whether it is alphabetic, and its upper case.
#[derive(Debug)]
pub struct Letter {
    pub ch: char,
    pub alphabetic: bool,
    pub upper: Vec<char>,
}

/// The contents of a [`Letter`].
#[verifier::ext_equal]
pub struct LetterView {
    pub ch: char,
    pub alphabetic: bool,
    pub upper: Seq<char>,
}

impl View for Letter {
    type V = LetterView;

    open spec fn view(&self) -> LetterView {
        LetterView { ch: self.ch, alphabetic: self.alphabetic, upper: self.upper@ }
    }
}

/// The letter of a character.
pub open spec fn letter_of(c: char) -> LetterView {
    LetterView { ch: c, alphabetic: char_is_alphabetic(c), upper: char_upper(c) }
}

/// The letters of a text.
pub open spec fn letters_of(s: Seq<char>) -> Seq<LetterView> {
    s.map_values(|c: char| letter_of(c))
}

/// Behind these characters a sentence begins: there is no letter since the
/// beginning of the text or since the last sentence ended.
pub open spec fn at_sentence_start(s: Seq<LetterView>) -> bool
    decreases s.len(),
{
    s.len() == 0 || is_terminal(s.last().ch) || (!s.last().alphabetic && at_sentence_start(
        s.drop_last(),
    ))
}

/// The text with the first letter of each sentence in upper case.
pub open spec fn capitalized(s: Seq<LetterView>) -> Seq<char>
    decreases s.len(),
{
    if s.len() == 0 {
        Seq::empty()
    } else {
        let before = capitalized(s.drop_last());
        if s.last().alphabetic && at_sentence_start(s.drop_last()) {
            before + s.last().upper
        } else {
            before.push(s.last().ch)
        }
    }
}

/// The text with a period at its end, where one is wanted and no other
/// terminal punctuation stands there.
pub open spec fn closed(s: Seq<char>, final_period: bool) -> Seq<char> {
    if final_period && s.len() > 0 && !is_terminal(s.last()) {
        s.push('.')
    } else {
        s
    }
}

/// The text with its spacing, capitals and end in order.
pub open spec fn punctuated(s: Seq<char>, final_period: bool) -> Seq<char> {
    closed(capitalized(letters_of(collapsed(s))), final_period)
}

/// The views of the letters.
pub open spec fn letter_views(letters: Seq<Letter>) -> Seq<LetterView> {
    letters.map_values(|l: Letter| l@)
}

proof fn lemma_letter_views_push(list: Seq<Letter>, l: Letter)
    ensures
        letter_views(list.push(l)) == letter_views(list).push(l@),
{
    assert(letter_views(list.push(l)) =~= letter_views(list).push(l@));
}

/// The text with the first letter of each sentence in upper case.
pub fn capitalize(letters: &Vec<Letter>) -> (out: Vec<char>)
    ensures
        out@ == capitalized(letter_views(letters@)),
{
    let ghost all = letter_views(letters@);
    let mut out: Vec<char> = Vec::new();
    let mut start = true;
    let mut i: usize = 0;
    proof {
        assert(all.take(0) =~= Seq::empty());
    }
    while i < letters.len()
        invariant
            i <= letters@.len(),
            all == letter_views(letters@),
            out@ == capitalized(all.take(i as int)),
            start == at_sentence_start(all.take(i as int)),
        decreases letters@.len() - i,
    {
        proof {
            assert(all.take(i + 1).drop_last() =~= all.take(i as int));
            assert(all.take(i + 1).last() == letters@[i as int]@);
        }
        if start && letters[i].alphabetic {
            push_all(&mut out, letters[i].upper.as_slice());
            start = false;
        } else {
            out.push(letters[i].ch);
        }
        if terminal(letters[i].ch) {
            start = true;
        } else if letters[i].alphabetic {
            start = false;
        }
        i += 1;
    }
    proof {
        assert(all.take(all.len() as int) =~= all);
    }
    out
}

/// The text with a period at its end, where one is wanted and no other
/// terminal punctuation stands there.
pub fn close_sentence(chars: Vec<char>, final_period: bool) -> (out: Vec<char>)
    ensures
        out@ == closed(chars@, final_period),
{
    let mut out = chars;
    if final_period && out.len() > 0 && !terminal(out[out.len() - 1]) {
        out.push('.');
    }
    out
}

/// Normalizes the spacing, removes spaces before punctuation, capitalizes the
/// beginning of sentences and, if asked to, ends the text with a period.
pub fn fix_punctuation(text: &str, final_period: bool) -> (out: String)
    ensures
        out@ == punctuated(text@, final_period),
{
    let chars = chars_of(text);
    let flat = collapse_spaces(chars.as_slice());
    let mut letters: Vec<Letter> = Vec::new();
    let mut i: usize = 0;
    while i < flat.len()
        invariant
            i <= flat@.len(),
            letter_views(letters@) == letters_of(flat@.take(i as int)),
        decreases flat@.len() - i,
    {
        let c: char = flat[i];
        let upper = uppercase(c);
        let letter = Letter { ch: c, alphabetic: c.is_alphabetic(), upper };
        let ghost before = letters@;
        let ghost added = letter;
        letters.push(letter);
        i += 1;
        proof {
            lemma_letter_views_push(before, added);
            assert(letters_of(flat@.take(i as int)) =~= letters_of(flat@.take(i - 1)).push(
                letter_of(c),
            ));
        }
    }
    proof {
        assert(flat@.take(flat@.len() as int) =~= flat@);
    }
    let out = close_sentence(capitalize(&letters), final_period);
    string_of(out.as_slice())
}

/// Whitespace in `s` is single spaces, each before a character that is
/// neither whitespace nor punctuation.
pub open spec fn well_spaced(s: Seq<char>) -> bool {
    forall|i: int|
        0 <= i < s.len() && is_white_space(#[trigger] s[i]) ==> s[i] == ' ' && i + 1 < s.len()
            && !is_white_space(s[i + 1]) && !is_punctuation(s[i + 1])
}

/// After normalizing, whitespace is single spaces between words, never before
/// punctuation and never at the end.
pub proof fn law_collapsed_well_spaced(s: Seq<char>)
    ensures
        well_spaced(collapsed(s)),
        collapsed(s).len() > 0 ==> !is_white_space(collapsed(s).last()),
    decreases s.len(),
{
    if s.len() > 0 {
        let a = collapsed(s.drop_last());
        let b = last_spaced(s);
        law_collapsed_well_spaced(s.drop_last());
        let t = collapsed(s);
        assert(t == a + b);
        assert forall|i: int| 0 <= i < t.len() && is_white_space(#[trigger] t[i]) implies t[i]
            == ' ' && i + 1 < t.len() && !is_white_space(t[i + 1]) && !is_punctuation(t[i + 1]) by {
            if i < a.len() {
                assert(t[i] == a[i]);
                assert(i + 1 < a.len());
                assert(t[i + 1] == a[i + 1]);
            } else {
                assert(t[i] == b[i - a.len()]);
                assert(t[i + 1] == b[1]);
            }
        }
    }
}

/// Normalizing the spacing keeps all other characters, in order.
pub proof fn law_collapsed_keeps_characters(s: Seq<char>)
    ensures
        collapsed(s).filter(|c: char| !is_white_space(c)) == s.filter(
            |c: char| !is_white_space(c),
        ),
    decreases s.len(),
{
    let p = |c: char| !is_white_space(c);
    reveal(Seq::filter);
    if s.len() > 0 {
        law_collapsed_keeps_characters(s.drop_last());
        let a = collapsed(s.drop_last());
        let b = last_spaced(s);
        Seq::filter_distributes_over_add(a, b, p);
        reveal_with_fuel(Seq::filter, 3);
        let c = s.last();
        if is_white_space(c) {
            assert(b.filter(p) =~= Seq::empty());
        } else if b.len() == 2 {
            assert(is_white_space(' '));
            assert(b.drop_last() =~= seq![' ']);
            assert(seq![' '].drop_last() =~= Seq::<char>::empty());
            assert(b.filter(p) =~= seq![c]);
        } else {
            assert(b.drop_last() =~= Seq::<char>::empty());
            assert(b.filter(p) =~= seq![c]);
        }
        assert(a.filter(p) + b.filter(p) =~= s.filter(p));
    }
}

proof fn lemma_collapsed_prefix(t: Seq<char>, k: int)
    requires
        well_spaced(t),
        0 <= k <= t.len(),
    ensures
        collapsed(t.take(k)) == if k > 0 && is_white_space(t[k - 1]) {
            t.take(k - 1)
        } else {
            t.take(k)
        },
    decreases k,
{
    if k > 0 {
        lemma_collapsed_prefix(t, k - 1);
        let s = t.take(k);
        assert(s.drop_last() =~= t.take(k - 1));
        assert(s.last() == t[k - 1]);
        if k >= 2 {
            assert(s[k - 2] == t[k - 2]);
        }
        if is_white_space(t[k - 1]) {
            if k >= 2 && is_white_space(t[k - 2]) {
                assert(false);
            }
            assert(collapsed(s) =~= t.take(k - 1));
        } else {
            assert(collapsed(s) =~= t.take(k));
        }
    } else {
        assert(t.take(0) =~= Seq::empty());
    }
}

/// Normalizing the spacing a second time changes nothing.
pub proof fn law_collapsed_idempotent(s: Seq<char>)
    ensures
        collapsed(collapsed(s)) == collapsed(s),
{
    let t = collapsed(s);
    law_collapsed_well_spaced(s);
    lemma_collapsed_prefix(t, t.len() as int);
    assert(t.take(t.len() as int) =~= t);
}

/// With the final period asked for, a text that is not empty ends with
/// terminal punctuation.
pub proof fn law_final_period(s: Seq<char>)
    ensures
        punctuated(s, true).len() > 0 ==> is_terminal(punctuated(s, true).last()),
{
}

/// Without the final period, the text differs only by that period.
pub proof fn law_final_period_is_the_only_difference(s: Seq<char>)
    ensures
        punctuated(s, true) == punctuated(s, false) || punctuated(s, true) == punctuated(
            s,
            false,
        ).push('.'),
{
}

/// The upper case of a letter needs no further change: it begins with a letter
/// that is its own upper case, and neither it nor the letter itself holds
/// whitespace or punctuation.
pub open spec fn is_settled(c: char) -> bool {
    char_is_alphabetic(c) ==> {
        let u = char_upper(c);
        &&& !is_white_space(c) && !is_punctuation(c)
        &&& u.len() > 0 && char_is_alphabetic(u[0]) && char_upper(u[0]) == seq![u[0]]
        &&& forall|j: int|
            0 <= j < u.len() ==> !is_white_space(#[trigger] u[j]) && !is_punctuation(u[j])
    }
}

/// Normalizing the spacing brings in no character but the space.
proof fn lemma_collapsed_characters(s: Seq<char>)
    ensures
        forall|i: int|
            0 <= i < collapsed(s).len() ==> #[trigger] collapsed(s)[i] == ' ' || s.contains(
                collapsed(s)[i],
            ),
    decreases s.len(),
{
    if s.len() > 0 {
        let before = s.drop_last();
        lemma_collapsed_characters(before);
        let t = collapsed(s);
        let a = collapsed(before);
        assert forall|i: int| 0 <= i < t.len() implies #[trigger] t[i] == ' ' || s.contains(
            t[i],
        ) by {
            if i < a.len() && a[i] != ' ' {
                let k = choose|k: int| 0 <= k < before.len() && before[k] == a[i];
                assert(s[k] == a[i]);
            }
        }
    }
}

/// What a character adds to the letters of a text.
pub proof fn lemma_letters_push(s: Seq<char>, c: char)
    ensures
        letters_of(s.push(c)) == letters_of(s).push(letter_of(c)),
        letters_of(s.push(c)).drop_last() == letters_of(s),
{
}

/// Characters that end no sentence, behind a letter, are kept as they are.
proof fn lemma_rest_is_kept(p: Seq<char>, u: Seq<char>, n: int)
    requires
        capitalized(letters_of(p)) == p,
        !at_sentence_start(letters_of(p)),
        0 <= n <= u.len(),
        forall|j: int| 0 <= j < u.len() ==> !is_punctuation(#[trigger] u[j]),
    ensures
        capitalized(letters_of(p + u.take(n))) == p + u.take(n),
        !at_sentence_start(letters_of(p + u.take(n))),
    decreases n,
{
    if n > 0 {
        lemma_rest_is_kept(p, u, n - 1);
        let q = p + u.take(n - 1);
        assert(p + u.take(n) =~= q.push(u[n - 1]));
        lemma_letters_push(q, u[n - 1]);
    }
}

/// The text up to a position, with its capitals.
spec fn capitals(t: Seq<char>, k: int) -> Seq<char> {
    capitalized(letters_of(t.take(k)))
}

/// Each space stands before a character that is neither whitespace nor
/// punctuation, but for one at the end.
spec fn spaced_so_far(p: Seq<char>) -> bool {
    forall|i: int|
        0 <= i < p.len() && is_white_space(#[trigger] p[i]) ==> p[i] == ' ' && (i + 1 < p.len()
            ==> !is_white_space(p[i + 1]) && !is_punctuation(p[i + 1]))
}

/// What is added behind a text with capitals leaves the spacing in order.
proof fn lemma_spaced_append(p: Seq<char>, added: Seq<char>)
    requires
        spaced_so_far(p),
        spaced_so_far(added),
        added.len() > 0,
        p.len() > 0 && is_white_space(p.last()) ==> !is_white_space(added[0])
            && !is_punctuation(added[0]),
    ensures
        spaced_so_far(p + added),
{
    let q = p + added;
    assert forall|i: int| 0 <= i < q.len() && is_white_space(#[trigger] q[i]) implies q[i] == ' '
        && (i + 1 < q.len() ==> !is_white_space(q[i + 1]) && !is_punctuation(q[i + 1])) by {
        assert(i == p.len() - 1 ==> q[i + 1] == added[0]);
    }
}

/// Capitals, once set, are settled, and they leave the spacing in order.
proof fn lemma_capitals_settled(t: Seq<char>, k: int)
    requires
        well_spaced(t),
        forall|i: int| 0 <= i < t.len() ==> is_settled(#[trigger] t[i]),
        0 <= k <= t.len(),
    ensures
        capitalized(letters_of(capitals(t, k))) == capitals(t, k),
        at_sentence_start(letters_of(capitals(t, k))) == at_sentence_start(letters_of(t.take(k))),
        spaced_so_far(capitals(t, k)),
        k == 0 ==> capitals(t, k).len() == 0,
        k > 0 ==> capitals(t, k).len() > 0 && is_white_space(capitals(t, k).last())
            == is_white_space(t[k - 1]),
    decreases k,
{
    if k > 0 {
        let c = t[k - 1];
        let p = capitals(t, k - 1);
        let before = t.take(k - 1);
        lemma_capitals_settled(t, k - 1);
        assert(t.take(k) =~= before.push(c));
        lemma_letters_push(before, c);
        if char_is_alphabetic(c) && at_sentence_start(letters_of(before)) {
            let u = char_upper(c);
            lemma_spaced_append(p, u);
            let first = p.push(u[0]);
            lemma_letters_push(p, u[0]);
            assert(capitalized(letters_of(first)) =~= first);
            let rest = u.drop_first();
            lemma_rest_is_kept(first, rest, rest.len() as int);
            assert(rest.take(rest.len() as int) =~= rest);
            assert(first + rest =~= p + u);
        } else {
            lemma_spaced_append(p, seq![c]);
            lemma_letters_push(p, c);
        }
    }
}

/// Putting a text in order a second time changes nothing, where the upper case
/// of its letters needs no further change.
pub proof fn law_punctuated_idempotent(s: Seq<char>, final_period: bool)
    requires
        is_settled(' '),
        is_settled('.'),
        forall|i: int| 0 <= i < s.len() ==> is_settled(#[trigger] s[i]),
    ensures
        punctuated(punctuated(s, final_period), final_period) == punctuated(s, final_period),
{
    let t = collapsed(s);
    let n = t.len() as int;
    law_collapsed_well_spaced(s);
    lemma_collapsed_characters(s);
    assert forall|i: int| 0 <= i < t.len() implies is_settled(#[trigger] t[i]) by {
        assert(t[i] == ' ' || s.contains(t[i]));
    }
    assert(t.take(n) =~= t);
    lemma_capitals_settled(t, n);
    let u = capitals(t, n);
    let v = closed(u, final_period);
    if v != u {
        lemma_letters_push(u, '.');
    }
    assert(well_spaced(v));
    lemma_collapsed_prefix(v, v.len() as int);
    assert(v.take(v.len() as int) =~= v);
}

/// Does the upper case of the character need no further change? In ASCII that
/// always holds.
pub fn char_is_settled(c: char) -> (r: bool)
    ensures
        r == is_settled(c),
        (c as u32) < 128 ==> r,
{
    if !c.is_alphabetic() {
        return true;
    }
    if white_space(c) || punctuation(c) {
        return false;
    }
    let upper = uppercase(c);
    if !upper[0].is_alphabetic() {
        return false;
    }
    let again = uppercase(upper[0]);
    if again.len() != 1 || again[0] != upper[0] {
        return false;
    }
    proof {
        assert(again@ =~= seq![upper@[0]]);
    }
    let mut i: usize = 0;
    while i < upper.len()
        invariant
            i <= upper@.len(),
            char_is_alphabetic(c),
            upper@ == char_upper(c),
            (c as u32) < 128 ==> is_ascii_letter(c) && upper@ == seq![ascii_upper(c)],
            forall|j: int|
                0 <= j < i ==> !is_white_space(#[trigger] upper@[j]) && !is_punctuation(upper@[j]),
        decreases upper@.len() - i,
    {
        if white_space(upper[i]) || punctuation(upper[i]) {
            return false;
        }
        i += 1;
    }
    true
}

/// Is the upper case of all that the text holds settled? In ASCII that always
/// holds. Putting such a text in order a second time changes nothing.
pub fn text_is_settled(text: &str) -> (r: bool)
    ensures
        r == (is_settled(' ') && is_settled('.') && forall|i: int|
            0 <= i < text@.len() ==> is_settled(#[trigger] text@[i])),
        (forall|i: int| 0 <= i < text@.len() ==> (#[trigger] text@[i] as u32) < 128) ==> r,
        r ==> forall|final_period: bool|
            punctuated(#[trigger] punctuated(text@, final_period), final_period) == punctuated(
                text@,
                final_period,
            ),
{
    let mut settled = char_is_settled(' ') && char_is_settled('.');
    let chars = chars_of(text);
    let mut i: usize = 0;
    while i < chars.len()
        invariant
            i <= chars@.len(),
            chars@ == text@,
            settled == (is_settled(' ') && is_settled('.') && forall|j: int|
                0 <= j < i ==> is_settled(#[trigger] text@[j])),
            (forall|j: int| 0 <= j < i ==> (#[trigger] text@[j] as u32) < 128) ==> settled,
        decreases chars@.len() - i,
    {
        let one = char_is_settled(chars[i]);
        settled = settled && one;
        i += 1;
    }
    proof {
        if settled {
            law_punctuated_idempotent(text@, true);
            law_punctuated_idempotent(text@, false);
        }
    }
    settled
}

/// A letter is changed only where a sentence begins: behind a letter of the
/// same sentence it is kept as it is.
pub proof fn law_no_capitals_mid_sentence(s: Seq<LetterView>, l: LetterView)
    requires
        !at_sentence_start(s),
    ensures
        capitalized(s.push(l)) == capitalized(s).push(l.ch),
{
    assert(s.push(l).drop_last() =~= s);
}

// ---------------------------------------------------------------------------
// The whole cleanup
// ---------------------------------------------------------------------------

/// The text after the cleanups that the configuration asks for.
pub open spec fn cleaned(s: Seq<char>, cfg: ConfigView) -> Seq<char> {
    let t = if cfg.remove_fillers {
        filtered(s, cfg.language)
    } else {
        s
    };
    if cfg.punctuation {
        punctuated(t, cfg.final_period)
    } else {
        t
    }
}

/// Cleans a transcription up as the configuration asks for.
pub fn rust_cleanup(text: &str, cfg: &Config) -> (out: String)
    ensures
        out@ == cleaned(text@, cfg@),
{
    let kept = if cfg.remove_fillers {
        remove_fillers(text, cfg.language)
    } else {
        text.to_owned()
    };
    if cfg.punctuation {
        fix_punctuation(kept.as_str(), cfg.final_period)
    } else {
        kept
    }
}

/// With both cleanups off the text is left as it is.
pub proof fn law_cleanup_can_be_turned_off(s: Seq<char>, cfg: ConfigView)
    requires
        !cfg.remove_fillers,
        !cfg.punctuation,
    ensures
        cleaned(s, cfg) == s,
{
}

} // verus!
