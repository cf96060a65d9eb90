//! Text primitives: whitespace, trimming and string assembly. Texts are
//! sequences of characters; the executable side works on slices of `char`.
use vstd::prelude::*;

verus! {

/// `String::push` appends one character at the end of the string and leaves
/// the rest of it as it was.
pub assume_specification[ String::push ](s: &mut String, ch: char)
    ensures
        final(s)@ == old(s)@.push(ch),
;

/// The texts of a list of strings.
pub open spec fn texts(list: Seq<String>) -> Seq<Seq<char>> {
    list.map_values(|s: String| s@)
}

/// The texts of a list of character vectors.
pub open spec fn char_texts(list: Seq<Vec<char>>) -> Seq<Seq<char>> {
    list.map_values(|v: Vec<char>| v@)
}

/// The text of an optional string.
pub open spec fn text_of(s: Option<String>) -> Option<Seq<char>> {
    match s {
        Some(t) => Some(t@),
        None => None,
    }
}

/// The text of an optional string slice.
pub open spec fn str_text_of(s: Option<&str>) -> Option<Seq<char>> {
    match s {
        Some(t) => Some(t@),
        None => None,
    }
}

/// The characters of `text`, in order.
pub fn chars_of(text: &str) -> (out: Vec<char>)
    ensures
        out@ == text@,
{
    let mut out: Vec<char> = Vec::new();
    for c in it: text.chars()
        invariant
            it.seq() == text@,
            out@ == text@.take(it.index()),
    {
        proof {
            assert(text@.take(it.index() + 1) =~= text@.take(it.index()).push(c));
        }
        out.push(c);
    }
    proof {
        assert(text@.take(text@.len() as int) =~= text@);
    }
    out
}

/// The string made of `chars`.
pub fn string_of(chars: &[char]) -> (out: String)
    ensures
        out@ == chars@,
{
    let mut out = String::new();
    let mut i: usize = 0;
    while i < chars.len()
        invariant
            i <= chars@.len(),
            out@ == chars@.take(i as int),
        decreases chars@.len() - i,
    {
        proof {
            assert(chars@.take(i + 1) =~= chars@.take(i as int).push(chars@[i as int]));
        }
        out.push(chars[i]);
        i += 1;
    }
    proof {
        assert(chars@.take(chars@.len() as int) =~= chars@);
    }
    out
}

/// Are the two texts equal?
pub fn same_text(a: &str, b: &str) -> (r: bool)
    ensures
        r == (a@ == b@),
{
    a.to_owned() == b.to_owned()
}

/// Two texts, one after the other.
pub fn cat2(a: &str, b: &str) -> (out: String)
    ensures
        out@ == a@ + b@,
{
    let mut out = a.to_owned();
    out.append(b);
    out
}

/// Three texts, one after the other.
pub fn cat3(a: &str, b: &str, c: &str) -> (out: String)
    ensures
        out@ == a@ + b@ + c@,
{
    let mut out = cat2(a, b);
    out.append(c);
    out
}

/// Four texts, one after the other.
pub fn cat4(a: &str, b: &str, c: &str, d: &str) -> (out: String)
    ensures
        out@ == a@ + b@ + c@ + d@,
{
    let mut out = cat3(a, b, c);
    out.append(d);
    out
}

/// A copy of an optional string.
pub fn clone_text(s: &Option<String>) -> (out: Option<String>)
    ensures
        text_of(out) == text_of(*s),
{
    match s {
        Some(t) => Some(t.clone()),
        None => None,
    }
}

// ---------------------------------------------------------------------------
// Whitespace and trimming
// ---------------------------------------------------------------------------

/// The characters with the Unicode property `White_Space`.
pub open spec fn is_white_space(c: char) -> bool {
    let u = c as u32;
    ||| 0x09 <= u <= 0x0d
    ||| u == 0x20
    ||| u == 0x85
    ||| u == 0xa0
    ||| u == 0x1680
    ||| 0x2000 <= u <= 0x200a
    ||| u == 0x2028
    ||| u == 0x2029
    ||| u == 0x202f
    ||| u == 0x205f
    ||| u == 0x3000
}

/// Does `c` have the Unicode property `White_Space`?
pub fn white_space(c: char) -> (r: bool)
    ensures
        r == is_white_space(c),
{
    let u: u32 = c as u32;
    (0x09 <= u && u <= 0x0d) || u == 0x20 || u == 0x85 || u == 0xa0 || u == 0x1680 || (0x2000 <= u
        && u <= 0x200a) || u == 0x2028 || u == 0x2029 || u == 0x202f || u == 0x205f || u == 0x3000
}

/// How many marks are set before the first one that is not.
pub open spec fn leading(mark: Seq<bool>) -> nat
    decreases mark.len(),
{
    if mark.len() == 0 || !mark[0] {
        0
    } else {
        1 + leading(mark.drop_first())
    }
}

/// How many marks are set behind the last one that is not.
pub open spec fn trailing(mark: Seq<bool>) -> nat
    decreases mark.len(),
{
    if mark.len() == 0 || !mark.last() {
        0
    } else {
        1 + trailing(mark.drop_last())
    }
}

/// `s` without the marked characters at its two ends.
pub open spec fn trim_marked(s: Seq<char>, mark: Seq<bool>) -> Seq<char> {
    if leading(mark) == mark.len() {
        Seq::empty()
    } else {
        s.subrange(leading(mark) as int, s.len() - trailing(mark))
    }
}

/// `s` without the whitespace at its two ends.
pub open spec fn trim(s: Seq<char>) -> Seq<char> {
    trim_marked(s, s.map_values(|c: char| is_white_space(c)))
}

/// `k` leading marks, and the next one (if any) is not set.
pub proof fn lemma_leading(mark: Seq<bool>, k: int)
    requires
        0 <= k <= mark.len(),
        forall|i: int| 0 <= i < k ==> mark[i],
        k < mark.len() ==> !mark[k],
    ensures
        leading(mark) == k,
    decreases mark.len(),
{
    if k > 0 {
        let rest = mark.drop_first();
        assert forall|i: int| 0 <= i < k - 1 implies rest[i] by {
            assert(rest[i] == mark[i + 1]);
        }
        lemma_leading(rest, k - 1);
    }
}

/// The marks behind position `k` are set, and the one before it is not.
pub proof fn lemma_trailing(mark: Seq<bool>, k: int)
    requires
        0 <= k <= mark.len(),
        forall|i: int| k <= i < mark.len() ==> mark[i],
        k > 0 ==> !mark[k - 1],
    ensures
        trailing(mark) == mark.len() - k,
    decreases mark.len(),
{
    if k < mark.len() {
        let rest = mark.drop_last();
        assert forall|i: int| k <= i < rest.len() implies rest[i] by {
            assert(rest[i] == mark[i]);
        }
        lemma_trailing(rest, k);
    }
}

/// What `leading` and `trailing` count.
pub proof fn lemma_trim_bounds(mark: Seq<bool>)
    ensures
        leading(mark) <= mark.len(),
        trailing(mark) <= mark.len(),
        forall|i: int| 0 <= i < leading(mark) ==> mark[i],
        forall|i: int| mark.len() - trailing(mark) <= i < mark.len() ==> mark[i],
        leading(mark) < mark.len() ==> !mark[leading(mark) as int],
        leading(mark) < mark.len() ==> leading(mark) + trailing(mark) < mark.len(),
        leading(mark) < mark.len() ==> !mark[mark.len() - trailing(mark) - 1],
    decreases mark.len(),
{
    lemma_leading_bounds(mark);
    lemma_trailing_bounds(mark);
}

proof fn lemma_leading_bounds(mark: Seq<bool>)
    ensures
        leading(mark) <= mark.len(),
        forall|i: int| 0 <= i < leading(mark) ==> mark[i],
        leading(mark) < mark.len() ==> !mark[leading(mark) as int],
    decreases mark.len(),
{
    if mark.len() > 0 && mark[0] {
        let rest = mark.drop_first();
        lemma_leading_bounds(rest);
        assert forall|i: int| 0 <= i < leading(mark) implies mark[i] by {
            if i > 0 {
                assert(rest[i - 1] == mark[i]);
            }
        }
        if leading(mark) < mark.len() {
            assert(rest[leading(rest) as int] == mark[leading(mark) as int]);
        }
    }
}

proof fn lemma_trailing_bounds(mark: Seq<bool>)
    ensures
        trailing(mark) <= mark.len(),
        forall|i: int| mark.len() - trailing(mark) <= i < mark.len() ==> mark[i],
        trailing(mark) < mark.len() ==> !mark[mark.len() - trailing(mark) - 1],
    decreases mark.len(),
{
    if mark.len() > 0 && mark.last() {
        let rest = mark.drop_last();
        lemma_trailing_bounds(rest);
        assert forall|i: int| mark.len() - trailing(mark) <= i < mark.len() implies mark[i] by {
            if i < rest.len() {
                assert(rest[i] == mark[i]);
            }
        }
    }
}

/// `chars` without the marked characters at its two ends.
pub fn trim_by_marks(chars: &[char], mark: &[bool]) -> (out: Vec<char>)
    requires
        chars@.len() == mark@.len(),
    ensures
        out@ == trim_marked(chars@, mark@),
{
    let n: usize = chars.len();
    let mut a: usize = 0;
    while a < n && mark[a]
        invariant
            a <= n,
            n == mark@.len(),
            forall|i: int| 0 <= i < a ==> mark@[i],
        decreases n - a,
    {
        a += 1;
    }
    proof {
        lemma_leading(mark@, a as int);
    }
    let mut b: usize = n;
    while b > a && mark[b - 1]
        invariant
            a <= b <= n,
            n == mark@.len(),
            forall|i: int| b <= i < n ==> mark@[i],
        decreases b,
    {
        b -= 1;
    }
    proof {
        lemma_trim_bounds(mark@);
        if a < n {
            assert(b > a) by {
                assert(!mark@[a as int]);
            }
            lemma_trailing(mark@, b as int);
        }
        assert(a == n ==> chars@.subrange(a as int, b as int) =~= Seq::empty());
    }
    copy_range(chars, a, b)
}

/// The characters of `chars` from position `from` up to, and without, `to`.
pub fn copy_range<T: Copy>(items: &[T], from: usize, to: usize) -> (out: Vec<T>)
    requires
        from <= to <= items@.len(),
    ensures
        out@ == items@.subrange(from as int, to as int),
{
    let mut out: Vec<T> = Vec::new();
    let mut i: usize = from;
    while i < to
        invariant
            from <= i <= to <= items@.len(),
            out@ == items@.subrange(from as int, i as int),
        decreases to - i,
    {
        proof {
            assert(items@.subrange(from as int, i + 1) =~= items@.subrange(
                from as int,
                i as int,
            ).push(items@[i as int]));
        }
        out.push(items[i]);
        i += 1;
    }
    out
}

/// For each character, whether it is whitespace.
pub fn white_space_marks(chars: &[char]) -> (out: Vec<bool>)
    ensures
        out@ == chars@.map_values(|c: char| is_white_space(c)),
{
    let mut out: Vec<bool> = Vec::new();
    let mut i: usize = 0;
    while i < chars.len()
        invariant
            i <= chars@.len(),
            out@ == chars@.take(i as int).map_values(|c: char| is_white_space(c)),
        decreases chars@.len() - i,
    {
        out.push(white_space(chars[i]));
        i += 1;
        proof {
            assert(out@ =~= chars@.take(i as int).map_values(|c: char| is_white_space(c)));
        }
    }
    proof {
        assert(chars@.take(chars@.len() as int) =~= chars@);
    }
    out
}

/// `chars` without the whitespace at its two ends.
pub fn trim_chars(chars: &[char]) -> (out: Vec<char>)
    ensures
        out@ == trim(chars@),
{
    let mark = white_space_marks(chars);
    trim_by_marks(chars, mark.as_slice())
}

/// `text` without the whitespace at its two ends.
pub fn trim_text(text: &str) -> (out: String)
    ensures
        out@ == trim(text@),
{
    let chars = chars_of(text);
    let kept = trim_chars(chars.as_slice());
    string_of(kept.as_slice())
}

/// Trimming empties a text exactly when all of it is whitespace.
pub proof fn lemma_trim_empty(s: Seq<char>)
    ensures
        trim(s).len() == 0 <==> (forall|i: int| 0 <= i < s.len() ==> is_white_space(#[trigger] s[i])),
{
    let mark = s.map_values(|c: char| is_white_space(c));
    lemma_trim_bounds(mark);
    if leading(mark) < mark.len() {
        assert(!mark[leading(mark) as int]);
        assert(!is_white_space(s[leading(mark) as int]));
    } else {
        assert forall|i: int| 0 <= i < s.len() implies is_white_space(#[trigger] s[i]) by {
            assert(mark[i]);
        }
    }
}

/// A trimmed text neither begins nor ends with whitespace.
pub proof fn lemma_trim_ends(s: Seq<char>)
    ensures
        trim(s).len() > 0 ==> !is_white_space(trim(s).first()) && !is_white_space(trim(s).last()),
{
    let mark = s.map_values(|c: char| is_white_space(c));
    lemma_trim_bounds(mark);
}

/// Trimming takes the whitespace at the two ends away, all of it and nothing
/// else.
pub proof fn law_trim_takes_the_ends(before: Seq<char>, core: Seq<char>, behind: Seq<char>)
    requires
        forall|i: int| 0 <= i < before.len() ==> is_white_space(#[trigger] before[i]),
        forall|i: int| 0 <= i < behind.len() ==> is_white_space(#[trigger] behind[i]),
        core.len() > 0 ==> !is_white_space(core[0]) && !is_white_space(core.last()),
    ensures
        trim(before + core + behind) == core,
{
    let s = before + core + behind;
    let mark = s.map_values(|c: char| is_white_space(c));
    let a = before.len() as int;
    let b = a + core.len();
    assert forall|i: int| 0 <= i < a implies mark[i] by {
        assert(s[i] == before[i]);
    }
    assert forall|i: int| b <= i < mark.len() implies mark[i] by {
        assert(s[i] == behind[i - b]);
    }
    if core.len() > 0 {
        assert(s[a] == core[0]);
        assert(s[b - 1] == core.last());
        lemma_leading(mark, a);
        lemma_trailing(mark, b);
        assert(trim(s) =~= core);
    } else {
        lemma_leading(mark, mark.len() as int);
    }
}

} // verus!
