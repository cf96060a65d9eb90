//! JSON text: string literals and objects on one line.
use vstd::prelude::*;

use crate::text::{cat2, cat3};

verus! {

/// The lower case hexadecimal digit of `d`.
pub open spec fn hex_digit(d: int) -> char {
    if d < 10 {
        (48 + d) as char
    } else {
        (87 + d) as char
    }
}

/// How a character is written inside a JSON string.
pub open spec fn json_char(c: char) -> Seq<char> {
    let u = c as u32;
    if c == '"' || c == '\\' {
        seq!['\\', c]
    } else if u == 0x08 {
        seq!['\\', 'b']
    } else if u == 0x09 {
        seq!['\\', 't']
    } else if u == 0x0a {
        seq!['\\', 'n']
    } else if u == 0x0c {
        seq!['\\', 'f']
    } else if u == 0x0d {
        seq!['\\', 'r']
    } else if u < 0x20 {
        seq!['\\', 'u', '0', '0', hex_digit((u / 16) as int), hex_digit((u % 16) as int)]
    } else {
        seq![c]
    }
}

/// How a text is written inside a JSON string.
pub open spec fn json_escaped(s: Seq<char>) -> Seq<char>
    decreases s.len(),
{
    if s.len() == 0 {
        Seq::empty()
    } else {
        json_escaped(s.drop_last()) + json_char(s.last())
    }
}

/// The JSON string of a text.
pub open spec fn json_string(s: Seq<char>) -> Seq<char> {
    seq!['"'] + json_escaped(s) + seq!['"']
}

/// `serde_json::to_string` of a string writes it between quotes: quotes and
/// backslashes behind a backslash, control characters by their short escape
/// or as `\u00XX`, anything else as it is. It does not fail on a string.
#[verifier::external_body]
fn to_json_string(text: &str) -> (out: String)
    ensures
        out@ == json_string(text@),
{
    serde_json::to_string(text).unwrap()
}

/// The JSON string of a text.
pub fn quoted(text: &str) -> (out: String)
    ensures
        out@ == json_string(text@),
{
    to_json_string(text)
}

/// A member of a JSON object.
pub open spec fn json_member(key: Seq<char>, value: Seq<char>) -> Seq<char> {
    json_string(key) + ":"@ + value
}

/// The members that follow the first one: those that are there, each behind
/// a comma.
pub open spec fn json_optional(key: Seq<char>, value: Option<Seq<char>>) -> Seq<char> {
    match value {
        Some(v) => ","@ + json_member(key, json_string(v)),
        None => Seq::empty(),
    }
}

/// A further member of an object whose value is a truth value; nothing where
/// there is none.
pub open spec fn json_flag(key: Seq<char>, value: Option<bool>) -> Seq<char> {
    match value {
        Some(b) => ","@ + json_member(
            key,
            if b {
                "true"@
            } else {
                "false"@
            },
        ),
        None => Seq::empty(),
    }
}

/// A member of a JSON object, whose value is JSON already.
pub fn member(key: &str, value: &str) -> (out: String)
    ensures
        out@ == json_member(key@, value@),
{
    cat3(quoted(key).as_str(), ":", value)
}

/// A further member of an object whose value is a truth value.
pub fn flag_member(key: &str, value: Option<bool>) -> (out: String)
    ensures
        out@ == json_flag(key@, value),
{
    match value {
        Some(true) => cat2(",", member(key, "true").as_str()),
        Some(false) => cat2(",", member(key, "false").as_str()),
        None => String::new(),
    }
}

/// A further member with a string value, or nothing.
pub fn optional_member(key: &str, value: &Option<String>) -> (out: String)
    ensures
        out@ == json_optional(key@, crate::text::text_of(*value)),
{
    match value {
        Some(v) => cat2(",", member(key, quoted(v.as_str()).as_str()).as_str()),
        None => String::new(),
    }
}

/// The text is free of control characters, line breaks among them.
pub open spec fn is_one_line(s: Seq<char>) -> bool {
    forall|i: int| 0 <= i < s.len() ==> (#[trigger] s[i]) as u32 >= 0x20
}

/// Texts on one line stay on one line side by side.
pub proof fn lemma_one_line_concat(a: Seq<char>, b: Seq<char>)
    requires
        is_one_line(a),
        is_one_line(b),
    ensures
        is_one_line(a + b),
{
    assert forall|i: int| 0 <= i < (a + b).len() implies (#[trigger] (a + b)[i]) as u32 >= 0x20 by {
        if i < a.len() {
            assert((a + b)[i] == a[i]);
        } else {
            assert((a + b)[i] == b[i - a.len()]);
        }
    }
}

proof fn lemma_escaped_one_line(s: Seq<char>)
    ensures
        is_one_line(json_escaped(s)),
    decreases s.len(),
{
    if s.len() > 0 {
        lemma_escaped_one_line(s.drop_last());
        lemma_one_line_concat(json_escaped(s.drop_last()), json_char(s.last()));
    }
}

/// Whatever the text holds, its JSON string stays on one line.
pub proof fn law_json_string_one_line(s: Seq<char>)
    ensures
        is_one_line(json_string(s)),
{
    lemma_escaped_one_line(s);
    lemma_one_line_concat(seq!['"'], json_escaped(s));
    lemma_one_line_concat(seq!['"'] + json_escaped(s), seq!['"']);
}

/// A member whose value is a string stays on one line.
pub proof fn lemma_member_one_line(key: Seq<char>, value: Seq<char>)
    ensures
        is_one_line(json_member(key, json_string(value))),
{
    law_json_string_one_line(key);
    law_json_string_one_line(value);
    reveal_strlit(":");
    assert(is_one_line(":"@));
    lemma_one_line_concat(json_string(key), ":"@);
    lemma_one_line_concat(json_string(key) + ":"@, json_string(value));
}

/// An optional member stays on one line.
pub proof fn lemma_optional_one_line(key: Seq<char>, value: Option<Seq<char>>)
    ensures
        is_one_line(json_optional(key, value)),
{
    match value {
        Some(v) => {
            lemma_member_one_line(key, v);
            reveal_strlit(",");
            assert(is_one_line(","@));
            lemma_one_line_concat(","@, json_member(key, json_string(v)));
        },
        None => {},
    }
}

/// A member whose value is a truth value stays on one line.
pub proof fn lemma_flag_one_line(key: Seq<char>, value: Option<bool>)
    ensures
        is_one_line(json_flag(key, value)),
{
    match value {
        Some(b) => {
            law_json_string_one_line(key);
            reveal_strlit(":");
            reveal_strlit(",");
            reveal_strlit("true");
            reveal_strlit("false");
            let text = if b {
                "true"@
            } else {
                "false"@
            };
            assert(is_one_line(":"@));
            assert(is_one_line(","@));
            assert(is_one_line(text));
            lemma_one_line_concat(json_string(key), ":"@);
            lemma_one_line_concat(json_string(key) + ":"@, text);
            lemma_one_line_concat(","@, json_member(key, text));
        },
        None => {},
    }
}

// ---------------------------------------------------------------------------
// Reading back
// ---------------------------------------------------------------------------

proof fn lemma_escaped_front(c: char, s: Seq<char>)
    ensures
        json_escaped(seq![c] + s) == json_char(c) + json_escaped(s),
    decreases s.len(),
{
    let t = seq![c] + s;
    if s.len() == 0 {
        assert(t.drop_last() =~= Seq::empty());
        assert(json_escaped(t.drop_last()) =~= Seq::empty());
        assert(t.last() == c);
        assert(json_escaped(t) =~= json_char(c) + json_escaped(s));
    } else {
        lemma_escaped_front(c, s.drop_last());
        assert(t.drop_last() =~= seq![c] + s.drop_last());
        assert(t.last() == s.last());
        assert(json_escaped(t) =~= json_char(c) + json_escaped(s));
    }
}

/// The written form of a character tells where it ends and which it is.
proof fn lemma_char_delimited(a: char, b: char, x: Seq<char>, y: Seq<char>)
    requires
        json_char(a) + x == json_char(b) + y,
    ensures
        a == b,
        x == y,
{
    let t = json_char(a) + x;
    let u = json_char(b) + y;
    assert(t[0] == json_char(a)[0]);
    assert(u[0] == json_char(b)[0]);
    if json_char(a).len() > 1 {
        assert(t[1] == json_char(a)[1]);
    }
    if json_char(b).len() > 1 {
        assert(u[1] == json_char(b)[1]);
    }
    if json_char(a).len() == 6 && json_char(b).len() == 6 {
        assert(t[4] == json_char(a)[4] && t[5] == json_char(a)[5]);
        assert(u[4] == json_char(b)[4] && u[5] == json_char(b)[5]);
        let i = a as u32;
        let j = b as u32;
        assert(hex_digit((i / 16) as int) == hex_digit((j / 16) as int));
        assert(hex_digit((i % 16) as int) == hex_digit((j % 16) as int));
        assert(i / 16 == j / 16 && i % 16 == j % 16);
    }
    assert(a == b);
    assert(x =~= t.skip(json_char(a).len() as int));
    assert(y =~= u.skip(json_char(b).len() as int));
}

proof fn lemma_escaped_delimited(a: Seq<char>, b: Seq<char>, x: Seq<char>, y: Seq<char>)
    requires
        json_escaped(a) + seq!['"'] + x == json_escaped(b) + seq!['"'] + y,
    ensures
        a == b,
        x == y,
    decreases a.len() + b.len(),
{
    let t = json_escaped(a) + seq!['"'] + x;
    let u = json_escaped(b) + seq!['"'] + y;
    if a.len() > 0 {
        assert(a =~= seq![a[0]] + a.drop_first());
        lemma_escaped_front(a[0], a.drop_first());
        assert(t =~= json_char(a[0]) + (json_escaped(a.drop_first()) + seq!['"'] + x));
    }
    if b.len() > 0 {
        assert(b =~= seq![b[0]] + b.drop_first());
        lemma_escaped_front(b[0], b.drop_first());
        assert(u =~= json_char(b[0]) + (json_escaped(b.drop_first()) + seq!['"'] + y));
    }
    if a.len() == 0 && b.len() == 0 {
        assert(x =~= t.skip(1));
        assert(y =~= u.skip(1));
        assert(a =~= b);
    } else if a.len() == 0 {
        assert(t[0] == '"');
        assert(u[0] == json_char(b[0])[0]);
    } else if b.len() == 0 {
        assert(u[0] == '"');
        assert(t[0] == json_char(a[0])[0]);
    } else {
        lemma_char_delimited(
            a[0],
            b[0],
            json_escaped(a.drop_first()) + seq!['"'] + x,
            json_escaped(b.drop_first()) + seq!['"'] + y,
        );
        lemma_escaped_delimited(a.drop_first(), b.drop_first(), x, y);
    }
}

/// A JSON string tells where it ends and which text it holds: what was written
/// can be read back, whatever follows it.
pub proof fn law_json_string_readable(a: Seq<char>, b: Seq<char>, x: Seq<char>, y: Seq<char>)
    requires
        json_string(a) + x == json_string(b) + y,
    ensures
        a == b,
        x == y,
{
    let t = json_string(a) + x;
    let u = json_string(b) + y;
    assert(t.skip(1) =~= json_escaped(a) + seq!['"'] + x);
    assert(u.skip(1) =~= json_escaped(b) + seq!['"'] + y);
    lemma_escaped_delimited(a, b, x, y);
}

/// The text goes on with a member of that key.
pub open spec fn goes_on_with(text: Seq<char>, key: Seq<char>) -> bool {
    exists|rest: Seq<char>| text == #[trigger] after_key(key, rest)
}

/// A further member of that key, up to its value, and what follows.
pub open spec fn after_key(key: Seq<char>, rest: Seq<char>) -> Seq<char> {
    ","@ + (json_string(key) + (":"@ + rest))
}

/// The key of a further member can be read.
proof fn lemma_key_readable(a: Seq<char>, b: Seq<char>, x: Seq<char>, y: Seq<char>)
    requires
        after_key(a, x) == after_key(b, y),
    ensures
        a == b,
        x == y,
{
    reveal_strlit(",");
    reveal_strlit(":");
    assert(after_key(a, x).skip(1) =~= json_string(a) + (":"@ + x));
    assert(after_key(b, y).skip(1) =~= json_string(b) + (":"@ + y));
    law_json_string_readable(a, b, ":"@ + x, ":"@ + y);
    assert((":"@ + x).skip(1) =~= x);
    assert((":"@ + y).skip(1) =~= y);
}

proof fn lemma_optional_after_key(key: Seq<char>, v: Seq<char>, rest: Seq<char>)
    ensures
        json_optional(key, Some(v)) + rest == after_key(key, json_string(v) + rest),
{
    assert(json_optional(key, Some(v)) + rest =~= after_key(key, json_string(v) + rest));
}

/// The value of a flag.
spec fn flag_text(b: bool) -> Seq<char> {
    if b {
        "true"@
    } else {
        "false"@
    }
}

proof fn lemma_flag_after_key(key: Seq<char>, b: bool, rest: Seq<char>)
    ensures
        json_flag(key, Some(b)) + rest == after_key(key, flag_text(b) + rest),
{
    assert(json_flag(key, Some(b)) + rest =~= after_key(key, flag_text(b) + rest));
}

/// The end of an object goes on with no member.
pub proof fn lemma_end_goes_on_with_nothing(key: Seq<char>)
    ensures
        !goes_on_with("}"@, key),
{
    reveal_strlit("}");
    reveal_strlit(",");
    assert forall|rest: Seq<char>| "}"@ != #[trigger] after_key(key, rest) by {
        assert(after_key(key, rest)[0] == ',');
    }
}

/// An optional member of another key does not go on with this key.
pub proof fn lemma_optional_goes_on(
    key: Seq<char>,
    other: Seq<char>,
    v: Option<Seq<char>>,
    rest: Seq<char>,
)
    requires
        key != other,
        !goes_on_with(rest, key),
    ensures
        !goes_on_with(json_optional(other, v) + rest, key),
{
    let text = json_optional(other, v) + rest;
    match v {
        Some(t) => {
            lemma_optional_after_key(other, t, rest);
            assert forall|r: Seq<char>| text != #[trigger] after_key(key, r) by {
                if text == after_key(key, r) {
                    lemma_key_readable(other, key, json_string(t) + rest, r);
                }
            }
        },
        None => {
            assert(text =~= rest);
        },
    }
}

/// A flag of another key does not go on with this key.
pub proof fn lemma_flag_goes_on(
    key: Seq<char>,
    other: Seq<char>,
    v: Option<bool>,
    rest: Seq<char>,
)
    requires
        key != other,
        !goes_on_with(rest, key),
    ensures
        !goes_on_with(json_flag(other, v) + rest, key),
{
    let text = json_flag(other, v) + rest;
    match v {
        Some(b) => {
            lemma_flag_after_key(other, b, rest);
            assert forall|r: Seq<char>| text != #[trigger] after_key(key, r) by {
                if text == after_key(key, r) {
                    lemma_key_readable(other, key, flag_text(b) + rest, r);
                }
            }
        },
        None => {
            assert(text =~= rest);
        },
    }
}

/// An optional member can be read, where what follows has no member of that
/// key.
pub proof fn lemma_optional_readable(
    key: Seq<char>,
    v: Option<Seq<char>>,
    w: Option<Seq<char>>,
    x: Seq<char>,
    y: Seq<char>,
)
    requires
        json_optional(key, v) + x == json_optional(key, w) + y,
        !goes_on_with(x, key),
        !goes_on_with(y, key),
    ensures
        v == w,
        x == y,
{
    match (v, w) {
        (Some(a), Some(b)) => {
            lemma_optional_after_key(key, a, x);
            lemma_optional_after_key(key, b, y);
            lemma_key_readable(key, key, json_string(a) + x, json_string(b) + y);
            law_json_string_readable(a, b, x, y);
        },
        (Some(a), None) => {
            lemma_optional_after_key(key, a, x);
            assert(json_optional(key, w) + y =~= y);
            assert(goes_on_with(y, key));
        },
        (None, Some(b)) => {
            lemma_optional_after_key(key, b, y);
            assert(json_optional(key, v) + x =~= x);
            assert(goes_on_with(x, key));
        },
        (None, None) => {
            assert(json_optional(key, v) + x =~= x);
            assert(json_optional(key, w) + y =~= y);
        },
    }
}

/// A flag can be read, where what follows has no member of that key.
pub proof fn lemma_flag_readable(
    key: Seq<char>,
    v: Option<bool>,
    w: Option<bool>,
    x: Seq<char>,
    y: Seq<char>,
)
    requires
        json_flag(key, v) + x == json_flag(key, w) + y,
        !goes_on_with(x, key),
        !goes_on_with(y, key),
    ensures
        v == w,
        x == y,
{
    match (v, w) {
        (Some(a), Some(b)) => {
            lemma_flag_after_key(key, a, x);
            lemma_flag_after_key(key, b, y);
            lemma_key_readable(key, key, flag_text(a) + x, flag_text(b) + y);
            reveal_strlit("true");
            reveal_strlit("false");
            assert((flag_text(a) + x)[0] == flag_text(a)[0]);
            assert((flag_text(b) + y)[0] == flag_text(b)[0]);
            assert(a == b);
            assert((flag_text(a) + x).skip(flag_text(a).len() as int) =~= x);
            assert((flag_text(b) + y).skip(flag_text(b).len() as int) =~= y);
        },
        (Some(a), None) => {
            lemma_flag_after_key(key, a, x);
            assert(json_flag(key, w) + y =~= y);
            assert(goes_on_with(y, key));
        },
        (None, Some(b)) => {
            lemma_flag_after_key(key, b, y);
            assert(json_flag(key, v) + x =~= x);
            assert(goes_on_with(x, key));
        },
        (None, None) => {
            assert(json_flag(key, v) + x =~= x);
            assert(json_flag(key, w) + y =~= y);
        },
    }
}

/// The first member of an object can be read.
pub proof fn lemma_first_readable(
    key: Seq<char>,
    a: Seq<char>,
    b: Seq<char>,
    x: Seq<char>,
    y: Seq<char>,
)
    requires
        "{"@ + json_member(key, json_string(a)) + x == "{"@ + json_member(key, json_string(b)) + y,
    ensures
        a == b,
        x == y,
{
    reveal_strlit("{");
    reveal_strlit(":");
    let t = "{"@ + json_member(key, json_string(a)) + x;
    let u = "{"@ + json_member(key, json_string(b)) + y;
    let n = 1 + json_string(key).len() as int + 1;
    assert(t.skip(n) =~= json_string(a) + x);
    assert(u.skip(n) =~= json_string(b) + y);
    law_json_string_readable(a, b, x, y);
}

/// Texts side by side can be taken apart from the front.
pub proof fn lemma_six_parts(
    head: Seq<char>,
    a: Seq<char>,
    b: Seq<char>,
    c: Seq<char>,
    d: Seq<char>,
    e: Seq<char>,
    end: Seq<char>,
)
    ensures
        head + (a + b + c + d + e) + end == head + (a + (b + (c + (d + (e + end))))),
{
    assert(a + b + c + d + e + end =~= a + b + c + d + (e + end));
    assert(a + b + c + d + (e + end) =~= a + b + c + (d + (e + end)));
    assert(a + b + c + (d + (e + end)) =~= a + b + (c + (d + (e + end))));
    assert(a + b + (c + (d + (e + end))) =~= a + (b + (c + (d + (e + end)))));
    assert(head + (a + b + c + d + e) + end =~= head + (a + b + c + d + e + end));
}

} // verus!
