//! Catalog of models and the decisions of a model download.
use vstd::prelude::*;

use crate::config::{data_dir, join, joined, XdgEnv};
use crate::decimal::{
    decimal, decimal_text, law_decimal_roundtrip, lemma_decimal_value, parse_u64, parsed_u64,
};
use crate::text::{cat2, cat3, cat4, copy_range, same_text, texts};

verus! {

/// One entry of a catalog.
#[derive(Debug, Clone, Copy, PartialEq, Eq)]
pub struct ModelSpec {
    pub name: &'static str,
    pub file: &'static str,
    pub size_mb: u64,
    pub description: &'static str,
    /// The repository that holds the file.
    pub base_url: &'static str,
}

/// The multilingual transcription models.
pub open spec fn catalog() -> Seq<ModelSpec> {
    seq![
        ModelSpec {
            name: "tiny",
            file: "ggml-tiny.bin",
            size_mb: 75,
            description: "muito leve · menor precisão",
            base_url: "https://huggingface.co/ggerganov/whisper.cpp/resolve/main",
        },
        ModelSpec {
            name: "base",
            file: "ggml-base.bin",
            size_mb: 142,
            description: "leve · para máquinas modestas",
            base_url: "https://huggingface.co/ggerganov/whisper.cpp/resolve/main",
        },
        ModelSpec {
            name: "small",
            file: "ggml-small.bin",
            size_mb: 466,
            description: "recomendado · equilíbrio entre precisão e recursos",
            base_url: "https://huggingface.co/ggerganov/whisper.cpp/resolve/main",
        },
        ModelSpec {
            name: "medium",
            file: "ggml-medium.bin",
            size_mb: 1535,
            description: "mais preciso · mais pesado",
            base_url: "https://huggingface.co/ggerganov/whisper.cpp/resolve/main",
        },
        ModelSpec {
            name: "large-v3",
            file: "ggml-large-v3.bin",
            size_mb: 3093,
            description: "máxima precisão · muito pesado",
            base_url: "https://huggingface.co/ggerganov/whisper.cpp/resolve/main",
        },
        ModelSpec {
            name: "turbo",
            file: "ggml-large-v3-turbo.bin",
            size_mb: 1620,
            description: "rápido em hardware forte · download maior",
            base_url: "https://huggingface.co/ggerganov/whisper.cpp/resolve/main",
        },
    ]
}

/// The language models for post-processing; none of them transcribes.
pub open spec fn llm_catalog() -> Seq<ModelSpec> {
    seq![
        ModelSpec {
            name: "qwen3.5-0.8b",
            file: "Qwen_Qwen3.5-0.8B-Q5_K_M.gguf",
            size_mb: 650,
            description: "pós-processamento inteligente local",
            base_url: "https://huggingface.co/bartowski/Qwen_Qwen3.5-0.8B-GGUF/resolve/main",
        },
        ModelSpec {
            name: "qwen3.5-2b",
            file: "Qwen_Qwen3.5-2B-Q5_K_M.gguf",
            size_mb: 1500,
            description: "pós-processamento inteligente local",
            base_url: "https://huggingface.co/bartowski/Qwen_Qwen3.5-2B-GGUF/resolve/main",
        },
    ]
}

/// The voice detection model, which cannot be chosen.
pub open spec fn vad_spec() -> ModelSpec {
    ModelSpec {
        name: "silero-v6.2.0",
        file: "ggml-silero-v6.2.0.bin",
        size_mb: 1,
        description: "filtro de voz e silêncio",
        base_url: "https://huggingface.co/ggml-org/whisper-vad/resolve/main",
    }
}

/// The first entry of `list` with the given name.
pub open spec fn lookup(list: Seq<ModelSpec>, name: Seq<char>) -> Option<ModelSpec>
    decreases list.len(),
{
    if list.len() == 0 {
        None
    } else if list[0].name@ == name {
        Some(list[0])
    } else {
        lookup(list.drop_first(), name)
    }
}

/// The multilingual transcription models.
pub fn models() -> (r: Vec<ModelSpec>)
    ensures
        r@ == catalog(),
{
    vec![
        ModelSpec {
            name: "tiny",
            file: "ggml-tiny.bin",
            size_mb: 75,
            description: "muito leve · menor precisão",
            base_url: "https://huggingface.co/ggerganov/whisper.cpp/resolve/main",
        },
        ModelSpec {
            name: "base",
            file: "ggml-base.bin",
            size_mb: 142,
            description: "leve · para máquinas modestas",
            base_url: "https://huggingface.co/ggerganov/whisper.cpp/resolve/main",
        },
        ModelSpec {
            name: "small",
            file: "ggml-small.bin",
            size_mb: 466,
            description: "recomendado · equilíbrio entre precisão e recursos",
            base_url: "https://huggingface.co/ggerganov/whisper.cpp/resolve/main",
        },
        ModelSpec {
            name: "medium",
            file: "ggml-medium.bin",
            size_mb: 1535,
            description: "mais preciso · mais pesado",
            base_url: "https://huggingface.co/ggerganov/whisper.cpp/resolve/main",
        },
        ModelSpec {
            name: "large-v3",
            file: "ggml-large-v3.bin",
            size_mb: 3093,
            description: "máxima precisão · muito pesado",
            base_url: "https://huggingface.co/ggerganov/whisper.cpp/resolve/main",
        },
        ModelSpec {
            name: "turbo",
            file: "ggml-large-v3-turbo.bin",
            size_mb: 1620,
            description: "rápido em hardware forte · download maior",
            base_url: "https://huggingface.co/ggerganov/whisper.cpp/resolve/main",
        },
    ]
}

/// The language models for post-processing.
pub fn llm_models() -> (r: Vec<ModelSpec>)
    ensures
        r@ == llm_catalog(),
{
    vec![
        ModelSpec {
            name: "qwen3.5-0.8b",
            file: "Qwen_Qwen3.5-0.8B-Q5_K_M.gguf",
            size_mb: 650,
            description: "pós-processamento inteligente local",
            base_url: "https://huggingface.co/bartowski/Qwen_Qwen3.5-0.8B-GGUF/resolve/main",
        },
        ModelSpec {
            name: "qwen3.5-2b",
            file: "Qwen_Qwen3.5-2B-Q5_K_M.gguf",
            size_mb: 1500,
            description: "pós-processamento inteligente local",
            base_url: "https://huggingface.co/bartowski/Qwen_Qwen3.5-2B-GGUF/resolve/main",
        },
    ]
}

/// The voice detection model.
pub fn vad_model() -> (r: ModelSpec)
    ensures
        r == vad_spec(),
{
    ModelSpec {
        name: "silero-v6.2.0",
        file: "ggml-silero-v6.2.0.bin",
        size_mb: 1,
        description: "filtro de voz e silêncio",
        base_url: "https://huggingface.co/ggml-org/whisper-vad/resolve/main",
    }
}

fn find_in(list: &Vec<ModelSpec>, name: &str) -> (r: Option<ModelSpec>)
    ensures
        r == lookup(list@, name@),
{
    let mut i: usize = 0;
    proof {
        assert(list@.skip(0) =~= list@);
    }
    while i < list.len()
        invariant
            i <= list@.len(),
            lookup(list@, name@) == lookup(list@.skip(i as int), name@),
        decreases list@.len() - i,
    {
        proof {
            assert(list@.skip(i as int)[0] == list@[i as int]);
            assert(list@.skip(i as int).drop_first() =~= list@.skip(i + 1));
        }
        if same_text(list[i].name, name) {
            return Some(list[i]);
        }
        i += 1;
    }
    None
}

/// The transcription model of that name.
pub fn find(name: &str) -> (r: Option<ModelSpec>)
    ensures
        r == lookup(catalog(), name@),
{
    let list = models();
    find_in(&list, name)
}

/// The language model of that name.
pub fn find_llm(name: &str) -> (r: Option<ModelSpec>)
    ensures
        r == lookup(llm_catalog(), name@),
{
    let list = llm_models();
    find_in(&list, name)
}

/// The file of the transcription model of that name.
pub fn file_name(name: &str) -> (r: Option<&'static str>)
    ensures
        match lookup(catalog(), name@) {
            Some(spec) => r == Some(spec.file),
            None => r is None,
        },
{
    match find(name) {
        Some(spec) => Some(spec.file),
        None => None,
    }
}

/// Where models are kept.
pub fn models_dir(env: &XdgEnv) -> (out: String)
    ensures
        out@ == env.models_dir(),
{
    join(data_dir(env).as_str(), "models")
}

/// The file of the voice detection model.
pub fn vad_model_path(env: &XdgEnv) -> (out: String)
    ensures
        out@ == joined(env.models_dir(), vad_spec().file@),
{
    join(models_dir(env).as_str(), vad_model().file)
}

/// The names of a catalog are distinct, so a name finds its own entry.
pub proof fn law_catalog_names_unique(i: int)
    requires
        0 <= i < catalog().len(),
    ensures
        lookup(catalog(), catalog()[i].name@) == Some(catalog()[i]),
{
    reveal_strlit("tiny");
    reveal_strlit("base");
    reveal_strlit("small");
    reveal_strlit("medium");
    reveal_strlit("large-v3");
    reveal_strlit("turbo");
    assert("tiny"@[1] == 'i' && "turbo"@[1] == 'u');
    assert("base"@[0] == 'b' && "small"@[0] == 's' && "medium"@[0] == 'm' && "large-v3"@[0] == 'l');
    reveal_with_fuel(lookup, 7);
    let c = catalog();
    assert(c.drop_first()[0] == c[1]);
    assert(c.drop_first().drop_first()[0] == c[2]);
    assert(c.drop_first().drop_first().drop_first()[0] == c[3]);
    assert(c.drop_first().drop_first().drop_first().drop_first()[0] == c[4]);
    assert(c.drop_first().drop_first().drop_first().drop_first().drop_first()[0] == c[5]);
}

/// A found entry bears the name that was looked for and stands in the list.
pub proof fn lemma_lookup(list: Seq<ModelSpec>, name: Seq<char>)
    ensures
        match lookup(list, name) {
            Some(spec) => spec.name@ == name && list.contains(spec),
            None => forall|i: int| 0 <= i < list.len() ==> (#[trigger] list[i]).name@ != name,
        },
    decreases list.len(),
{
    if list.len() > 0 {
        let rest = list.drop_first();
        lemma_lookup(rest, name);
        if list[0].name@ == name {
            assert(list.contains(list[0]));
        } else {
            match lookup(rest, name) {
                Some(spec) => {
                    let k = choose|k: int| 0 <= k < rest.len() && rest[k] == spec;
                    assert(list[k + 1] == spec);
                },
                None => {
                    assert forall|i: int| 0 <= i < list.len() implies (#[trigger] list[i]).name@
                        != name by {
                        if i > 0 {
                            assert(rest[i - 1] == list[i]);
                        }
                    }
                },
            }
        }
    }
}

/// Neither the voice detection model nor a language model can be chosen as
/// the transcription model.
pub proof fn law_only_transcription_models_selectable(i: int)
    requires
        0 <= i < llm_catalog().len(),
    ensures
        lookup(catalog(), vad_spec().name@) is None,
        lookup(catalog(), llm_catalog()[i].name@) is None,
{
    reveal_strlit("tiny");
    reveal_strlit("base");
    reveal_strlit("small");
    reveal_strlit("medium");
    reveal_strlit("large-v3");
    reveal_strlit("turbo");
    reveal_strlit("silero-v6.2.0");
    reveal_strlit("qwen3.5-0.8b");
    reveal_strlit("qwen3.5-2b");
    let vad = vad_spec().name@;
    let llm = llm_catalog()[i].name@;
    lemma_lookup(catalog(), vad);
    lemma_lookup(catalog(), llm);
    assert(vad.len() == 13 && llm.len() >= 10);
    assert forall|k: int| 0 <= k < catalog().len() implies (#[trigger] catalog()[k]).name@.len()
        <= 8 by {}
}

// ---------------------------------------------------------------------------
// Download
// ---------------------------------------------------------------------------

/// The address from which the model is fetched.
pub fn download_url(spec: &ModelSpec) -> (out: String)
    ensures
        out@ == spec.base_url@ + "/"@ + spec.file@,
{
    cat3(spec.base_url, "/", spec.file)
}

/// A header value is text where all its bytes are visible ASCII or tabs.
pub open spec fn is_header_text(bytes: Seq<u8>) -> bool {
    forall|i: int| 0 <= i < bytes.len() ==> 32 <= #[trigger] bytes[i] < 127 || bytes[i] == 9
}

/// ASCII bytes as characters.
pub open spec fn ascii_chars(bytes: Seq<u8>) -> Seq<char> {
    bytes.map_values(|b: u8| b as char)
}

/// The part of `s` behind its last slash.
pub open spec fn after_last_slash(s: Seq<char>) -> Option<Seq<char>>
    decreases s.len(),
{
    if s.len() == 0 {
        None
    } else if s.last() == '/' {
        Some(Seq::empty())
    } else {
        match after_last_slash(s.drop_last()) {
            Some(t) => Some(t.push(s.last())),
            None => None,
        }
    }
}

/// The total that a `Content-Range` value gives behind its last slash.
pub open spec fn range_total(value: Seq<u8>) -> Option<u64> {
    if is_header_text(value) {
        match after_last_slash(ascii_chars(value)) {
            Some(t) => parsed_u64(t),
            None => None,
        }
    } else {
        None
    }
}

proof fn lemma_after_last_slash(s: Seq<char>, k: int)
    requires
        0 <= k <= s.len(),
        forall|i: int| k <= i < s.len() ==> s[i] != '/',
        k > 0 ==> s[k - 1] == '/',
    ensures
        after_last_slash(s) == (if k > 0 {
            Some(s.skip(k))
        } else {
            None
        }),
    decreases s.len(),
{
    if k < s.len() {
        lemma_after_last_slash(s.drop_last(), k);
        assert(s.drop_last().skip(k).push(s.last()) =~= s.skip(k));
    } else if k > 0 {
        assert(s.skip(k) =~= Seq::empty());
    }
}

/// The total in `Content-Range: bytes 0-0/TOTAL`; `None` where the header is
/// absent, is no text, or gives no number.
pub fn content_range_total(header: Option<&[u8]>) -> (r: Option<u64>)
    ensures
        match header {
            Some(value) => r == range_total(value@),
            None => r is None,
        },
{
    let bytes = match header {
        Some(value) => value,
        None => {
            return None;
        },
    };
    let n: usize = bytes.len();
    let mut chars: Vec<char> = Vec::new();
    let mut i: usize = 0;
    let mut from: usize = 0;
    while i < n
        invariant
            i <= n,
            header == Some(bytes),
            n == bytes@.len(),
            forall|j: int| 0 <= j < i ==> 32 <= #[trigger] bytes@[j] < 127 || bytes@[j] == 9,
            chars@ == ascii_chars(bytes@.take(i as int)),
            from <= i,
            forall|j: int| from <= j < i ==> chars@[j] != '/',
            from > 0 ==> chars@[from - 1] == '/',
        decreases n - i,
    {
        let b: u8 = bytes[i];
        if !((32 <= b && b < 127) || b == 9) {
            proof {
                assert(bytes@[i as int] == b);
                assert(!is_header_text(bytes@));
            }
            return None;
        }
        let c: char = b as char;
        chars.push(c);
        i += 1;
        proof {
            assert(chars@ =~= ascii_chars(bytes@.take(i as int)));
        }
        if c == '/' {
            from = i;
        }
    }
    proof {
        assert(bytes@.take(n as int) =~= bytes@);
        lemma_after_last_slash(chars@, from as int);
        assert(chars@.skip(from as int) =~= chars@.subrange(from as int, chars@.len() as int));
    }
    if from == 0 {
        return None;
    }
    let tail = copy_range(chars.as_slice(), from, chars.len());
    parse_u64(tail.as_slice())
}

/// How the file is fetched after the probe.
#[derive(Debug, Clone, Copy, PartialEq, Eq, Structural)]
pub enum Transfer {
    /// Over several connections; `total` is the size of the file.
    Parallel { total: u64 },
    /// The answer to the probe already is the file.
    UseProbe,
    /// With one new request.
    Fresh,
}

/// How the file is fetched, given the status of the probe and its
/// `Content-Range`: a partial answer that gives the total allows parallel
/// connections; any other partial answer calls for a new request.
pub fn transfer_plan(status: u16, content_range: Option<&[u8]>) -> (r: Transfer)
    ensures
        r == if status != 206 {
            Transfer::UseProbe
        } else {
            match content_range {
                Some(value) => match range_total(value@) {
                    Some(total) => Transfer::Parallel { total },
                    None => Transfer::Fresh,
                },
                None => Transfer::Fresh,
            }
        },
{
    if status == 206 {
        match content_range_total(content_range) {
            Some(total) => Transfer::Parallel { total },
            None => Transfer::Fresh,
        }
    } else {
        Transfer::UseProbe
    }
}

/// Parallel connections per download.
pub const MAX_CONNECTIONS: u64 = 16;

/// Bytes that are worth a connection of their own.
pub const CHUNK_SIZE: u64 = 33_554_432;

/// The number of connections for a file of that size: one for each started
/// chunk, at least one and at most [`MAX_CONNECTIONS`].
pub open spec fn connections(total: int) -> int {
    let started = (total + CHUNK_SIZE - 1) / (CHUNK_SIZE as int);
    if started < 1 {
        1
    } else if started > MAX_CONNECTIONS {
        MAX_CONNECTIONS as int
    } else {
        started
    }
}

/// The first byte that connection `i` of `n` fetches.
pub open spec fn range_start(total: int, n: int, i: int) -> int {
    (total * i) / n
}

/// Bytes of the file, both ends included.
#[derive(Debug, Clone, Copy, PartialEq, Eq, Structural)]
pub struct ByteRange {
    pub start: u64,
    pub end: u64,
}

/// The ranges of all connections.
pub open spec fn ranges(total: int) -> Seq<ByteRange> {
    let n = connections(total);
    Seq::new(
        n as nat,
        |i: int|
            ByteRange {
                start: range_start(total, n, i) as u64,
                end: (range_start(total, n, i + 1) - 1) as u64,
            },
    )
}

/// Neighbouring ranges do not overlap, leave no gap, and hold a byte each.
proof fn lemma_range_step(total: int, n: int, i: int)
    requires
        1 <= n <= total,
        0 <= i < n,
    ensures
        0 <= range_start(total, n, i) < range_start(total, n, i + 1) <= total,
{
    assert(total * (i + 1) == total * i + total) by (nonlinear_arith);
    assert(0 <= total * i) by (nonlinear_arith)
        requires
            0 <= i,
            1 <= total,
    ;
    assert(total * (i + 1) <= total * n) by (nonlinear_arith)
        requires
            i + 1 <= n,
            1 <= total,
    ;
    assert((total * i) / n + 1 <= (total * i + total) / n) by (nonlinear_arith)
        requires
            1 <= n <= total,
            0 <= total * i,
    ;
    assert((total * (i + 1)) / n <= total) by (nonlinear_arith)
        requires
            total * (i + 1) <= total * n,
            1 <= n,
    ;
    assert(0 <= (total * i) / n) by (nonlinear_arith)
        requires
            0 <= total * i,
            1 <= n,
    ;
}

/// The ranges of the connections that together fetch a file of `total` bytes.
pub fn chunk_ranges(total: u64) -> (out: Vec<ByteRange>)
    requires
        1 <= total <= u64::MAX / 16,
    ensures
        out@ == ranges(total as int),
{
    let started: u64 = total / CHUNK_SIZE + if total % CHUNK_SIZE != 0 {
        1
    } else {
        0
    };
    let n: u64 = if started < 1 {
        1
    } else if started > MAX_CONNECTIONS {
        MAX_CONNECTIONS
    } else {
        started
    };
    proof {
        assert(n == connections(total as int));
        assert(n <= total);
    }
    let mut out: Vec<ByteRange> = Vec::new();
    let mut i: u64 = 0;
    while i < n
        invariant
            i <= n,
            1 <= n <= 16,
            n <= total <= u64::MAX / 16,
            n == connections(total as int),
            out@ == ranges(total as int).take(i as int),
        decreases n - i,
    {
        proof {
            lemma_range_step(total as int, n as int, i as int);
            assert(total * i <= total * 16) by (nonlinear_arith)
                requires
                    i <= 16,
            ;
            assert(total * (i + 1) <= total * 16) by (nonlinear_arith)
                requires
                    i + 1 <= 16,
            ;
        }
        let start: u64 = total * i / n;
        let end: u64 = total * (i + 1) / n - 1;
        out.push(ByteRange { start, end });
        i += 1;
        proof {
            assert(out@ =~= ranges(total as int).take(i as int));
        }
    }
    proof {
        assert(ranges(total as int).take(n as int) =~= ranges(total as int));
    }
    out
}

/// The ranges begin with the first byte of the file, end with the last, and
/// each one begins where the one before ended: every byte is fetched once.
pub proof fn law_ranges_partition_file(total: u64)
    requires
        1 <= total,
    ensures
        1 <= ranges(total as int).len() <= MAX_CONNECTIONS,
        ranges(total as int).first().start == 0,
        ranges(total as int).last().end == total - 1,
        forall|i: int|
            0 <= i < ranges(total as int).len() ==> (#[trigger] ranges(total as int)[i]).start
                <= ranges(total as int)[i].end,
        forall|i: int|
            0 <= i < ranges(total as int).len() - 1 ==> (#[trigger] ranges(total as int)[i]).end + 1
                == ranges(total as int)[i + 1].start,
{
    let t = total as int;
    let n = connections(t);
    let r = ranges(t);
    assert(1 <= n <= t);
    assert(range_start(t, n, 0) == 0) by (nonlinear_arith)
        requires
            range_start(t, n, 0) == (t * 0) / n,
            1 <= n,
    ;
    assert((t * n) / n == t) by (nonlinear_arith)
        requires
            1 <= n,
    ;
    assert(range_start(t, n, n) == t);
    lemma_range_step(t, n, 0);
    lemma_range_step(t, n, n - 1);
    assert forall|i: int| 0 <= i < r.len() implies (#[trigger] r[i]).start <= r[i].end by {
        lemma_range_step(t, n, i);
    }
    assert forall|i: int| 0 <= i < r.len() - 1 implies (#[trigger] r[i]).end + 1 == r[i
        + 1].start by {
        lemma_range_step(t, n, i);
        lemma_range_step(t, n, i + 1);
    }
}

/// The `Range` header of a request for these bytes.
pub fn range_header(range: ByteRange) -> (out: String)
    ensures
        out@ == "bytes="@ + decimal(range.start as nat) + "-"@ + decimal(range.end as nat),
{
    cat4(
        "bytes=",
        decimal_text(range.start).as_str(),
        "-",
        decimal_text(range.end).as_str(),
    )
}

/// Did the server answer the range request with just that range?
pub fn check_partial(status: u16) -> (r: Result<(), String>)
    ensures
        match r {
            Ok(()) => status == 206,
            Err(e) => status != 206 && e@ == "servidor não honrou o Range (resposta não-206)"@,
        },
{
    if status == 206 {
        Ok(())
    } else {
        Err("servidor não honrou o Range (resposta não-206)".to_owned())
    }
}

/// Did as many bytes arrive as the range holds?
pub fn check_length(range: ByteRange, written: u64) -> (r: Result<(), String>)
    requires
        range.start <= range.end,
        range.end - range.start < u64::MAX,
    ensures
        match r {
            Ok(()) => written == range.end - range.start + 1,
            Err(e) => written != range.end - range.start + 1 && e@ == "resposta curta: "@ + decimal(
                written as nat,
            ) + " de "@ + decimal((range.end - range.start + 1) as nat) + " bytes"@,
        },
{
    let expected: u64 = range.end - range.start + 1;
    if written == expected {
        Ok(())
    } else {
        let counts = cat4(
            "resposta curta: ",
            decimal_text(written).as_str(),
            " de ",
            decimal_text(expected).as_str(),
        );
        Err(cat2(counts.as_str(), " bytes"))
    }
}

/// What becomes of the file of a model.
#[derive(Debug, Clone, Copy, PartialEq, Eq, Structural)]
pub enum DownloadStep {
    /// It is there: nothing is fetched.
    Skip,
    Fetch,
    /// It was fetched whole.
    Done,
    /// Remove what was fetched, and report the error.
    RemovePartial,
}

/// What becomes of the file of a model: one that is there is kept, and a failed
/// download leaves nothing behind. `present` says whether it was there at first,
/// `fetched` whether the download succeeded, once it has ended.
pub fn download_step(present: bool, fetched: Option<bool>) -> (r: DownloadStep)
    ensures
        r == if present {
            DownloadStep::Skip
        } else {
            match fetched {
                None => DownloadStep::Fetch,
                Some(true) => DownloadStep::Done,
                Some(false) => DownloadStep::RemovePartial,
            }
        },
{
    if present {
        return DownloadStep::Skip;
    }
    match fetched {
        None => DownloadStep::Fetch,
        Some(true) => DownloadStep::Done,
        Some(false) => DownloadStep::RemovePartial,
    }
}

/// The texts with `"; "` between them.
pub open spec fn listed(items: Seq<Seq<char>>) -> Seq<char>
    decreases items.len(),
{
    if items.len() == 0 {
        Seq::empty()
    } else if items.len() == 1 {
        items[0]
    } else {
        listed(items.drop_last()) + "; "@ + items.last()
    }
}

/// What the connections of a download reported so far.
#[derive(Debug, PartialEq, Eq)]
pub struct Tally {
    pub remaining: usize,
    pub errors: Vec<String>,
}

impl Tally {
    /// No connection has reported yet.
    pub fn new(connections: usize) -> (r: Tally)
        ensures
            r.remaining == connections,
            r.errors@.len() == 0,
    {
        Tally { remaining: connections, errors: Vec::new() }
    }

    /// One connection has reported.
    pub fn record(&mut self, report: Result<(), String>)
        requires
            old(self).remaining > 0,
        ensures
            final(self).remaining == old(self).remaining - 1,
            match report {
                Ok(()) => final(self).errors@ == old(self).errors@,
                Err(e) => final(self).errors@ == old(self).errors@.push(e),
            },
    {
        self.remaining -= 1;
        match report {
            Ok(()) => {},
            Err(e) => {
                self.errors.push(e);
            },
        }
    }

    /// What keeps the download from being complete: the errors, and how many
    /// connections never reported.
    pub open spec fn failures(self) -> Seq<Seq<char>> {
        if self.remaining == 0 {
            texts(self.errors@)
        } else {
            texts(self.errors@).push("conexões sem resposta: "@ + decimal(self.remaining as nat))
        }
    }

    /// The result of the download: complete where every connection reported
    /// and none failed, else all that went wrong.
    pub fn outcome(&self) -> (r: Result<(), String>)
        ensures
            match r {
                Ok(()) => self.remaining == 0 && self.errors@.len() == 0,
                Err(e) => (self.remaining > 0 || self.errors@.len() > 0) && e@
                    == "download incompleto: "@ + listed(self.failures()),
            },
    {
        if self.errors.len() == 0 && self.remaining == 0 {
            return Ok(());
        }
        let ghost all = texts(self.errors@);
        let mut out = String::new();
        let mut i: usize = 0;
        while i < self.errors.len()
            invariant
                i <= self.errors@.len(),
                all == texts(self.errors@),
                out@ == listed(all.take(i as int)),
            decreases self.errors@.len() - i,
        {
            proof {
                assert(all.take(i + 1).drop_last() =~= all.take(i as int));
                assert(all.take(i + 1).last() == self.errors@[i as int]@);
            }
            if i > 0 {
                out.append("; ");
            }
            out.append(self.errors[i].as_str());
            i += 1;
        }
        proof {
            assert(all.take(all.len() as int) =~= all);
        }
        if self.remaining > 0 {
            let silent = cat2(
                "conexões sem resposta: ",
                decimal_text(self.remaining as u64).as_str(),
            );
            proof {
                assert(self.failures().drop_last() =~= all);
            }
            if self.errors.len() > 0 {
                out.append("; ");
            }
            out.append(silent.as_str());
        }
        Err(cat2("download incompleto: ", out.as_str()))
    }
}

/// A file is fetched over one connection for each started 32 MiB, but never
/// over more than sixteen.
pub proof fn law_number_of_connections(total: int)
    requires
        1 <= total,
    ensures
        ({
            let n = ranges(total).len() as int;
            &&& 1 <= n <= 16
            &&& (n - 1) * 33_554_432 < total
            &&& n < 16 ==> total <= n * 33_554_432
        }),
{
}

/// The connections share the work: no one fetches two bytes more than another.
pub proof fn law_ranges_are_balanced(total: u64, i: int)
    requires
        1 <= total <= u64::MAX / 16,
        0 <= i < ranges(total as int).len(),
    ensures
        ({
            let n = ranges(total as int).len() as int;
            let size = ranges(total as int)[i].end - ranges(total as int)[i].start + 1;
            total as int / n <= size <= total as int / n + 1
        }),
{
    let t = total as int;
    let n = connections(t);
    assert(n <= t);
    lemma_range_step(t, n, i);
    let a = t * i;
    assert(t * (i + 1) == a + t) by (nonlinear_arith)
        requires
            a == t * i,
    ;
    assert(t / n <= (a + t) / n - a / n <= t / n + 1) by (nonlinear_arith)
        requires
            1 <= n,
            0 <= t,
    ;
}

/// The total behind the slash of a `Content-Range` is read, whatever stands
/// before it.
pub proof fn law_total_of_content_range_is_read(before: Seq<u8>, n: u64, value: Seq<u8>)
    requires
        forall|i: int| 0 <= i < before.len() ==> 32 <= #[trigger] before[i] < 127,
        value.len() == before.len() + 1 + decimal(n as nat).len(),
        value.take(before.len() as int) == before,
        value[before.len() as int] == 47,
        forall|i: int|
            0 <= i < decimal(n as nat).len() ==> value[before.len() + 1 + i] as u32
                == #[trigger] decimal(n as nat)[i] as u32,
    ensures
        range_total(value) == Some(n),
{
    let digits = decimal(n as nat);
    let k = before.len() as int + 1;
    let s = ascii_chars(value);
    lemma_decimal_value(n as nat);
    assert forall|i: int| 0 <= i < value.len() implies 32 <= #[trigger] value[i] < 127
        || value[i] == 9 by {
        if i < before.len() {
            assert(value.take(before.len() as int)[i] == before[i]);
        } else if i >= k {
            assert(crate::decimal::is_digit(digits[i - k]));
        }
    }
    assert forall|i: int| k <= i < s.len() implies s[i] != '/' by {
        assert(crate::decimal::is_digit(digits[i - k]));
    }
    assert(s[k - 1] == '/');
    lemma_after_last_slash(s, k);
    assert forall|i: int| 0 <= i < digits.len() implies s.skip(k)[i] == digits[i] by {
        assert(crate::decimal::is_digit(digits[i]));
    }
    assert(s.skip(k) =~= digits);
    law_decimal_roundtrip(n);
}

/// Only a partial answer that gives the total is fetched in parallel; any other
/// partial answer calls for a new request, and a whole answer is the file.
pub proof fn law_how_a_file_is_fetched(
    status: u16,
    header: Option<&[u8]>,
    total: Option<u64>,
    r: Transfer,
)
    requires
        call_ensures(content_range_total, (header,), total),
        call_ensures(transfer_plan, (status, header), r),
    ensures
        status != 206 ==> r == Transfer::UseProbe,
        status == 206 && total is None ==> r == Transfer::Fresh,
        status == 206 && total is Some ==> r == (Transfer::Parallel { total: total->0 }),
        header is None ==> total is None,
{
}

/// A piece is taken only where the server sent just the range, and all of it.
pub proof fn law_short_pieces_are_refused(
    range: ByteRange,
    status: u16,
    written: u64,
    a: Result<(), String>,
    b: Result<(), String>,
)
    requires
        range.start <= range.end < u64::MAX,
        call_ensures(check_partial, (status,), a),
        call_ensures(check_length, (range, written), b),
    ensures
        (a is Ok) == (status == 206),
        (b is Ok) == (written == range.end - range.start + 1),
{
}

/// A download is complete only where every connection reported success.
pub proof fn law_complete_only_where_all_succeeded(tally: Tally, r: Result<(), String>)
    requires
        call_ensures(Tally::outcome, (&tally,), r),
    ensures
        (r is Ok) == (tally.remaining == 0 && tally.errors@.len() == 0),
{
}

/// Every transcription model lies in one repository, in a file that bears its
/// name; only the turbo model is filed under the model that it comes from.
pub proof fn law_files_of_the_catalog(i: int)
    requires
        0 <= i < catalog().len(),
    ensures
        catalog()[i].base_url@ == "https://huggingface.co/ggerganov/whisper.cpp/resolve/main"@,
        catalog()[i].name@ == "turbo"@ ==> catalog()[i].file@ == "ggml-large-v3-turbo.bin"@,
        catalog()[i].name@ != "turbo"@ ==> catalog()[i].file@ == "ggml-"@ + catalog()[i].name@
            + ".bin"@,
        catalog().len() == 6,
{
    reveal_strlit("tiny");
    reveal_strlit("base");
    reveal_strlit("small");
    reveal_strlit("medium");
    reveal_strlit("large-v3");
    reveal_strlit("turbo");
    reveal_strlit("ggml-");
    reveal_strlit(".bin");
    reveal_strlit("ggml-tiny.bin");
    reveal_strlit("ggml-base.bin");
    reveal_strlit("ggml-small.bin");
    reveal_strlit("ggml-medium.bin");
    reveal_strlit("ggml-large-v3.bin");
    reveal_strlit("ggml-large-v3-turbo.bin");
    let spec = catalog()[i];
    if i < 5 {
        assert(spec.file@ =~= "ggml-"@ + spec.name@ + ".bin"@);
    }
    if i < 2 {
        assert(spec.name@.len() == 4);
    } else if i == 2 {
        assert(spec.name@[0] == 's');
    } else if i == 3 || i == 4 {
        assert(spec.name@.len() > 5);
    }
}

} // verus!
