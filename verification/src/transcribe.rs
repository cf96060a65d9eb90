//! Around the speech engine: keeping the speech, joining the text, and what
//! becomes of a recording.
use vstd::prelude::*;

use crate::config::Config;
use crate::llm::{choose_text, chosen};
use crate::postprocess::{cleaned, is_word, join_words, law_words_of_spaced, spaced, words};
use crate::text::{
    cat2, char_texts, chars_of, copy_range, is_white_space, law_trim_takes_the_ends, string_of,
    text_of, texts, trim, trim_chars,
};

verus! {

/// The first sample of that hundredth of a second, within a recording of
/// `len` samples.
pub open spec fn sample_index(time: int, len: nat) -> int {
    if time <= 0 {
        0
    } else if time * 160 >= len {
        len as int
    } else {
        time * 160
    }
}

/// The samples between two times; none where the end does not follow the
/// start.
pub open spec fn segment<T>(samples: Seq<T>, start: int, end: int) -> Seq<T> {
    let a = sample_index(start, samples.len());
    let b = sample_index(end, samples.len());
    if b > a {
        samples.subrange(a, b)
    } else {
        Seq::empty()
    }
}

/// The segments of a recording, one after the other.
pub open spec fn speech<T>(samples: Seq<T>, segments: Seq<(i64, i64)>) -> Seq<T>
    decreases segments.len(),
{
    if segments.len() == 0 {
        Seq::empty()
    } else {
        speech(samples, segments.drop_last()) + segment(
            samples,
            segments.last().0 as int,
            segments.last().1 as int,
        )
    }
}

fn index_of(time: i64, len: usize) -> (r: usize)
    ensures
        r == sample_index(time as int, len as nat),
{
    if time <= 0 {
        return 0;
    }
    let at: u128 = time as u128 * 160;
    if at >= len as u128 {
        len
    } else {
        at as usize
    }
}

/// Keeps the segments of a recording, in their order. Their times are in
/// hundredths of a second; they are clamped to the recording, and a segment
/// whose end does not follow its start is left out.
pub fn concat_segments<T: Copy>(samples: &[T], segments: &[(i64, i64)]) -> (out: Vec<T>)
    ensures
        out@ == speech(samples@, segments@),
{
    let mut out: Vec<T> = Vec::new();
    let mut i: usize = 0;
    while i < segments.len()
        invariant
            i <= segments@.len(),
            out@ == speech(samples@, segments@.take(i as int)),
        decreases segments@.len() - i,
    {
        let (start, end): (i64, i64) = segments[i];
        let a: usize = index_of(start, samples.len());
        let b: usize = index_of(end, samples.len());
        proof {
            let next = segments@.take(i + 1);
            assert(next.drop_last() =~= segments@.take(i as int));
            assert(next.last() == segments@[i as int]);
        }
        if b > a {
            let mut part = copy_range(samples, a, b);
            out.append(&mut part);
        }
        i += 1;
    }
    proof {
        assert(segments@.take(i as int) =~= segments@);
    }
    out
}

/// The segments follow one another in time without overlap.
pub open spec fn in_order(segments: Seq<(i64, i64)>) -> bool {
    &&& forall|i: int| 0 <= i < segments.len() ==> (#[trigger] segments[i]).0 <= segments[i].1
    &&& forall|i: int, j: int|
        0 <= i < j < segments.len() ==> (#[trigger] segments[i]).1 <= (#[trigger] segments[j]).0
}

/// Segments in order give no more samples than the recording has up to the end
/// of the last one.
pub proof fn law_speech_is_no_longer<T>(samples: Seq<T>, segments: Seq<(i64, i64)>)
    requires
        in_order(segments),
    ensures
        speech(samples, segments).len() <= samples.len(),
        segments.len() > 0 ==> speech(samples, segments).len() <= sample_index(
            segments.last().1 as int,
            samples.len(),
        ),
    decreases segments.len(),
{
    if segments.len() > 0 {
        let rest = segments.drop_last();
        assert forall|i: int| 0 <= i < rest.len() implies (#[trigger] rest[i]).0 <= rest[i].1 by {
            assert(rest[i] == segments[i]);
        }
        assert forall|i: int, j: int| 0 <= i < j < rest.len() implies (#[trigger] rest[i]).1 <= (
        #[trigger] rest[j]).0 by {
            assert(rest[i] == segments[i]);
            assert(rest[j] == segments[j]);
        }
        law_speech_is_no_longer(samples, rest);
        let n = samples.len();
        let last = segments.last();
        assert(last == segments[segments.len() - 1]);
        assert(last.0 <= last.1);
        if rest.len() > 0 {
            assert(rest.last() == segments[segments.len() - 2]);
            assert(rest.last().1 <= last.0);
        }
    }
}

/// A segment that covers the whole recording keeps all of it.
pub proof fn law_whole_recording_is_kept<T>(samples: Seq<T>, start: i64, end: i64)
    requires
        start <= 0,
        samples.len() <= end * 160,
    ensures
        speech(samples, seq![(start, end)]) == samples,
{
    let segments = seq![(start, end)];
    assert(segments.drop_last() =~= Seq::empty());
    assert(speech(samples, segments.drop_last()) =~= Seq::empty());
    assert(segments.last() == (start, end));
    assert(samples.subrange(0, samples.len() as int) =~= samples);
    assert(speech(samples, segments) =~= samples);
}

/// A segment within the recording is kept whole: every sample from its start to
/// its end, 160 for each hundredth of a second, in order.
pub proof fn law_segment_is_kept_whole<T>(samples: Seq<T>, start: i64, end: i64)
    requires
        0 <= start < end,
        end * 160 <= samples.len(),
    ensures
        speech(samples, seq![(start, end)]).len() == (end - start) * 160,
        forall|k: int|
            0 <= k < (end - start) * 160 ==> #[trigger] speech(samples, seq![(start, end)])[k]
                == samples[start * 160 + k],
{
    lemma_single_segment(samples, start, end);
}

/// The speech of one segment is what the segment holds.
proof fn lemma_single_segment<T>(samples: Seq<T>, start: i64, end: i64)
    ensures
        speech(samples, seq![(start, end)]) == segment(samples, start as int, end as int),
{
    let segments = seq![(start, end)];
    assert(segments.drop_last() =~= Seq::empty());
    assert(speech(samples, segments.drop_last()) =~= Seq::empty());
    assert(segments.last() == (start, end));
    assert(speech(samples, segments) =~= segment(samples, start as int, end as int));
}

/// Segments are clamped to the recording: one that begins before it begins
/// with it, and one that ends behind it ends with it.
pub proof fn law_segments_are_clamped<T>(samples: Seq<T>, start: i64, end: i64)
    ensures
        start < 0 ==> speech(samples, seq![(start, end)]) == speech(samples, seq![(0i64, end)]),
        0 <= start * 160 <= samples.len() <= end * 160 ==> speech(samples, seq![(start, end)])
            == samples.skip(start * 160),
{
    lemma_single_segment(samples, start, end);
    lemma_single_segment(samples, 0, end);
    if 0 <= start * 160 <= samples.len() <= end * 160 {
        assert(speech(samples, seq![(start, end)]) =~= samples.skip(start * 160));
    }
}

/// A segment gives nothing just where its end does not follow its start, where
/// it lies outside of the recording, or where there is no recording.
pub proof fn law_empty_segments_are_left_out<T>(samples: Seq<T>, start: i64, end: i64)
    ensures
        (speech(samples, seq![(start, end)]).len() == 0) == (end <= start || end <= 0 || start * 160
            >= samples.len() || samples.len() == 0),
{
    lemma_single_segment(samples, start, end);
}

/// Segments are kept independently of one another: the speech of two lists is
/// that of the first and, behind it, that of the second.
pub proof fn law_speech_joins_segments<T>(
    samples: Seq<T>,
    a: Seq<(i64, i64)>,
    b: Seq<(i64, i64)>,
)
    ensures
        speech(samples, a + b) == speech(samples, a) + speech(samples, b),
        speech(samples, Seq::empty()) == Seq::<T>::empty(),
    decreases b.len(),
{
    if b.len() == 0 {
        assert(a + b =~= a);
        assert(speech(samples, a) + speech(samples, b) =~= speech(samples, a));
    } else {
        law_speech_joins_segments(samples, a, b.drop_last());
        assert((a + b).drop_last() =~= a + b.drop_last());
        assert((a + b).last() == b.last());
        assert(speech(samples, a + b) =~= speech(samples, a) + speech(samples, b));
    }
}

/// The time that segments cover together, in hundredths of a second.
pub open spec fn total_time(segments: Seq<(i64, i64)>) -> int
    decreases segments.len(),
{
    if segments.len() == 0 {
        0
    } else {
        total_time(segments.drop_last()) + (segments.last().1 - segments.last().0)
    }
}

/// Segments within the recording give 160 samples for each hundredth of a
/// second that they cover.
pub proof fn law_speech_lasts_as_long_as_its_segments<T>(
    samples: Seq<T>,
    segments: Seq<(i64, i64)>,
)
    requires
        forall|i: int|
            0 <= i < segments.len() ==> 0 <= (#[trigger] segments[i]).0 <= segments[i].1
                && segments[i].1 * 160 <= samples.len(),
    ensures
        speech(samples, segments).len() == total_time(segments) * 160,
    decreases segments.len(),
{
    if segments.len() > 0 {
        let rest = segments.drop_last();
        assert forall|i: int| 0 <= i < rest.len() implies 0 <= (#[trigger] rest[i]).0 <= rest[i].1
            && rest[i].1 * 160 <= samples.len() by {
            assert(rest[i] == segments[i]);
        }
        law_speech_lasts_as_long_as_its_segments(samples, rest);
        let last = segments.last();
        assert(last == segments[segments.len() - 1]);
        assert(segment(samples, last.0 as int, last.1 as int).len() == (last.1 - last.0) * 160);
    }
}

/// The number of threads of the engine: at least one.
pub fn engine_threads(threads: u32) -> (r: u32)
    ensures
        r == if threads == 0 {
            1
        } else {
            threads
        },
{
    if threads == 0 {
        1
    } else {
        threads
    }
}

/// The text of a transcription, from its parts.
pub fn transcript(parts: &Vec<String>) -> (out: String)
    ensures
        out@ == trim(spaced(texts(parts@))),
{
    let mut list: Vec<Vec<char>> = Vec::new();
    let mut i: usize = 0;
    while i < parts.len()
        invariant
            i <= parts@.len(),
            char_texts(list@) == texts(parts@).take(i as int),
        decreases parts@.len() - i,
    {
        let part = chars_of(parts[i].as_str());
        let ghost before = list@;
        list.push(part);
        i += 1;
        proof {
            assert(char_texts(list@) =~= char_texts(before).push(part@));
            assert(texts(parts@).take(i as int) =~= texts(parts@).take(i - 1).push(
                parts@[i - 1]@,
            ));
        }
    }
    proof {
        assert(texts(parts@).take(i as int) =~= texts(parts@));
    }
    let joined = join_words(&list);
    let kept = trim_chars(joined.as_slice());
    string_of(kept.as_slice())
}

/// What became of a recording.
#[derive(Debug, Clone, PartialEq, Eq)]
pub enum WorkerOutcome {
    Transcribed { session: u64, text: String },
    Failed { session: u64, msg: String },
}

/// The contents of a [`WorkerOutcome`].
pub enum OutcomeView {
    Transcribed { session: u64, text: Seq<char> },
    Failed { session: u64, msg: Seq<char> },
}

impl View for WorkerOutcome {
    type V = OutcomeView;

    open spec fn view(&self) -> OutcomeView {
        match *self {
            WorkerOutcome::Transcribed { session, text } => OutcomeView::Transcribed {
                session,
                text: text@,
            },
            WorkerOutcome::Failed { session, msg } => OutcomeView::Failed { session, msg: msg@ },
        }
    }
}

impl OutcomeView {
    /// The session that the recording belongs to.
    pub open spec fn session(self) -> u64 {
        match self {
            OutcomeView::Transcribed { session, .. } => session,
            OutcomeView::Failed { session, .. } => session,
        }
    }
}

impl WorkerOutcome {
    /// The session that the recording belongs to.
    pub fn session(&self) -> (r: u64)
        ensures
            r == self@.session(),
    {
        match self {
            WorkerOutcome::Transcribed { session, .. } => *session,
            WorkerOutcome::Failed { session, .. } => *session,
        }
    }
}

/// What follows the search for speech.
#[derive(Debug)]
pub enum AfterFilter<T> {
    /// Transcribe these samples.
    Transcribe { samples: Vec<T> },
    Done(WorkerOutcome),
}

/// What follows the search for speech: a failure ends the work, and so does
/// a recording without speech, with an empty text. `found` holds the segments;
/// there are none where no detector is loaded, and then all is transcribed.
pub fn after_filter<T: Copy>(
    session: u64,
    samples: Vec<T>,
    found: Result<Option<Vec<(i64, i64)>>, String>,
) -> (r: AfterFilter<T>)
    ensures
        match found {
            Err(e) => r matches AfterFilter::Done(out) && out@ == (OutcomeView::Failed {
                session,
                msg: "detecção de voz falhou: "@ + e@,
            }),
            Ok(segments) => {
                let kept = match segments {
                    Some(list) => speech(samples@, list@),
                    None => samples@,
                };
                if kept.len() == 0 {
                    r matches AfterFilter::Done(out) && out@ == (OutcomeView::Transcribed {
                        session,
                        text: Seq::empty(),
                    })
                } else {
                    r matches AfterFilter::Transcribe { samples: s } && s@ == kept
                }
            },
        },
{
    let kept = match found {
        Err(e) => {
            return AfterFilter::Done(
                WorkerOutcome::Failed {
                    session,
                    msg: cat2("detecção de voz falhou: ", e.as_str()),
                },
            );
        },
        Ok(Some(list)) => concat_segments(samples.as_slice(), list.as_slice()),
        Ok(None) => samples,
    };
    if kept.len() == 0 {
        AfterFilter::Done(WorkerOutcome::Transcribed { session, text: String::new() })
    } else {
        AfterFilter::Transcribe { samples: kept }
    }
}

/// What comes of a transcription: its cleaned text, or the failure. `answer`
/// is what the language model made of the text, `None` where it was not asked
/// or failed.
pub fn after_transcription(
    session: u64,
    raw: Result<String, String>,
    answer: Option<String>,
    smart: bool,
    cfg: &Config,
) -> (r: WorkerOutcome)
    ensures
        r@ == match raw {
            Ok(text) => OutcomeView::Transcribed {
                session,
                text: chosen(text@, text_of(answer), smart, cfg@),
            },
            Err(e) => OutcomeView::Failed { session, msg: "transcrição falhou: "@ + e@ },
        },
{
    match raw {
        Ok(text) => WorkerOutcome::Transcribed {
            session,
            text: choose_text(text.as_str(), answer, smart, cfg),
        },
        Err(e) => WorkerOutcome::Failed {
            session,
            msg: cat2("transcrição falhou: ", e.as_str()),
        },
    }
}

/// Without a detector all of a recording is transcribed.
pub proof fn law_everything_is_transcribed_without_detector<T: Copy>(
    session: u64,
    samples: Vec<T>,
    r: AfterFilter<T>,
)
    requires
        call_ensures(after_filter::<T>, (session, samples, Ok(None)), r),
        samples@.len() > 0,
    ensures
        r matches AfterFilter::Transcribe { samples: kept } && kept@ == samples@,
{
}

/// A segment of speech within the recording is transcribed, and all of it.
pub proof fn law_speech_is_transcribed<T: Copy>(
    session: u64,
    samples: Vec<T>,
    segments: Vec<(i64, i64)>,
    r: AfterFilter<T>,
)
    requires
        call_ensures(after_filter::<T>, (session, samples, Ok(Some(segments))), r),
        segments@.len() == 1,
        0 <= segments@[0].0 < segments@[0].1,
        segments@[0].1 * 160 <= samples@.len(),
    ensures
        r matches AfterFilter::Transcribe { samples: kept } && kept@ == samples@.subrange(
            segments@[0].0 * 160,
            segments@[0].1 * 160,
        ),
{
    let (start, end) = segments@[0];
    assert(segments@ =~= seq![(start, end)]);
    law_segment_is_kept_whole(samples@, start, end);
    assert(speech(samples@, segments@) =~= samples@.subrange(start * 160, end * 160));
}

/// A recording without speech comes to an empty text of its session, and a
/// failed search to an error of its session.
pub proof fn law_silence_comes_to_no_text<T: Copy>(
    session: u64,
    samples: Vec<T>,
    segments: Vec<(i64, i64)>,
    error: String,
    silent: AfterFilter<T>,
    failed: AfterFilter<T>,
)
    requires
        segments@.len() == 0,
        call_ensures(after_filter::<T>, (session, samples, Ok(Some(segments))), silent),
        call_ensures(after_filter::<T>, (session, samples, Err(error)), failed),
    ensures
        silent matches AfterFilter::Done(WorkerOutcome::Transcribed { session: s, text }) && s
            == session && text@.len() == 0,
        failed matches AfterFilter::Done(WorkerOutcome::Failed { session: s, msg }) && s == session
            && msg@ == "detecção de voz falhou: "@ + error@,
{
}

/// The parts of a transcription are joined, none is lost: where each is a word,
/// the words of the text are the parts.
pub proof fn law_transcript_joins_its_parts(parts: Vec<String>, out: String)
    requires
        call_ensures(transcript, (&parts,), out),
        forall|i: int| 0 <= i < parts@.len() ==> is_word(#[trigger] texts(parts@)[i]),
    ensures
        out@ == spaced(texts(parts@)),
        words(out@) == texts(parts@),
{
    let list = texts(parts@);
    law_words_of_spaced(list);
    let s = spaced(list);
    lemma_spaced_ends(list);
    law_trim_takes_the_ends(Seq::empty(), s, Seq::empty());
    assert(Seq::<char>::empty() + s + Seq::<char>::empty() =~= s);
}

proof fn lemma_spaced_ends(list: Seq<Seq<char>>)
    requires
        forall|i: int| 0 <= i < list.len() ==> is_word(#[trigger] list[i]),
    ensures
        list.len() > 0 ==> spaced(list).len() > 0 && !is_white_space(spaced(list)[0])
            && !is_white_space(spaced(list).last()),
    decreases list.len(),
{
    if list.len() > 0 {
        let rest = list.drop_first();
        assert forall|i: int| 0 <= i < rest.len() implies is_word(#[trigger] rest[i]) by {
            assert(rest[i] == list[i + 1]);
        }
        lemma_spaced_ends(rest);
        assert(is_word(list[0]));
    }
}

/// A transcription that failed comes to an error of its session; one that
/// worked to its text: without the language model, or where its answer is
/// rejected, the plain cleanup.
pub proof fn law_transcription_comes_to_its_text(
    session: u64,
    text: String,
    error: String,
    smart: bool,
    cfg: Config,
    done: WorkerOutcome,
    failed: WorkerOutcome,
)
    requires
        call_ensures(after_transcription, (session, Ok(text), None, smart, &cfg), done),
        call_ensures(after_transcription, (session, Err(error), None, smart, &cfg), failed),
    ensures
        done matches WorkerOutcome::Transcribed { session: s, text: t } && s == session && t@
            == cleaned(text@, cfg@),
        failed matches WorkerOutcome::Failed { session: s, msg } && s == session && msg@
            == "transcrição falhou: "@ + error@,
{
}

} // verus!
