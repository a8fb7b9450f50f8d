//! What surrounds a Whisper transcription: the samples handed to it and the text made of
//! its segments.
use vstd::prelude::*;
use vstd::string::*;
use crate::text::{trim, trim_str};

verus! {

/// The factor by which samples captured at 48 kHz are decimated to reach the 16 kHz that
/// Whisper expects.
pub const DECIMATION: usize = 3;

/// Keeps every third sample, starting with the first: 48 kHz audio decimated to 16 kHz.
pub fn resample_to_16khz<T: Copy>(samples: &[T]) -> (r: Vec<T>)
    ensures
        r@.len() == (samples@.len() + 2) / 3,
        forall|i: int| 0 <= i < r@.len() ==> r@[i] == samples@[3 * i],
{
    let n = samples.len();
    let mut out: Vec<T> = Vec::new();
    let mut i: usize = 0;
    while i < n
        invariant
            n == samples@.len(),
            i == 3 * out@.len(),
            i <= n + 2,
            forall|k: int| 0 <= k < out@.len() ==> out@[k] == samples@[3 * k],
        decreases n + 3 - i,
    {
        out.push(samples[i]);
        i = i + 3;
    }
    out
}

/// The segments run together, each followed by a space.
pub open spec fn spaced(segments: Seq<Seq<char>>) -> Seq<char>
    decreases segments.len(),
{
    if segments.len() == 0 {
        Seq::empty()
    } else {
        spaced(segments.drop_last()) + segments.last() + " "@
    }
}

/// Running segments together is done segment by segment, in order: the segments of `a`
/// then those of `b` give the text of `a` followed by the text of `b`, and one segment
/// gives itself followed by a space.
pub proof fn lemma_spaced_concat(a: Seq<Seq<char>>, b: Seq<Seq<char>>, x: Seq<char>)
    ensures
        spaced(a + b) == spaced(a) + spaced(b),
        spaced(seq![x]) == x + " "@,
        spaced(a.push(x)) == spaced(a) + x + " "@,
    decreases b.len(),
{
    assert(seq![x].drop_last() =~= Seq::<Seq<char>>::empty());
    assert(seq![x].last() == x);
    assert(Seq::<char>::empty() + x =~= x);
    assert(spaced(seq![x]) == spaced(Seq::<Seq<char>>::empty()) + x + " "@);
    assert(a.push(x).drop_last() =~= a);
    if b.len() == 0 {
        assert(a + b =~= a);
        assert(spaced(a) + spaced(b) =~= spaced(a));
    } else {
        lemma_spaced_concat(a, b.drop_last(), x);
        assert((a + b).drop_last() =~= a + b.drop_last());
        assert((a + b).last() == b.last());
        assert(spaced(a + b) =~= spaced(a) + spaced(b));
    }
}

/// Every segment is in the text run together, in order: segment `i` starts right after the
/// text of the segments before it, and is followed by a space.
pub proof fn lemma_spaced_holds_each_segment(s: Seq<Seq<char>>, i: int)
    requires
        0 <= i < s.len(),
    ensures
        spaced(s) == spaced(s.take(i)) + s[i] + " "@ + spaced(s.skip(i + 1)),
{
    let x = s[i];
    lemma_spaced_concat(s.take(i), seq![x], x);
    lemma_spaced_concat(s.take(i).push(x), s.skip(i + 1), x);
    assert(s.take(i) + seq![x] =~= s.take(i).push(x));
    assert(s.take(i).push(x) + s.skip(i + 1) =~= s);
}

/// The text of a transcription: its segments, each followed by a space, trimmed.
pub open spec fn transcript(segments: Seq<Seq<char>>) -> Seq<char> {
    trim(spaced(segments))
}

/// The text of a transcription made of `segments`.
pub fn join_segments(segments: &Vec<String>) -> (r: String)
    ensures
        r@ == transcript(segments@.map_values(|s: String| s@)),
{
    let ghost all = segments@.map_values(|s: String| s@);
    let mut result = String::new();
    let mut i: usize = 0;
    assert(all.take(0) =~= Seq::<Seq<char>>::empty());
    while i < segments.len()
        invariant
            i <= segments@.len(),
            all == segments@.map_values(|s: String| s@),
            result@ == spaced(all.take(i as int)),
        decreases segments@.len() - i,
    {
        assert(all.take(i + 1).drop_last() =~= all.take(i as int));
        result = result.concat(segments[i].as_str()).concat(" ");
        i = i + 1;
    }
    assert(all.take(segments@.len() as int) =~= all);
    String::from_str(trim_str(result.as_str()))
}

/// Calls `num_cpus::get`, which depends on the machine; the contract claims only that
/// the count is at least 1, as its documentation says.
#[verifier::external_body]
fn cpu_count() -> (r: usize)
    ensures
        r >= 1,
{
    num_cpus::get()
}

/// The thread count handed to Whisper for `cpus` CPUs: the count as an `i32`, wrapping
/// around as `as` does.
pub open spec fn thread_count(cpus: usize) -> i32 {
    cpus as i32
}

/// The thread count handed to Whisper for `cpus` CPUs.
pub fn threads_for(cpus: usize) -> (r: i32)
    ensures
        r == thread_count(cpus),
{
    cpus as i32
}

/// The number of threads a transcription runs on: the number of CPUs of this machine.
pub fn transcription_threads() -> (r: i32)
    ensures
        exists|n: usize| n >= 1 && r == #[trigger] thread_count(n),
{
    let n = cpu_count();
    threads_for(n)
}

} // verus!
