use vstd::prelude::*;
use vstd::arithmetic::div_mod::{lemma_div_by_multiple, lemma_div_is_ordered};
use vstd::arithmetic::mul::lemma_mul_inequality;
use crate::audio_time::AudioTime;
use crate::song::Song;

verus! {

/// One point of a volume envelope: when, and how loud (in the envelope's
/// own amplitude units).
#[derive(Clone, Copy, Debug, PartialEq, Eq, Structural)]
pub struct EnvelopeSample {
    pub time: AudioTime,
    pub amplitude: u32,
}

/// The time at `num / den` of the way from `start` to `end`, rounded down.
pub open spec fn time_at_progress(start: nat, end: nat, num: nat, den: nat) -> int
    recommends
        0 < den,
        start <= end,
{
    start + (end - start) * num / (den as int)
}

/// A short stretch `[start, end]` of the recording around a boundary, with
/// its volume envelope in time order.
pub struct Excerpt {
    start: AudioTime,
    end: AudioTime,
    samples: Vec<EnvelopeSample>,
}

impl Excerpt {
    #[verifier::type_invariant]
    spec fn window_ordered(&self) -> bool {
        self.start.micros <= self.end.micros
    }

    pub closed spec fn start_time(&self) -> nat {
        self.start.micros as nat
    }

    pub closed spec fn end_time(&self) -> nat {
        self.end.micros as nat
    }

    pub closed spec fn samples(&self) -> Seq<EnvelopeSample> {
        self.samples@
    }

    pub fn new(start: AudioTime, end: AudioTime, samples: Vec<EnvelopeSample>) -> (r: Excerpt)
        requires
            start.micros <= end.micros,
        ensures
            r.start_time() == start.micros,
            r.end_time() == end.micros,
            r.samples() == samples@,
    {
        Excerpt { start, end, samples }
    }

    pub fn window_start(&self) -> (r: AudioTime)
        ensures
            r.micros == self.start_time(),
            self.start_time() <= self.end_time(),
    {
        proof {
            use_type_invariant(self);
        }
        self.start
    }

    pub fn window_end(&self) -> (r: AudioTime)
        ensures
            r.micros == self.end_time(),
    {
        self.end
    }

    pub fn samples_ref(&self) -> (r: &Vec<EnvelopeSample>)
        ensures
            r@ == self.samples(),
    {
        &self.samples
    }

    /// The times of the envelope's samples, in order.
    pub fn get_sample_times(&self) -> (r: Vec<AudioTime>)
        ensures
            r@.len() == self.samples().len(),
            forall|i: int| 0 <= i < r@.len() ==> #[trigger] r@[i] == self.samples()[i].time,
    {
        let mut r: Vec<AudioTime> = Vec::new();
        let mut i: usize = 0;
        while i < self.samples.len()
            invariant
                i <= self.samples@.len(),
                r@.len() == i,
                forall|k: int| 0 <= k < i ==> #[trigger] r@[k] == self.samples@[k].time,
            decreases self.samples@.len() - i,
        {
            r.push(self.samples[i].time);
            i = i + 1;
        }
        r
    }

    /// The amplitudes of the envelope's samples, in order.
    pub fn get_volume_plot_data(&self) -> (r: Vec<u32>)
        ensures
            r@.len() == self.samples().len(),
            forall|i: int|
                0 <= i < r@.len() ==> #[trigger] r@[i] == self.samples()[i].amplitude,
    {
        let mut r: Vec<u32> = Vec::new();
        let mut i: usize = 0;
        while i < self.samples.len()
            invariant
                i <= self.samples@.len(),
                r@.len() == i,
                forall|k: int| 0 <= k < i ==> #[trigger] r@[k] == self.samples@[k].amplitude,
            decreases self.samples@.len() - i,
        {
            r.push(self.samples[i].amplitude);
            i = i + 1;
        }
        r
    }

    /// The absolute time at `num / den` of the way through the window,
    /// rounded down: a fraction of 0 gives the window's start and a fraction
    /// of 1 its end.
    pub fn get_absolute_time_by_relative_progress(&self, num: u64, den: u64) -> (r: AudioTime)
        requires
            0 < den,
            num <= den,
        ensures
            r.micros == time_at_progress(self.start_time(), self.end_time(), num as nat, den as nat),
            self.start_time() <= r.micros <= self.end_time(),
    {
        proof {
            use_type_invariant(self);
        }
        let span: u64 = self.end.micros - self.start.micros;
        proof {
            lemma_mul_inequality(num as int, den as int, span as int);
            lemma_mul_inequality(num as int, u64::MAX as int, span as int);
            lemma_mul_inequality(span as int, u64::MAX as int, u64::MAX as int);
            assert(span * num == num * span) by (nonlinear_arith);
            assert(span * den == den * span) by (nonlinear_arith);
            lemma_div_is_ordered((span * num) as int, (span * den) as int, den as int);
            lemma_div_by_multiple(span as int, den as int);
        }
        let offset: u128 = (span as u128) * (num as u128) / (den as u128);
        AudioTime { micros: self.start.micros + offset as u64 }
    }
}

/// An excerpt around one boundary, with the track that ends there (if any)
/// and the track that starts there (if any).
pub struct NamedExcerpt {
    pub excerpt: Excerpt,
    pub song_before: Option<Song>,
    pub song_after: Option<Song>,
}

impl NamedExcerpt {
    pub fn new(excerpt: Excerpt, song_before: Option<Song>, song_after: Option<Song>) -> (r:
        NamedExcerpt)
        ensures
            r.excerpt == excerpt,
            r.song_before == song_before,
            r.song_after == song_after,
    {
        NamedExcerpt { excerpt, song_before, song_after }
    }
}

} // verus!
