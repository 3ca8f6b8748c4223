use vstd::prelude::*;
use vstd::arithmetic::div_mod::lemma_div_is_ordered;
use vstd::arithmetic::mul::lemma_mul_inequality;
use crate::audio_time::AudioTime;
use crate::excerpt::{time_at_progress, EnvelopeSample, NamedExcerpt};
use crate::song::Song;

verus! {

/// The horizontal extent of the area in which an excerpt is shown, in the
/// display's own integer units.
#[derive(Clone, Copy, Debug, PartialEq, Eq, Structural)]
pub struct DisplayRect {
    pub min_x: i32,
    pub max_x: i32,
}

/// The colour in which a stretch of envelope is drawn.
#[derive(Clone, Copy, Debug, PartialEq, Eq, Structural)]
pub enum LineColor {
    /// The adjacent track has been extracted.
    Cut,
    /// The adjacent track is still waiting to be extracted.
    Uncut,
}

/// The progress fraction `(num, den)` through the plot area that a pointer
/// at `x` stands for, held to `[0, 1]`. The plot area leaves a left margin
/// of 8.88% of the display's half width and is 1/1.1 of the display's width
/// wide, so with `w` the width and `d` the pointer's distance from the left
/// edge the progress is `(d - 0.0888 * w / 2) / (w / 1.1)`. Progress 0 is at
/// the left margin, progress 1 at the right end of the plot area. An empty
/// rectangle gives 0.
pub open spec fn pointer_progress(x: int, min_x: int, max_x: int) -> (int, int) {
    let w = max_x - min_x;
    if w <= 0 {
        (0, 1)
    } else {
        let den = 200000 * w;
        let raw = (20000 * (x - min_x) - 888 * w) * 11;
        (
            if raw < 0 {
                0
            } else if raw > den {
                den
            } else {
                raw
            },
            den,
        )
    }
}

/// The time in the excerpt window `[start, end]` that a pointer at `x` in
/// `rect` points at.
pub open spec fn pointer_time(start: nat, end: nat, x: int, rect: DisplayRect) -> int {
    let p = pointer_progress(x, rect.min_x as int, rect.max_x as int);
    time_at_progress(start, end, p.0 as nat, p.1 as nat)
}

/// Whether `x` lies at or left of the left margin of the plot area.
pub open spec fn within_left_margin(x: int, rect: DisplayRect) -> bool {
    20000 * (x - rect.min_x) <= 888 * (rect.max_x - rect.min_x)
}

/// Whether a sample is drawn before the cut.
pub open spec fn before_cut(cut: AudioTime) -> spec_fn(EnvelopeSample) -> bool {
    |s: EnvelopeSample| s.time.micros < cut.micros
}

/// Whether a sample is drawn after the cut.
pub open spec fn after_cut(cut: AudioTime) -> spec_fn(EnvelopeSample) -> bool {
    |s: EnvelopeSample| s.time.micros >= cut.micros
}

/// The finished flag for one side of a boundary after `song` was extracted:
/// it turns true when `song` is the neighbour on that side, and stays true.
pub open spec fn marked(finished: bool, neighbour: Option<Song>, song: Song) -> bool {
    finished || (neighbour is Some && neighbour->Some_0.same_as(&song))
}

/// Where the cut goes in an update: with a drag or a marker request, the
/// pointer's position if there is one, else the requested marker position.
pub open spec fn chosen_position(dragged: bool, pointer_x: Option<i32>, move_marker: Option<i32>) -> Option<i32> {
    if dragged || move_marker is Some {
        if pointer_x is Some {
            pointer_x
        } else {
            move_marker
        }
    } else {
        None
    }
}

/// Moving the pointer right never moves the time it points at earlier.
pub proof fn lemma_pointer_time_monotone(start: nat, end: nat, rect: DisplayRect, x1: int, x2: int)
    requires
        start <= end,
        x1 <= x2,
    ensures
        pointer_time(start, end, x1, rect) <= pointer_time(start, end, x2, rect),
{
    let p1 = pointer_progress(x1, rect.min_x as int, rect.max_x as int);
    let p2 = pointer_progress(x2, rect.min_x as int, rect.max_x as int);
    let span = end - start;
    assert(p1.0 <= p2.0);
    lemma_mul_inequality(p1.0, p2.0, span);
    assert(span * p1.0 == p1.0 * span && span * p2.0 == p2.0 * span) by (nonlinear_arith);
    lemma_div_is_ordered(span * p1.0, span * p2.0, p1.1);
}

/// A pointer at or left of the plot area's left margin points at the
/// excerpt's start, and one at the rectangle's right edge at its end.
pub proof fn lemma_pointer_time_edges(start: nat, end: nat, rect: DisplayRect, x: int)
    requires
        start <= end,
        rect.min_x < rect.max_x,
    ensures
        within_left_margin(x, rect) ==> pointer_time(start, end, x, rect) == start,
        pointer_time(start, end, rect.max_x as int, rect) == end,
{
    let den = 200000 * (rect.max_x - rect.min_x);
    let span = end - start;
    assert(span * den / den == span) by (nonlinear_arith)
        requires
            den > 0,
    ;
    assert(span * 0 / den == 0) by (nonlinear_arith)
        requires
            den > 0,
    ;
}

/// The envelope split at the cut is a partition. Each sample lands
/// in exactly one of the two parts, the part before the cut holds only
/// samples earlier than the cut, and the part after it only the others.
pub proof fn lemma_partition_envelope(samples: Seq<EnvelopeSample>, cut: AudioTime)
    ensures
        samples.filter(before_cut(cut)).to_multiset().add(samples.filter(after_cut(cut)).to_multiset())
            =~= samples.to_multiset(),
        samples.filter(before_cut(cut)).len() + samples.filter(after_cut(cut)).len()
            == samples.len(),
        forall|i: int|
            0 <= i < samples.filter(before_cut(cut)).len() ==> (#[trigger] samples.filter(
                before_cut(cut),
            )[i]).time.micros < cut.micros,
        forall|i: int|
            0 <= i < samples.filter(after_cut(cut)).len() ==> (#[trigger] samples.filter(
                after_cut(cut),
            )[i]).time.micros >= cut.micros,
    decreases samples.len(),
{
    broadcast use vstd::seq_lib::group_to_multiset_ensures;

    reveal(Seq::filter);
    if samples.len() > 0 {
        let rest = samples.drop_last();
        lemma_partition_envelope(rest, cut);
        assert(samples =~= rest.push(samples.last()));
    }
    samples.filter_lemma(before_cut(cut));
    samples.filter_lemma(after_cut(cut));
}

/// The editing state of one candidate boundary: its excerpt, where the cut
/// currently stands, which neighbouring tracks have been extracted, and an
/// optional playback marker that is only shown.
pub struct ExcerptPlot {
    pub excerpt: NamedExcerpt,
    pub cut_time: AudioTime,
    pub finished_cutting_song_before: bool,
    pub finished_cutting_song_after: bool,
    pub playback_marker: Option<AudioTime>,
}

impl ExcerptPlot {
    pub fn new(excerpt: NamedExcerpt, cut_time: AudioTime) -> (r: ExcerptPlot)
        ensures
            r.excerpt == excerpt,
            r.cut_time == cut_time,
            !r.finished_cutting_song_before,
            !r.finished_cutting_song_after,
            r.playback_marker is None,
    {
        ExcerptPlot {
            excerpt,
            cut_time,
            finished_cutting_song_before: false,
            finished_cutting_song_after: false,
            playback_marker: None,
        }
    }

    /// Splits the envelope at the cut: the samples before it and the
    /// samples at or after it, each in the order of the envelope.
    pub fn get_lines(&self) -> (r: (Vec<EnvelopeSample>, Vec<EnvelopeSample>))
        ensures
            r.0@ == self.excerpt.excerpt.samples().filter(before_cut(self.cut_time)),
            r.1@ == self.excerpt.excerpt.samples().filter(after_cut(self.cut_time)),
    {
        let samples = self.excerpt.excerpt.samples_ref();
        let ghost s = samples@;
        let mut before: Vec<EnvelopeSample> = Vec::new();
        let mut after: Vec<EnvelopeSample> = Vec::new();
        let mut i: usize = 0;
        proof {
            reveal(Seq::filter);
            assert(s.take(0) =~= Seq::<EnvelopeSample>::empty());
        }
        while i < samples.len()
            invariant
                s == samples@,
                i <= s.len(),
                before@ == s.take(i as int).filter(before_cut(self.cut_time)),
                after@ == s.take(i as int).filter(after_cut(self.cut_time)),
            decreases s.len() - i,
        {
            let sample = samples[i];
            proof {
                reveal(Seq::filter);
                assert(s.take(i + 1).drop_last() =~= s.take(i as int));
            }
            if sample.time.micros < self.cut_time.micros {
                before.push(sample);
            } else {
                after.push(sample);
            }
            i = i + 1;
        }
        proof {
            assert(s.take(s.len() as int) =~= s);
        }
        (before, after)
    }

    pub fn get_line_color(&self, finished_cutting: bool) -> (r: LineColor)
        ensures
            r == (if finished_cutting {
                LineColor::Cut
            } else {
                LineColor::Uncut
            }),
    {
        if finished_cutting {
            LineColor::Cut
        } else {
            LineColor::Uncut
        }
    }

    /// The time that a pointer at `click_pos_x` inside `rect` points at.
    pub fn get_audio_time_from_click_pos(&self, click_pos_x: i32, rect: DisplayRect) -> (r:
        AudioTime)
        ensures
            r.micros == pointer_time(
                self.excerpt.excerpt.start_time(),
                self.excerpt.excerpt.end_time(),
                click_pos_x as int,
                rect,
            ),
    {
        let w: i64 = rect.max_x as i64 - rect.min_x as i64;
        if w <= 0 {
            return self.excerpt.excerpt.get_absolute_time_by_relative_progress(0, 1);
        }
        let den: i64 = 200000 * w;
        let raw: i64 = (20000 * (click_pos_x as i64 - rect.min_x as i64) - 888 * w) * 11;
        let num: i64 = if raw < 0 {
            0
        } else if raw > den {
            den
        } else {
            raw
        };
        self.excerpt.excerpt.get_absolute_time_by_relative_progress(num as u64, den as u64)
    }

    pub fn set_cut_time(&mut self, new_time: AudioTime)
        ensures
            final(self).cut_time == new_time,
            final(self).excerpt == old(self).excerpt,
            final(self).finished_cutting_song_before == old(self).finished_cutting_song_before,
            final(self).finished_cutting_song_after == old(self).finished_cutting_song_after,
            final(self).playback_marker == old(self).playback_marker,
    {
        self.cut_time = new_time;
    }

    pub fn show_playback_marker_at(&mut self, audio_time: AudioTime)
        ensures
            final(self).playback_marker == Some(audio_time),
            final(self).excerpt == old(self).excerpt,
            final(self).cut_time == old(self).cut_time,
            final(self).finished_cutting_song_before == old(self).finished_cutting_song_before,
            final(self).finished_cutting_song_after == old(self).finished_cutting_song_after,
    {
        self.playback_marker = Some(audio_time);
    }

    pub fn hide_playback_marker(&mut self)
        ensures
            final(self).playback_marker is None,
            final(self).excerpt == old(self).excerpt,
            final(self).cut_time == old(self).cut_time,
            final(self).finished_cutting_song_before == old(self).finished_cutting_song_before,
            final(self).finished_cutting_song_after == old(self).finished_cutting_song_after,
    {
        self.playback_marker = None;
    }

    /// Records that `song` has been extracted: the flag of each side whose
    /// neighbour is `song` turns true; no flag ever turns false.
    pub fn mark_cut(&mut self, song: &Song)
        ensures
            final(self).finished_cutting_song_before == marked(
                old(self).finished_cutting_song_before,
                old(self).excerpt.song_before,
                *song,
            ),
            final(self).finished_cutting_song_after == marked(
                old(self).finished_cutting_song_after,
                old(self).excerpt.song_after,
                *song,
            ),
            final(self).excerpt == old(self).excerpt,
            final(self).cut_time == old(self).cut_time,
            final(self).playback_marker == old(self).playback_marker,
    {
        if let Some(ref song_before) = self.excerpt.song_before {
            if *song_before == *song {
                self.finished_cutting_song_before = true;
            }
        }
        if let Some(ref song_after) = self.excerpt.song_after {
            if *song_after == *song {
                self.finished_cutting_song_after = true;
            }
        }
    }

    /// Applies one update of pointer input: with a drag or a request to
    /// move the marker, the cut moves to the time under the chosen position.
    pub fn update_from_input(
        &mut self,
        dragged: bool,
        pointer_x: Option<i32>,
        move_marker: Option<i32>,
        rect: DisplayRect,
    )
        ensures
            chosen_position(dragged, pointer_x, move_marker) is Some ==> final(self).cut_time.micros
                == pointer_time(
                old(self).excerpt.excerpt.start_time(),
                old(self).excerpt.excerpt.end_time(),
                chosen_position(dragged, pointer_x, move_marker)->Some_0 as int,
                rect,
            ),
            chosen_position(dragged, pointer_x, move_marker) is None ==> final(self).cut_time
                == old(self).cut_time,
            final(self).excerpt == old(self).excerpt,
            final(self).finished_cutting_song_before == old(self).finished_cutting_song_before,
            final(self).finished_cutting_song_after == old(self).finished_cutting_song_after,
            final(self).playback_marker == old(self).playback_marker,
    {
        if dragged || move_marker.is_some() {
            let pos = match pointer_x {
                Some(x) => Some(x),
                None => move_marker,
            };
            if let Some(x) = pos {
                self.cut_time = self.get_audio_time_from_click_pos(x, rect);
            }
        }
    }
}

/// Marking the same track finished twice leaves the flags as marking it
/// once did, and a flag that is set stays set.
pub proof fn lemma_mark_cut_idempotent(finished: bool, neighbour: Option<Song>, song: Song)
    ensures
        marked(marked(finished, neighbour, song), neighbour, song) == marked(
            finished,
            neighbour,
            song,
        ),
        finished ==> marked(finished, neighbour, song),
        neighbour == Some(song) ==> marked(finished, neighbour, song),
{
}

} // verus!
