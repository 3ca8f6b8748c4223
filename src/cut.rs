use vstd::prelude::*;
use crate::audio_time::AudioTime;
use crate::recording_session::RecordingSession;
use crate::song::Song;

verus! {

/// Why a session cannot be cut. Each is found before any extraction starts.
#[derive(Clone, Copy, Debug, PartialEq, Eq, Structural)]
pub enum SessionError {
    /// The session holds no timestamp, so there is no point to start from.
    NoTimestamps,
    /// The session holds no track.
    NoSongs,
    /// The start offset plus the track lengths do not fit in a time value.
    LengthOverflow,
    /// Two consecutive timestamps used as boundaries go backwards.
    UnorderedTimestamps,
}

/// How the windows of a session's tracks are found.
#[derive(Clone, Copy, Debug, PartialEq, Eq, Structural)]
pub enum CutPolicy {
    /// The first track starts at the first timestamp and each track lasts
    /// its own length.
    TrackLengths,
    /// Track `i` lies between timestamps `i` and `i + 1`, both shifted later
    /// by the given offset in microseconds.
    Timestamps(u64),
}

/// One extraction to perform: the window `[start, end)` of the recording at
/// `source_file` becomes the file of `song`.
#[derive(Debug)]
pub struct ExtractionJob {
    pub source_file: String,
    pub song: Song,
    pub start: AudioTime,
    pub end: AudioTime,
}

/// Sum of the lengths of `songs`, in microseconds.
pub open spec fn total_length(songs: Seq<Song>) -> nat
    decreases songs.len(),
{
    if songs.len() == 0 {
        0
    } else {
        total_length(songs.drop_last()) + songs.last().length as nat
    }
}

/// Where the window of track `i` starts, when the first track starts at `t0`.
pub open spec fn window_start(t0: nat, songs: Seq<Song>, i: int) -> nat {
    t0 + total_length(songs.take(i))
}

/// Where the window of track `i` ends, when the first track starts at `t0`.
pub open spec fn window_end(t0: nat, songs: Seq<Song>, i: int) -> nat {
    window_start(t0, songs, i + 1)
}

/// The offset at which cutting of `session` starts.
pub open spec fn cut_origin(session: RecordingSession) -> nat {
    session.timestamps@[0].micros as nat
}

/// `job` is the extraction of track `i` of `session`.
pub open spec fn is_job_of(job: ExtractionJob, session: RecordingSession, i: int) -> bool {
    &&& job.source_file@ == session.buffer_file@
    &&& job.song == session.songs@[i]
    &&& job.start.micros == window_start(cut_origin(session), session.songs@, i)
    &&& job.end.micros == window_end(cut_origin(session), session.songs@, i)
}

/// What cutting `session` by accumulated track lengths yields: the error,
/// when the session is invalid, or one job for each track, in order.
pub open spec fn cut_result(session: RecordingSession, r: Result<Vec<ExtractionJob>, SessionError>) -> bool {
    if session.timestamps@.len() == 0 {
        r == Err::<Vec<ExtractionJob>, SessionError>(SessionError::NoTimestamps)
    } else if session.songs@.len() == 0 {
        r == Err::<Vec<ExtractionJob>, SessionError>(SessionError::NoSongs)
    } else if cut_origin(session) + total_length(session.songs@) > u64::MAX {
        r == Err::<Vec<ExtractionJob>, SessionError>(SessionError::LengthOverflow)
    } else {
        &&& r is Ok
        &&& r->Ok_0@.len() == session.songs@.len()
        &&& forall|i: int|
            0 <= i < session.songs@.len() ==> #[trigger] is_job_of(r->Ok_0@[i], session, i)
    }
}

proof fn lemma_total_take_step(songs: Seq<Song>, i: int)
    requires
        0 <= i < songs.len(),
    ensures
        total_length(songs.take(i + 1)) == total_length(songs.take(i)) + songs[i].length,
{
    assert(songs.take(i + 1).drop_last() =~= songs.take(i));
}

proof fn lemma_total_take_monotone(songs: Seq<Song>, i: int, j: int)
    requires
        0 <= i <= j <= songs.len(),
    ensures
        total_length(songs.take(i)) <= total_length(songs.take(j)),
    decreases j - i,
{
    if i < j {
        lemma_total_take_step(songs, j - 1);
        lemma_total_take_monotone(songs, i, j - 1);
    }
}

/// The windows of consecutive tracks tile the recording from `t0` on: each
/// window starts where the one before it ends, no two windows overlap, the
/// first starts at `t0` and the last ends at `t0` plus the sum of all track
/// lengths.
pub proof fn lemma_windows_tile(t0: nat, songs: Seq<Song>)
    requires
        songs.len() > 0,
    ensures
        window_start(t0, songs, 0) == t0,
        window_end(t0, songs, songs.len() - 1) == t0 + total_length(songs),
        forall|i: int|
            0 <= i < songs.len() ==> window_end(t0, songs, i) == window_start(t0, songs, i)
                + songs[i].length,
        forall|i: int|
            0 <= i < songs.len() - 1 ==> #[trigger] window_end(t0, songs, i) == window_start(
                t0,
                songs,
                i + 1,
            ),
        forall|i: int, j: int|
            0 <= i < j < songs.len() ==> #[trigger] window_end(t0, songs, i)
                <= #[trigger] window_start(t0, songs, j),
{
    assert(songs.take(0) =~= Seq::<Song>::empty());
    assert(songs.take(songs.len() as int) =~= songs);
    assert forall|i: int|
        0 <= i < songs.len() implies window_end(t0, songs, i) == window_start(t0, songs, i)
            + songs[i].length by {
        lemma_total_take_step(songs, i);
    }
    assert forall|i: int, j: int|
        0 <= i < j < songs.len() implies #[trigger] window_end(t0, songs, i)
            <= #[trigger] window_start(t0, songs, j) by {
        lemma_total_take_monotone(songs, i + 1, j);
    }
}

/// The extraction of `song` over `[start, end)` of the recording at `source_file`.
pub fn cut_song(source_file: &String, song: &Song, start: AudioTime, end: AudioTime) -> (r:
    ExtractionJob)
    requires
        start.micros <= end.micros,
    ensures
        r.source_file@ == source_file@,
        r.song == *song,
        r.start == start,
        r.end == end,
{
    ExtractionJob { source_file: source_file.clone(), song: song.clone(), start, end }
}

/// Cuts `session` by accumulated track lengths: the first track starts at
/// the first timestamp and each next track starts where the one before ends.
pub fn cut_session_lengths(session: RecordingSession) -> (r: Result<Vec<ExtractionJob>, SessionError>)
    ensures
        cut_result(session, r),
{
    if session.timestamps.len() == 0 {
        return Err(SessionError::NoTimestamps);
    }
    if session.songs.len() == 0 {
        return Err(SessionError::NoSongs);
    }
    let ghost t0 = cut_origin(session);
    let ghost songs = session.songs@;
    let mut start: u64 = session.timestamps[0].micros;
    let mut jobs: Vec<ExtractionJob> = Vec::new();
    let mut i: usize = 0;
    proof {
        assert(songs.take(0) =~= Seq::<Song>::empty());
    }
    while i < session.songs.len()
        invariant
            0 < session.timestamps@.len(),
            t0 == cut_origin(session),
            songs == session.songs@,
            i <= songs.len(),
            start == window_start(t0, songs, i as int),
            jobs@.len() == i,
            forall|k: int| 0 <= k < i ==> #[trigger] is_job_of(jobs@[k], session, k),
        decreases songs.len() - i,
    {
        let song = &session.songs[i];
        proof {
            lemma_total_take_step(songs, i as int);
        }
        if song.length > u64::MAX - start {
            proof {
                lemma_total_take_monotone(songs, i as int + 1, songs.len() as int);
                assert(songs.take(songs.len() as int) =~= songs);
            }
            return Err(SessionError::LengthOverflow);
        }
        let end: u64 = start + song.length;
        let job = cut_song(
            &session.buffer_file,
            song,
            AudioTime { micros: start },
            AudioTime { micros: end },
        );
        jobs.push(job);
        start = end;
        i = i + 1;
    }
    proof {
        assert(songs.take(songs.len() as int) =~= songs);
    }
    Ok(jobs)
}

/// How many tracks the timestamp policy cuts: one per pair of consecutive
/// timestamps, and no more than there are tracks.
pub open spec fn timestamp_job_count(session: RecordingSession) -> int {
    let pairs = session.timestamps@.len() - 1;
    if pairs < session.songs@.len() {
        pairs
    } else {
        session.songs@.len() as int
    }
}

/// The boundaries that the timestamp policy uses go forwards.
pub open spec fn timestamps_ordered(session: RecordingSession) -> bool {
    forall|i: int|
        0 <= i < timestamp_job_count(session) ==> #[trigger] session.timestamps@[i].micros
            <= session.timestamps@[i + 1].micros
}

/// Some boundary that the timestamp policy uses, shifted by `offset`, does
/// not fit in a time value.
pub open spec fn timestamps_overflow(session: RecordingSession, offset: nat) -> bool {
    exists|i: int|
        0 <= i <= timestamp_job_count(session) && #[trigger] session.timestamps@[i].micros
            + offset > u64::MAX
}

/// `job` is the extraction of track `i` of `session` under the timestamp policy.
pub open spec fn is_timestamp_job_of(
    job: ExtractionJob,
    session: RecordingSession,
    offset: nat,
    i: int,
) -> bool {
    &&& job.source_file@ == session.buffer_file@
    &&& job.song == session.songs@[i]
    &&& job.start.micros == session.timestamps@[i].micros + offset
    &&& job.end.micros == session.timestamps@[i + 1].micros + offset
}

/// What cutting `session` between consecutive timestamps shifted by `offset` yields.
pub open spec fn timestamp_cut_result(
    session: RecordingSession,
    offset: nat,
    r: Result<Vec<ExtractionJob>, SessionError>,
) -> bool {
    if session.timestamps@.len() == 0 {
        r == Err::<Vec<ExtractionJob>, SessionError>(SessionError::NoTimestamps)
    } else if session.songs@.len() == 0 {
        r == Err::<Vec<ExtractionJob>, SessionError>(SessionError::NoSongs)
    } else if !timestamps_ordered(session) {
        r == Err::<Vec<ExtractionJob>, SessionError>(SessionError::UnorderedTimestamps)
    } else if timestamps_overflow(session, offset) {
        r == Err::<Vec<ExtractionJob>, SessionError>(SessionError::LengthOverflow)
    } else {
        &&& r is Ok
        &&& r->Ok_0@.len() == timestamp_job_count(session)
        &&& forall|i: int|
            0 <= i < timestamp_job_count(session) ==> #[trigger] is_timestamp_job_of(
                r->Ok_0@[i],
                session,
                offset,
                i,
            )
    }
}

/// Cuts `session` between consecutive timestamps, each shifted later by
/// `offset` microseconds: track `i` lies between timestamps `i` and `i + 1`.
/// Tracks without a closing timestamp, and timestamps without a track, are
/// left out.
pub fn cut_session_timestamps(session: RecordingSession, offset: u64) -> (r: Result<
    Vec<ExtractionJob>,
    SessionError,
>)
    ensures
        timestamp_cut_result(session, offset as nat, r),
{
    if session.timestamps.len() == 0 {
        return Err(SessionError::NoTimestamps);
    }
    if session.songs.len() == 0 {
        return Err(SessionError::NoSongs);
    }
    let count: usize = if session.timestamps.len() - 1 < session.songs.len() {
        session.timestamps.len() - 1
    } else {
        session.songs.len()
    };
    let mut i: usize = 0;
    while i < count
        invariant
            count == timestamp_job_count(session),
            count < session.timestamps@.len(),
            i <= count,
            forall|k: int|
                0 <= k < i ==> #[trigger] session.timestamps@[k].micros
                    <= session.timestamps@[k + 1].micros,
        decreases count - i,
    {
        if session.timestamps[i].micros > session.timestamps[i + 1].micros {
            return Err(SessionError::UnorderedTimestamps);
        }
        i = i + 1;
    }
    let mut jobs: Vec<ExtractionJob> = Vec::new();
    if session.timestamps[0].micros > u64::MAX - offset {
        return Err(SessionError::LengthOverflow);
    }
    i = 0;
    while i < count
        invariant
            count == timestamp_job_count(session),
            count < session.timestamps@.len(),
            count <= session.songs@.len(),
            timestamps_ordered(session),
            i <= count,
            jobs@.len() == i,
            forall|k: int|
                0 <= k <= i ==> #[trigger] session.timestamps@[k].micros + offset <= u64::MAX,
            forall|k: int|
                0 <= k < i ==> #[trigger] is_timestamp_job_of(jobs@[k], session, offset as nat, k),
        decreases count - i,
    {
        if session.timestamps[i + 1].micros > u64::MAX - offset {
            return Err(SessionError::LengthOverflow);
        }
        let start = AudioTime { micros: session.timestamps[i].micros + offset };
        let end = AudioTime { micros: session.timestamps[i + 1].micros + offset };
        let job = cut_song(&session.buffer_file, &session.songs[i], start, end);
        jobs.push(job);
        i = i + 1;
    }
    Ok(jobs)
}

/// Cuts `session` by the given policy.
pub fn cut_session_by(session: RecordingSession, policy: CutPolicy) -> (r: Result<
    Vec<ExtractionJob>,
    SessionError,
>)
    ensures
        policy == CutPolicy::TrackLengths ==> cut_result(session, r),
        policy matches CutPolicy::Timestamps(offset) ==> timestamp_cut_result(
            session,
            offset as nat,
            r,
        ),
{
    match policy {
        CutPolicy::TrackLengths => cut_session_lengths(session),
        CutPolicy::Timestamps(offset) => cut_session_timestamps(session, offset),
    }
}

/// Cuts `session` into one extraction job per track, in track order.
pub fn cut_session(session: RecordingSession) -> (r: Result<Vec<ExtractionJob>, SessionError>)
    ensures
        cut_result(session, r),
{
    cut_session_lengths(session)
}

/// How one extraction went, as reported by whoever ran it.
#[derive(Clone, Copy, Debug, PartialEq, Eq, Structural)]
pub enum ExtractionOutcome {
    /// The extractor ran and succeeded.
    Finished,
    /// The extractor ran and failed; the session goes on with the next track.
    Failed,
    /// The destination could not be prepared or the extractor could not be
    /// started; the session stops.
    SetupFailed,
}

/// Runs the jobs of one session in order, one at a time: it hands out the
/// next job, takes back how it went, and decides whether to go on.
pub struct SessionCutter {
    jobs: Vec<ExtractionJob>,
    next: usize,
    failed: Vec<usize>,
    halted: bool,
}

impl SessionCutter {
    pub closed spec fn jobs(&self) -> Seq<ExtractionJob> {
        self.jobs@
    }

    /// How many jobs have been reported on.
    pub closed spec fn position(&self) -> nat {
        self.next as nat
    }

    /// The indices of the jobs whose extraction failed, in order.
    pub closed spec fn failures(&self) -> Seq<usize> {
        self.failed@
    }

    /// Whether a setup failure stopped the session.
    pub closed spec fn is_halted(&self) -> bool {
        self.halted
    }

    pub closed spec fn wf(&self) -> bool {
        &&& self.next <= self.jobs@.len()
        &&& forall|k: int| 0 <= k < self.failed@.len() ==> #[trigger] self.failed@[k] < self.next
        &&& forall|a: int, b: int|
            0 <= a < b < self.failed@.len() ==> self.failed@[a] < self.failed@[b]
    }

    /// Whether a job waits to be run.
    pub open spec fn is_pending(&self) -> bool {
        !self.is_halted() && self.position() < self.jobs().len()
    }

    pub fn new(jobs: Vec<ExtractionJob>) -> (r: SessionCutter)
        ensures
            r.wf(),
            r.jobs() == jobs@,
            r.position() == 0,
            r.failures().len() == 0,
            !r.is_halted(),
    {
        SessionCutter { jobs, next: 0, failed: Vec::new(), halted: false }
    }

    /// The job to run now, if any.
    pub fn next_job(&self) -> (r: Option<&ExtractionJob>)
        requires
            self.wf(),
        ensures
            r is Some <==> self.is_pending(),
            r is Some ==> *r->Some_0 == self.jobs()[self.position() as int],
    {
        if !self.halted && self.next < self.jobs.len() {
            Some(&self.jobs[self.next])
        } else {
            None
        }
    }

    /// Takes back how the pending job went: a finished or failed job moves
    /// the session on to the next track, a failed one is remembered, and a
    /// setup failure stops the session.
    pub fn record(&mut self, outcome: ExtractionOutcome)
        requires
            old(self).wf(),
            old(self).is_pending(),
        ensures
            final(self).wf(),
            final(self).jobs() == old(self).jobs(),
            outcome == ExtractionOutcome::Finished ==> {
                &&& final(self).position() == old(self).position() + 1
                &&& final(self).failures() == old(self).failures()
                &&& !final(self).is_halted()
            },
            outcome == ExtractionOutcome::Failed ==> {
                &&& final(self).position() == old(self).position() + 1
                &&& final(self).failures() == old(self).failures().push(
                    old(self).position() as usize,
                )
                &&& !final(self).is_halted()
            },
            outcome == ExtractionOutcome::SetupFailed ==> {
                &&& final(self).position() == old(self).position()
                &&& final(self).failures() == old(self).failures()
                &&& final(self).is_halted()
            },
    {
        let pending: usize = self.next;
        if pending < self.jobs.len() {
            match outcome {
                ExtractionOutcome::Finished => {
                    self.next = pending + 1;
                },
                ExtractionOutcome::Failed => {
                    self.failed.push(pending);
                    self.next = pending + 1;
                },
                ExtractionOutcome::SetupFailed => {
                    self.halted = true;
                },
            }
        }
    }

    /// Whether no job is left to run, because all ran or the session stopped.
    pub fn is_done(&self) -> (r: bool)
        requires
            self.wf(),
        ensures
            r == !self.is_pending(),
    {
        self.halted || self.next >= self.jobs.len()
    }

    /// Whether a setup failure stopped the session.
    pub fn halted(&self) -> (r: bool)
        ensures
            r == self.is_halted(),
    {
        self.halted
    }

    /// The indices of the jobs whose extraction failed, in order.
    pub fn failed_jobs(&self) -> (r: &Vec<usize>)
        ensures
            r@ == self.failures(),
    {
        &self.failed
    }
}

} // verus!
