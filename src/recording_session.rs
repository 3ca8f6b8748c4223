use vstd::prelude::*;
use crate::audio_time::AudioTime;
use crate::song::Song;

verus! {

/// One continuous recording to be split: the path of the recording, the
/// known boundary timestamps (the first one is where cutting starts) and
/// the tracks in the order in which they were played.
#[derive(Debug)]
pub struct RecordingSession {
    pub buffer_file: String,
    pub timestamps: Vec<AudioTime>,
    pub songs: Vec<Song>,
}

impl RecordingSession {
    pub fn new(buffer_file: String, timestamps: Vec<AudioTime>, songs: Vec<Song>) -> (r:
        RecordingSession)
        ensures
            r.buffer_file@ == buffer_file@,
            r.timestamps@ == timestamps@,
            r.songs@ == songs@,
    {
        RecordingSession { buffer_file, timestamps, songs }
    }

    /// The path of the recording that every track is cut from.
    pub fn get_buffer_file(&self) -> (r: String)
        ensures
            r@ == self.buffer_file@,
    {
        self.buffer_file.clone()
    }
}

} // verus!
