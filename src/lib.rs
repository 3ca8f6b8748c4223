pub mod audio_time;
pub mod cut;
pub mod excerpt;
pub mod plot;
pub mod recording_session;
pub mod song;
