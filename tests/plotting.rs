use set_splitter::audio_time::AudioTime;
use set_splitter::excerpt::{EnvelopeSample, Excerpt, NamedExcerpt};
use set_splitter::plot::{DisplayRect, ExcerptPlot, LineColor};
use set_splitter::song::Song;

fn sample(t: u64, a: u32) -> EnvelopeSample {
    EnvelopeSample { time: AudioTime::from_micros(t), amplitude: a }
}

fn song(title: &str) -> Song {
    Song::new(title.to_string(), format!("{}.mp3", title), 1000)
}

fn plot(samples: Vec<EnvelopeSample>, cut: u64) -> ExcerptPlot {
    let excerpt = Excerpt::new(
        AudioTime::from_micros(1_000_000),
        AudioTime::from_micros(3_000_000),
        samples,
    );
    ExcerptPlot::new(
        NamedExcerpt::new(excerpt, Some(song("before")), Some(song("after"))),
        AudioTime::from_micros(cut),
    )
}

const RECT: DisplayRect = DisplayRect { min_x: 0, max_x: 1100 };

#[test]
fn pointer_at_right_edge_gives_window_end() {
    let p = plot(vec![], 2_000_000);
    assert_eq!(p.get_audio_time_from_click_pos(1100, RECT).micros, 3_000_000);
    let r = DisplayRect { min_x: -37, max_x: 411 };
    assert_eq!(p.get_audio_time_from_click_pos(411, r).micros, 3_000_000);
}

#[test]
fn pointer_in_left_margin_gives_window_start() {
    let p = plot(vec![], 2_000_000);
    assert_eq!(p.get_audio_time_from_click_pos(48, RECT).micros, 1_000_000);
    assert_eq!(p.get_audio_time_from_click_pos(0, RECT).micros, 1_000_000);
    assert_eq!(p.get_audio_time_from_click_pos(-500, RECT).micros, 1_000_000);
}

#[test]
fn pointer_inside_plot_maps_linearly() {
    let p = plot(vec![], 2_000_000);
    // (600 - 48.84) / 1000 of the way through a two-second window
    assert_eq!(p.get_audio_time_from_click_pos(600, RECT).micros, 2_102_320);
}

#[test]
fn pointer_mapping_is_monotonic() {
    let p = plot(vec![], 2_000_000);
    let mut last = 0u64;
    for x in -50..1200 {
        let t = p.get_audio_time_from_click_pos(x, RECT).micros;
        assert!(t >= last);
        assert!((1_000_000..=3_000_000).contains(&t));
        last = t;
    }
}

#[test]
fn empty_rect_gives_window_start() {
    let p = plot(vec![], 2_000_000);
    let r = DisplayRect { min_x: 5, max_x: 5 };
    assert_eq!(p.get_audio_time_from_click_pos(10, r).micros, 1_000_000);
}

#[test]
fn progress_fraction_maps_onto_window() {
    let e = Excerpt::new(AudioTime::from_micros(100), AudioTime::from_micros(200), vec![]);
    assert_eq!(e.get_absolute_time_by_relative_progress(0, 7).micros, 100);
    assert_eq!(e.get_absolute_time_by_relative_progress(7, 7).micros, 200);
    assert_eq!(e.get_absolute_time_by_relative_progress(1, 3).micros, 133);
    assert_eq!(e.window_start().micros, 100);
    assert_eq!(e.window_end().micros, 200);
}

#[test]
fn envelope_accessors_keep_order() {
    let e = Excerpt::new(
        AudioTime::from_micros(0),
        AudioTime::from_micros(10),
        vec![sample(1, 5), sample(4, 9), sample(7, 2)],
    );
    let times: Vec<u64> = e.get_sample_times().iter().map(|t| t.micros).collect();
    assert_eq!(times, vec![1, 4, 7]);
    assert_eq!(e.get_volume_plot_data(), vec![5, 9, 2]);
}

#[test]
fn envelope_is_partitioned_at_the_cut() {
    let samples = vec![sample(5, 1), sample(1, 2), sample(3, 3), sample(9, 4), sample(3, 5)];
    let p = plot(samples.clone(), 3);
    let (before, after) = p.get_lines();
    assert_eq!(before, vec![sample(1, 2)]);
    assert_eq!(after, vec![sample(5, 1), sample(3, 3), sample(9, 4), sample(3, 5)]);
    assert_eq!(before.len() + after.len(), samples.len());
}

#[test]
fn empty_envelope_gives_empty_lines() {
    let (before, after) = plot(vec![], 3).get_lines();
    assert!(before.is_empty() && after.is_empty());
}

#[test]
fn mark_cut_twice_keeps_flag_set() {
    let mut p = plot(vec![], 2_000_000);
    p.mark_cut(&song("before"));
    assert!(p.finished_cutting_song_before);
    assert!(!p.finished_cutting_song_after);
    p.mark_cut(&song("before"));
    assert!(p.finished_cutting_song_before);
    assert!(!p.finished_cutting_song_after);
    p.mark_cut(&song("other"));
    assert!(p.finished_cutting_song_before);
    p.mark_cut(&song("after"));
    assert!(p.finished_cutting_song_after);
}

#[test]
fn mark_cut_without_neighbours_changes_nothing() {
    let excerpt = Excerpt::new(AudioTime::from_micros(0), AudioTime::from_micros(1), vec![]);
    let mut p = ExcerptPlot::new(NamedExcerpt::new(excerpt, None, None), AudioTime::from_micros(0));
    p.mark_cut(&song("a"));
    assert!(!p.finished_cutting_song_before && !p.finished_cutting_song_after);
}

#[test]
fn line_color_follows_finished_flag() {
    let p = plot(vec![], 0);
    assert_eq!(p.get_line_color(true), LineColor::Cut);
    assert_eq!(p.get_line_color(false), LineColor::Uncut);
}

#[test]
fn drag_to_right_edge_moves_cut_to_window_end() {
    let mut p = plot(vec![], 2_000_000);
    p.update_from_input(true, Some(1100), None, RECT);
    assert_eq!(p.cut_time.micros, 3_000_000);
}

#[test]
fn pointer_takes_precedence_over_marker_request() {
    let mut p = plot(vec![], 2_000_000);
    p.update_from_input(false, Some(0), Some(1100), RECT);
    assert_eq!(p.cut_time.micros, 1_000_000);
    p.update_from_input(false, None, Some(1100), RECT);
    assert_eq!(p.cut_time.micros, 3_000_000);
}

#[test]
fn no_drag_and_no_request_keeps_cut() {
    let mut p = plot(vec![], 2_000_000);
    p.update_from_input(false, Some(1100), None, RECT);
    assert_eq!(p.cut_time.micros, 2_000_000);
    p.update_from_input(true, None, None, RECT);
    assert_eq!(p.cut_time.micros, 2_000_000);
}

#[test]
fn set_cut_time_replaces_cut() {
    let mut p = plot(vec![], 2_000_000);
    p.set_cut_time(AudioTime::from_micros(7));
    assert_eq!(p.cut_time.micros, 7);
}

#[test]
fn playback_marker_is_shown_and_hidden() {
    let mut p = plot(vec![], 2_000_000);
    p.show_playback_marker_at(AudioTime::from_micros(1_500_000));
    assert_eq!(p.playback_marker, Some(AudioTime::from_micros(1_500_000)));
    assert_eq!(p.cut_time.micros, 2_000_000);
    p.hide_playback_marker();
    assert_eq!(p.playback_marker, None);
}
