use synapse::app::{App, SinkRequest, INITIAL_VOLUME, MAX_VOLUME};
use synapse::play_mode::PlayMode;

fn catalog(names: &[&str]) -> Vec<String> {
    names.iter().map(|s| s.to_string()).collect()
}

fn fresh(names: &[&str], sink_ready: bool) -> App {
    App::new(".".to_string(), catalog(names), sink_ready)
}

/// Drive the controller the way the polling loop would after a successful
/// track start: record a probed duration, then the accepted start.
fn confirm_start(app: &mut App, duration_ms: u64, now_ms: u64) {
    app.set_track_duration(Some(duration_ms));
    app.on_play_started(now_ms);
}

#[test]
fn new_controller_defaults() {
    let app = fresh(&["a.mp3", "b.mp3"], true);
    assert_eq!(app.playlist, vec![0, 1]);
    assert_eq!(app.current_track, 0);
    assert_eq!(app.playlist_position, 0);
    assert_eq!(app.selected_index, 0);
    assert_eq!(app.scroll_offset, 0);
    assert!(!app.is_playing);
    assert_eq!(app.play_mode, PlayMode::Normal);
    assert_eq!(app.current_song_duration, 0);
    assert_eq!(app.elapsed_time, 0);
    assert_eq!(app.volume, INITIAL_VOLUME);
    assert!(app.sink_ready);
}

#[test]
fn mode_cycle_is_closed() {
    let m = PlayMode::Normal;
    assert_eq!(m.next(), PlayMode::Shuffle);
    assert_eq!(m.next().next(), PlayMode::Repeat);
    assert_eq!(m.next().next().next(), PlayMode::RepeatOne);
    assert_eq!(m.next().next().next().next(), PlayMode::Normal);
}

#[test]
fn mode_icons() {
    assert_eq!(PlayMode::Normal.icon(), "→");
    assert_eq!(PlayMode::Shuffle.icon(), "🔀");
    assert_eq!(PlayMode::Repeat.icon(), "🔁");
    assert_eq!(PlayMode::RepeatOne.icon(), "🔁1");
}

#[test]
fn four_toggles_restore_mode_and_ascending_order() {
    let mut app = fresh(&["a.mp3", "b.mp3", "c.mp3", "d.mp3"], true);
    for _ in 0..4 {
        app.toggle_play_mode();
    }
    assert_eq!(app.play_mode, PlayMode::Normal);
    assert_eq!(app.playlist, vec![0, 1, 2, 3]);
    assert_eq!(app.playlist[app.playlist_position], app.current_track);
}

#[test]
fn playlist_stays_a_permutation_through_mode_changes() {
    let mut app = fresh(&["a.mp3", "b.mp3", "c.mp3", "d.mp3", "e.mp3"], true);
    for _ in 0..7 {
        app.toggle_play_mode();
        let mut sorted = app.playlist.clone();
        sorted.sort();
        assert_eq!(sorted, vec![0, 1, 2, 3, 4]);
        assert_eq!(app.playlist[app.playlist_position], app.current_track);
    }
}

#[test]
fn shuffle_relocates_cursor_to_active_track() {
    let mut app = fresh(&["a.mp3", "b.mp3", "c.mp3", "d.mp3", "e.mp3"], true);
    let r = app.next_track();
    assert_eq!(r, SinkRequest::Start { track: 1 });
    assert_eq!(app.current_track, 1);
    app.toggle_play_mode();
    assert_eq!(app.play_mode, PlayMode::Shuffle);
    assert_eq!(app.playlist[app.playlist_position], 1);
    assert_eq!(app.current_track, 1);
}

#[test]
fn advance_visits_all_and_wraps() {
    // catalog a, b, c in Normal mode starting at track 0: three advances
    // visit 1, 2 and wrap back to 0
    let mut app = fresh(&["a.mp3", "b.mp3", "c.mp3"], true);
    let r = app.next_track();
    assert_eq!(app.current_track, 1);
    assert_eq!(r, SinkRequest::Start { track: 1 });
    app.next_track();
    assert_eq!(app.current_track, 2);
    let r = app.next_track();
    assert_eq!(app.current_track, 0);
    assert_eq!(app.playlist_position, 0);
    assert_eq!(r, SinkRequest::Start { track: 0 });
}

#[test]
fn advance_len_times_returns_cursor_to_start() {
    for mode_steps in [0usize, 1, 2] {
        // Normal, Shuffle, Repeat — every mode but RepeatOne
        let mut app = fresh(&["a.mp3", "b.mp3", "c.mp3", "d.mp3"], true);
        for _ in 0..mode_steps {
            app.toggle_play_mode();
        }
        let start_slot = app.playlist_position;
        for _ in 0..app.playlist.len() {
            app.next_track();
        }
        assert_eq!(app.playlist_position, start_slot);
    }
}

#[test]
fn repeat_one_advance_never_moves_cursor() {
    let mut app = fresh(&["a.mp3", "b.mp3", "c.mp3"], true);
    app.next_track();
    for _ in 0..3 {
        app.toggle_play_mode();
    }
    assert_eq!(app.play_mode, PlayMode::RepeatOne);
    let slot = app.playlist_position;
    let track = app.current_track;
    for _ in 0..5 {
        let r = app.next_track();
        assert_eq!(r, SinkRequest::Start { track });
        assert_eq!(app.playlist_position, slot);
        assert_eq!(app.current_track, track);
    }
}

#[test]
fn retreat_wraps_to_last_slot() {
    let mut app = fresh(&["a.mp3", "b.mp3", "c.mp3"], true);
    let r = app.previous_track();
    assert_eq!(app.playlist_position, 2);
    assert_eq!(app.current_track, 2);
    assert_eq!(r, SinkRequest::Start { track: 2 });
    app.previous_track();
    assert_eq!(app.current_track, 1);
}

#[test]
fn seek_forward_near_end_advances_like_completion() {
    // elapsed = duration - 3 s with a 5 s step: advances, and elapsed is
    // never pushed past the duration
    let mut app = fresh(&["a.mp3", "b.mp3", "c.mp3"], true);
    confirm_start(&mut app, 10_000, 0);
    app.update_time(7_000);
    assert_eq!(app.elapsed_time, 7_000);
    let r = app.seek_forward();
    assert_eq!(r, SinkRequest::Start { track: 1 });
    assert_eq!(app.current_track, 1);
    assert!(app.elapsed_time <= app.current_song_duration);
    confirm_start(&mut app, 10_000, 7_100);
    assert_eq!(app.elapsed_time, 0);
}

#[test]
fn seek_forward_mid_track_moves_five_seconds() {
    let mut app = fresh(&["a.mp3"], true);
    confirm_start(&mut app, 60_000, 0);
    let r = app.seek_forward();
    assert_eq!(r, SinkRequest::Seek { position_ms: 5_000 });
    assert_eq!(app.elapsed_time, 5_000);
    assert_eq!(app.current_track, 0);
}

#[test]
fn seek_backward_floors_at_zero() {
    // elapsed = 2 s with a 5 s step: lands on 0, never negative
    let mut app = fresh(&["a.mp3"], true);
    confirm_start(&mut app, 60_000, 0);
    app.update_time(2_000);
    assert_eq!(app.elapsed_time, 2_000);
    let r = app.seek_backward();
    assert_eq!(r, SinkRequest::Seek { position_ms: 0 });
    assert_eq!(app.elapsed_time, 0);
}

#[test]
fn seek_backward_mid_track_moves_five_seconds() {
    let mut app = fresh(&["a.mp3"], true);
    confirm_start(&mut app, 60_000, 0);
    app.update_time(12_000);
    let r = app.seek_backward();
    assert_eq!(r, SinkRequest::Seek { position_ms: 7_000 });
    assert_eq!(app.elapsed_time, 7_000);
}

#[test]
fn volume_saturates_at_cap_and_floor() {
    let mut app = fresh(&["a.mp3"], true);
    assert_eq!(app.volume, 100);
    for _ in 0..50 {
        let r = app.volume_up();
        assert!(app.volume <= MAX_VOLUME);
        assert_eq!(r, SinkRequest::SetVolume { volume: app.volume });
    }
    assert_eq!(app.volume, 200);

    let mut app = fresh(&["a.mp3"], true);
    for _ in 0..50 {
        app.volume_down();
    }
    assert_eq!(app.volume, 0);
}

#[test]
fn volume_changes_even_without_sink() {
    let mut app = fresh(&["a.mp3"], false);
    let r = app.volume_up();
    assert_eq!(r, SinkRequest::Nothing);
    assert_eq!(app.volume, 105);
}

#[test]
fn toggle_playback_pauses_resumes_and_starts() {
    let mut app = fresh(&["a.mp3", "b.mp3"], true);
    // paused, sink empty: a start of the active track is requested
    let r = app.toggle_playback(false, 500);
    assert_eq!(r, SinkRequest::Start { track: 0 });
    assert!(app.is_playing);
    assert_eq!(app.last_update, 500);
    // playing: pause
    let r = app.toggle_playback(true, 600);
    assert_eq!(r, SinkRequest::Pause);
    assert!(!app.is_playing);
    // paused with a loaded track: resume, and the clock is re-stamped so
    // paused time does not count
    let r = app.toggle_playback(true, 9_000);
    assert_eq!(r, SinkRequest::Resume);
    assert!(app.is_playing);
    assert_eq!(app.last_update, 9_000);
}

#[test]
fn update_time_accumulates_only_while_playing() {
    let mut app = fresh(&["a.mp3"], true);
    confirm_start(&mut app, 60_000, 1_000);
    app.update_time(1_500);
    assert_eq!(app.elapsed_time, 500);
    app.update_time(2_000);
    assert_eq!(app.elapsed_time, 1_000);
    app.toggle_playback(true, 2_000);
    assert!(!app.is_playing);
    app.update_time(99_999);
    assert_eq!(app.elapsed_time, 1_000);
}

#[test]
fn repeat_one_completion_restarts_same_track() {
    // RepeatOne, active track 1, elapsed reaches the duration: the
    // completion check requests a restart of track 1 and the accepted start
    // resets the elapsed time
    let mut app = fresh(&["a.mp3", "b.mp3", "c.mp3"], true);
    app.next_song_in_list();
    let r = app.play_selected();
    assert_eq!(r, SinkRequest::Start { track: 1 });
    confirm_start(&mut app, 10_000, 0);
    for _ in 0..3 {
        app.toggle_play_mode();
    }
    assert_eq!(app.play_mode, PlayMode::RepeatOne);
    app.update_time(10_000);
    assert!(app.elapsed_time >= app.current_song_duration);
    let r = app.check_track_finished();
    assert_eq!(r, SinkRequest::Start { track: 1 });
    assert_eq!(app.current_track, 1);
    confirm_start(&mut app, 10_000, 10_050);
    assert_eq!(app.elapsed_time, 0);
    assert_eq!(app.current_track, 1);
}

#[test]
fn completion_in_normal_mode_moves_on() {
    let mut app = fresh(&["a.mp3", "b.mp3"], true);
    confirm_start(&mut app, 1_000, 0);
    app.update_time(1_000);
    let r = app.check_track_finished();
    assert_eq!(r, SinkRequest::Start { track: 1 });
    assert_eq!(app.current_track, 1);
}

#[test]
fn completion_check_does_nothing_mid_track() {
    let mut app = fresh(&["a.mp3", "b.mp3"], true);
    confirm_start(&mut app, 60_000, 0);
    app.update_time(30_000);
    let r = app.check_track_finished();
    assert_eq!(r, SinkRequest::Nothing);
    assert_eq!(app.current_track, 0);
}

#[test]
fn selection_moves_clamp_at_both_ends() {
    let mut app = fresh(&["a.mp3", "b.mp3", "c.mp3"], true);
    app.previous_song_in_list();
    assert_eq!(app.selected_index, 0);
    for _ in 0..10 {
        app.next_song_in_list();
    }
    assert_eq!(app.selected_index, 2);
    app.previous_song_in_list();
    assert_eq!(app.selected_index, 1);
    assert_eq!(app.current_track, 0);
}

#[test]
fn empty_catalog_makes_everything_a_no_op() {
    let mut app = fresh(&[], true);
    assert_eq!(app.playlist.len(), 0);
    assert_eq!(app.next_track(), SinkRequest::Nothing);
    assert_eq!(app.previous_track(), SinkRequest::Nothing);
    assert_eq!(app.play_selected(), SinkRequest::Nothing);
    assert_eq!(app.play_current(), SinkRequest::Nothing);
    assert_eq!(app.toggle_playback(false, 100), SinkRequest::Nothing);
    assert!(!app.is_playing);
    assert_eq!(app.seek_forward(), SinkRequest::Nothing);
    assert_eq!(app.check_track_finished(), SinkRequest::Nothing);
    app.next_song_in_list();
    app.previous_song_in_list();
    app.toggle_play_mode();
    assert_eq!(app.selected_index, 0);
    assert_eq!(app.current_track, 0);
    assert_eq!(app.playlist_position, 0);
    assert_eq!(app.play_mode, PlayMode::Shuffle);
}

#[test]
fn without_sink_playback_commands_are_no_ops() {
    let mut app = fresh(&["a.mp3", "b.mp3"], false);
    assert_eq!(app.toggle_playback(false, 100), SinkRequest::Nothing);
    assert!(!app.is_playing);
    assert_eq!(app.seek_forward(), SinkRequest::Nothing);
    assert_eq!(app.seek_backward(), SinkRequest::Nothing);
    assert_eq!(app.play_current(), SinkRequest::Nothing);
    assert_eq!(app.elapsed_time, 0);
}

#[test]
fn failed_probe_counts_as_zero_duration() {
    let mut app = fresh(&["a.mp3"], true);
    app.set_track_duration(Some(9_000));
    assert_eq!(app.current_song_duration, 9_000);
    app.set_track_duration(None);
    assert_eq!(app.current_song_duration, 0);
}

#[test]
fn play_selected_resyncs_cursor_by_value() {
    let mut app = fresh(&["a.mp3", "b.mp3", "c.mp3", "d.mp3"], true);
    app.next_song_in_list();
    app.next_song_in_list();
    app.next_song_in_list();
    let r = app.play_selected();
    assert_eq!(r, SinkRequest::Start { track: 3 });
    assert_eq!(app.current_track, 3);
    assert_eq!(app.playlist[app.playlist_position], 3);
}

#[test]
fn update_scroll_keeps_selection_visible() {
    let mut app = fresh(&["a.mp3", "b.mp3", "c.mp3", "d.mp3", "e.mp3", "f.mp3", "g.mp3"], true);
    for _ in 0..6 {
        app.next_song_in_list();
    }
    app.update_scroll(3);
    // selection on row 6, three visible rows: the viewport slides down just
    // far enough
    assert_eq!(app.scroll_offset, 4);
    for _ in 0..6 {
        app.previous_song_in_list();
    }
    app.update_scroll(3);
    assert_eq!(app.scroll_offset, 0);
    app.next_song_in_list();
    app.update_scroll(3);
    assert_eq!(app.scroll_offset, 0);
    app.update_scroll(0);
    assert_eq!(app.scroll_offset, 0);
}
