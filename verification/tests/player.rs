use rustwave::player::end_of_track_action;
use rustwave::player::AudioManager;
use rustwave::player::MediaStatus;
use rustwave::player::RepeatMode;
use rustwave::player::TrackEndAction;

fn loaded_manager(duration_ms: u64) -> AudioManager {
    let mut m = AudioManager::new();
    m.begin_stream_download(duration_ms);
    m.load_track(vec![1, 2, 3, 4], true).unwrap();
    m
}

#[test]
fn fresh_manager_is_stopped() {
    let m = AudioManager::new();
    assert!(m.is_empty());
    assert!(!m.is_paused());
    assert!(!m.has_track_ended());
    assert_eq!(m.media_status(), MediaStatus::Stopped);
    assert_eq!(m.current_track_data, None);
}

#[test]
fn load_track_starts_playing_from_zero() {
    let m = loaded_manager(200_000);
    assert!(!m.is_empty());
    assert!(!m.is_paused());
    assert!(!m.stream_loading);
    assert!(!m.pending_download);
    assert_eq!(m.track_position_ms, 0);
    assert_eq!(m.progress_centi_percent, 0);
    assert_eq!(m.current_track_data, Some(vec![1, 2, 3, 4]));
}

#[test]
fn track_has_not_ended_right_after_load() {
    let m = loaded_manager(200_000);
    assert!(!m.has_track_ended());
}

#[test]
fn failed_decode_leaves_sink_empty_and_is_recoverable() {
    let mut m = AudioManager::new();
    m.begin_stream_download(200_000);
    let r = m.load_track(vec![9, 9], false);
    assert!(r.is_err());
    assert!(m.is_empty());
    assert!(!m.pending_download);
    assert_eq!(m.current_track_data, Some(vec![9, 9]));
}

#[test]
fn track_ends_within_half_second_tolerance() {
    let mut m = loaded_manager(200_000);
    m.update_position(199_499);
    assert!(!m.has_track_ended());
    m.update_position(199_500);
    assert!(m.has_track_ended());
    m.update_position(200_000);
    assert!(m.has_track_ended());
}

#[test]
fn pending_download_suppresses_end_signal() {
    let mut m = loaded_manager(200_000);
    m.update_position(200_000);
    assert!(m.should_signal_track_end());
    m.begin_stream_download(180_000);
    assert!(!m.should_signal_track_end());
}

#[test]
fn toggle_pauses_and_resumes_and_mirrors_to_os() {
    let mut m = loaded_manager(200_000);
    m.update_position(5_000);
    m.toggle_play_pause();
    assert!(m.is_paused());
    assert_eq!(m.media_status(), MediaStatus::Paused(5_000));
    m.toggle_play_pause();
    assert!(!m.is_paused());
    assert_eq!(m.media_status(), MediaStatus::Playing(5_000));
}

#[test]
fn toggle_on_empty_sink_is_a_noop() {
    let mut m = AudioManager::new();
    m.toggle_play_pause();
    assert!(m.is_empty());
    assert_eq!(m.media_status(), MediaStatus::Stopped);
}

#[test]
fn play_and_pause_are_idempotent() {
    let mut m = loaded_manager(200_000);
    m.play();
    assert!(!m.is_paused());
    m.pause();
    assert!(m.is_paused());
    m.pause();
    assert!(m.is_paused());
    m.play();
    assert!(!m.is_paused());
    m.play();
    assert!(!m.is_paused());
}

#[test]
fn seek_forward_targets_current_plus_amount() {
    let m = loaded_manager(200_000);
    assert_eq!(m.seek_forward(30_000, 10_000), Some(40_000));
}

#[test]
fn seek_forward_on_empty_sink_is_none() {
    let m = AudioManager::new();
    assert_eq!(m.seek_forward(30_000, 10_000), None);
}

#[test]
fn direct_backward_seek_updates_position() {
    let mut m = loaded_manager(200_000);
    let ok = m.seek_backward(30_000, 10_000, true, false, false);
    assert!(ok);
    assert_eq!(m.track_position_ms, 20_000);
}

#[test]
fn scenario_backward_seek_recovery_restores_paused_state() {
    // The live sink rejects the backward seek; the retained bytes are
    // re-decoded, the fresh source is forward-seeked to
    // max(0, old_position - 10s), and the paused state survives.
    let mut m = loaded_manager(200_000);
    m.pause();
    assert!(m.is_paused());
    let ok = m.seek_backward(30_000, 10_000, false, true, true);
    assert!(ok);
    assert_eq!(m.track_position_ms, 30_000 - 10_000);
    assert!(m.is_paused());
    assert!(!m.is_empty());
}

#[test]
fn backward_seek_recovery_keeps_playing_state_too() {
    let mut m = loaded_manager(200_000);
    assert!(!m.is_paused());
    let ok = m.seek_backward(30_000, 10_000, false, true, true);
    assert!(ok);
    assert!(!m.is_paused());
}

#[test]
fn backward_seek_past_start_lands_on_zero_without_fresh_seek() {
    let mut m = loaded_manager(200_000);
    m.pause();
    // Target is exactly zero, so no forward seek happens on the rebuilt
    // source; its outcome flag is irrelevant.
    let ok = m.seek_backward(5_000, 10_000, false, true, false);
    assert!(ok);
    assert_eq!(m.track_position_ms, 0);
    assert!(m.is_paused());
}

#[test]
fn backward_seek_fails_when_retained_bytes_do_not_decode() {
    let mut m = loaded_manager(200_000);
    m.update_position(30_000);
    let ok = m.seek_backward(30_000, 10_000, false, false, false);
    assert!(!ok);
    assert!(m.is_empty());
    // The caller leaves the progress indicator untouched.
    assert_eq!(m.track_position_ms, 30_000);
}

#[test]
fn backward_seek_on_empty_sink_returns_false() {
    let mut m = AudioManager::new();
    assert!(!m.seek_backward(30_000, 10_000, true, true, true));
}

#[test]
fn seek_to_position_ahead_uses_forward_seek_only() {
    let mut m = loaded_manager(200_000);
    m.update_position(30_000);
    // 50% of 200s = 100s, ahead of 30s.
    m.seek_to_position(5_000, 30_000, true, false, false);
    assert_eq!(m.track_position_ms, 100_000);
    assert_eq!(m.progress_centi_percent, 5_000);
    assert_eq!(m.current_track_data, Some(vec![1, 2, 3, 4]));
    assert!(!m.is_empty());
}

#[test]
fn seek_to_position_ahead_failure_changes_nothing() {
    let mut m = loaded_manager(200_000);
    m.update_position(30_000);
    let progress_before = m.progress_centi_percent;
    m.seek_to_position(5_000, 30_000, false, false, false);
    assert_eq!(m.track_position_ms, 30_000);
    assert_eq!(m.progress_centi_percent, progress_before);
}

#[test]
fn seek_to_position_behind_goes_through_recovery_and_keeps_pause() {
    let mut m = loaded_manager(200_000);
    m.update_position(100_000);
    m.pause();
    // 10% of 200s = 20s, behind 100s; the live seek is refused and the
    // source is reconstructed.
    m.seek_to_position(1_000, 100_000, false, true, true);
    assert_eq!(m.track_position_ms, 20_000);
    assert_eq!(m.progress_centi_percent, 1_000);
    assert!(m.is_paused());
}

#[test]
fn seek_to_position_behind_leaves_progress_on_failed_recovery() {
    let mut m = loaded_manager(200_000);
    m.update_position(100_000);
    let progress_before = m.progress_centi_percent;
    m.seek_to_position(1_000, 100_000, false, true, false);
    assert_eq!(m.progress_centi_percent, progress_before);
}

#[test]
fn update_position_recomputes_progress_and_republishes() {
    let mut m = loaded_manager(200_000);
    m.update_position(50_000);
    assert_eq!(m.track_position_ms, 50_000);
    // 50s of 200s is 25%, in hundredths of a percent.
    assert_eq!(m.progress_centi_percent, 2_500);
    assert_eq!(m.media_status(), MediaStatus::Playing(50_000));
    m.pause();
    m.update_position(60_000);
    assert_eq!(m.media_status(), MediaStatus::Paused(60_000));
}

#[test]
fn update_position_with_zero_duration_reports_zero_progress() {
    let mut m = loaded_manager(0);
    m.track_duration_ms = 0;
    m.update_position(1_000);
    assert_eq!(m.progress_centi_percent, 0);
}

#[test]
fn update_position_clamps_progress_at_full() {
    let mut m = loaded_manager(200_000);
    m.update_position(250_000);
    assert_eq!(m.progress_centi_percent, 10_000);
}

#[test]
fn clear_stops_playback() {
    let mut m = loaded_manager(200_000);
    m.clear();
    assert!(m.is_empty());
    assert_eq!(m.media_status(), MediaStatus::Stopped);
    assert!(!m.has_track_ended());
}

#[test]
fn update_metadata_reports_playing_from_zero() {
    let mut m = loaded_manager(200_000);
    m.update_metadata("Some Song", "Some Artist", 200_000);
    assert_eq!(m.media_status(), MediaStatus::Playing(0));
}

#[test]
fn repeat_mode_toggles_between_one_and_all() {
    assert_eq!(RepeatMode::One.toggle(), RepeatMode::All);
    assert_eq!(RepeatMode::All.toggle(), RepeatMode::One);
}

#[test]
fn end_of_track_actions_cover_all_cases() {
    assert_eq!(end_of_track_action(RepeatMode::One, true, true, 3), TrackEndAction::ReloadCurrent);
    assert_eq!(end_of_track_action(RepeatMode::One, false, true, 3), TrackEndAction::NoAction);
    assert_eq!(end_of_track_action(RepeatMode::All, true, true, 3), TrackEndAction::PlayNext);
    assert_eq!(end_of_track_action(RepeatMode::All, true, false, 3), TrackEndAction::RestartQueue);
    assert_eq!(end_of_track_action(RepeatMode::All, true, false, 0), TrackEndAction::StopPlayback);
}
