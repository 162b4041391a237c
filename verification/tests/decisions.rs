use carplay_audio::activity::{SourceActivity, ACTIVATE_NANOS, DEACTIVATE_NANOS};
use carplay_audio::control::{is_quit_key, EqCursor, Key, KeyAction};
use carplay_audio::display::{header_status, limiter_label, loudness_label, uptime_hms, HeaderStatus};
use carplay_audio::playback::{auto_switch, preferred_source, source_change};
use carplay_audio::settings::{fit_eq_gains, set_band_gain};
use carplay_audio::source::Source;
use carplay_audio::stats::AudioStats;
use std::sync::atomic::Ordering;

const MS: u64 = 1_000_000;

#[test]
fn activity_needs_half_a_second_of_signal() {
    assert_eq!(ACTIVATE_NANOS, 500 * MS);
    assert_eq!(DEACTIVATE_NANOS, 3000 * MS);
    let mut a = SourceActivity::new();
    a.feed(true, 1000 * MS);
    assert!(!a.is_active);
    assert_eq!(a.went_active_at, Some(1000 * MS));
    a.feed(true, 1499 * MS);
    assert!(!a.is_active);
    a.feed(true, 1500 * MS);
    assert!(a.is_active);
}

#[test]
fn short_burst_does_not_activate() {
    let mut a = SourceActivity::new();
    a.feed(true, 0);
    a.feed(true, 400 * MS);
    a.feed(false, 450 * MS);
    assert_eq!(a.went_active_at, None);
    a.feed(true, 600 * MS);
    assert!(!a.is_active);
    assert_eq!(a.went_active_at, Some(600 * MS));
}

#[test]
fn activity_needs_three_seconds_of_silence_to_end() {
    let mut a = SourceActivity::new();
    a.feed(true, 0);
    a.feed(true, 600 * MS);
    assert!(a.is_active);
    a.feed(false, 1000 * MS);
    assert!(a.is_active);
    assert_eq!(a.went_silent_at, Some(1000 * MS));
    a.feed(false, 3999 * MS);
    assert!(a.is_active);
    a.feed(false, 4000 * MS);
    assert!(!a.is_active);
    assert_eq!(a.went_silent_at, None);
}

#[test]
fn signal_resets_silence_timer() {
    let mut a = SourceActivity::new();
    a.feed(true, 0);
    a.feed(true, 600 * MS);
    a.feed(false, 1000 * MS);
    a.feed(true, 2000 * MS);
    assert_eq!(a.went_silent_at, None);
    a.feed(false, 4500 * MS);
    assert!(a.is_active);
}

#[test]
fn clock_going_back_counts_as_no_time() {
    let mut a = SourceActivity::new();
    a.feed(true, 5000 * MS);
    a.feed(true, 10 * MS);
    assert!(!a.is_active);
}

#[test]
fn airplay_has_priority() {
    assert_eq!(preferred_source(true, true, Source::Bluetooth), Source::Airplay);
    assert_eq!(preferred_source(true, false, Source::Bluetooth), Source::Airplay);
    assert_eq!(preferred_source(false, true, Source::Airplay), Source::Bluetooth);
    assert_eq!(preferred_source(false, false, Source::Bluetooth), Source::Bluetooth);
    assert_eq!(preferred_source(false, false, Source::Airplay), Source::Airplay);
}

#[test]
fn auto_switch_requests() {
    assert_eq!(auto_switch(Source::Bluetooth, true, false), Some(Source::Airplay));
    assert_eq!(auto_switch(Source::Airplay, true, true), None);
    assert_eq!(auto_switch(Source::Airplay, false, true), Some(Source::Bluetooth));
    assert_eq!(auto_switch(Source::Bluetooth, false, false), None);
}

#[test]
fn requested_source_changes() {
    assert_eq!(source_change(Source::Airplay, 1), Some(Source::Bluetooth));
    assert_eq!(source_change(Source::Airplay, 0), None);
    assert_eq!(source_change(Source::Bluetooth, 5), Some(Source::Airplay));
    assert_eq!(source_change(Source::Bluetooth, 1), None);
}

#[test]
fn keys_map_to_actions() {
    let mut c = EqCursor::new();
    assert_eq!(c.handle_key(Key::Char('m')), KeyAction::ToggleMute);
    assert_eq!(c.handle_key(Key::Char('M')), KeyAction::ToggleMute);
    assert_eq!(c.handle_key(Key::Char('+')), KeyAction::VolumeUp);
    assert_eq!(c.handle_key(Key::Char('=')), KeyAction::VolumeUp);
    assert_eq!(c.handle_key(Key::Char('-')), KeyAction::VolumeDown);
    assert_eq!(c.handle_key(Key::Char('l')), KeyAction::ToggleLoudness);
    assert_eq!(c.handle_key(Key::Char('R')), KeyAction::ToggleLimiter);
    assert_eq!(c.handle_key(Key::Tab), KeyAction::ToggleSource);
    assert_eq!(c.handle_key(Key::Char('x')), KeyAction::Nothing);
    assert_eq!(c, EqCursor { sel_band: 0, eq_edit: false });
}

#[test]
fn arrows_move_band_only_in_editor() {
    let mut c = EqCursor::new();
    assert_eq!(c.handle_key(Key::Right), KeyAction::Nothing);
    assert_eq!(c.handle_key(Key::Up), KeyAction::Nothing);
    assert_eq!(c.sel_band, 0);
    c.handle_key(Key::Char('e'));
    assert!(c.eq_edit);
    assert_eq!(c.handle_key(Key::Left), KeyAction::Nothing);
    assert_eq!(c.sel_band, 0);
    for _ in 0..20 {
        c.handle_key(Key::Right);
    }
    assert_eq!(c.sel_band, 9);
    assert_eq!(c.handle_key(Key::Up), KeyAction::GainUp(9));
    c.handle_key(Key::Left);
    assert_eq!(c.handle_key(Key::Down), KeyAction::GainDown(8));
    c.handle_key(Key::Char('E'));
    assert!(!c.eq_edit);
    assert_eq!(c.sel_band, 8);
}

#[test]
fn quit_keys() {
    assert!(is_quit_key(Key::Char('q')));
    assert!(is_quit_key(Key::Esc));
    assert!(!is_quit_key(Key::Char('Q')));
    assert!(!is_quit_key(Key::Tab));
}

#[test]
fn header_statuses() {
    assert_eq!(header_status(false, true, true), HeaderStatus::Connecting);
    assert_eq!(header_status(true, true, true), HeaderStatus::Muted);
    assert_eq!(header_status(true, false, true), HeaderStatus::Live);
    assert_eq!(header_status(true, false, false), HeaderStatus::Silence);
    assert_eq!(HeaderStatus::Connecting.label(), " [CONNECTING...] ");
    assert_eq!(HeaderStatus::Muted.label(), " [MUTED] ");
    assert_eq!(HeaderStatus::Live.label(), " [LIVE] ");
    assert_eq!(HeaderStatus::Silence.label(), " [SILENCE] ");
}

#[test]
fn panel_labels() {
    assert_eq!(limiter_label(true, false), "ACT");
    assert_eq!(limiter_label(false, true), "ON ");
    assert_eq!(limiter_label(false, false), "OFF");
    assert_eq!(loudness_label(true), "ON ");
    assert_eq!(loudness_label(false), "OFF");
}

#[test]
fn uptime_split() {
    assert_eq!(uptime_hms(0), (0, 0, 0));
    assert_eq!(uptime_hms(3725), (1, 2, 5));
    assert_eq!(uptime_hms(86399), (23, 59, 59));
    let (h, m, s) = uptime_hms(123456);
    assert_eq!(h * 3600 + m * 60 + s, 123456);
}

#[test]
fn saved_gains_fit_the_bands() {
    let short: Vec<f32> = vec![1.0, -2.0, 3.5];
    let fitted = fit_eq_gains(&short, 0.0);
    assert_eq!(fitted, vec![1.0, -2.0, 3.5, 0.0, 0.0, 0.0, 0.0, 0.0, 0.0, 0.0]);
    let long: Vec<f32> = (0..14).map(|i| i as f32).collect();
    let fitted = fit_eq_gains(&long, 0.0);
    assert_eq!(fitted, (0..10).map(|i| i as f32).collect::<Vec<f32>>());
    assert_eq!(fit_eq_gains(&fitted, 0.0), fitted);
    let empty: Vec<f32> = Vec::new();
    assert_eq!(fit_eq_gains(&empty, 0.0), vec![0.0f32; 10]);
}

#[test]
fn frame_counts_reset_each_second() {
    let stats = AudioStats::new();
    assert_eq!(stats.reset_per_sec(), 0);
    stats.add_frames(4096);
    stats.add_frames(4096);
    assert_eq!(stats.reset_per_sec(), 8192);
    assert_eq!(stats.reset_per_sec(), 0);
    assert_eq!(stats.frames_total.load(Ordering::Relaxed), 8192);
    assert!(!stats.clipping.load(Ordering::Relaxed));
}

#[test]
fn band_gain_only_for_existing_bands() {
    let mut gains: Vec<f32> = vec![0.0; 10];
    assert!(set_band_gain(&mut gains, 3, 4.5));
    assert_eq!(gains[3], 4.5);
    assert!(!set_band_gain(&mut gains, 10, 1.0));
    assert_eq!(gains.len(), 10);
    assert_eq!(gains.iter().filter(|g| **g != 0.0).count(), 1);
}
