use carplay_audio::protocol::{EQ_BANDS, SOCKET_PATH, WS_PORT};
use carplay_audio::source::Source;

#[test]
fn sample_rates_of_sources() {
    assert_eq!(Source::Airplay.sample_rate(), 352800);
    assert_eq!(Source::Bluetooth.sample_rate(), 48000);
}

#[test]
fn names_of_sources() {
    assert_eq!(Source::Airplay.name(), "AirPlay");
    assert_eq!(Source::Bluetooth.name(), "Bluetooth");
}

#[test]
fn toggle_twice_is_identity() {
    for s in [Source::Airplay, Source::Bluetooth] {
        assert_ne!(s.toggle(), s);
        assert_eq!(s.toggle().toggle(), s);
    }
    assert_eq!(Source::Airplay.toggle(), Source::Bluetooth);
}

#[test]
fn usize_round_trip() {
    assert_eq!(Source::Airplay.as_usize(), 0);
    assert_eq!(Source::Bluetooth.as_usize(), 1);
    for s in [Source::Airplay, Source::Bluetooth] {
        assert_eq!(Source::from_usize(s.as_usize()), s);
    }
    assert_eq!(Source::from_usize(0), Source::Airplay);
    assert_eq!(Source::from_usize(1), Source::Bluetooth);
    assert_eq!(Source::from_usize(2), Source::Airplay);
    assert_eq!(Source::from_usize(usize::MAX), Source::Airplay);
}

#[test]
fn default_source_is_airplay() {
    assert_eq!(Source::default(), Source::Airplay);
}

#[test]
fn protocol_constants() {
    assert_eq!(EQ_BANDS, 10);
    assert_eq!(WS_PORT, 9000);
    assert_eq!(SOCKET_PATH, "/run/carplay-audio.sock");
}
