use carplay_audio::track::{same_track, track_from_tags, TrackInfo};

#[test]
fn no_tags_no_track() {
    assert!(track_from_tags(None, None, None, Some(1000)).is_none());
}

#[test]
fn tags_make_a_track() {
    let t = track_from_tags(Some("T".to_string()), None, None, Some(215000)).unwrap();
    assert_eq!(t.title.as_deref(), Some("T"));
    assert!(t.artist.is_none());
    assert_eq!(t.duration_ms, Some(215000u64));
    let t = track_from_tags(None, None, Some("A".to_string()), None).unwrap();
    assert_eq!(t.album.as_deref(), Some("A"));
    assert!(t.duration_ms.is_none());
}

#[test]
fn track_comparison() {
    let a = track_from_tags(Some("T".to_string()), Some("B".to_string()), None, None);
    let b = track_from_tags(Some("T".to_string()), Some("B".to_string()), None, None);
    let c = track_from_tags(Some("T".to_string()), Some("C".to_string()), None, None);
    assert!(same_track(&a, &b));
    assert!(!same_track(&a, &c));
    assert!(!same_track(&a, &None));
    assert!(same_track(&None, &None));
    let d = track_from_tags(Some("T".to_string()), Some("B".to_string()), None, Some(1));
    assert!(!same_track(&a, &d));
}

#[test]
fn default_track_is_empty() {
    let t = TrackInfo::default();
    assert!(t.title.is_none() && t.artist.is_none() && t.album.is_none() && t.duration_ms.is_none());
}
