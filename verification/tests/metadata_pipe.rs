use carplay_audio::metadata::{
    decode_b64, decode_trimmed_b64, item_kind, parse_item, text_from_bytes, ItemKind, MetadataReader,
};
use carplay_audio::track::TrackInfo;

fn item(t: &str, c: &str, data: Option<&str>) -> String {
    match data {
        Some(d) => format!(
            "<item><type>{}</type><code>{}</code><length>{}</length><data encoding=\"base64\">{}</data></item>",
            t,
            c,
            d.len(),
            d
        ),
        None => format!("<item><type>{}</type><code>{}</code><length>0</length></item>", t, c),
    }
}

#[test]
fn parse_item_with_payload() {
    let line = item("636f7265", "6d696e6d", Some("aGVsbG8="));
    assert_eq!(parse_item(&line), Some(("636f7265", "6d696e6d", Some("aGVsbG8="))));
}

#[test]
fn parse_item_without_payload() {
    let line = item("73736e63", "6d647374", None);
    assert_eq!(parse_item(&line), Some(("73736e63", "6d647374", None)));
}

#[test]
fn parse_item_refuses_incomplete_lines() {
    assert_eq!(parse_item(""), None);
    assert_eq!(parse_item("<item><code>6d696e6d</code></item>"), None);
    assert_eq!(parse_item("<item><type>636f7265</type></item>"), None);
    assert_eq!(parse_item("<item><type>636f7265<code>6d696e6d</code></item>"), None);
    assert_eq!(
        parse_item("<item><type>a</type><code>b</code><data encoding=\"base64\">xyz</item>"),
        None
    );
}

#[test]
fn parse_item_takes_first_tags() {
    let line = "<type>ab</type><type>cd</type><code></code>";
    assert_eq!(parse_item(line), Some(("ab", "", None)));
    // Non-ASCII text before the fields does not shift them.
    let line = "é<type>x</type><code>y</code>";
    assert_eq!(parse_item(line), Some(("x", "y", None)));
}

#[test]
fn decode_b64_payloads() {
    assert_eq!(decode_b64("aGVsbG8="), Some("hello".to_string()));
    assert_eq!(decode_b64("  aGVsbG8=\n"), Some("hello".to_string()));
    assert_eq!(decode_b64(""), Some(String::new()));
    assert_eq!(decode_b64("!!!!"), None);
    // 0xFF is not UTF-8.
    assert_eq!(decode_b64("/w=="), None);
    assert_eq!(decode_b64("w6k="), Some("é".to_string()));
}

#[test]
fn item_kinds() {
    assert_eq!(item_kind("73736e63", "6d647374"), ItemKind::BlockStart);
    assert_eq!(item_kind("73736e63", "6d64656e"), ItemKind::BlockEnd);
    assert_eq!(item_kind("73736e63", "656e6472"), ItemKind::SessionEnd);
    assert_eq!(item_kind("636f7265", "6d696e6d"), ItemKind::Title);
    assert_eq!(item_kind("636f7265", "61736172"), ItemKind::Artist);
    assert_eq!(item_kind("636f7265", "6173616c"), ItemKind::Album);
    assert_eq!(item_kind("636f7265", "6d647374"), ItemKind::Other);
    assert_eq!(item_kind("73736e63", "6d696e6d"), ItemKind::Other);
    assert_eq!(item_kind("", ""), ItemKind::Other);
}

fn titles(t: &Option<Option<TrackInfo>>) -> Option<Option<(Option<String>, Option<String>, Option<String>)>> {
    t.as_ref().map(|o| o.as_ref().map(|t| (t.title.clone(), t.artist.clone(), t.album.clone())))
}

#[test]
fn block_reports_its_fields() {
    let mut r = MetadataReader::new();
    assert!(titles(&r.feed_line(&item("73736e63", "6d647374", None))).is_none());
    assert!(r.in_meta);
    assert!(r.feed_line(&item("636f7265", "6d696e6d", Some("U29uZw=="))).is_none());
    assert!(r.feed_line(&item("636f7265", "61736172", Some("QXJ0aXN0"))).is_none());
    assert!(r.feed_line(&item("636f7265", "6173616c", Some("QWxidW0="))).is_none());
    let out = r.feed_line(&item("73736e63", "6d64656e", None));
    assert_eq!(
        titles(&out),
        Some(Some((Some("Song".to_string()), Some("Artist".to_string()), Some("Album".to_string()))))
    );
    assert!(!r.in_meta);
    assert!(r.pending.title.is_none());
}

#[test]
fn fields_outside_block_are_ignored() {
    let mut r = MetadataReader::new();
    assert!(r.feed_line(&item("636f7265", "6d696e6d", Some("U29uZw=="))).is_none());
    assert!(r.pending.title.is_none());
    // A block end outside a block reports nothing.
    assert!(r.feed_line(&item("73736e63", "6d64656e", None)).is_none());
    // Garbage lines are skipped.
    assert!(r.feed_line("not an item").is_none());
    assert!(!r.in_meta);
}

#[test]
fn session_end_reports_no_track() {
    let mut r = MetadataReader::new();
    r.feed_line(&item("73736e63", "6d647374", None));
    r.feed_line(&item("636f7265", "6d696e6d", Some("U29uZw==")));
    let out = r.feed_line(&item("73736e63", "656e6472", None));
    assert_eq!(titles(&out), Some(None));
    assert!(!r.in_meta);
}

#[test]
fn block_start_forgets_unfinished_block() {
    let mut r = MetadataReader::new();
    r.feed_line(&item("73736e63", "6d647374", None));
    r.feed_line(&item("636f7265", "6d696e6d", Some("T2xk")));
    r.feed_line(&item("73736e63", "6d647374", None));
    let out = r.feed_line(&item("73736e63", "6d64656e", None));
    assert_eq!(titles(&out), Some(Some((None, None, None))));
}

#[test]
fn undecodable_field_clears_it() {
    let mut r = MetadataReader::new();
    r.feed_line(&item("73736e63", "6d647374", None));
    r.feed_line(&item("636f7265", "6d696e6d", Some("U29uZw==")));
    r.feed_line(&item("636f7265", "6d696e6d", Some("/w==")));
    r.feed_line(&item("636f7265", "61736172", None));
    let out = r.feed_line(&item("73736e63", "6d64656e", None));
    assert_eq!(titles(&out), Some(Some((None, None, None))));
}

#[test]
fn apply_item_takes_decoded_text() {
    let mut r = MetadataReader::new();
    assert!(r.apply_item(ItemKind::BlockStart, None).is_none());
    assert!(r.apply_item(ItemKind::Album, Some("X".to_string())).is_none());
    assert!(r.apply_item(ItemKind::Other, Some("Y".to_string())).is_none());
    let out = r.apply_item(ItemKind::BlockEnd, None);
    assert_eq!(titles(&out), Some(Some((None, None, Some("X".to_string())))));
}

#[test]
fn text_from_bytes_reads_utf8() {
    assert_eq!(text_from_bytes(b"abc".to_vec()), Some("abc".to_string()));
    assert_eq!(text_from_bytes(vec![0xC3, 0xA9]), Some("é".to_string()));
    assert_eq!(text_from_bytes(vec![0xFF]), None);
    // A surrogate encoded in three bytes is refused.
    assert_eq!(text_from_bytes(vec![0xED, 0xA0, 0x80]), None);
    assert_eq!(text_from_bytes(Vec::new()), Some(String::new()));
}

#[test]
fn trimmed_payload_needs_no_padding_spaces() {
    assert_eq!(decode_trimmed_b64("aGVsbG8="), Some("hello".to_string()));
    assert_eq!(decode_trimmed_b64(" aGVsbG8="), None);
    // The standard engine wants canonical padding.
    assert_eq!(decode_trimmed_b64("aGVsbG8"), None);
}

#[test]
fn trim_removes_unicode_white_space() {
    assert_eq!(decode_b64("\u{3000}aGVsbG8=\u{85}\t"), Some("hello".to_string()));
    assert_eq!(decode_b64("\u{a0}\u{2028}aGVsbG8=\u{205f}"), Some("hello".to_string()));
    // A zero-width space is not white space: it stays, and the payload is refused.
    assert_eq!(decode_b64("\u{200b}aGVsbG8="), None);
}
