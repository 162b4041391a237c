use vstd::prelude::*;
use vstd::string::*;
use vstd::utf8::*;
use base64::Engine;
use crate::track::{opt_text, opt_track_view, unknown_track, TrackInfo, TrackView};
use crate::text::{chars_eq, chars_of, find_from, find_in, lemma_find_from, occurs_at};

verus! {

broadcast use vstd::string::group_string_axioms;

pub open spec fn type_open() -> Seq<char> {
    "<type>"@
}

pub open spec fn type_close() -> Seq<char> {
    "</type>"@
}

pub open spec fn code_open() -> Seq<char> {
    "<code>"@
}

pub open spec fn code_close() -> Seq<char> {
    "</code>"@
}

pub open spec fn data_open() -> Seq<char> {
    "<data encoding=\"base64\">"@
}

pub open spec fn data_close() -> Seq<char> {
    "</data>"@
}

/// The text between the first `open` tag at or after `from` and the next
/// `close` tag: its start and end positions.
pub open spec fn spec_field(line: Seq<char>, open: Seq<char>, close: Seq<char>) -> Option<(int, int)> {
    match find_from(line, open, 0) {
        None => None,
        Some(a) => {
            let start = a + open.len();
            match find_from(line, close, start) {
                None => None,
                Some(end) => Some((start, end)),
            }
        },
    }
}

/// One line of the shairport-sync metadata pipe, read as its type, its code
/// and, where the line carries one, its base64 payload.
/// The type is what stands between the first `<type>` and the next
/// `</type>`, the code likewise between `<code>` and `</code>`; the line is
/// refused where one of these is missing, or where a `<data ...>` tag has no
/// closing `</data>` after it.
pub open spec fn spec_parse_item(line: Seq<char>) -> Option<(Seq<char>, Seq<char>, Option<Seq<char>>)> {
    match (spec_field(line, type_open(), type_close()), spec_field(line, code_open(), code_close())) {
        (Some((ts, te)), Some((cs, ce))) => match find_from(line, data_open(), 0) {
            None => Some((line.subrange(ts, te), line.subrange(cs, ce), None)),
            Some(d) => {
                let ds = d + data_open().len();
                match find_from(line, data_close(), ds) {
                    None => None,
                    Some(de) => Some(
                        (line.subrange(ts, te), line.subrange(cs, ce), Some(line.subrange(ds, de))),
                    ),
                }
            },
        },
        _ => None,
    }
}

pub open spec fn opt_str_view(o: Option<&str>) -> Option<Seq<char>> {
    match o {
        Some(s) => Some(s@),
        None => None,
    }
}

/// The start and end of the text between `open` and the next `close`.
fn field(line: &Vec<char>, open: &Vec<char>, close: &Vec<char>) -> (r: Option<(usize, usize)>)
    ensures
        match r {
            Some((s, e)) => spec_field(line@, open@, close@) == Some((s as int, e as int)),
            None => spec_field(line@, open@, close@) is None,
        },
{
    match find_in(line, open, 0) {
        None => None,
        Some(a) => {
            proof {
                lemma_find_from(line@, open@, 0);
                assert(occurs_at(line@, open@, a as int));
                assert(a + open@.len() <= line@.len());
                assert(a + open.len() <= line.len());
            }
            let start = a + open.len();
            match find_in(line, close, start) {
                None => None,
                Some(end) => Some((start, end)),
            }
        },
    }
}

/// Parses one line of the shairport-sync metadata pipe:
/// `<item><type>HEX</type><code>HEX</code><length>N</length>[<data encoding="base64">B64</data>]</item>`.
pub fn parse_item<'a>(line: &'a str) -> (r: Option<(&'a str, &'a str, Option<&'a str>)>)
    ensures
        match r {
            Some((t, c, d)) => spec_parse_item(line@) == Some((t@, c@, opt_str_view(d))),
            None => spec_parse_item(line@) is None,
        },
{
    let chars = chars_of(line);
    let type_open = chars_of("<type>");
    let type_close = chars_of("</type>");
    let code_open = chars_of("<code>");
    let code_close = chars_of("</code>");
    let data_open = chars_of("<data encoding=\"base64\">");
    let data_close = chars_of("</data>");

    let (ts, te) = match field(&chars, &type_open, &type_close) {
        Some(p) => p,
        None => return None,
    };
    let (cs, ce) = match field(&chars, &code_open, &code_close) {
        Some(p) => p,
        None => return None,
    };
    proof {
        lemma_find_from(chars@, type_close@, ts as int);
        lemma_find_from(chars@, code_close@, cs as int);
    }
    let itype = line.substring_char(ts, te);
    let code = line.substring_char(cs, ce);
    match find_in(&chars, &data_open, 0) {
        None => Some((itype, code, None)),
        Some(d) => {
            proof {
                lemma_find_from(chars@, data_open@, 0);
                assert(occurs_at(chars@, data_open@, d as int));
                assert(d + data_open@.len() <= chars@.len());
                assert(d + data_open.len() <= chars.len());
            }
            let ds = d + data_open.len();
            match find_in(&chars, &data_close, ds) {
                None => None,
                Some(de) => {
                    proof {
                        lemma_find_from(chars@, data_close@, ds as int);
                    }
                    let data = line.substring_char(ds, de);
                    Some((itype, code, Some(data)))
                },
            }
        },
    }
}

} // verus!

verus! {

/// Whether a character has the Unicode property White_Space, by which
/// `char::is_whitespace` and `str::trim` go.
pub open spec fn is_white_space(c: char) -> bool {
    let v = c as u32;
    ||| 0x9 <= v <= 0xD
    ||| v == 0x20 || v == 0x85 || v == 0xA0 || v == 0x1680
    ||| 0x2000 <= v <= 0x200A
    ||| v == 0x2028 || v == 0x2029 || v == 0x202F || v == 0x205F || v == 0x3000
}

/// The text without its leading white space.
pub open spec fn trim_start(s: Seq<char>) -> Seq<char>
    decreases s.len(),
{
    if s.len() > 0 && is_white_space(s[0]) {
        trim_start(s.drop_first())
    } else {
        s
    }
}

/// The text without its trailing white space.
pub open spec fn trim_end(s: Seq<char>) -> Seq<char>
    decreases s.len(),
{
    if s.len() > 0 && is_white_space(s.last()) {
        trim_end(s.drop_last())
    } else {
        s
    }
}

/// The text without its leading and trailing white space.
pub open spec fn trimmed(s: Seq<char>) -> Seq<char> {
    trim_end(trim_start(s))
}

/// Names what the standard base64 engine (`base64::engine::general_purpose::STANDARD`)
/// decodes from a text: the bytes, or `None` where the engine refuses it.
pub uninterp spec fn standard_base64_decoded(input: Seq<char>) -> Option<Seq<u8>>;

#[verifier::external_type_specification]
#[verifier::external_body]
pub struct ExDecodeError(base64::DecodeError);

#[verifier::external_type_specification]
#[verifier::external_body]
pub struct ExFromUtf8Error(std::string::FromUtf8Error);

/// Calls `str::trim`. Claimed, as its documentation says: the result is
/// the argument without leading and trailing characters that have the
/// Unicode White_Space property.
#[verifier::external_body]
fn trim<'a>(s: &'a str) -> (r: &'a str)
    ensures
        r@ == trimmed(s@),
{
    s.trim()
}

/// Calls `base64::Engine::decode` on the standard engine. Claimed: the
/// decoded bytes are `standard_base64_decoded` of the input, and the call
/// fails exactly where that name is `None`.
#[verifier::external_body]
fn base64_decode(input: &str) -> (r: Result<Vec<u8>, base64::DecodeError>)
    ensures
        match r {
            Ok(v) => standard_base64_decoded(input@) == Some(v@),
            Err(_) => standard_base64_decoded(input@) is None,
        },
{
    base64::engine::general_purpose::STANDARD.decode(input)
}

/// Calls `String::from_utf8`. Claimed, as its documentation says: it
/// succeeds exactly on valid UTF-8, and the string then holds the decoded
/// characters.
#[verifier::external_body]
fn string_from_utf8(bytes: Vec<u8>) -> (r: Result<String, std::string::FromUtf8Error>)
    ensures
        match r {
            Ok(s) => valid_utf8(bytes@) && s@ == decode_utf8(bytes@),
            Err(_) => !valid_utf8(bytes@),
        },
{
    String::from_utf8(bytes)
}

/// The text that bytes carry as UTF-8, if they are valid UTF-8.
pub open spec fn spec_utf8_text(bytes: Seq<u8>) -> Option<Seq<char>> {
    if valid_utf8(bytes) {
        Some(decode_utf8(bytes))
    } else {
        None
    }
}

/// The text that a trimmed base64 payload carries.
pub open spec fn spec_decode_trimmed(data: Seq<char>) -> Option<Seq<char>> {
    match standard_base64_decoded(data) {
        Some(bytes) => spec_utf8_text(bytes),
        None => None,
    }
}

/// The text that a base64 payload carries: the payload, trimmed, decoded,
/// and read as UTF-8.
pub open spec fn spec_decode_text(data: Seq<char>) -> Option<Seq<char>> {
    spec_decode_trimmed(trimmed(data))
}

/// Reads bytes as UTF-8 text; `None` where they are not valid UTF-8.
pub fn text_from_bytes(bytes: Vec<u8>) -> (r: Option<String>)
    ensures
        opt_text(r) == spec_utf8_text(bytes@),
{
    match string_from_utf8(bytes) {
        Ok(text) => Some(text),
        Err(_) => None,
    }
}

/// Decodes an already trimmed base64 payload into text.
pub fn decode_trimmed_b64(s: &str) -> (r: Option<String>)
    ensures
        opt_text(r) == spec_decode_trimmed(s@),
{
    match base64_decode(s) {
        Ok(bytes) => text_from_bytes(bytes),
        Err(_) => None,
    }
}

/// Decodes a base64 payload into text; `None` where it is not base64 or
/// not UTF-8.
pub fn decode_b64(s: &str) -> (r: Option<String>)
    ensures
        opt_text(r) == spec_decode_text(s@),
{
    decode_trimmed_b64(trim(s))
}

} // verus!

verus! {

/// What an item of the metadata pipe announces, by its type and code.
#[derive(Clone, Copy, PartialEq, Eq, Debug, Structural)]
pub enum ItemKind {
    /// `ssnc`/`mdst`: a metadata block starts.
    BlockStart,
    /// `ssnc`/`mden`: the metadata block ends; its track is complete.
    BlockEnd,
    /// `ssnc`/`endr`: the AirPlay session ended.
    SessionEnd,
    /// `core`/`minm`: the track's title.
    Title,
    /// `core`/`asar`: the artist.
    Artist,
    /// `core`/`asal`: the album.
    Album,
    /// Anything else.
    Other,
}

/// The kind of an item, from its hex-encoded type and code.
pub open spec fn spec_item_kind(itype: Seq<char>, code: Seq<char>) -> ItemKind {
    if itype == "73736e63"@ {
        if code == "6d647374"@ {
            ItemKind::BlockStart
        } else if code == "6d64656e"@ {
            ItemKind::BlockEnd
        } else if code == "656e6472"@ {
            ItemKind::SessionEnd
        } else {
            ItemKind::Other
        }
    } else if itype == "636f7265"@ {
        if code == "6d696e6d"@ {
            ItemKind::Title
        } else if code == "61736172"@ {
            ItemKind::Artist
        } else if code == "6173616c"@ {
            ItemKind::Album
        } else {
            ItemKind::Other
        }
    } else {
        ItemKind::Other
    }
}

/// Classifies an item by its hex-encoded type and code.
pub fn item_kind(itype: &str, code: &str) -> (r: ItemKind)
    ensures
        r == spec_item_kind(itype@, code@),
{
    let t = chars_of(itype);
    let c = chars_of(code);
    if chars_eq(&t, &chars_of("73736e63")) {
        if chars_eq(&c, &chars_of("6d647374")) {
            ItemKind::BlockStart
        } else if chars_eq(&c, &chars_of("6d64656e")) {
            ItemKind::BlockEnd
        } else if chars_eq(&c, &chars_of("656e6472")) {
            ItemKind::SessionEnd
        } else {
            ItemKind::Other
        }
    } else if chars_eq(&t, &chars_of("636f7265")) {
        if chars_eq(&c, &chars_of("6d696e6d")) {
            ItemKind::Title
        } else if chars_eq(&c, &chars_of("61736172")) {
            ItemKind::Artist
        } else if chars_eq(&c, &chars_of("6173616c")) {
            ItemKind::Album
        } else {
            ItemKind::Other
        }
    } else {
        ItemKind::Other
    }
}

/// The state of the metadata reader: the track being gathered, and whether
/// a metadata block is open.
pub struct MetaView {
    pub pending: TrackView,
    pub in_meta: bool,
}

/// Reads the shairport-sync metadata pipe item by item and reports each
/// complete track, and the end of each session.
pub struct MetadataReader {
    pub pending: TrackInfo,
    pub in_meta: bool,
}

impl View for MetadataReader {
    type V = MetaView;

    open spec fn view(&self) -> MetaView {
        MetaView { pending: self.pending@, in_meta: self.in_meta }
    }
}

/// A report of the reader: `Some(track)` for a complete track, `None` when
/// the session ended.
pub open spec fn opt_report_view(o: Option<Option<TrackInfo>>) -> Option<Option<TrackView>> {
    match o {
        Some(t) => Some(opt_track_view(t)),
        None => None,
    }
}

/// One step of the reader: the next state, and the report it sends, if any.
/// `text` is the decoded payload of the item.
pub open spec fn spec_meta_step(st: MetaView, kind: ItemKind, text: Option<Seq<char>>) -> (
    MetaView,
    Option<Option<TrackView>>,
) {
    let p = st.pending;
    match kind {
        ItemKind::BlockStart => (MetaView { pending: unknown_track(), in_meta: true }, None),
        ItemKind::BlockEnd => if st.in_meta {
            (MetaView { pending: unknown_track(), in_meta: false }, Some(Some(p)))
        } else {
            (st, None)
        },
        ItemKind::SessionEnd => (MetaView { pending: p, in_meta: false }, Some(None)),
        ItemKind::Title => if st.in_meta {
            (
                MetaView {
                    pending: TrackView {
                        title: text,
                        artist: p.artist,
                        album: p.album,
                        duration_ms: p.duration_ms,
                    },
                    in_meta: true,
                },
                None,
            )
        } else {
            (st, None)
        },
        ItemKind::Artist => if st.in_meta {
            (
                MetaView {
                    pending: TrackView {
                        title: p.title,
                        artist: text,
                        album: p.album,
                        duration_ms: p.duration_ms,
                    },
                    in_meta: true,
                },
                None,
            )
        } else {
            (st, None)
        },
        ItemKind::Album => if st.in_meta {
            (
                MetaView {
                    pending: TrackView {
                        title: p.title,
                        artist: p.artist,
                        album: text,
                        duration_ms: p.duration_ms,
                    },
                    in_meta: true,
                },
                None,
            )
        } else {
            (st, None)
        },
        ItemKind::Other => (st, None),
    }
}

/// The decoded text of an optional payload.
pub open spec fn spec_payload_text(data: Option<Seq<char>>) -> Option<Seq<char>> {
    match data {
        Some(d) => spec_decode_text(d),
        None => None,
    }
}

/// What the reader does with one line of the pipe: a line that does not
/// parse is skipped.
pub open spec fn spec_feed_line(st: MetaView, line: Seq<char>) -> (MetaView, Option<Option<TrackView>>) {
    match spec_parse_item(line) {
        None => (st, None),
        Some((itype, code, data)) => spec_meta_step(
            st,
            spec_item_kind(itype, code),
            spec_payload_text(data),
        ),
    }
}

impl MetadataReader {
    /// A reader outside any metadata block, with nothing gathered.
    pub fn new() -> (r: Self)
        ensures
            r@ == (MetaView { pending: unknown_track(), in_meta: false }),
    {
        MetadataReader { pending: TrackInfo::default(), in_meta: false }
    }

    /// Takes one item, of which `text` is the decoded payload, and returns
    /// the report to send, if any.
    pub fn apply_item(&mut self, kind: ItemKind, text: Option<String>) -> (out: Option<Option<TrackInfo>>)
        ensures
            (final(self)@, opt_report_view(out)) == spec_meta_step(old(self)@, kind, opt_text(text)),
    {
        match kind {
            ItemKind::BlockStart => {
                self.pending = TrackInfo::default();
                self.in_meta = true;
                None
            },
            ItemKind::BlockEnd => {
                if self.in_meta {
                    self.in_meta = false;
                    let mut done = TrackInfo::default();
                    std::mem::swap(&mut done, &mut self.pending);
                    Some(Some(done))
                } else {
                    None
                }
            },
            ItemKind::SessionEnd => {
                self.in_meta = false;
                Some(None)
            },
            ItemKind::Title => {
                if self.in_meta {
                    self.pending.title = text;
                }
                None
            },
            ItemKind::Artist => {
                if self.in_meta {
                    self.pending.artist = text;
                }
                None
            },
            ItemKind::Album => {
                if self.in_meta {
                    self.pending.album = text;
                }
                None
            },
            ItemKind::Other => None,
        }
    }

    /// Takes one line of the pipe and returns the report to send, if any.
    /// The payload is decoded only where the item records it.
    pub fn feed_line(&mut self, line: &str) -> (out: Option<Option<TrackInfo>>)
        ensures
            (final(self)@, opt_report_view(out)) == spec_feed_line(old(self)@, line@),
    {
        match parse_item(line) {
            None => None,
            Some((itype, code, data)) => {
                let kind = item_kind(itype, code);
                let text = if self.in_meta && (kind == ItemKind::Title || kind == ItemKind::Artist
                    || kind == ItemKind::Album) {
                    match data {
                        Some(d) => decode_b64(d),
                        None => None,
                    }
                } else {
                    None
                };
                self.apply_item(kind, text)
            },
        }
    }
}

} // verus!
