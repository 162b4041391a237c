use vstd::prelude::*;
use crate::item_format::{item_line, law_parse_item_reads_written_item, no_tag_open};
use crate::metadata::{
    spec_decode_text, spec_feed_line, spec_item_kind, spec_meta_step, spec_parse_item,
    ItemKind, MetaView,
};
use crate::track::{unknown_track, TrackView};

verus! {

/// A metadata block that carries a title, an artist and an album reports,
/// at its end, exactly that track, whatever the reader held before; the
/// reader is then outside any block with nothing gathered.
pub proof fn law_block_reports_its_fields(
    st: MetaView,
    title: Option<Seq<char>>,
    artist: Option<Seq<char>>,
    album: Option<Seq<char>>,
)
    ensures ({
        let (s1, r1) = spec_meta_step(st, ItemKind::BlockStart, None);
        let (s2, r2) = spec_meta_step(s1, ItemKind::Title, title);
        let (s3, r3) = spec_meta_step(s2, ItemKind::Artist, artist);
        let (s4, r4) = spec_meta_step(s3, ItemKind::Album, album);
        let (s5, r5) = spec_meta_step(s4, ItemKind::BlockEnd, None);
        &&& r1 is None && r2 is None && r3 is None && r4 is None
        &&& r5 == Some(Some(TrackView { title, artist, album, duration_ms: None }))
        &&& s5 == (MetaView { pending: unknown_track(), in_meta: false })
    }),
{
}

/// Outside a metadata block, only a block start or a session end has an
/// effect: every other item leaves the reader as it was and reports nothing.
pub proof fn law_items_outside_block_ignored(st: MetaView, kind: ItemKind, text: Option<Seq<char>>)
    requires
        !st.in_meta,
        kind != ItemKind::BlockStart,
        kind != ItemKind::SessionEnd,
    ensures
        spec_meta_step(st, kind, text) == (st, None::<Option<TrackView>>),
{
}

/// A block start forgets what an earlier, unfinished block gathered.
pub proof fn law_block_start_forgets(st: MetaView, text: Option<Seq<char>>)
    ensures
        spec_meta_step(st, ItemKind::BlockStart, text) == (
            MetaView { pending: unknown_track(), in_meta: true },
            None::<Option<TrackView>>,
        ),
{
}

/// A session end always reports that no track is playing, and closes any
/// open block.
pub proof fn law_session_end_clears(st: MetaView, text: Option<Seq<char>>)
    ensures
        spec_meta_step(st, ItemKind::SessionEnd, text) == (
            MetaView { pending: st.pending, in_meta: false },
            Some(None::<TrackView>),
        ),
{
}

/// A line that is not an item leaves the reader as it was.
pub proof fn law_unparsable_line_skipped(st: MetaView, line: Seq<char>)
    requires
        spec_parse_item(line) is None,
    ensures
        spec_feed_line(st, line) == (st, None::<Option<TrackView>>),
{
}

/// Inside a block, a title item as shairport-sync writes it sets the
/// track's title to its decoded payload and reports nothing.
pub proof fn law_written_title_item_sets_title(st: MetaView, length: Seq<char>, payload: Seq<char>)
    requires
        st.in_meta,
        no_tag_open(length),
        no_tag_open(payload),
    ensures
        spec_feed_line(st, item_line("636f7265"@, "6d696e6d"@, length, Some(payload))) == (
            MetaView {
                pending: TrackView {
                    title: spec_decode_text(payload),
                    artist: st.pending.artist,
                    album: st.pending.album,
                    duration_ms: st.pending.duration_ms,
                },
                in_meta: true,
            },
            None::<Option<TrackView>>,
        ),
{
    reveal_strlit("636f7265");
    reveal_strlit("6d696e6d");
    reveal_strlit("73736e63");
    law_parse_item_reads_written_item("636f7265"@, "6d696e6d"@, length, Some(payload));
    assert("636f7265"@[0] != "73736e63"@[0]);
    assert(spec_item_kind("636f7265"@, "6d696e6d"@) == ItemKind::Title);
}

/// A block end item as shairport-sync writes it, inside a block, reports
/// the gathered track.
pub proof fn law_written_block_end_reports(st: MetaView, length: Seq<char>)
    requires
        st.in_meta,
        no_tag_open(length),
    ensures
        spec_feed_line(st, item_line("73736e63"@, "6d64656e"@, length, None)) == (
            MetaView { pending: unknown_track(), in_meta: false },
            Some(Some(st.pending)),
        ),
{
    reveal_strlit("73736e63");
    reveal_strlit("6d64656e");
    reveal_strlit("6d647374");
    law_parse_item_reads_written_item("73736e63"@, "6d64656e"@, length, None);
    assert("6d64656e"@[4] != "6d647374"@[4]);
    assert(spec_item_kind("73736e63"@, "6d64656e"@) == ItemKind::BlockEnd);
}

/// The reader after a run of pipe lines, with the reports it sent, in
/// order.
pub open spec fn run_lines(st: MetaView, lines: Seq<Seq<char>>) -> (MetaView, Seq<Option<TrackView>>)
    decreases lines.len(),
{
    if lines.len() == 0 {
        (st, Seq::empty())
    } else {
        let (next, report) = spec_feed_line(st, lines[0]);
        let (end, rest) = run_lines(next, lines.drop_first());
        match report {
            Some(r) => (end, seq![r] + rest),
            None => (end, rest),
        }
    }
}

/// The kind of a pipe line, where it is an item.
pub open spec fn line_kind(line: Seq<char>) -> Option<ItemKind> {
    match spec_parse_item(line) {
        Some((itype, code, _)) => Some(spec_item_kind(itype, code)),
        None => None,
    }
}

/// How many lines of the run are block ends read inside a block.
pub open spec fn count_block_ends(st: MetaView, lines: Seq<Seq<char>>) -> nat
    decreases lines.len(),
{
    if lines.len() == 0 {
        0
    } else {
        let next = spec_feed_line(st, lines[0]).0;
        (if st.in_meta && line_kind(lines[0]) == Some(ItemKind::BlockEnd) {
            1nat
        } else {
            0nat
        }) + count_block_ends(next, lines.drop_first())
    }
}

/// How many lines of the run are session ends.
pub open spec fn count_session_ends(lines: Seq<Seq<char>>) -> nat
    decreases lines.len(),
{
    if lines.len() == 0 {
        0
    } else {
        (if line_kind(lines[0]) == Some(ItemKind::SessionEnd) {
            1nat
        } else {
            0nat
        }) + count_session_ends(lines.drop_first())
    }
}

/// How many reports carry a track.
pub open spec fn count_tracks(reports: Seq<Option<TrackView>>) -> nat
    decreases reports.len(),
{
    if reports.len() == 0 {
        0
    } else {
        (if reports[0] is Some {
            1nat
        } else {
            0nat
        }) + count_tracks(reports.drop_first())
    }
}

/// How many reports say that no track is playing.
pub open spec fn count_clears(reports: Seq<Option<TrackView>>) -> nat
    decreases reports.len(),
{
    if reports.len() == 0 {
        0
    } else {
        (if reports[0] is None {
            1nat
        } else {
            0nat
        }) + count_clears(reports.drop_first())
    }
}

/// Over any run of pipe lines, the reader sends exactly one track for each
/// block end read inside a block, exactly one "no track" for each session
/// end, and nothing else.
pub proof fn law_run_reports_per_block_and_session(st: MetaView, lines: Seq<Seq<char>>)
    ensures
        count_tracks(run_lines(st, lines).1) == count_block_ends(st, lines),
        count_clears(run_lines(st, lines).1) == count_session_ends(lines),
        run_lines(st, lines).1.len() == count_block_ends(st, lines) + count_session_ends(lines),
    decreases lines.len(),
{
    if lines.len() > 0 {
        let (next, report) = spec_feed_line(st, lines[0]);
        law_run_reports_per_block_and_session(next, lines.drop_first());
        let rest = run_lines(next, lines.drop_first()).1;
        match report {
            Some(r) => {
                let all = seq![r] + rest;
                assert(all.drop_first() =~= rest);
                assert(all[0] == r);
            },
            None => {},
        }
    }
}

/// A run of two parts is the run of the first part, then the run of the
/// second from where the first left the reader.
pub proof fn lemma_run_concat(st: MetaView, a: Seq<Seq<char>>, b: Seq<Seq<char>>)
    ensures
        run_lines(st, a + b) == (
            run_lines(run_lines(st, a).0, b).0,
            run_lines(st, a).1 + run_lines(run_lines(st, a).0, b).1,
        ),
    decreases a.len(),
{
    if a.len() == 0 {
        assert(a + b =~= b);
        assert(run_lines(st, a).1 + run_lines(st, b).1 =~= run_lines(st, b).1);
    } else {
        let (next, report) = spec_feed_line(st, a[0]);
        assert((a + b).drop_first() =~= a.drop_first() + b);
        assert((a + b)[0] == a[0]);
        lemma_run_concat(next, a.drop_first(), b);
        let mid = run_lines(st, a).0;
        let tail = run_lines(mid, b).1;
        let ra = run_lines(next, a.drop_first()).1;
        match report {
            Some(r) => {
                assert(seq![r] + (ra + tail) =~= (seq![r] + ra) + tail);
            },
            None => {},
        }
    }
}

/// A line that changes nothing where it is read: not an item, an item of
/// no interest, or a field or block end read outside a block.
pub open spec fn line_is_skipped(st: MetaView, line: Seq<char>) -> bool {
    match line_kind(line) {
        None => true,
        Some(kind) => kind == ItemKind::Other || (!st.in_meta && (kind == ItemKind::Title || kind
            == ItemKind::Artist || kind == ItemKind::Album || kind == ItemKind::BlockEnd)),
    }
}

/// Lines that do not parse, items of no interest, and field items or block
/// ends outside a block have no effect on a run: the run without such a
/// line ends in the same state with the same reports.
pub proof fn law_skipped_line_has_no_effect(
    st: MetaView,
    before: Seq<Seq<char>>,
    line: Seq<char>,
    after: Seq<Seq<char>>,
)
    requires
        line_is_skipped(run_lines(st, before).0, line),
    ensures
        run_lines(st, before + seq![line] + after) == run_lines(st, before + after),
{
    let mid = run_lines(st, before).0;
    lemma_run_concat(st, before, seq![line] + after);
    lemma_run_concat(st, before, after);
    assert(before + seq![line] + after =~= before + (seq![line] + after));
    let la = seq![line] + after;
    assert(la[0] == line);
    assert(la.drop_first() =~= after);
    assert(spec_feed_line(mid, line) == (mid, None::<Option<TrackView>>));
}

/// Line `i` of the run opens a block that no later line closes.
pub open spec fn opens_unclosed_block(lines: Seq<Seq<char>>, i: int) -> bool {
    &&& 0 <= i < lines.len()
    &&& line_kind(lines[i]) == Some(ItemKind::BlockStart)
    &&& forall|j: int|
        i < j < lines.len() ==> line_kind(#[trigger] lines[j]) != Some(ItemKind::BlockEnd)
            && line_kind(lines[j]) != Some(ItemKind::SessionEnd)
}

/// Starting outside a block, the reader is inside a block after a run
/// exactly when some line opened a block that no later block end or
/// session end closed; so the block ends counted by
/// `count_block_ends` are those that follow a block start with no block
/// end or session end in between.
pub proof fn law_in_block_after_open_block_start(st: MetaView, lines: Seq<Seq<char>>)
    requires
        !st.in_meta,
    ensures
        run_lines(st, lines).0.in_meta <==> exists|i: int| opens_unclosed_block(lines, i),
    decreases lines.len(),
{
    if lines.len() > 0 {
        let n = lines.len() - 1;
        let init = lines.drop_last();
        let last = lines[n];
        law_in_block_after_open_block_start(st, init);
        lemma_run_concat(st, init, seq![last]);
        assert(init + seq![last] =~= lines);
        let mid = run_lines(st, init).0;
        assert(seq![last][0] == last);
        assert(seq![last].drop_first() =~= Seq::<Seq<char>>::empty());
        let after = spec_feed_line(mid, last).0;
        assert(run_lines(after, seq![last].drop_first()).0 == after);
        assert(run_lines(mid, seq![last]).0 == after);
        assert(run_lines(st, lines).0 == after);
        if line_kind(last) == Some(ItemKind::BlockStart) {
            assert(opens_unclosed_block(lines, n));
        } else if line_kind(last) == Some(ItemKind::BlockEnd) || line_kind(last) == Some(
            ItemKind::SessionEnd,
        ) {
            assert(!after.in_meta);
            assert forall|i: int| !opens_unclosed_block(lines, i) by {
                if opens_unclosed_block(lines, i) && i < n {
                    assert(line_kind(lines[n]) != Some(ItemKind::BlockEnd));
                }
            }
        } else {
            assert(after.in_meta == mid.in_meta);
            assert forall|i: int| opens_unclosed_block(lines, i) <==> opens_unclosed_block(init, i) by {
                if 0 <= i < n {
                    assert(init[i] == lines[i]);
                    assert forall|j: int| i < j < n implies init[j] == lines[j] by {}
                    if opens_unclosed_block(init, i) {
                        assert forall|j: int| i < j < lines.len() implies line_kind(
                            #[trigger] lines[j],
                        ) != Some(ItemKind::BlockEnd) && line_kind(lines[j]) != Some(
                            ItemKind::SessionEnd,
                        ) by {
                            if j < n {
                                assert(init[j] == lines[j]);
                            }
                        }
                    }
                    if opens_unclosed_block(lines, i) {
                        assert forall|j: int| i < j < init.len() implies line_kind(
                            #[trigger] init[j],
                        ) != Some(ItemKind::BlockEnd) && line_kind(init[j]) != Some(
                            ItemKind::SessionEnd,
                        ) by {
                            assert(init[j] == lines[j]);
                        }
                    }
                }
            }
            if after.in_meta {
                let i = choose|i: int| opens_unclosed_block(init, i);
                assert(opens_unclosed_block(lines, i));
            }
        }
    }
}


/// Whether an item kind sets one field of the pending track.
pub open spec fn is_field_kind(kind: ItemKind) -> bool {
    kind == ItemKind::Title || kind == ItemKind::Artist || kind == ItemKind::Album
}

/// Inside a block, each field item sets its own field of the pending track
/// to its text and leaves every other field, and the block, as they were;
/// it reports nothing.
pub proof fn law_field_item_sets_only_its_field(st: MetaView, kind: ItemKind, text: Option<Seq<char>>)
    requires
        st.in_meta,
        is_field_kind(kind),
    ensures
        ({
            let (next, report) = spec_meta_step(st, kind, text);
            &&& report is None
            &&& next.in_meta
            &&& next.pending.title == (if kind == ItemKind::Title { text } else { st.pending.title })
            &&& next.pending.artist == (if kind == ItemKind::Artist { text } else { st.pending.artist })
            &&& next.pending.album == (if kind == ItemKind::Album { text } else { st.pending.album })
            &&& next.pending.duration_ms == st.pending.duration_ms
        }),
{
}

/// Inside a block, two items that set different fields give the same
/// state in either order: a block reports each field it carried whatever
/// the order of its items.
pub proof fn law_field_items_commute(
    st: MetaView,
    k1: ItemKind,
    t1: Option<Seq<char>>,
    k2: ItemKind,
    t2: Option<Seq<char>>,
)
    requires
        st.in_meta,
        is_field_kind(k1),
        is_field_kind(k2),
        k1 != k2,
    ensures
        spec_meta_step(spec_meta_step(st, k1, t1).0, k2, t2).0 == spec_meta_step(
            spec_meta_step(st, k2, t2).0,
            k1,
            t1,
        ).0,
{
    law_field_item_sets_only_its_field(st, k1, t1);
    law_field_item_sets_only_its_field(st, k2, t2);
    let a = spec_meta_step(st, k1, t1).0;
    let b = spec_meta_step(st, k2, t2).0;
    law_field_item_sets_only_its_field(a, k2, t2);
    law_field_item_sets_only_its_field(b, k1, t1);
}

/// A block start, then one title, one artist and one album item in any
/// order, then a block end, reports the track with exactly those three
/// fields.
pub proof fn law_block_reports_fields_in_any_order(
    st: MetaView,
    k1: ItemKind,
    t1: Option<Seq<char>>,
    k2: ItemKind,
    t2: Option<Seq<char>>,
    k3: ItemKind,
    t3: Option<Seq<char>>,
)
    requires
        is_field_kind(k1),
        is_field_kind(k2),
        is_field_kind(k3),
        k1 != k2,
        k2 != k3,
        k1 != k3,
    ensures
        ({
            let s1 = spec_meta_step(st, ItemKind::BlockStart, None).0;
            let s2 = spec_meta_step(s1, k1, t1).0;
            let s3 = spec_meta_step(s2, k2, t2).0;
            let s4 = spec_meta_step(s3, k3, t3).0;
            let pick = |k: ItemKind|
                if k1 == k {
                    t1
                } else if k2 == k {
                    t2
                } else {
                    t3
                };
            spec_meta_step(s4, ItemKind::BlockEnd, None).1 == Some(
                Some(
                    TrackView {
                        title: pick(ItemKind::Title),
                        artist: pick(ItemKind::Artist),
                        album: pick(ItemKind::Album),
                        duration_ms: None,
                    },
                ),
            )
        }),
{
    let s1 = spec_meta_step(st, ItemKind::BlockStart, None).0;
    law_field_item_sets_only_its_field(s1, k1, t1);
    let s2 = spec_meta_step(s1, k1, t1).0;
    law_field_item_sets_only_its_field(s2, k2, t2);
    let s3 = spec_meta_step(s2, k2, t2).0;
    law_field_item_sets_only_its_field(s3, k3, t3);
}

} // verus!
