use vstd::prelude::*;
use crate::metadata::{
    code_close, code_open, data_close, data_open, spec_field, spec_parse_item, type_close,
    type_open,
};
use crate::text::{lemma_find_first, lemma_find_none, occurs_at};

verus! {

/// No tag can open inside this text.
pub open spec fn no_tag_open(s: Seq<char>) -> bool {
    forall|i: int| 0 <= i < s.len() ==> s[i] != '<'
}

/// The data element of an item line, where the item carries a payload.
pub open spec fn data_element(data: Option<Seq<char>>) -> Seq<char> {
    match data {
        Some(d) => data_open() + d + data_close(),
        None => Seq::empty(),
    }
}

/// An item line as shairport-sync writes it:
/// `<item><type>T</type><code>C</code><length>N</length>[<data encoding="base64">D</data>]</item>`.
pub open spec fn item_line(
    itype: Seq<char>,
    code: Seq<char>,
    length: Seq<char>,
    data: Option<Seq<char>>,
) -> Seq<char> {
    "<item>"@ + type_open() + itype + type_close() + code_open() + code + code_close() + "<length>"@
        + length + "</length>"@ + data_element(data) + "</item>"@
}

proof fn lemma_occurs_char(s: Seq<char>, pat: Seq<char>, j: int, m: int)
    requires
        occurs_at(s, pat, j),
        0 <= m < pat.len(),
    ensures
        s[j + m] == pat[m],
{
    assert(s.subrange(j, j + pat.len())[m] == s[j + m]);
}

/// Every `<` in `piece` opens a tag whose next character is not `x`.
pub open spec fn no_open_of(piece: Seq<char>, x: char) -> bool {
    forall|i: int| 0 <= i < piece.len() && #[trigger] piece[i] == '<' ==> i + 1 < piece.len() && piece[i + 1] != x
}

proof fn lemma_concat(x: Seq<char>, y: Seq<char>)
    ensures
        occurs_at(x + y, x, 0),
        occurs_at(x + y, y, x.len() as int),
{
    assert((x + y).subrange(0, x.len() as int) =~= x);
    assert((x + y).subrange(x.len() as int, (x.len() + y.len()) as int) =~= y);
}

proof fn lemma_occurs_trans(s: Seq<char>, x: Seq<char>, p: Seq<char>, o: int, k: int)
    requires
        occurs_at(s, x, o),
        occurs_at(x, p, k),
    ensures
        occurs_at(s, p, o + k),
{
    assert forall|m: int| 0 <= m < p.len() implies s[o + k + m] == p[m] by {
        lemma_occurs_char(x, p, k, m);
        lemma_occurs_char(s, x, o, k + m);
    }
    assert(s.subrange(o + k, o + k + p.len()) =~= p);
}

/// No occurrence of `pat` starts inside a piece of `s` whose tags all
/// differ from `pat` in their second character.
proof fn lemma_piece_hides(s: Seq<char>, piece: Seq<char>, off: int, pat: Seq<char>)
    requires
        occurs_at(s, piece, off),
        pat.len() >= 2,
        pat[0] == '<',
        no_open_of(piece, pat[1]),
    ensures
        forall|j: int| off <= j < off + piece.len() ==> !occurs_at(s, pat, j),
{
    assert forall|j: int| off <= j < off + piece.len() implies !occurs_at(s, pat, j) by {
        if occurs_at(s, pat, j) {
            lemma_occurs_char(s, pat, j, 0);
            lemma_occurs_char(s, pat, j, 1);
            lemma_occurs_char(s, piece, off, j - off);
            lemma_occurs_char(s, piece, off, j - off + 1);
        }
    }
}

proof fn lemma_tag_free(piece: Seq<char>, x: char)
    requires
        no_tag_open(piece),
    ensures
        no_open_of(piece, x),
{
}

/// Where the pieces of an item line stand in it.
proof fn lemma_layout(itype: Seq<char>, code: Seq<char>, length: Seq<char>, data: Option<Seq<char>>)
    ensures ({
        let s = item_line(itype, code, length, data);
        let te = 12 + itype.len() as int;
        let cs = te + 13;
        let ce = cs + code.len() as int;
        let ls = ce + 15;
        let le = ls + length.len() as int;
        let dat = le + 9;
        let end = dat + data_element(data).len() as int;
        &&& s.len() == end + 7
        &&& occurs_at(s, "<item>"@ + type_open(), 0)
        &&& occurs_at(s, itype, 12)
        &&& occurs_at(s, type_close() + code_open(), te)
        &&& occurs_at(s, code, cs)
        &&& occurs_at(s, code_close() + "<length>"@, ce)
        &&& occurs_at(s, length, ls)
        &&& occurs_at(s, "</length>"@, le)
        &&& occurs_at(s, data_element(data), dat)
        &&& occurs_at(s, "</item>"@, end)
    }),
{
    reveal_strlit("<item>");
    reveal_strlit("<type>");
    reveal_strlit("</type>");
    reveal_strlit("<code>");
    reveal_strlit("</code>");
    reveal_strlit("<length>");
    reveal_strlit("</length>");
    reveal_strlit("</item>");
    let p1 = "<item>"@ + type_open();
    let p2 = p1 + itype;
    let p3 = p2 + type_close();
    let p4 = p3 + code_open();
    let p5 = p4 + code;
    let p6 = p5 + code_close();
    let p7 = p6 + "<length>"@;
    let p8 = p7 + length;
    let p9 = p8 + "</length>"@;
    let p10 = p9 + data_element(data);
    let s = p10 + "</item>"@;
    assert(s == item_line(itype, code, length, data));
    lemma_concat(p10, "</item>"@);
    lemma_concat(p9, data_element(data));
    lemma_occurs_trans(s, p10, p9, 0, 0);
    lemma_occurs_trans(s, p10, data_element(data), 0, p9.len() as int);
    lemma_concat(p8, "</length>"@);
    lemma_occurs_trans(s, p9, p8, 0, 0);
    lemma_occurs_trans(s, p9, "</length>"@, 0, p8.len() as int);
    lemma_concat(p7, length);
    lemma_occurs_trans(s, p8, p7, 0, 0);
    lemma_occurs_trans(s, p8, length, 0, p7.len() as int);
    lemma_concat(p5, code_close() + "<length>"@);
    assert(p7 == p5 + (code_close() + "<length>"@));
    lemma_occurs_trans(s, p7, p5, 0, 0);
    lemma_occurs_trans(s, p7, code_close() + "<length>"@, 0, p5.len() as int);
    lemma_concat(p4, code);
    lemma_occurs_trans(s, p5, p4, 0, 0);
    lemma_occurs_trans(s, p5, code, 0, p4.len() as int);
    lemma_concat(p2, type_close() + code_open());
    assert(p4 == p2 + (type_close() + code_open()));
    lemma_occurs_trans(s, p4, p2, 0, 0);
    lemma_occurs_trans(s, p4, type_close() + code_open(), 0, p2.len() as int);
    lemma_concat(p1, itype);
    lemma_occurs_trans(s, p2, p1, 0, 0);
    lemma_occurs_trans(s, p2, itype, 0, p1.len() as int);
}

proof fn lemma_split(s: Seq<char>, x: Seq<char>, y: Seq<char>, o: int)
    requires
        occurs_at(s, x + y, o),
    ensures
        occurs_at(s, x, o),
        occurs_at(s, y, o + x.len()),
{
    lemma_concat(x, y);
    lemma_occurs_trans(s, x + y, x, o, 0);
    lemma_occurs_trans(s, x + y, y, o, x.len() as int);
}

/// Parsing an item line as shairport-sync writes it gives back its type,
/// its code and its payload, provided none of them holds a `<`.
pub proof fn law_parse_item_reads_written_item(
    itype: Seq<char>,
    code: Seq<char>,
    length: Seq<char>,
    data: Option<Seq<char>>,
)
    requires
        no_tag_open(itype),
        no_tag_open(code),
        no_tag_open(length),
        data matches Some(d) ==> no_tag_open(d),
    ensures
        spec_parse_item(item_line(itype, code, length, data)) == Some((itype, code, data)),
{
    reveal_strlit("<item>");
    reveal_strlit("<type>");
    reveal_strlit("</type>");
    reveal_strlit("<code>");
    reveal_strlit("</code>");
    reveal_strlit("<length>");
    reveal_strlit("</length>");
    reveal_strlit("<data encoding=\"base64\">");
    reveal_strlit("</data>");
    reveal_strlit("</item>");
    lemma_layout(itype, code, length, data);
    let s = item_line(itype, code, length, data);
    let te = 12 + itype.len() as int;
    let cs = te + 13;
    let ce = cs + code.len() as int;
    let ls = ce + 15;
    let le = ls + length.len() as int;
    let dat = le + 9;
    let end = dat + data_element(data).len() as int;
    lemma_split(s, "<item>"@, type_open(), 0);
    lemma_split(s, type_close(), code_open(), te);
    lemma_split(s, code_close(), "<length>"@, ce);

    // <type> ... </type>
    lemma_piece_hides(s, "<item>"@, 0, type_open());
    lemma_find_first(s, type_open(), 0, 6);
    lemma_tag_free(itype, type_close()[1]);
    lemma_piece_hides(s, itype, 12, type_close());
    lemma_find_first(s, type_close(), 12, te);
    assert(spec_field(s, type_open(), type_close()) == Some((12int, te)));

    // <code> ... </code>
    lemma_piece_hides(s, "<item>"@, 0, code_open());
    lemma_piece_hides(s, type_open(), 6, code_open());
    lemma_tag_free(itype, code_open()[1]);
    lemma_piece_hides(s, itype, 12, code_open());
    lemma_piece_hides(s, type_close(), te, code_open());
    lemma_find_first(s, code_open(), 0, te + 7);
    lemma_tag_free(code, code_close()[1]);
    lemma_piece_hides(s, code, cs, code_close());
    lemma_find_first(s, code_close(), cs, ce);
    assert(spec_field(s, code_open(), code_close()) == Some((cs, ce)));
    assert(s.subrange(12, te) =~= itype);
    assert(s.subrange(cs, ce) =~= code);

    // <data ...> ... </data>
    let dop = data_open();
    lemma_piece_hides(s, "<item>"@, 0, dop);
    lemma_piece_hides(s, type_open(), 6, dop);
    lemma_tag_free(itype, dop[1]);
    lemma_piece_hides(s, itype, 12, dop);
    lemma_piece_hides(s, type_close(), te, dop);
    lemma_piece_hides(s, code_open(), te + 7, dop);
    lemma_tag_free(code, dop[1]);
    lemma_piece_hides(s, code, cs, dop);
    lemma_piece_hides(s, code_close(), ce, dop);
    lemma_piece_hides(s, "<length>"@, ce + 7, dop);
    lemma_tag_free(length, dop[1]);
    lemma_piece_hides(s, length, ls, dop);
    lemma_piece_hides(s, "</length>"@, le, dop);
    assert(forall|j: int| 0 <= j < dat ==> !occurs_at(s, dop, j));
    match data {
        Some(d) => {
            let ds = dat + 24;
            let de = ds + d.len();
            lemma_split(s, dop + d, data_close(), dat);
            lemma_split(s, dop, d, dat);
            lemma_find_first(s, dop, 0, dat);
            lemma_tag_free(d, data_close()[1]);
            lemma_piece_hides(s, d, ds, data_close());
            lemma_find_first(s, data_close(), ds, de);
            assert(s.subrange(ds, de) =~= d);
        },
        None => {
            lemma_piece_hides(s, "</item>"@, end, dop);
            lemma_find_none(s, dop, 0);
        },
    }
}

} // verus!
