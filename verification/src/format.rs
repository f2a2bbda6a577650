//! Match-position-aware formatting: an optional source-label prefix, then
//! the line reconstructed left to right as verbatim text between spans and
//! emphasised text inside them.
//!
//! A formatted line is a sequence of pieces, each a role and its bytes; the
//! caller decides how a role is rendered (colors, plain text). Piece bytes
//! index the UTF-8 encoding of the line, which is what the match spans are
//! offsets into.

use vstd::prelude::*;
use vstd::slice::slice_subrange;
use vstd::slice::slice_to_vec;
use vstd::string::StringSliceAdditionalSpecFns;
use crate::pattern::spans_wf;

verus! {

/// The byte of the separator printed between a source label and the line.
pub const SEP_BYTE: u8 = 58;

/// The role of one printable piece of an output line.
#[derive(Clone, Copy, PartialEq, Eq, Structural, Debug)]
pub enum PieceKind {
    /// The source label of the line (its file path).
    Label,
    /// The separator between the label and the line content.
    Sep,
    /// Verbatim line content outside every match span.
    Plain,
    /// Line content inside a match span, to be emphasised.
    Matched,
}

/// One printable piece of an output line: its role and its bytes.
pub struct Piece {
    pub kind: PieceKind,
    pub text: Vec<u8>,
}

/// The mathematical shadow of one piece.
pub open spec fn piece_model(p: Piece) -> (PieceKind, Seq<u8>) {
    (p.kind, p.text@)
}

/// The mathematical shadow of a piece sequence.
pub open spec fn piece_models(ps: Seq<Piece>) -> Seq<(PieceKind, Seq<u8>)> {
    ps.map_values(|p: Piece| piece_model(p))
}

/// The pieces of a highlighted line from byte `from` on: verbatim text up to
/// each span, the spanned bytes as a match, and after the last span the
/// verbatim tail. With no spans the whole rest of the line is one verbatim
/// piece.
pub open spec fn highlight_model(line: Seq<u8>, spans: Seq<(usize, usize)>, from: int) -> Seq<
    (PieceKind, Seq<u8>),
>
    decreases spans.len(),
{
    if spans.len() == 0 {
        seq![(PieceKind::Plain, line.subrange(from, line.len() as int))]
    } else {
        seq![
            (PieceKind::Plain, line.subrange(from, spans[0].0 as int)),
            (PieceKind::Matched, line.subrange(spans[0].0 as int, spans[0].1 as int)),
        ] + highlight_model(line, spans.drop_first(), spans[0].1 as int)
    }
}

/// The two pieces of a source-label prefix: the label and the separator.
pub open spec fn label_model(label: Seq<u8>) -> Seq<(PieceKind, Seq<u8>)> {
    seq![(PieceKind::Label, label), (PieceKind::Sep, seq![SEP_BYTE])]
}

/// The pieces of one whole output line: the label prefix exactly when the
/// run is recursive and a label is present, then the highlighted line.
pub open spec fn format_model(
    line: Seq<u8>,
    spans: Seq<(usize, usize)>,
    label: Option<Seq<u8>>,
    recursive: bool,
) -> Seq<(PieceKind, Seq<u8>)> {
    if recursive && label is Some {
        label_model(label->0) + highlight_model(line, spans, 0)
    } else {
        highlight_model(line, spans, 0)
    }
}

/// The bytes a piece sequence prints as, in order.
pub open spec fn flatten_pieces(ms: Seq<(PieceKind, Seq<u8>)>) -> Seq<u8>
    decreases ms.len(),
{
    if ms.len() == 0 {
        Seq::empty()
    } else {
        ms[0].1 + flatten_pieces(ms.drop_first())
    }
}

/// Cut a line of bytes into pieces along its match spans.
fn highlight_pieces(line: &[u8], spans: &Vec<(usize, usize)>) -> (r: Vec<Piece>)
    requires
        spans_wf(spans@, line@.len() as int),
    ensures
        piece_models(r@) == highlight_model(line@, spans@, 0),
{
    let mut r: Vec<Piece> = Vec::new();
    let mut last_end: usize = 0;
    let mut i: usize = 0;
    proof {
        assert(spans@.skip(0) =~= spans@);
        assert(piece_models(r@) + highlight_model(line@, spans@, 0) =~= highlight_model(
            line@,
            spans@,
            0,
        ));
    }
    while i < spans.len()
        invariant
            spans_wf(spans@, line@.len() as int),
            0 <= i <= spans@.len(),
            last_end <= line@.len(),
            if i == 0 {
                last_end == 0
            } else {
                last_end == spans@[i - 1].1
            },
            piece_models(r@) + highlight_model(line@, spans@.skip(i as int), last_end as int)
                == highlight_model(line@, spans@, 0),
        decreases spans@.len() - i,
    {
        let (s, e) = spans[i];
        assert(last_end <= s <= e <= line@.len());
        let ghost r_old = r@;
        r.push(Piece { kind: PieceKind::Plain, text: slice_to_vec(slice_subrange(line, last_end, s)) });
        r.push(
            Piece { kind: PieceKind::Matched, text: slice_to_vec(slice_subrange(line, s, e)) },
        );
        proof {
            let sk = spans@.skip(i as int);
            assert(sk[0] == spans@[i as int]);
            assert(sk.drop_first() =~= spans@.skip(i as int + 1));
            assert(piece_models(r@) =~= piece_models(r_old) + seq![
                (PieceKind::Plain, line@.subrange(last_end as int, s as int)),
                (PieceKind::Matched, line@.subrange(s as int, e as int)),
            ]);
            assert(piece_models(r@) + highlight_model(line@, spans@.skip(i as int + 1), e as int)
                =~= piece_models(r_old) + highlight_model(line@, sk, last_end as int));
        }
        last_end = e;
        i += 1;
    }
    let n = line.len();
    let ghost r_old = r@;
    r.push(Piece { kind: PieceKind::Plain, text: slice_to_vec(slice_subrange(line, last_end, n)) });
    proof {
        assert(spans@.skip(i as int) =~= Seq::<(usize, usize)>::empty());
        assert(piece_models(r@) =~= piece_models(r_old) + highlight_model(
            line@,
            spans@.skip(i as int),
            last_end as int,
        ));
    }
    r
}

/// Format one selected line: the optional label prefix (only in a recursive
/// run), then the line cut along its match spans. An empty span list gives
/// the whole line back as one verbatim piece.
pub fn format_line(
    line: &str,
    spans: &Vec<(usize, usize)>,
    label: Option<&str>,
    recursive: bool,
) -> (r: Vec<Piece>)
    requires
        spans_wf(spans@, line.spec_bytes().len() as int),
    ensures
        piece_models(r@) == format_model(
            line.spec_bytes(),
            spans@,
            if label is Some {
                Some(label->0.spec_bytes())
            } else {
                None
            },
            recursive,
        ),
{
    let line_bytes = line.as_bytes();
    let mut r: Vec<Piece> = Vec::new();
    if recursive {
        if let Some(l) = label {
            r.push(Piece { kind: PieceKind::Label, text: slice_to_vec(l.as_bytes()) });
            let mut sep: Vec<u8> = Vec::new();
            sep.push(SEP_BYTE);
            r.push(Piece { kind: PieceKind::Sep, text: sep });
        }
    }
    let ghost prefix = r@;
    let mut tail = highlight_pieces(line_bytes, spans);
    r.append(&mut tail);
    proof {
        assert(piece_models(r@) =~= piece_models(prefix) + highlight_model(
            line.spec_bytes(),
            spans@,
            0,
        ));
        if recursive && label is Some {
            assert(piece_models(prefix) =~= label_model(label->0.spec_bytes()));
        } else {
            assert(piece_models(prefix) =~= Seq::<(PieceKind, Seq<u8>)>::empty());
            assert(piece_models(r@) =~= highlight_model(line.spec_bytes(), spans@, 0));
        }
    }
    r
}

/// Print a piece sequence as plain bytes, every role verbatim.
pub fn render(pieces: &Vec<Piece>) -> (r: Vec<u8>)
    ensures
        r@ == flatten_pieces(piece_models(pieces@)),
{
    let mut r: Vec<u8> = Vec::new();
    let mut i: usize = 0;
    proof {
        assert(piece_models(pieces@).skip(0) =~= piece_models(pieces@));
    }
    while i < pieces.len()
        invariant
            0 <= i <= pieces@.len(),
            r@ + flatten_pieces(piece_models(pieces@).skip(i as int)) == flatten_pieces(
                piece_models(pieces@),
            ),
        decreases pieces@.len() - i,
    {
        let ghost r_old = r@;
        let ghost ms = piece_models(pieces@);
        r.extend_from_slice(pieces[i].text.as_slice());
        proof {
            assert(ms.skip(i as int)[0] == ms[i as int]);
            assert(ms.skip(i as int).drop_first() =~= ms.skip(i as int + 1));
            assert(flatten_pieces(ms.skip(i as int)) == ms.skip(i as int)[0].1 + flatten_pieces(
                ms.skip(i as int).drop_first(),
            ));
            assert(r@ + flatten_pieces(ms.skip(i as int + 1)) =~= r_old + flatten_pieces(
                ms.skip(i as int),
            ));
        }
        i += 1;
    }
    proof {
        assert(piece_models(pieces@).skip(i as int) =~= Seq::<(PieceKind, Seq<u8>)>::empty());
        assert(r@ =~= flatten_pieces(piece_models(pieces@)));
    }
    r
}

/// Law: the pieces of a highlighted line concatenate back to the line
/// exactly, verbatim text and spanned text alternating.
pub proof fn lemma_highlight_reconstructs(line: Seq<u8>, spans: Seq<(usize, usize)>)
    requires
        spans_wf(spans, line.len() as int),
    ensures
        flatten_pieces(highlight_model(line, spans, 0)) == line,
{
    lemma_highlight_reconstructs_from(line, spans, 0);
    assert(line.subrange(0, line.len() as int) =~= line);
}

proof fn lemma_highlight_reconstructs_from(line: Seq<u8>, spans: Seq<(usize, usize)>, from: int)
    requires
        spans_wf(spans, line.len() as int),
        0 <= from <= line.len(),
        spans.len() > 0 ==> from <= spans[0].0,
    ensures
        flatten_pieces(highlight_model(line, spans, from)) == line.subrange(
            from,
            line.len() as int,
        ),
    decreases spans.len(),
{
    if spans.len() == 0 {
        let hm = highlight_model(line, spans, from);
        assert(hm.len() == 1);
        assert(hm.drop_first().len() == 0);
        assert(flatten_pieces(hm.drop_first()) == Seq::<u8>::empty());
        assert(flatten_pieces(hm) == hm[0].1 + flatten_pieces(hm.drop_first()));
        assert(flatten_pieces(hm) =~= line.subrange(from, line.len() as int));
    } else {
        let rest = spans.drop_first();
        assert(spans_wf(rest, line.len() as int)) by {
            assert(forall|i: int| 0 <= i < rest.len() ==> rest[i] == spans[i + 1]);
        }
        lemma_highlight_reconstructs_from(line, rest, spans[0].1 as int);
        let hm = highlight_model(line, spans, from);
        assert(hm.drop_first().drop_first() =~= highlight_model(line, rest, spans[0].1 as int));
        assert(flatten_pieces(hm) == hm[0].1 + flatten_pieces(hm.drop_first()));
        assert(flatten_pieces(hm.drop_first()) == hm.drop_first()[0].1 + flatten_pieces(
            hm.drop_first().drop_first(),
        ));
        assert(hm[0].1 == line.subrange(from, spans[0].0 as int));
        assert(hm.drop_first()[0].1 == line.subrange(spans[0].0 as int, spans[0].1 as int));
        assert(flatten_pieces(hm) =~= line.subrange(from, line.len() as int));
    }
}

/// Appending piece sequences appends their printed bytes.
proof fn lemma_flatten_append(a: Seq<(PieceKind, Seq<u8>)>, b: Seq<(PieceKind, Seq<u8>)>)
    ensures
        flatten_pieces(a + b) == flatten_pieces(a) + flatten_pieces(b),
    decreases a.len(),
{
    if a.len() == 0 {
        assert(a + b =~= b);
        assert(flatten_pieces(a) + flatten_pieces(b) =~= flatten_pieces(b));
    } else {
        assert((a + b).drop_first() =~= a.drop_first() + b);
        lemma_flatten_append(a.drop_first(), b);
        assert(flatten_pieces(a + b) =~= flatten_pieces(a) + flatten_pieces(b));
    }
}

/// Law: one whole formatted line prints as the label, the separator and the
/// line when the run is recursive and a label is present, and as the bare
/// line otherwise.
pub proof fn lemma_format_reconstructs(
    line: Seq<u8>,
    spans: Seq<(usize, usize)>,
    label: Option<Seq<u8>>,
    recursive: bool,
)
    requires
        spans_wf(spans, line.len() as int),
    ensures
        recursive && label is Some ==> flatten_pieces(
            format_model(line, spans, label, recursive),
        ) == label->0 + seq![SEP_BYTE] + line,
        !(recursive && label is Some) ==> flatten_pieces(
            format_model(line, spans, label, recursive),
        ) == line,
{
    lemma_highlight_reconstructs(line, spans);
    if recursive && label is Some {
        lemma_flatten_append(label_model(label->0), highlight_model(line, spans, 0));
        let lm = label_model(label->0);
        assert(lm.drop_first() =~= seq![(PieceKind::Sep, seq![SEP_BYTE])]);
        assert(lm.drop_first().drop_first().len() == 0);
        assert(flatten_pieces(lm.drop_first().drop_first()) == Seq::<u8>::empty());
        assert(flatten_pieces(lm.drop_first()) == lm.drop_first()[0].1 + flatten_pieces(
            lm.drop_first().drop_first(),
        ));
        assert(flatten_pieces(lm) == lm[0].1 + flatten_pieces(lm.drop_first()));
        assert(flatten_pieces(label_model(label->0)) =~= label->0 + seq![SEP_BYTE]);
        assert(flatten_pieces(format_model(line, spans, label, recursive)) =~= label->0 + seq![
            SEP_BYTE,
        ] + line);
    }
}

} // verus!
