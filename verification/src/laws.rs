//! Laws of the fatal reporting path, stated over the banner that the entry
//! points are proved to emit: what each surface ends up holding, that the
//! payload and the source location appear verbatim on the primary surface,
//! and that the primary surface is written in full before the secondary
//! surface is touched.

use crate::report::{banner, body_text, closing_text, header_text, separator, Surface};
use crate::text::decimal_of;
use vstd::prelude::*;

verus! {

/// Everything a surface receives from a write log, in order: the
/// concatenation of the texts of the writes addressed to it.
pub open spec fn surface_content(log: Seq<(Surface, Seq<char>)>, s: Surface) -> Seq<char>
    decreases log.len(),
{
    if log.len() == 0 {
        Seq::empty()
    } else {
        (if log[0].0 == s {
            log[0].1
        } else {
            Seq::empty()
        }) + surface_content(log.skip(1), s)
    }
}

/// The banner leaves the four texts, in order, on the primary surface and
/// nothing on the secondary surface.
pub proof fn lemma_banner_content(file: Seq<char>, line: nat, msg: Seq<char>)
    ensures
        surface_content(banner(file, line, msg), Surface::Primary) == separator() + header_text(
            file,
            line,
        ) + body_text(msg) + closing_text(),
        surface_content(banner(file, line, msg), Surface::Secondary) == Seq::<char>::empty(),
{
    reveal_with_fuel(surface_content, 6);
    let b = banner(file, line, msg);
    let b1 = b.skip(1);
    let b2 = b.skip(2);
    let b3 = b.skip(3);
    let b4 = b.skip(4);
    let b5 = b.skip(5);
    assert(b1 =~= seq![
        (Surface::Primary, header_text(file, line)),
        (Surface::Primary, body_text(msg)),
        (Surface::Primary, closing_text()),
        (Surface::Secondary, Seq::<char>::empty()),
    ]);
    assert(b1.skip(1) =~= b2);
    assert(b2 =~= seq![
        (Surface::Primary, body_text(msg)),
        (Surface::Primary, closing_text()),
        (Surface::Secondary, Seq::<char>::empty()),
    ]);
    assert(b2.skip(1) =~= b3);
    assert(b3 =~= seq![
        (Surface::Primary, closing_text()),
        (Surface::Secondary, Seq::<char>::empty()),
    ]);
    assert(b3.skip(1) =~= b4);
    assert(b4 =~= seq![(Surface::Secondary, Seq::<char>::empty())]);
    assert(b4.skip(1) =~= b5);
    assert(b5 =~= Seq::<(Surface, Seq<char>)>::empty());
    assert(surface_content(b, Surface::Primary) =~= separator() + header_text(file, line)
        + body_text(msg) + closing_text());
    assert(surface_content(b, Surface::Secondary) =~= Seq::<char>::empty());
}

/// A middle segment of a three-way concatenation is recovered by taking the
/// subrange at its offset.
proof fn lemma_mid_subrange(pre: Seq<char>, mid: Seq<char>, post: Seq<char>)
    ensures
        (pre + mid + post).subrange(pre.len() as int, pre.len() + mid.len() as int) == mid,
{
    assert((pre + mid + post).subrange(pre.len() as int, pre.len() + mid.len() as int) =~= mid);
}

/// Law: for every payload, the primary surface's content carries the
/// payload's rendering as one contiguous substring.
pub proof fn lemma_payload_on_primary(file: Seq<char>, line: nat, msg: Seq<char>)
    ensures
        exists|i: int|
            0 <= i && i + msg.len() <= surface_content(
                banner(file, line, msg),
                Surface::Primary,
            ).len() && #[trigger] surface_content(banner(file, line, msg), Surface::Primary).subrange(
                i,
                i + msg.len(),
            ) == msg,
{
    lemma_banner_content(file, line, msg);
    let c = surface_content(banner(file, line, msg), Surface::Primary);
    let pre = separator() + header_text(file, line) + "    "@;
    let post = "\n"@ + closing_text();
    assert(c =~= pre + msg + post);
    lemma_mid_subrange(pre, msg, post);
    let i = pre.len() as int;
    assert(0 <= i && i + msg.len() <= c.len() && c.subrange(i, i + msg.len()) == msg);
}

/// Law: the banner names the fault's location verbatim — the file name and
/// the decimal rendering of the line number each appear as a contiguous
/// substring of the primary surface's content.
pub proof fn lemma_location_on_primary(file: Seq<char>, line: nat, msg: Seq<char>)
    ensures
        exists|i: int|
            0 <= i && i + file.len() <= surface_content(
                banner(file, line, msg),
                Surface::Primary,
            ).len() && #[trigger] surface_content(banner(file, line, msg), Surface::Primary).subrange(
                i,
                i + file.len(),
            ) == file,
        exists|i: int|
            0 <= i && i + decimal_of(line).len() <= surface_content(
                banner(file, line, msg),
                Surface::Primary,
            ).len() && #[trigger] surface_content(banner(file, line, msg), Surface::Primary).subrange(
                i,
                i + decimal_of(line).len(),
            ) == decimal_of(line),
{
    lemma_banner_content(file, line, msg);
    let c = surface_content(banner(file, line, msg), Surface::Primary);
    let pre_file = separator() + "PANIC in "@;
    let post_file = " at line "@ + decimal_of(line) + ":\n"@ + body_text(msg) + closing_text();
    assert(c =~= pre_file + file + post_file);
    lemma_mid_subrange(pre_file, file, post_file);
    let i_file = pre_file.len() as int;
    assert(0 <= i_file && i_file + file.len() <= c.len() && c.subrange(
        i_file,
        i_file + file.len(),
    ) == file);
    let pre_line = separator() + "PANIC in "@ + file + " at line "@;
    let post_line = ":\n"@ + body_text(msg) + closing_text();
    assert(c =~= pre_line + decimal_of(line) + post_line);
    lemma_mid_subrange(pre_line, decimal_of(line), post_line);
    let i_line = pre_line.len() as int;
    assert(0 <= i_line && i_line + decimal_of(line).len() <= c.len() && c.subrange(
        i_line,
        i_line + decimal_of(line).len(),
    ) == decimal_of(line));
}

/// Law: the surfaces are touched in a fixed order — in the emission log,
/// every write to the primary surface stands before every write to the
/// secondary surface.
pub proof fn lemma_primary_before_secondary(file: Seq<char>, line: nat, msg: Seq<char>)
    ensures
        forall|i: int, j: int|
            0 <= i < banner(file, line, msg).len() && 0 <= j < banner(file, line, msg).len() && (
            #[trigger] banner(file, line, msg)[i]).0 == Surface::Primary && (#[trigger] banner(
                file,
                line,
                msg,
            )[j]).0 == Surface::Secondary ==> i < j,
{
    let b = banner(file, line, msg);
    assert forall|i: int, j: int|
        0 <= i < b.len() && 0 <= j < b.len() && (#[trigger] b[i]).0 == Surface::Primary && (
        #[trigger] b[j]).0 == Surface::Secondary implies i < j by {
        assert(b[0].0 == Surface::Primary);
        assert(b[1].0 == Surface::Primary);
        assert(b[2].0 == Surface::Primary);
        assert(b[3].0 == Surface::Primary);
        assert(b[4].0 == Surface::Secondary);
    }
}

} // verus!
