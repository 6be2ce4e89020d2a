//! The output renderer: a literal numeric listing of the output tape, or a
//! best-effort lossy text decoding of it.

use vstd::prelude::*;
use vstd::string::StringExecFns;

use crate::engine::{is_scalar_value, sb_tape_to_string};
use crate::numeral::{dec_rep, write_dec};

verus! {

/// How an output tape is shown to the user.
#[derive(Debug, Clone, Copy, PartialEq, Eq)]
pub enum RenderMode {
    /// A literal listing of the numeric cell values.
    Numeric,
    /// A lossy text decoding that drops cells outside the encodable range.
    Text,
}

/// The listing of the cells from position `i` on, separated by `, `.
pub open spec fn listing_from(t: Seq<u32>, i: int) -> Seq<char>
    decreases t.len() - i,
{
    if i < 0 || i >= t.len() {
        Seq::empty()
    } else if i == t.len() - 1 {
        dec_rep(t[i] as nat)
    } else {
        dec_rep(t[i] as nat) + seq![',', ' '] + listing_from(t, i + 1)
    }
}

/// The numeric listing of a whole tape: the cell values in decimal,
/// separated by `, `, between square brackets.
pub open spec fn numeric_listing(t: Seq<u32>) -> Seq<char> {
    seq!['['] + listing_from(t, 0) + seq![']']
}

/// The code points that survive the lossy text decoding of a tape: exactly
/// the cells that are Unicode scalar values, in order.
pub open spec fn text_decoding_of(t: Seq<u32>) -> Seq<u32> {
    t.filter(|c: u32| is_scalar_value(c))
}

/// Append the listing of the cells from position `i` on to `out`.
fn write_listing_from(out: &mut String, tape: &Vec<u32>, i: usize)
    requires
        i <= tape@.len(),
    ensures
        final(out)@ == old(out)@ + listing_from(tape@, i as int),
    decreases tape@.len() - i,
{
    if i < tape.len() {
        write_dec(out, tape[i]);
        if i + 1 < tape.len() {
            proof {
                reveal_strlit(", ");
            }
            out.append(", ");
            write_listing_from(out, tape, i + 1);
            proof {
                assert(", "@ =~= seq![',', ' ']);
                assert(old(out)@ + dec_rep(tape@[i as int] as nat) + seq![',', ' ']
                    + listing_from(tape@, i + 1) =~= old(out)@ + listing_from(tape@, i as int));
            }
        }
    }
}

/// Render the tape as a literal listing of its numeric cell values.
pub fn render_numeric(tape: &Vec<u32>) -> (r: String)
    ensures
        r@ == numeric_listing(tape@),
{
    let mut out = String::new();
    proof {
        reveal_strlit("[");
        reveal_strlit("]");
    }
    out.append("[");
    write_listing_from(&mut out, tape, 0);
    out.append("]");
    proof {
        assert(out@ =~= numeric_listing(tape@));
    }
    out
}

/// Render the tape as lossily decoded text: cells outside the encodable
/// range are dropped, never a fault.
pub fn render_text(tape: &Vec<u32>) -> (r: String)
    ensures
        r@.map_values(|c: char| c as u32) == text_decoding_of(tape@),
{
    sb_tape_to_string(tape)
}

/// Render the tape in the caller's chosen mode.
pub fn render_output(tape: &Vec<u32>, mode: RenderMode) -> (r: String)
    ensures
        (mode matches RenderMode::Numeric ==> r@ == numeric_listing(tape@)),
        (mode matches RenderMode::Text ==> r@.map_values(|c: char| c as u32) == text_decoding_of(
            tape@,
        )),
{
    match mode {
        RenderMode::Numeric => render_numeric(tape),
        RenderMode::Text => render_text(tape),
    }
}

} // verus!
