//! General properties of the orchestration layer, stated and proved once,
//! beyond the contracts on the individual functions.
//!
//! Two further guarantees live directly on contracts rather than here: a
//! rejected load leaves the machine unchanged and unloaded (the `ensures`
//! of [`crate::machine::Machine::load`]), and a bounded run takes no more
//! steps than the bound admits while an unbounded run returns only on a
//! natural halt (the `ensures` of [`crate::machine::Machine::run`] and of
//! [`crate::pipeline::execute_source`]).

use vstd::prelude::*;

use crate::engine::{data_tape_of, is_scalar_value, program_tape_of};
use crate::render::text_decoding_of;

verus! {

/// The source compiler is deterministic: identical source texts always
/// yield identical program tapes and identical data tapes.
pub proof fn lemma_compile_deterministic(s1: Seq<char>, s2: Seq<char>)
    requires
        s1 == s2,
    ensures
        program_tape_of(s1) == program_tape_of(s2),
        data_tape_of(s1) == data_tape_of(s2),
{
}

/// The lossy text decoding of an empty output tape is the empty text.
pub proof fn lemma_text_decoding_empty(r: Seq<char>)
    requires
        r.map_values(|c: char| c as u32) == text_decoding_of(Seq::<u32>::empty()),
    ensures
        r == Seq::<char>::empty(),
{
    assert(Seq::<u32>::empty().filter(|c: u32| is_scalar_value(c)) =~= Seq::<u32>::empty());
    assert(r.map_values(|c: char| c as u32).len() == r.len());
    assert(r =~= Seq::<char>::empty());
}

/// The lossy text decoding is pure and repeatable: any two decodings of
/// the same output tape are the same text.
pub proof fn lemma_text_decoding_repeatable(a: Seq<char>, b: Seq<char>, t: Seq<u32>)
    requires
        a.map_values(|c: char| c as u32) == text_decoding_of(t),
        b.map_values(|c: char| c as u32) == text_decoding_of(t),
    ensures
        a == b,
{
    assert(a.map_values(|c: char| c as u32).len() == a.len());
    assert(b.map_values(|c: char| c as u32).len() == b.len());
    assert forall|i: int| 0 <= i < a.len() implies a[i] == b[i] by {
        assert(a.map_values(|c: char| c as u32)[i] == a[i] as u32);
        assert(b.map_values(|c: char| c as u32)[i] == b[i] as u32);
        assert(a[i] as u32 == b[i] as u32);
        vstd::utf8::char_u32_cast(a[i], a[i] as u32);
        vstd::utf8::char_u32_cast(b[i], b[i] as u32);
    }
    assert(a =~= b);
}

} // verus!
