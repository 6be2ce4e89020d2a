//! Trusted boundary around the external `sbrain` virtual-machine crate.
//!
//! The per-instruction execution semantics of the machine are out of this
//! library's scope; the engine is consumed as an opaque collaborator through
//! the handful of entry points declared here.  Everything the verified code
//! knows about the engine is what these contracts state, so each item names
//! the external function it relies on.

use vstd::prelude::*;

verus! {

/// Number of cells on each of the machine's two tapes: the engine provides
/// exactly 2^16 instruction cells and 2^16 data cells, so no longer tape can
/// be committed.
pub const TAPE_CAPACITY: usize = 65536;

#[verifier::external_type_specification]
#[verifier::external_body]
pub struct ExSBrainVM(sbrain::SBrainVM);

/// The program tape that the engine's compiler produces for a source text.
/// The compiler is a pure function of the text, so its result can be named.
pub uninterp spec fn program_tape_of(source: Seq<char>) -> Seq<u8>;

/// The data tape that the engine's compiler produces for a source text.
pub uninterp spec fn data_tape_of(source: Seq<char>) -> Seq<u32>;

/// The output tape a machine instance has produced so far.
pub uninterp spec fn vm_output(m: sbrain::SBrainVM) -> Seq<u32>;

/// The cells of a machine instance's instruction tape.
pub uninterp spec fn vm_program(m: sbrain::SBrainVM) -> Seq<u8>;

/// The cells of a machine instance's data tape.
pub uninterp spec fn vm_data(m: sbrain::SBrainVM) -> Seq<u32>;

/// A cell value that is a Unicode scalar value, hence representable as one
/// character by a lossy text decoding.
pub open spec fn is_scalar_value(c: u32) -> bool {
    c < 0xD800 || (0xE000 <= c && c <= 0x10FFFF)
}

/// The number of steps the engine's own bounded run may actually take: it
/// completes one step before it first compares against the bound, so asked
/// for a bound of zero it would still take a single step.  Only the trusted
/// contract of [`sb_run`] speaks of this; the library never asks the engine
/// to run with a bound of zero, so its public contracts promise the plain
/// bound.
pub open spec fn cap1(n: u32) -> u32 {
    if n == 0 {
        1u32
    } else {
        n
    }
}

/// Relies on `sbrain::source_to_tapes`: the tapes are a function of the
/// source text alone, with no side effects and no failure path.
#[verifier::external_body]
pub(crate) fn sb_source_to_tapes(source: &str) -> (r: (Vec<u8>, Vec<u32>))
    ensures
        r.0@ == program_tape_of(source@),
        r.1@ == data_tape_of(source@),
{
    sbrain::source_to_tapes(source)
}

/// Relies on `sbrain::SBrainVM::new`: a fresh machine starts with an empty
/// output tape and all-zero instruction and data tapes of exactly
/// `TAPE_CAPACITY` cells each.  The input queue is always supplied, which
/// keeps the engine away from the process's standard input.
#[verifier::external_body]
pub(crate) fn sb_new(input: Vec<u32>) -> (r: sbrain::SBrainVM)
    ensures
        vm_output(r) == Seq::<u32>::empty(),
        vm_program(r) == Seq::new(TAPE_CAPACITY as nat, |i: int| 0u8),
        vm_data(r) == Seq::new(TAPE_CAPACITY as nat, |i: int| 0u32),
{
    sbrain::SBrainVM::new(Some(input))
}

/// Relies on `sbrain::SBrainVM::load_program`: the load is refused exactly
/// when the program has more cells than the instruction tape.  On success
/// the program is copied over the front of the instruction tape, whose
/// remaining cells keep their values; on refusal nothing is written.  The
/// data and output tapes are never touched.
#[verifier::external_body]
pub(crate) fn sb_load_program(m: &mut sbrain::SBrainVM, program: &Vec<u8>) -> (r: bool)
    ensures
        r <==> program@.len() <= TAPE_CAPACITY,
        r ==> vm_program(*final(m)) == program@ + vm_program(*old(m)).skip(
            program@.len() as int,
        ),
        !r ==> vm_program(*final(m)) == vm_program(*old(m)),
        vm_data(*final(m)) == vm_data(*old(m)),
        vm_output(*final(m)) == vm_output(*old(m)),
{
    m.load_program(program.as_slice()).is_ok()
}

/// Relies on `sbrain::SBrainVM::load_data`: the load is refused exactly when
/// the data has more cells than the data tape.  On success the data is
/// copied over the front of the data tape, whose remaining cells keep their
/// values; on refusal nothing is written.  The instruction and output tapes
/// are never touched.
#[verifier::external_body]
pub(crate) fn sb_load_data(m: &mut sbrain::SBrainVM, data: &Vec<u32>) -> (r: bool)
    ensures
        r <==> data@.len() <= TAPE_CAPACITY,
        r ==> vm_data(*final(m)) == data@ + vm_data(*old(m)).skip(data@.len() as int),
        !r ==> vm_data(*final(m)) == vm_data(*old(m)),
        vm_program(*final(m)) == vm_program(*old(m)),
        vm_output(*final(m)) == vm_output(*old(m)),
{
    m.load_data(data.as_slice()).is_ok()
}

/// Relies on `sbrain::SBrainVM::run`: the machine runs until it halts on its
/// own or, with a bound, until the step counter reaches the bound.  The
/// result pairs the number of steps taken with whether the machine halted on
/// its own (`true`) rather than being cut off at the bound (`false`).  The
/// output tape only ever grows, and the instruction tape is read, never
/// written.  With no bound the call returns only on a natural halt, so it
/// may not return at all.
#[verifier::external_body]
pub(crate) fn sb_run(m: &mut sbrain::SBrainVM, cycles: Option<u32>) -> (r: (u32, bool))
    ensures
        vm_output(*old(m)).is_prefix_of(vm_output(*final(m))),
        vm_program(*final(m)) == vm_program(*old(m)),
        (match cycles {
            Some(n) => r.0 <= cap1(n) && (!r.1 ==> r.0 == cap1(n)),
            None => r.1,
        }),
{
    m.run(cycles)
}

/// Relies on `sbrain::SBrainVM::get_output`: returns a copy of the output
/// tape produced so far.
#[verifier::external_body]
pub(crate) fn sb_get_output(m: &sbrain::SBrainVM) -> (r: Vec<u32>)
    ensures
        r@ == vm_output(*m),
{
    m.get_output()
}

/// Relies on `sbrain::tape_to_string`: the lossy decoding keeps exactly the
/// cells that are Unicode scalar values, in order, each as the character it
/// encodes; other cells are dropped, never a fault.
#[verifier::external_body]
pub(crate) fn sb_tape_to_string(tape: &Vec<u32>) -> (r: String)
    ensures
        r@.map_values(|c: char| c as u32) == tape@.filter(|c: u32| is_scalar_value(c)),
{
    sbrain::tape_to_string(tape.clone())
}

} // verus!
