//! The machine loader: capacity checks, fault reporting, and the unloaded
//! state after a rejected load.

use sbrain_cli::fault::{Fault, LoadFault};
use sbrain_cli::machine::Machine;

#[test]
fn load_accepts_tapes_at_capacity() {
    let mut m = Machine::new(Vec::new());
    assert!(!m.is_loaded());
    let program = vec![0u8; 65536];
    let data = vec![0u32; 65536];
    assert_eq!(m.load(&program, &data), Ok(()));
    assert!(m.is_loaded());
}

#[test]
fn oversized_program_tape_is_rejected() {
    let mut m = Machine::new(Vec::new());
    let program = vec![0u8; 65537];
    let data: Vec<u32> = Vec::new();
    let r = m.load(&program, &data);
    assert_eq!(r, Err(Fault::Load(LoadFault::ProgramTooLong)));
    assert!(!m.is_loaded());
}

#[test]
fn oversized_data_tape_is_rejected() {
    let mut m = Machine::new(Vec::new());
    let program: Vec<u8> = Vec::new();
    let data = vec![0u32; 65537];
    let r = m.load(&program, &data);
    assert_eq!(r, Err(Fault::Load(LoadFault::DataTooLong)));
    assert!(!m.is_loaded());
}

#[test]
fn run_and_query_after_load() {
    let mut m = Machine::new(Vec::new());
    // `@` is the halt opcode.
    let program = vec![31u8];
    let data: Vec<u32> = Vec::new();
    assert_eq!(m.load(&program, &data), Ok(()));
    assert!(!m.is_executed());
    let (cycles, halted) = m.run(Some(5));
    assert!(m.is_executed());
    assert!(halted);
    assert_eq!(cycles, 0);
    assert_eq!(m.output(), Vec::<u32>::new());
}

#[test]
fn output_collects_what_the_program_wrote() {
    let mut m = Machine::new(Vec::new());
    // `+++.` : three increments, then write the cell to the output tape.
    let program = vec![3u8, 3, 3, 6, 31];
    let data: Vec<u32> = Vec::new();
    assert_eq!(m.load(&program, &data), Ok(()));
    m.run(None);
    assert_eq!(m.output(), vec![3]);
}
