//! The source compiler adapter and the supervised pipeline, run against the
//! real engine.

use sbrain_cli::fault::{Fault, LoadFault};
use sbrain_cli::pipeline::{compile_source, execute_source, run_flag_driven};

#[test]
fn compile_is_deterministic() {
    let a = compile_source("+[.>]@@abc # comment #");
    let b = compile_source("+[.>]@@abc # comment #");
    assert_eq!(a.0, b.0);
    assert_eq!(a.1, b.1);
}

#[test]
fn compile_known_opcodes() {
    // `+` is instruction 3; unknown characters are ignored.
    let (program, data) = compile_source("+++");
    assert_eq!(program, vec![3, 3, 3]);
    assert_eq!(data, Vec::<u32>::new());
}

#[test]
fn compile_data_section() {
    // `@@` opens the data section; the halt opcode 31 is emitted for the
    // first `@`, and the section's characters land on the data tape.
    let (program, data) = compile_source("@@AB");
    assert_eq!(program, vec![31]);
    assert_eq!(data, vec![65, 66]);
}

#[test]
fn bounded_run_of_simple_tapes() {
    // `>-+` compiles to program tape [1, 2, 3] and an empty data tape; the
    // load -> run -> output sequence must not fault within a bound of 10.
    let (program, data) = compile_source(">-+");
    assert_eq!(program, vec![1, 2, 3]);
    assert_eq!(data, Vec::<u32>::new());
    let outcome = execute_source(">-+", Vec::new(), Some(10)).unwrap();
    assert_eq!(outcome.cycles_run, 10);
    assert!(!outcome.halted);
    assert_eq!(outcome.output, Vec::<u32>::new());
}

#[test]
fn unbounded_run_halts_naturally() {
    // `@` halts at once, before any step completes.
    let outcome = execute_source("@", Vec::new(), None).unwrap();
    assert!(outcome.halted);
    assert_eq!(outcome.cycles_run, 0);
}

#[test]
fn bounded_run_never_exceeds_bound() {
    // `+[]` loops forever; a bound of 7 stops it after exactly 7 steps.
    let outcome = execute_source("+[]", Vec::new(), Some(7)).unwrap();
    assert_eq!(outcome.cycles_run, 7);
    assert!(!outcome.halted);
}

#[test]
fn zero_bound_executes_no_steps() {
    // A bound of zero runs nothing: no steps are taken and no output is
    // produced, even by a program that would write at once.
    let outcome = execute_source(".[]", Vec::new(), Some(0)).unwrap();
    assert_eq!(outcome.cycles_run, 0);
    assert!(!outcome.halted);
    assert_eq!(outcome.output, Vec::<u32>::new());
}

#[test]
fn zero_cycle_flag_prints_an_empty_listing() {
    let (outcome, text) = run_flag_driven(",.@", &vec![65], Some("0"), true).unwrap();
    assert_eq!(outcome.cycles_run, 0);
    assert_eq!(text, "[]");
}

#[test]
fn echo_program_decoded_output() {
    // `,` reads one input cell, `.` writes it to the output tape.
    let (outcome, text) = run_flag_driven(",.@", &vec![65], None, false).unwrap();
    assert!(outcome.halted);
    assert_eq!(text, "A");
}

#[test]
fn echo_program_numeric_output() {
    let (outcome, text) = run_flag_driven(",.@", &vec![65], None, true).unwrap();
    assert_eq!(outcome.output, vec![65]);
    assert_eq!(text, "[65]");
}

#[test]
fn input_queue_pops_from_the_back() {
    // The engine consumes the supplied input queue from its back, so two
    // reads see the bytes in reverse order.
    let (_, text) = run_flag_driven(",.,.@", &vec![65, 66], None, true).unwrap();
    assert_eq!(text, "[66, 65]");
}

#[test]
fn bad_cycle_flag_is_a_configuration_fault() {
    let r = run_flag_driven("+", &Vec::new(), Some("12x"), true);
    assert!(matches!(
        r,
        Err(Fault::Config(sbrain_cli::fault::ConfigFault::BadCycleCount))
    ));
}

#[test]
fn oversized_program_is_a_load_fault() {
    // 65537 `+` instructions compile to a program tape one cell over the
    // machine's capacity.
    let source: String = std::iter::repeat('+').take(65537).collect();
    let r = execute_source(&source, Vec::new(), Some(1));
    assert!(matches!(r, Err(Fault::Load(LoadFault::ProgramTooLong))));
}

#[test]
fn oversized_data_is_a_load_fault() {
    // A data section of 65537 characters overflows the data tape.
    let mut source = String::from("@@");
    source.extend(std::iter::repeat('a').take(65537));
    let r = execute_source(&source, Vec::new(), Some(1));
    assert!(matches!(r, Err(Fault::Load(LoadFault::DataTooLong))));
}
