//! The shared `compile -> load -> run -> render` pipeline, and the cores of
//! the two front ends that wire it to flags or to a configuration document.
//!
//! Everything here is a pure function from plain values to a result or a
//! fault; reading files, printing, and exiting stay with the caller.

use vstd::prelude::*;

use crate::adapter::{all_cells_fit, bytes_to_cells, cycles_from_u64, parse_cycles, values_to_cells};
use crate::config::{config_view, parse_config, spec_parse_config, Config, SpecConfig};
use crate::engine::{data_tape_of, program_tape_of, sb_source_to_tapes, TAPE_CAPACITY};
use crate::fault::{ConfigFault, Fault, LoadFault};
use crate::machine::Machine;
use crate::numeral::{dec_value, is_dec_numeral};
use crate::render::{numeric_listing, render_output, text_decoding_of, RenderMode};

verus! {

/// What one supervised run produced: the output tape, the number of steps
/// taken, and whether the machine halted on its own rather than being cut
/// off at the bound.
pub struct RunOutcome {
    /// A copy of the machine's output tape.
    pub output: Vec<u32>,
    /// The number of instruction steps the machine took.
    pub cycles_run: u32,
    /// Whether the machine halted on its own.
    pub halted: bool,
}

/// Whether both tapes compiled from a source text fit the machine.
pub open spec fn tapes_fit(source: Seq<char>) -> bool {
    program_tape_of(source).len() <= TAPE_CAPACITY && data_tape_of(source).len() <= TAPE_CAPACITY
}

/// The source compiler adapter: one source text, one pair of tapes, no
/// side effects and no failure path.
pub fn compile_source(source: &str) -> (r: (Vec<u8>, Vec<u32>))
    ensures
        r.0@ == program_tape_of(source@),
        r.1@ == data_tape_of(source@),
{
    sb_source_to_tapes(source)
}

/// Compile a source text, commit its tapes into a fresh machine holding the
/// given input queue, and supervise one bounded or unbounded run.
///
/// Succeeds exactly when both tapes fit the machine; a rejected tape is
/// reported as the load fault naming it, and with a bound of `n` the run
/// takes at most `n` steps — exactly `n` unless the machine halts on its
/// own first.  With no bound the run returns only on a natural halt.
pub fn execute_source(source: &str, input: Vec<u32>, cycles: Option<u32>) -> (r: Result<
    RunOutcome,
    Fault,
>)
    ensures
        r is Ok <==> tapes_fit(source@),
        program_tape_of(source@).len() > TAPE_CAPACITY ==> r matches Err(Fault::Load(
            LoadFault::ProgramTooLong,
        )),
        (program_tape_of(source@).len() <= TAPE_CAPACITY && data_tape_of(source@).len()
            > TAPE_CAPACITY) ==> r matches Err(Fault::Load(LoadFault::DataTooLong)),
        (match r {
            Ok(outcome) => (match cycles {
                Some(n) => outcome.cycles_run <= n && (!outcome.halted ==> outcome.cycles_run
                    == n),
                None => outcome.halted,
            }),
            Err(_) => true,
        }),
{
    let (program, data) = compile_source(source);
    let mut machine = Machine::new(input);
    match machine.load(&program, &data) {
        Err(f) => Err(f),
        Ok(()) => {
            let (cycles_run, halted) = machine.run(cycles);
            let output = machine.output();
            Ok(RunOutcome { output, cycles_run, halted })
        },
    }
}

/// The shared pipeline of both front ends: compile, load, run, render.
/// On success the result pairs the run's outcome with its rendering: the
/// string is exactly the chosen rendering of the outcome's output tape.
pub fn run_pipeline(source: &str, input: Vec<u32>, cycles: Option<u32>, mode: RenderMode) -> (r:
    Result<(RunOutcome, String), Fault>)
    ensures
        r is Ok <==> tapes_fit(source@),
        program_tape_of(source@).len() > TAPE_CAPACITY ==> r matches Err(Fault::Load(
            LoadFault::ProgramTooLong,
        )),
        (program_tape_of(source@).len() <= TAPE_CAPACITY && data_tape_of(source@).len()
            > TAPE_CAPACITY) ==> r matches Err(Fault::Load(LoadFault::DataTooLong)),
        (match r {
            Ok(p) => {
                &&& (mode matches RenderMode::Numeric ==> p.1@ == numeric_listing(p.0.output@))
                &&& (mode matches RenderMode::Text ==> p.1@.map_values(|c: char| c as u32)
                    == text_decoding_of(p.0.output@))
                &&& (match cycles {
                    Some(n) => p.0.cycles_run <= n && (!p.0.halted ==> p.0.cycles_run == n),
                    None => p.0.halted,
                })
            },
            Err(_) => true,
        }),
{
    match execute_source(source, input, cycles) {
        Err(f) => Err(f),
        Ok(outcome) => {
            let rendered = render_output(&outcome.output, mode);
            Ok((outcome, rendered))
        },
    }
}

/// Whether a textual cycle-count flag can be resolved.
pub open spec fn cycles_flag_ok(cycles_text: Option<Seq<char>>) -> bool {
    match cycles_text {
        Some(c) => is_dec_numeral(c) && dec_value(c) <= u32::MAX,
        None => true,
    }
}

/// The view of an optional flag text.
pub open spec fn flag_view(cycles_text: Option<&str>) -> Option<Seq<char>> {
    match cycles_text {
        Some(c) => Some(c@),
        None => None,
    }
}

/// The flag-driven front end's core: raw input bytes become cells one per
/// byte, the optional cycle flag becomes the bound, and the output toggle
/// picks the numeric listing or the lossy text decoding.
///
/// Succeeds exactly when the cycle flag (if given) is a numeral in range
/// and both compiled tapes fit the machine; the faults come in that order.
/// On success the result pairs the run's outcome with its rendering in the
/// toggled mode, and the run respects the resolved bound.
pub fn run_flag_driven(
    source: &str,
    input_bytes: &Vec<u8>,
    cycles_text: Option<&str>,
    bytes_output: bool,
) -> (r: Result<(RunOutcome, String), Fault>)
    ensures
        r is Ok <==> (cycles_flag_ok(flag_view(cycles_text)) && tapes_fit(source@)),
        !cycles_flag_ok(flag_view(cycles_text)) ==> r matches Err(Fault::Config(
            ConfigFault::BadCycleCount,
        )),
        (cycles_flag_ok(flag_view(cycles_text)) && program_tape_of(source@).len()
            > TAPE_CAPACITY) ==> r matches Err(Fault::Load(LoadFault::ProgramTooLong)),
        (cycles_flag_ok(flag_view(cycles_text)) && program_tape_of(source@).len()
            <= TAPE_CAPACITY && data_tape_of(source@).len() > TAPE_CAPACITY) ==> r matches Err(
            Fault::Load(LoadFault::DataTooLong),
        ),
        (match r {
            Ok(p) => {
                &&& (bytes_output ==> p.1@ == numeric_listing(p.0.output@))
                &&& (!bytes_output ==> p.1@.map_values(|c: char| c as u32) == text_decoding_of(
                    p.0.output@,
                ))
                &&& (match flag_view(cycles_text) {
                    Some(c) => p.0.cycles_run <= dec_value(c) && (!p.0.halted
                        ==> p.0.cycles_run == dec_value(c)),
                    None => p.0.halted,
                })
            },
            Err(_) => true,
        }),
{
    let bound: Option<u32> = match cycles_text {
        Some(text) => {
            match parse_cycles(text) {
                Ok(n) => Some(n),
                Err(f) => {
                    return Err(f);
                },
            }
        },
        None => None,
    };
    let cells = bytes_to_cells(input_bytes);
    let mode = if bytes_output {
        RenderMode::Numeric
    } else {
        RenderMode::Text
    };
    run_pipeline(source, cells, bound, mode)
}

/// Whether every configured input value fits the machine's cell width.
pub open spec fn spec_values_fit(values: Seq<int>) -> bool {
    forall|i: int| 0 <= i < values.len() ==> #[trigger] values[i] <= u32::MAX
}

/// Whether a configured runtime cap fits the cycle counter.
pub open spec fn spec_cap_fits(cap: Option<int>) -> bool {
    match cap {
        Some(m) => m <= u32::MAX,
        None => true,
    }
}

/// The config-driven front end's core: parse the declarative document,
/// adapt its input values and runtime cap, and run the shared pipeline.
/// On success the result pairs the run's outcome with its rendering, which
/// is always the numeric listing, and the run respects the configured cap.
///
/// The faults come in this order: a malformed document, an input value out
/// of cell range, a runtime cap out of counter range, a tape that does not
/// fit the machine.
pub fn run_config_driven(doc: &str) -> (r: Result<(RunOutcome, String), Fault>)
    ensures
        (match spec_parse_config(doc@) {
            Err(f) => r matches Err(Fault::Parse(pf)) && pf == f,
            Ok(sc) => {
                if !spec_values_fit(sc.input.unwrap()) {
                    r matches Err(Fault::Config(ConfigFault::CellOutOfRange))
                } else if !spec_cap_fits(sc.max_runtime) {
                    r matches Err(Fault::Config(ConfigFault::BadCycleCount))
                } else if program_tape_of(sc.source.unwrap()).len() > TAPE_CAPACITY {
                    r matches Err(Fault::Load(LoadFault::ProgramTooLong))
                } else if data_tape_of(sc.source.unwrap()).len() > TAPE_CAPACITY {
                    r matches Err(Fault::Load(LoadFault::DataTooLong))
                } else {
                    r matches Ok(p) && p.1@ == numeric_listing(p.0.output@) && (match sc
                        .max_runtime {
                        Some(m) => p.0.cycles_run <= m && (!p.0.halted ==> p.0.cycles_run == m),
                        None => p.0.halted,
                    })
                }
            },
        }),
{
    match parse_config(doc) {
        Err(f) => Err(f),
        Ok(config) => {
            let ghost sc = config_view(config);
            let Config { input, source, max_runtime } = config;
            proof {
                assert(sc.input.unwrap() == input@.map_values(|v: u64| v as int));
                assert forall|i: int| 0 <= i < input@.len() implies (#[trigger] input@[i]
                    <= u32::MAX) == (sc.input.unwrap()[i] <= u32::MAX) by {
                    assert(sc.input.unwrap()[i] == input@[i] as int);
                }
            }
            let cells = match values_to_cells(&input) {
                Ok(c) => c,
                Err(f) => {
                    proof {
                        assert(!spec_values_fit(sc.input.unwrap()));
                    }
                    return Err(f);
                },
            };
            proof {
                assert(spec_values_fit(sc.input.unwrap()));
            }
            let bound: Option<u32> = match max_runtime {
                Some(m) => {
                    match cycles_from_u64(m) {
                        Ok(n) => Some(n),
                        Err(f) => {
                            return Err(f);
                        },
                    }
                },
                None => None,
            };
            run_pipeline(source.as_str(), cells, bound, RenderMode::Numeric)
        },
    }
}

} // verus!
