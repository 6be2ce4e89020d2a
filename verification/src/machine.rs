//! The machine loader and execution supervisor.
//!
//! A [`Machine`] owns one engine instance and enforces its lifecycle: it is
//! constructed once, loaded at most once with exactly one program tape and
//! one data tape, run at most once, and only then queried for output.  The
//! loader validates both tapes before anything is committed, so a rejected
//! load leaves the machine exactly as it was — never partially loaded.

use vstd::prelude::*;

use crate::engine::{
    sb_get_output, sb_load_data, sb_load_program, sb_new, sb_run, vm_data, vm_output, vm_program,
    TAPE_CAPACITY,
};
use crate::fault::{Fault, LoadFault};

verus! {

/// One virtual-machine instance together with its lifecycle state.
pub struct Machine {
    vm: sbrain::SBrainVM,
    loaded: bool,
    executed: bool,
}

impl Machine {
    /// Whether the program and data tapes have been committed.
    pub closed spec fn spec_loaded(self) -> bool {
        self.loaded
    }

    /// Whether the machine has already been run.
    pub closed spec fn spec_executed(self) -> bool {
        self.executed
    }

    /// The output tape the machine has produced so far.
    pub closed spec fn output_view(self) -> Seq<u32> {
        vm_output(self.vm)
    }

    /// The cells of the machine's instruction tape.
    pub closed spec fn program_view(self) -> Seq<u8> {
        vm_program(self.vm)
    }

    /// The cells of the machine's data tape.
    pub closed spec fn data_view(self) -> Seq<u32> {
        vm_data(self.vm)
    }

    /// Construct a fresh machine whose input queue holds the given cells,
    /// whose output tape is empty, and whose instruction and data tapes are
    /// all zeros.  The machine is not yet loaded.
    pub fn new(input: Vec<u32>) -> (r: Machine)
        ensures
            !r.spec_loaded(),
            !r.spec_executed(),
            r.output_view() == Seq::<u32>::empty(),
            r.program_view() == Seq::new(TAPE_CAPACITY as nat, |i: int| 0u8),
            r.data_view() == Seq::new(TAPE_CAPACITY as nat, |i: int| 0u32),
    {
        Machine { vm: sb_new(input), loaded: false, executed: false }
    }

    /// Whether the program and data tapes have been committed.
    pub fn is_loaded(&self) -> (r: bool)
        ensures
            r == self.spec_loaded(),
    {
        self.loaded
    }

    /// Whether the machine has already been run.
    pub fn is_executed(&self) -> (r: bool)
        ensures
            r == self.spec_executed(),
    {
        self.executed
    }

    /// Validate and commit a program tape and a data tape.
    ///
    /// Both tapes are checked against the machine's capacity before either
    /// is committed: on rejection the fault names the offending tape and the
    /// machine is left untouched and unloaded, never partially loaded.  On
    /// success each tape is copied over the front of the machine's own tape,
    /// whose remaining cells keep their values.  The cell widths need no
    /// check — the tapes' element types are the machine's own cell types.
    pub fn load(&mut self, program: &Vec<u8>, data: &Vec<u32>) -> (r: Result<(), Fault>)
        requires
            !old(self).spec_loaded(),
            !old(self).spec_executed(),
        ensures
            r is Ok <==> (program@.len() <= TAPE_CAPACITY && data@.len() <= TAPE_CAPACITY),
            r is Ok ==> final(self).spec_loaded(),
            r is Ok ==> final(self).program_view() == program@ + old(self).program_view().skip(
                program@.len() as int,
            ),
            r is Ok ==> final(self).data_view() == data@ + old(self).data_view().skip(
                data@.len() as int,
            ),
            program@.len() > TAPE_CAPACITY ==> r matches Err(Fault::Load(
                LoadFault::ProgramTooLong,
            )),
            (program@.len() <= TAPE_CAPACITY && data@.len() > TAPE_CAPACITY) ==> r matches Err(
                Fault::Load(LoadFault::DataTooLong),
            ),
            r is Err ==> *final(self) == *old(self),
            !final(self).spec_executed(),
            final(self).output_view() == old(self).output_view(),
    {
        if program.len() > TAPE_CAPACITY {
            return Err(Fault::Load(LoadFault::ProgramTooLong));
        }
        if data.len() > TAPE_CAPACITY {
            return Err(Fault::Load(LoadFault::DataTooLong));
        }
        let program_ok = sb_load_program(&mut self.vm, program);
        let data_ok = sb_load_data(&mut self.vm, data);
        self.loaded = true;
        Ok(())
    }

    /// Run the loaded machine until it halts on its own or, when a bound is
    /// given, until the bound cuts it off — whichever comes first.  With a
    /// bound of `n` the machine takes at most `n` steps, and exactly `n`
    /// unless it halts on its own first; a bound of zero runs nothing.
    /// Returns the number of steps taken and whether the machine halted on
    /// its own; the caller is handed whatever output accumulated either way.
    /// The instruction tape is untouched by the run.  With no bound the run
    /// may not return at all.
    pub fn run(&mut self, cycles: Option<u32>) -> (r: (u32, bool))
        requires
            old(self).spec_loaded(),
            !old(self).spec_executed(),
        ensures
            final(self).spec_loaded(),
            final(self).spec_executed(),
            final(self).program_view() == old(self).program_view(),
            old(self).output_view().is_prefix_of(final(self).output_view()),
            (match cycles {
                Some(n) => r.0 <= n && (!r.1 ==> r.0 == n),
                None => r.1,
            }),
    {
        let stop_now = match cycles {
            Some(n) => n == 0,
            None => false,
        };
        if stop_now {
            // A bound of zero admits no step.  The engine, asked to run,
            // would still complete one instruction before first comparing
            // its step counter against the bound, so it is not asked.
            self.executed = true;
            proof {
                let out = old(self).output_view();
                assert(out =~= out.subrange(0, out.len() as int));
            }
            return (0, false);
        }
        let outcome = sb_run(&mut self.vm, cycles);
        self.executed = true;
        outcome
    }

    /// A copy of the output tape of the machine after its run.
    pub fn output(&self) -> (r: Vec<u32>)
        requires
            self.spec_executed(),
        ensures
            r@ == self.output_view(),
    {
        sb_get_output(&self.vm)
    }
}

} // verus!
