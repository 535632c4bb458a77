//! The machine as the run loop drives it: set up, then one cycle at a time.

use crate::assembler::{lemma_execute_keeps_wf, opcode_id, opcode_nn, opcode_nnn, Assembler};
use crate::emulator::{Emulator, Fault};
use crate::machine::Machine;
use vstd::prelude::*;

verus! {

impl Machine {
    /// The state after one cycle: the instruction at the program counter is
    /// fetched, the program counter moves past it, the instruction is
    /// executed, and then the timers step. A cycle whose instruction faults
    /// changes nothing.
    pub open spec fn exec_cycle(self) -> Machine {
        if self.faults(self.fetch_opcode()) {
            self
        } else {
            self.fetch_next_opcode().execute(self.fetch_opcode()).update_timers()
        }
    }
}

impl Emulator {
    /// A processor ready for a program: the font table is in memory and the
    /// program counter is at the start of the program region.
    pub fn setup() -> (emu: Self)
        ensures
            emu@ == Machine::initial(),
    {
        Emulator::new()
    }

    /// Runs one cycle: fetch, decode, advance, execute, and then the timers.
    /// Where the instruction is a return from subroutine with no call
    /// outstanding, the cycle reports the fault and leaves the processor as
    /// it was.
    pub fn exec_cycle(&mut self) -> (done: Result<(), Fault>)
        ensures
            done is Err <==> old(self)@.faults(old(self)@.fetch_opcode()),
            final(self)@ == old(self)@.exec_cycle(),
            done is Err ==> done == Err::<(), Fault>(Fault::EmptyStack),
    {
        let mut assembler = Assembler::new();
        assembler.fetch_opcode(self);
        let pc: u16 = self.pc();
        let instruction = assembler.decode(self);
        match assembler.execute(self, &instruction) {
            Ok(()) => {
                self.update_timers();
                Ok(())
            },
            Err(fault) => {
                self.jump_to(pc);
                Err(fault)
            },
        }
    }
}

/// A call and the return that follows it bring the program counter to the
/// instruction after the call, with the stack as it was before.
///
/// The first cycle executes a call; the word at the address it calls is a
/// return, which the second cycle executes.
pub proof fn lemma_call_then_return_cycles(m: Machine)
    requires
        opcode_id(m.fetch_opcode()) == 0x2000,
        opcode_id(m.exec_cycle().fetch_opcode()) == 0x0000,
        opcode_nn(m.exec_cycle().fetch_opcode()) == 0xEE,
    ensures
        m.exec_cycle().pc == opcode_nnn(m.fetch_opcode()),
        m.exec_cycle().exec_cycle().pc == m.fetch_next_opcode().pc,
        m.exec_cycle().exec_cycle().stack == m.stack,
{
    let called = m.exec_cycle();
    assert(called.stack == m.stack.push(m.fetch_next_opcode().pc));
    assert(called.stack.drop_last() == m.stack);
}

/// A cycle keeps the fixed sizes of the state.
pub proof fn lemma_cycle_keeps_wf(m: Machine)
    requires
        m.wf(),
    ensures
        m.exec_cycle().wf(),
{
    lemma_execute_keeps_wf(m.fetch_next_opcode(), m.fetch_opcode());
}

/// No cycle writes to memory: what was loaded stays as it was loaded.
pub proof fn lemma_cycle_keeps_memory(m: Machine)
    ensures
        m.exec_cycle().memory == m.memory,
{
}

/// A cycle moves each timer one step towards zero and never below it.
pub proof fn lemma_cycle_steps_timers(m: Machine)
    requires
        !m.faults(m.fetch_opcode()),
    ensures
        m.exec_cycle().delay == (if m.delay > 0 {
            m.delay - 1
        } else {
            0
        }),
        m.exec_cycle().sound == (if m.sound > 0 {
            m.sound - 1
        } else {
            0
        }),
{
}

} // verus!
