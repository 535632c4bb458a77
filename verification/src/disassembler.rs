//! The decoder and dispatcher by operation name.
//!
//! The instruction set is written down here as two tables of names: `Opcode`
//! for the operations that a word's class or low byte selects, `Logical` for
//! the register-to-register operations that the last four bits select within
//! their class. `Disassembler` dispatches over the names and does to the
//! processor exactly what `Assembler` does.

use crate::assembler::{merge_bytes, merged, opcode_id, opcode_nn};
use crate::emulator::{Emulator, Fault};
use vstd::prelude::*;

pub use crate::assembler::Instruction;

verus! {

/// The operations that the class of a word selects, and the two that the
/// low byte selects within the system class.
#[derive(Clone, Copy, Debug, PartialEq, Eq)]
pub enum Opcode {
    /// Transfer control to the address operand.
    Jump,
    /// Call the subroutine at the address operand.
    CallSubroutine,
    /// Return from the innermost subroutine.
    SubroutineReturn,
    /// Turn every pixel off.
    ClearScreen,
    /// Load the index register with the address operand.
    SetIndex,
    /// Load a register with the eight-bit immediate.
    Load,
    /// Add the eight-bit immediate to a register.
    Add,
    /// A register-to-register operation; see `Logical`.
    Logical,
    /// Draw a sprite.
    Display,
}

/// The register-to-register operations.
#[derive(Clone, Copy, Debug, PartialEq, Eq)]
pub enum Logical {
    /// `Vx := Vy`.
    Assign,
    /// `Vx := Vx | Vy`.
    Or,
    /// `Vx := Vx & Vy`.
    And,
    /// `Vx := Vx ^ Vy`.
    Xor,
    /// `Vx := Vx + Vy` with carry.
    Add,
    /// `Vx := Vx - Vy` with borrow.
    SubFive,
    /// `Vx := Vy - Vx` with borrow.
    SubSeven,
    /// `Vx := Vy >> 1`.
    ShiftRight,
    /// `Vx := Vy << 1`.
    ShiftLeft,
}

impl Opcode {
    /// The number that selects the operation: the class of the word, or for
    /// the two system operations the low byte.
    pub open spec fn code(self) -> u16 {
        match self {
            Opcode::Jump => 0x1000,
            Opcode::CallSubroutine => 0x2000,
            Opcode::SubroutineReturn => 0x00EE,
            Opcode::ClearScreen => 0x00E0,
            Opcode::SetIndex => 0xA000,
            Opcode::Load => 0x6000,
            Opcode::Add => 0x7000,
            Opcode::Logical => 0x8000,
            Opcode::Display => 0xD000,
        }
    }

    /// Whether `word` is an instruction of this operation.
    pub open spec fn selected_by(self, word: u16) -> bool {
        match self {
            Opcode::SubroutineReturn | Opcode::ClearScreen => opcode_id(word) == 0x0000
                && opcode_nn(word) == self.code(),
            _ => opcode_id(word) == self.code(),
        }
    }

    /// The operation that `word` is an instruction of, if any.
    pub open spec fn of_word(word: u16) -> Option<Opcode> {
        if Opcode::Jump.selected_by(word) {
            Some(Opcode::Jump)
        } else if Opcode::CallSubroutine.selected_by(word) {
            Some(Opcode::CallSubroutine)
        } else if Opcode::SubroutineReturn.selected_by(word) {
            Some(Opcode::SubroutineReturn)
        } else if Opcode::ClearScreen.selected_by(word) {
            Some(Opcode::ClearScreen)
        } else if Opcode::SetIndex.selected_by(word) {
            Some(Opcode::SetIndex)
        } else if Opcode::Load.selected_by(word) {
            Some(Opcode::Load)
        } else if Opcode::Add.selected_by(word) {
            Some(Opcode::Add)
        } else if Opcode::Logical.selected_by(word) {
            Some(Opcode::Logical)
        } else if Opcode::Display.selected_by(word) {
            Some(Opcode::Display)
        } else {
            None
        }
    }

    /// The operation that `instruction` names, if it names one.
    pub fn of(instruction: &Instruction) -> (opcode: Option<Opcode>)
        ensures
            opcode == Opcode::of_word(instruction@),
    {
        let id: u16 = instruction.id();
        if id == 0x0000 {
            let nn: u8 = instruction.nn();
            if nn == 0xEE {
                Some(Opcode::SubroutineReturn)
            } else if nn == 0xE0 {
                Some(Opcode::ClearScreen)
            } else {
                None
            }
        } else if id == 0x1000 {
            Some(Opcode::Jump)
        } else if id == 0x2000 {
            Some(Opcode::CallSubroutine)
        } else if id == 0xA000 {
            Some(Opcode::SetIndex)
        } else if id == 0x6000 {
            Some(Opcode::Load)
        } else if id == 0x7000 {
            Some(Opcode::Add)
        } else if id == 0x8000 {
            Some(Opcode::Logical)
        } else if id == 0xD000 {
            Some(Opcode::Display)
        } else {
            None
        }
    }
}

impl Logical {
    /// The number in the last four bits of a word that selects the operation.
    pub open spec fn code(self) -> u8 {
        match self {
            Logical::Assign => 0x0,
            Logical::Or => 0x1,
            Logical::And => 0x2,
            Logical::Xor => 0x3,
            Logical::Add => 0x4,
            Logical::SubFive => 0x5,
            Logical::SubSeven => 0x7,
            Logical::ShiftRight => 0x6,
            Logical::ShiftLeft => 0xE,
        }
    }

    /// The operation that the number `n` selects, if any.
    pub open spec fn of_code(n: u8) -> Option<Logical> {
        if n == Logical::Assign.code() {
            Some(Logical::Assign)
        } else if n == Logical::Or.code() {
            Some(Logical::Or)
        } else if n == Logical::And.code() {
            Some(Logical::And)
        } else if n == Logical::Xor.code() {
            Some(Logical::Xor)
        } else if n == Logical::Add.code() {
            Some(Logical::Add)
        } else if n == Logical::SubFive.code() {
            Some(Logical::SubFive)
        } else if n == Logical::SubSeven.code() {
            Some(Logical::SubSeven)
        } else if n == Logical::ShiftRight.code() {
            Some(Logical::ShiftRight)
        } else if n == Logical::ShiftLeft.code() {
            Some(Logical::ShiftLeft)
        } else {
            None
        }
    }

    /// The operation that `n` selects, if any.
    pub fn of(n: u8) -> (logical: Option<Logical>)
        ensures
            logical == Logical::of_code(n),
    {
        if n == 0x0 {
            Some(Logical::Assign)
        } else if n == 0x1 {
            Some(Logical::Or)
        } else if n == 0x2 {
            Some(Logical::And)
        } else if n == 0x3 {
            Some(Logical::Xor)
        } else if n == 0x4 {
            Some(Logical::Add)
        } else if n == 0x5 {
            Some(Logical::SubFive)
        } else if n == 0x7 {
            Some(Logical::SubSeven)
        } else if n == 0x6 {
            Some(Logical::ShiftRight)
        } else if n == 0xE {
            Some(Logical::ShiftLeft)
        } else {
            None
        }
    }
}

/// The two tables name each operation once: a word is an instruction of
/// `op` exactly where `op` is what the word is looked up as, and a number
/// selects `logical` exactly where it is the code of `logical`.
pub proof fn lemma_names_are_unambiguous(word: u16, op: Opcode, n: u8, logical: Logical)
    ensures
        Opcode::of_word(word) == Some(op) <==> op.selected_by(word),
        Logical::of_code(n) == Some(logical) <==> n == logical.code(),
{
}

/// The decoder and dispatcher by operation name. Between fetch and decode it
/// holds the two bytes of the instruction word.
pub struct Disassembler {
    l_byte: u8,
    h_byte: u8,
}

impl View for Disassembler {
    type V = u16;

    /// The instruction word that was fetched last.
    closed spec fn view(&self) -> u16 {
        merged(self.l_byte as u16, self.h_byte as u16)
    }
}

impl Disassembler {
    /// A decoder that has fetched nothing yet.
    pub fn new() -> (disassembler: Self)
        ensures
            disassembler@ == 0,
    {
        proof {
            assert((0u16 << 8) | 0u16 == 0) by (bit_vector);
        }
        Self { l_byte: 0, h_byte: 0 }
    }

    /// Reads the instruction word at the program counter.
    pub fn fetch_opcode(&mut self, emu: &Emulator)
        ensures
            final(self)@ == emu@.fetch_opcode(),
    {
        self.l_byte = emu.memory(emu.pc());
        self.h_byte = emu.memory(emu.pc().wrapping_add(1));
    }

    /// Decodes the word that was fetched and moves the program counter past
    /// it.
    pub fn decode(&self, emu: &mut Emulator) -> (instruction: Instruction)
        ensures
            instruction@ == self@,
            final(emu)@ == old(emu)@.fetch_next_opcode(),
    {
        let opcode: u16 = merge_bytes(self.l_byte as u16, self.h_byte as u16);

        emu.fetch_next_opcode();

        Instruction::from_word(opcode)
    }

    /// Applies the operation that `instruction` names to the processor. A
    /// word that names no operation does nothing. A return from subroutine
    /// with no call outstanding is a fault and changes nothing.
    pub fn execute(&self, emu: &mut Emulator, instruction: &Instruction) -> (done: Result<
        (),
        Fault,
    >)
        ensures
            done is Err <==> old(emu)@.faults(instruction@),
            final(emu)@ == old(emu)@.execute(instruction@),
            done is Err ==> done == Err::<(), Fault>(Fault::EmptyStack),
    {
        let x: u8 = instruction.x();
        let y: u8 = instruction.y();
        match Opcode::of(instruction) {
            Some(Opcode::Logical) => match Logical::of(instruction.n()) {
                Some(Logical::Assign) => emu.set_vx_to_vy(x, y),
                Some(Logical::Or) => emu.binary_or(x, y),
                Some(Logical::And) => emu.binary_and(x, y),
                Some(Logical::Xor) => emu.logical_xor(x, y),
                Some(Logical::Add) => emu.add_vy_to_vx(x, y),
                Some(Logical::SubFive) => emu.subtract_vx_vy(x, y),
                Some(Logical::SubSeven) => emu.subtract_vy_vx(y, x),
                Some(Logical::ShiftRight) => emu.shift_vx_right(x, y),
                Some(Logical::ShiftLeft) => emu.shift_vx_left(x, y),
                None => (),
            },
            Some(Opcode::ClearScreen) => emu.clear_screen(),
            Some(Opcode::SubroutineReturn) => {
                return emu.subroutine_return();
            },
            Some(Opcode::SetIndex) => emu.set_index(instruction.nnn()),
            Some(Opcode::Jump) => emu.jump_to(instruction.nnn()),
            Some(Opcode::CallSubroutine) => emu.call_subroutine(instruction.nnn()),
            Some(Opcode::Load) => emu.set_vx_to_nn(x, instruction.nn()),
            Some(Opcode::Add) => emu.add_to_vx(x, instruction.nn()),
            Some(Opcode::Display) => emu.update_pixels(x, y, instruction.n()),
            None => (),
        }
        Ok(())
    }
}

} // verus!
