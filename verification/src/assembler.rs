//! The instruction decoder and dispatcher.
//!
//! An instruction is a 16-bit word, stored in memory high byte first. The
//! decoder cuts the word into its fields; the dispatcher picks the operation
//! that the fields name and applies it to the processor.

use crate::emulator::{Emulator, Fault};
use crate::machine::Machine;
use vstd::prelude::*;

verus! {

/// The word made of `l_byte` as its high byte and `h_byte` as its low byte.
pub open spec fn merged(l_byte: u16, h_byte: u16) -> u16 {
    (l_byte << 8) | h_byte
}

/// The instruction class of a word: its top four bits, in place.
pub open spec fn opcode_id(word: u16) -> u16 {
    word & 0xF000
}

/// The first register operand of a word: its second group of four bits.
pub open spec fn opcode_x(word: u16) -> u8 {
    ((word & 0x0F00) >> 8) as u8
}

/// The second register operand of a word: its third group of four bits.
pub open spec fn opcode_y(word: u16) -> u8 {
    ((word & 0x00F0) >> 4) as u8
}

/// The four-bit immediate of a word: its lowest four bits.
pub open spec fn opcode_n(word: u16) -> u8 {
    (word & 0x000F) as u8
}

/// The eight-bit immediate of a word: its low byte.
pub open spec fn opcode_nn(word: u16) -> u8 {
    (word & 0x00FF) as u8
}

/// The address operand of a word: its lowest twelve bits.
pub open spec fn opcode_nnn(word: u16) -> u16 {
    word & 0x0FFF
}

/// The operand fields of a word are within their widths, and class and
/// address together make up the word.
pub proof fn lemma_opcode_fields(word: u16)
    ensures
        opcode_x(word) < 16,
        opcode_y(word) < 16,
        opcode_n(word) < 16,
        opcode_nnn(word) < 0x1000,
        opcode_id(word) | opcode_nnn(word) == word,
{
    assert(((word & 0x0F00) >> 8) < 16) by (bit_vector);
    assert(((word & 0x00F0) >> 4) < 16) by (bit_vector);
    assert((word & 0x000F) < 16) by (bit_vector);
    assert((word & 0x0FFF) < 0x1000) by (bit_vector);
    assert((word & 0xF000) | (word & 0x0FFF) == word) by (bit_vector);
}

/// The fields of a word are its hexadecimal digits: the class is the first
/// digit in place, `x` the second, `y` the third and `n` the last; `nn` is
/// the last two digits and `nnn` the last three.
pub proof fn lemma_opcode_digits(word: u16)
    ensures
        opcode_id(word) == (word / 0x1000) * 0x1000,
        opcode_x(word) == (word / 0x100) % 16,
        opcode_y(word) == (word / 0x10) % 16,
        opcode_n(word) == word % 16,
        opcode_nn(word) == word % 0x100,
        opcode_nnn(word) == word % 0x1000,
        word == opcode_id(word) + opcode_x(word) * 0x100 + opcode_y(word) * 0x10 + opcode_n(word),
{
    lemma_opcode_fields(word);
    assert(word == (word & 0xF000) + ((word & 0x0F00) >> 8) * 0x100 + ((word & 0x00F0) >> 4)
        * 0x10 + (word & 0x000F)) by (bit_vector);
    assert((word & 0xF000) == (word / 0x1000) * 0x1000) by (bit_vector);
    assert(((word & 0x0F00) >> 8) == (word / 0x100) % 16) by (bit_vector);
    assert(((word & 0x00F0) >> 4) == (word / 0x10) % 16) by (bit_vector);
    assert((word & 0x000F) == word % 16) by (bit_vector);
    assert((word & 0x00FF) == word % 0x100) by (bit_vector);
    assert((word & 0x0FFF) == word % 0x1000) by (bit_vector);
}

impl Machine {
    /// The instruction word at the program counter.
    pub open spec fn fetch_opcode(self) -> u16 {
        merged(self.byte_at(self.pc as int) as u16, self.byte_at(self.pc + 1) as u16)
    }

    /// Whether executing `word` is a fault: it is a return from subroutine
    /// and no call is outstanding.
    pub open spec fn faults(self, word: u16) -> bool {
        opcode_id(word) == 0x0000 && opcode_nn(word) == 0xEE && self.stack.len() == 0
    }

    /// The state after the instruction `word`. A word that names no
    /// operation, and one that faults, leave the state unchanged.
    pub open spec fn execute(self, word: u16) -> Machine {
        let x = opcode_x(word);
        let y = opcode_y(word);
        let n = opcode_n(word);
        let nn = opcode_nn(word);
        let nnn = opcode_nnn(word);
        let id = opcode_id(word);
        if id == 0x8000 {
            if n == 0x0 {
                self.set_vx_to_vy(x, y)
            } else if n == 0x1 {
                self.binary_or(x, y)
            } else if n == 0x2 {
                self.binary_and(x, y)
            } else if n == 0x3 {
                self.logical_xor(x, y)
            } else if n == 0x4 {
                self.add_vy_to_vx(x, y)
            } else if n == 0x5 {
                self.subtract_vx_vy(x, y)
            } else if n == 0x6 {
                self.shift_vx_right(x, y)
            } else if n == 0x7 {
                self.subtract_vy_vx(y, x)
            } else if n == 0xE {
                self.shift_vx_left(x, y)
            } else {
                self
            }
        } else if id == 0x0000 {
            if nn == 0xE0 {
                self.clear_screen()
            } else if nn == 0xEE {
                self.subroutine_return()
            } else {
                self
            }
        } else if id == 0xA000 {
            self.set_index(nnn)
        } else if id == 0x1000 {
            self.jump_to(nnn)
        } else if id == 0x2000 {
            self.call_subroutine(nnn)
        } else if id == 0x6000 {
            self.set_vx_to_nn(x, nn)
        } else if id == 0x7000 {
            self.add_to_vx(x, nn)
        } else if id == 0xD000 {
            self.update_pixels(x, y, n)
        } else {
            self
        }
    }
}

/// What an instruction leaves alone. No instruction writes to memory or to
/// a timer; only a draw and a clear-screen change the framebuffer; only a
/// draw raises the redraw flag; and only a jump, a call and a return move
/// the program counter.
pub proof fn lemma_execute_leaves_alone(m: Machine, word: u16)
    ensures
        m.execute(word).memory == m.memory,
        m.execute(word).delay == m.delay,
        m.execute(word).sound == m.sound,
        opcode_id(word) != 0xD000 && !(opcode_id(word) == 0x0000 && opcode_nn(word) == 0xE0)
            ==> m.execute(word).screen == m.screen,
        opcode_id(word) != 0xD000 ==> m.execute(word).redraw == m.redraw,
        opcode_id(word) != 0x1000 && opcode_id(word) != 0x2000 && !(opcode_id(word) == 0x0000
            && opcode_nn(word) == 0xEE) ==> m.execute(word).pc == m.pc,
{
}

/// An instruction keeps the fixed sizes of the state.
pub proof fn lemma_execute_keeps_wf(m: Machine, word: u16)
    requires
        m.wf(),
    ensures
        m.execute(word).wf(),
{
    lemma_opcode_fields(word);
}

/// Joins two bytes into a word, `l_byte` becoming the high byte.
pub fn merge_bytes(l_byte: u16, h_byte: u16) -> (word: u16)
    ensures
        word == merged(l_byte, h_byte),
        l_byte < 0x100 && h_byte < 0x100 ==> word == l_byte * 0x100 + h_byte,
{
    let mut word: u16 = l_byte;
    word <<= 8;
    word |= h_byte;
    proof {
        assert(l_byte < 0x100 && h_byte < 0x100 ==> ((l_byte << 8) | h_byte) == l_byte * 0x100
            + h_byte) by (bit_vector);
    }
    word
}

/// A decoded instruction: the class of the word and its operand fields.
pub struct Instruction {
    x: u8,
    y: u8,
    n: u8,
    nn: u8,
    nnn: u16,
    id: u16,
}

impl View for Instruction {
    type V = u16;

    /// The word that the instruction was decoded from.
    closed spec fn view(&self) -> u16 {
        self.id | self.nnn
    }
}

impl Instruction {
    /// The fields are the fields of one word.
    #[verifier::type_invariant]
    spec fn fields_agree(&self) -> bool {
        &&& self.id == opcode_id(self@)
        &&& self.x == opcode_x(self@)
        &&& self.y == opcode_y(self@)
        &&& self.n == opcode_n(self@)
        &&& self.nn == opcode_nn(self@)
        &&& self.nnn == opcode_nnn(self@)
    }

    fn from(id: u16, x: u8, y: u8, n: u8, nn: u8, nnn: u16) -> (instruction: Self)
        requires
            id == opcode_id(id | nnn),
            x == opcode_x(id | nnn),
            y == opcode_y(id | nnn),
            n == opcode_n(id | nnn),
            nn == opcode_nn(id | nnn),
            nnn == opcode_nnn(id | nnn),
        ensures
            instruction@ == id | nnn,
    {
        Self { x, y, n, nn, nnn, id }
    }

    /// Decodes `word`: cuts it into its class and operand fields.
    pub fn from_word(word: u16) -> (instruction: Self)
        ensures
            instruction@ == word,
    {
        proof {
            lemma_opcode_fields(word);
        }
        let x: u8 = ((word & 0x0F00) >> 8) as u8;
        let y: u8 = ((word & 0x00F0) >> 4) as u8;
        let n: u8 = (word & 0x000F) as u8;
        let nn: u8 = (word & 0x00FF) as u8;
        let nnn: u16 = word & 0x0FFF;
        let id: u16 = word & 0xF000;

        Instruction::from(id, x, y, n, nn, nnn)
    }

    /// The instruction class: the top four bits of the word, in place.
    pub fn id(&self) -> (id: u16)
        ensures
            id == opcode_id(self@),
    {
        proof {
            use_type_invariant(self);
        }
        self.id
    }

    /// The first register operand.
    pub fn x(&self) -> (x: u8)
        ensures
            x == opcode_x(self@),
            x < 16,
    {
        proof {
            use_type_invariant(self);
            lemma_opcode_fields(self@);
        }
        self.x
    }

    /// The second register operand.
    pub fn y(&self) -> (y: u8)
        ensures
            y == opcode_y(self@),
            y < 16,
    {
        proof {
            use_type_invariant(self);
            lemma_opcode_fields(self@);
        }
        self.y
    }

    /// The four-bit immediate.
    pub fn n(&self) -> (n: u8)
        ensures
            n == opcode_n(self@),
            n < 16,
    {
        proof {
            use_type_invariant(self);
            lemma_opcode_fields(self@);
        }
        self.n
    }

    /// The eight-bit immediate.
    pub fn nn(&self) -> (nn: u8)
        ensures
            nn == opcode_nn(self@),
    {
        proof {
            use_type_invariant(self);
        }
        self.nn
    }

    /// The address operand.
    pub fn nnn(&self) -> (nnn: u16)
        ensures
            nnn == opcode_nnn(self@),
            nnn < 0x1000,
    {
        proof {
            use_type_invariant(self);
            lemma_opcode_fields(self@);
        }
        self.nnn
    }
}

/// The decoder and dispatcher. Between fetch and decode it holds the two
/// bytes of the instruction word.
pub struct Assembler {
    l_byte: u8,
    h_byte: u8,
}

impl View for Assembler {
    type V = u16;

    /// The instruction word that was fetched last.
    closed spec fn view(&self) -> u16 {
        merged(self.l_byte as u16, self.h_byte as u16)
    }
}

impl Assembler {
    /// A decoder that has fetched nothing yet.
    pub fn new() -> (assembler: Self)
        ensures
            assembler@ == 0,
    {
        proof {
            assert((0u16 << 8) | 0u16 == 0) by (bit_vector);
        }
        Self { l_byte: 0, h_byte: 0 }
    }

    /// Reads the instruction word at the program counter.
    pub fn fetch_opcode(&mut self, emu: &Emulator)
        ensures
            final(self)@ == emu@.fetch_opcode(),
    {
        self.l_byte = emu.memory(emu.pc());
        self.h_byte = emu.memory(emu.pc().wrapping_add(1));
    }

    /// Decodes the word that was fetched and moves the program counter past
    /// it.
    pub fn decode(&self, emu: &mut Emulator) -> (instruction: Instruction)
        ensures
            instruction@ == self@,
            final(emu)@ == old(emu)@.fetch_next_opcode(),
    {
        let opcode: u16 = merge_bytes(self.l_byte as u16, self.h_byte as u16);

        emu.fetch_next_opcode();

        Instruction::from_word(opcode)
    }

    /// Applies the operation that `instruction` names to the processor. A
    /// word that names no operation does nothing. A return from subroutine
    /// with no call outstanding is a fault and changes nothing.
    pub fn execute(&self, emu: &mut Emulator, instruction: &Instruction) -> (done: Result<
        (),
        Fault,
    >)
        ensures
            done is Err <==> old(emu)@.faults(instruction@),
            final(emu)@ == old(emu)@.execute(instruction@),
            done is Err ==> done == Err::<(), Fault>(Fault::EmptyStack),
    {
        let x: u8 = instruction.x();
        let y: u8 = instruction.y();
        let n: u8 = instruction.n();
        match instruction.id() {
            0x8000 => match n {
                0x0 => emu.set_vx_to_vy(x, y),
                0x1 => emu.binary_or(x, y),
                0x2 => emu.binary_and(x, y),
                0x3 => emu.logical_xor(x, y),
                0x4 => emu.add_vy_to_vx(x, y),
                0x5 => emu.subtract_vx_vy(x, y),
                0x7 => emu.subtract_vy_vx(y, x),
                0x6 => emu.shift_vx_right(x, y),
                0xE => emu.shift_vx_left(x, y),
                _ => (),
            },
            0x0000 => match instruction.nn() {
                0xE0 => emu.clear_screen(),
                0xEE => {
                    return emu.subroutine_return();
                },
                _ => (),
            },
            0xA000 => emu.set_index(instruction.nnn()),
            0x1000 => emu.jump_to(instruction.nnn()),
            0x2000 => emu.call_subroutine(instruction.nnn()),
            0x6000 => emu.set_vx_to_nn(x, instruction.nn()),
            0x7000 => emu.add_to_vx(x, instruction.nn()),
            0xD000 => emu.update_pixels(x, y, n),
            _ => (),
        }
        Ok(())
    }
}

} // verus!
