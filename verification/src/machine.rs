//! The mathematical model of the virtual machine.
//!
//! A [`Machine`] is the whole visible state of the processor as plain
//! sequences and integers. Every operation of the executable emulator is
//! specified as a function from one `Machine` to the next.

use vstd::prelude::*;

verus! {

/// Width of the framebuffer in pixels.
pub const SCREEN_WIDTH: usize = 64;

/// Height of the framebuffer in pixels.
pub const SCREEN_HEIGHT: usize = 32;

/// Number of pixels of the framebuffer, stored row by row.
pub const SCREEN_SIZE: usize = 2048;

/// Number of addressable bytes.
pub const MEM_SIZE: usize = 4096;

/// Number of general registers; the last one doubles as the flag register.
pub const REG_SIZE: usize = 16;

/// Address at which programs are loaded and at which execution starts.
pub const START_INDEX: u16 = 0x200;

/// Number of bytes of the built-in font table.
pub const FONT_SIZE: usize = 80;

/// The largest program that fits between `START_INDEX` and the end of memory.
pub const MAX_ROM_SIZE: usize = 3584;

/// Index of the register that instructions use to report carry, borrow,
/// the bit lost by a shift, and sprite collision.
pub const FLAG_REGISTER: u8 = 0xF;

/// The built-in sprites of the sixteen hexadecimal digits, five rows each.
pub const FONT_SPRITES: [u8; 80] = [
    0xF0, 0x90, 0x90, 0x90, 0xF0,
    0x20, 0x60, 0x20, 0x20, 0x70,
    0xF0, 0x10, 0xF0, 0x80, 0xF0,
    0xF0, 0x10, 0xF0, 0x10, 0xF0,
    0x90, 0x90, 0xF0, 0x10, 0x10,
    0xF0, 0x80, 0xF0, 0x10, 0xF0,
    0xF0, 0x80, 0xF0, 0x90, 0xF0,
    0xF0, 0x10, 0x20, 0x10, 0x40,
    0xF0, 0x90, 0xF0, 0x90, 0xF0,
    0xF0, 0x90, 0xF0, 0x10, 0xF0,
    0xF0, 0x90, 0xF0, 0x90, 0x90,
    0xE0, 0x90, 0xE0, 0x90, 0xE0,
    0xF0, 0x80, 0x80, 0x80, 0xF0,
    0xE0, 0x90, 0x90, 0x90, 0xE0,
    0xF0, 0x80, 0xF0, 0x80, 0xF0,
    0xF0, 0x80, 0xF0, 0x80, 0x80,
];

/// Whether bit `k` of `byte` is set, bit 0 being the least significant.
pub open spec fn bit_is_set(byte: u8, k: u8) -> bool {
    (byte >> k) & 1 == 1
}

/// The visible state of the processor.
#[verifier::ext_equal]
pub struct Machine {
    /// The addressable bytes; `MEM_SIZE` of them.
    pub memory: Seq<u8>,
    /// The general registers; `REG_SIZE` of them.
    pub registers: Seq<u8>,
    /// The framebuffer, row by row; `SCREEN_SIZE` pixels.
    pub screen: Seq<bool>,
    /// The return addresses of the subroutines being run, innermost last.
    pub stack: Seq<u16>,
    /// Address of the next instruction.
    pub pc: u16,
    /// The index register, the base address of sprite data.
    pub index: u16,
    /// The delay timer.
    pub delay: u8,
    /// The sound timer.
    pub sound: u8,
    /// Whether the framebuffer has been drawn to since it was last presented.
    pub redraw: bool,
}

impl Machine {
    /// The three fixed-size components have their sizes.
    pub open spec fn wf(self) -> bool {
        &&& self.memory.len() == MEM_SIZE
        &&& self.registers.len() == REG_SIZE
        &&& self.screen.len() == SCREEN_SIZE
    }

    /// The state at power-on: the font table at the bottom of memory,
    /// everything else zero, and the program counter at `START_INDEX`.
    pub open spec fn initial() -> Machine {
        Machine {
            memory: Seq::new(
                MEM_SIZE as nat,
                |a: int| if a < FONT_SIZE { FONT_SPRITES@[a] } else { 0u8 },
            ),
            registers: Seq::new(REG_SIZE as nat, |i: int| 0u8),
            screen: Seq::new(SCREEN_SIZE as nat, |i: int| false),
            stack: Seq::empty(),
            pc: START_INDEX,
            index: 0,
            delay: 0,
            sound: 0,
            redraw: false,
        }
    }

    /// Register `i`.
    pub open spec fn reg(self, i: u8) -> u8 {
        self.registers[i as int]
    }

    /// The flag register.
    pub open spec fn flag(self) -> u8 {
        self.registers[FLAG_REGISTER as int]
    }

    /// The byte that an address selects. Addresses are reduced to the twelve
    /// bits that memory has.
    pub open spec fn byte_at(self, addr: int) -> u8 {
        self.memory[addr % (MEM_SIZE as int)]
    }

    /// Register `i` set to `v`.
    pub open spec fn set_reg(self, i: u8, v: u8) -> Machine {
        Machine { registers: self.registers.update(i as int, v), ..self }
    }

    /// The flag register set to `v`.
    pub open spec fn set_vf(self, v: u8) -> Machine {
        self.set_reg(FLAG_REGISTER, v)
    }

    /// The byte at address `addr` set to `v`.
    pub open spec fn memory_add(self, addr: int, v: u8) -> Machine {
        Machine { memory: self.memory.update(addr, v), ..self }
    }

    /// The delay timer set to `v`.
    pub open spec fn set_delay_timer(self, v: u8) -> Machine {
        Machine { delay: v, ..self }
    }

    /// The sound timer set to `v`.
    pub open spec fn set_sound_timer(self, v: u8) -> Machine {
        Machine { sound: v, ..self }
    }

    /// The redraw flag taken down.
    pub open spec fn update_screen(self) -> Machine {
        Machine { redraw: false, ..self }
    }

    /// The program `rom` copied to `START_INDEX` and the addresses after it.
    pub open spec fn load_rom(self, rom: Seq<u8>) -> Machine {
        Machine {
            memory: Seq::new(
                MEM_SIZE as nat,
                |a: int|
                    if START_INDEX <= a < START_INDEX + rom.len() {
                        rom[a - START_INDEX]
                    } else {
                        self.memory[a]
                    },
            ),
            ..self
        }
    }

    /// The program counter moved past one instruction. It is a 16-bit
    /// register and wraps as one.
    pub open spec fn fetch_next_opcode(self) -> Machine {
        Machine { pc: ((self.pc + 2) % 0x1_0000) as u16, ..self }
    }

    /// Every pixel off.
    pub open spec fn clear_screen(self) -> Machine {
        Machine { screen: Seq::new(SCREEN_SIZE as nat, |i: int| false), ..self }
    }

    /// Control transferred to `nnn`.
    pub open spec fn jump_to(self, nnn: u16) -> Machine {
        Machine { pc: nnn, ..self }
    }

    /// The program counter saved on the stack and control transferred to
    /// `nnn`.
    pub open spec fn call_subroutine(self, nnn: u16) -> Machine {
        Machine { stack: self.stack.push(self.pc), pc: nnn, ..self }
    }

    /// Control transferred back to the innermost return address, which
    /// leaves the stack. With an empty stack there is nowhere to return to
    /// and the state stays as it is.
    pub open spec fn subroutine_return(self) -> Machine {
        if self.stack.len() > 0 {
            Machine { pc: self.stack.last(), stack: self.stack.drop_last(), ..self }
        } else {
            self
        }
    }

    /// `Vx := nn`.
    pub open spec fn set_vx_to_nn(self, x: u8, nn: u8) -> Machine {
        self.set_reg(x, nn)
    }

    /// `Vx := Vx + nn` where the sum fits a byte; otherwise nothing.
    pub open spec fn add_to_vx(self, x: u8, nn: u8) -> Machine {
        if self.reg(x) + nn > 255 {
            self
        } else {
            self.set_reg(x, (self.reg(x) + nn) as u8)
        }
    }

    /// `I := nnn`.
    pub open spec fn set_index(self, nnn: u16) -> Machine {
        Machine { index: nnn, ..self }
    }

    /// `Vx := Vy`.
    pub open spec fn set_vx_to_vy(self, x: u8, y: u8) -> Machine {
        self.set_reg(x, self.reg(y))
    }

    /// `Vx := Vx | Vy`.
    pub open spec fn binary_or(self, x: u8, y: u8) -> Machine {
        self.set_reg(x, self.reg(x) | self.reg(y))
    }

    /// `Vx := Vx & Vy`.
    pub open spec fn binary_and(self, x: u8, y: u8) -> Machine {
        self.set_reg(x, self.reg(x) & self.reg(y))
    }

    /// `Vx := Vx ^ Vy`.
    pub open spec fn logical_xor(self, x: u8, y: u8) -> Machine {
        self.set_reg(x, self.reg(x) ^ self.reg(y))
    }

    /// `Vx := Vx + Vy` with carry. Where the sum does not fit a byte, `Vx`
    /// keeps its value and the flag becomes 1; otherwise the sum is stored
    /// and the flag becomes 0. The flag is written last.
    pub open spec fn add_vy_to_vx(self, x: u8, y: u8) -> Machine {
        if self.reg(x) + self.reg(y) > 255 {
            self.set_vf(1)
        } else {
            self.set_reg(x, (self.reg(x) + self.reg(y)) as u8).set_vf(0)
        }
    }

    /// `Vx := Vx - Vy` with borrow. Where `Vy > Vx`, `Vx` keeps its value and
    /// the flag becomes 0; otherwise the difference is stored and the flag
    /// becomes 1. The flag is written last.
    pub open spec fn subtract_vx_vy(self, x: u8, y: u8) -> Machine {
        if self.reg(y) > self.reg(x) {
            self.set_vf(0)
        } else {
            self.set_reg(x, (self.reg(x) - self.reg(y)) as u8).set_vf(1)
        }
    }

    /// `Vx := Vy - Vx` with borrow. Where `Vx > Vy`, `Vx` keeps its value and
    /// the flag becomes 0; otherwise the difference is stored and the flag
    /// becomes 1. The flag is written last.
    pub open spec fn subtract_vy_vx(self, y: u8, x: u8) -> Machine {
        if self.reg(x) > self.reg(y) {
            self.set_vf(0)
        } else {
            self.set_reg(x, (self.reg(y) - self.reg(x)) as u8).set_vf(1)
        }
    }

    /// `Vx := Vy >> 1`; the flag becomes bit 0 of `Vy` as it was before.
    pub open spec fn shift_vx_right(self, x: u8, y: u8) -> Machine {
        self.set_reg(x, self.reg(y) >> 1u8).set_vf(self.reg(y) & 1)
    }

    /// `Vx := Vy << 1`, kept to eight bits; the flag becomes bit 0 of `Vy`
    /// as it was before.
    pub open spec fn shift_vx_left(self, x: u8, y: u8) -> Machine {
        self.set_reg(x, self.reg(y) << 1u8).set_vf(self.reg(y) & 1)
    }

    /// The column of the framebuffer at which a sprite placed by register
    /// `x` starts.
    pub open spec fn origin_col(self, x: u8) -> int {
        self.reg(x) as int % (SCREEN_WIDTH as int)
    }

    /// The row of the framebuffer at which a sprite placed by register `y`
    /// starts.
    pub open spec fn origin_row(self, y: u8) -> int {
        self.reg(y) as int % (SCREEN_HEIGHT as int)
    }

    /// The pixel in row `i` and column `j` of the sprite at the index
    /// register. Each row is one byte of memory, its most significant bit the
    /// leftmost pixel.
    pub open spec fn sprite_pixel(self, i: int, j: int) -> bool {
        bit_is_set(self.byte_at(self.index + i), (7 - j) as u8)
    }

    /// The sprite row that falls on framebuffer cell `cell` when the sprite
    /// is placed by register `y`. Rows wrap round at the bottom edge.
    pub open spec fn sprite_row_of(self, y: u8, cell: int) -> int {
        (cell / (SCREEN_WIDTH as int) - self.origin_row(y)) % (SCREEN_HEIGHT as int)
    }

    /// The sprite column that falls on framebuffer cell `cell` when the
    /// sprite is placed by register `x`. Columns wrap round at the right
    /// edge.
    pub open spec fn sprite_col_of(self, x: u8, cell: int) -> int {
        (cell % (SCREEN_WIDTH as int) - self.origin_col(x)) % (SCREEN_WIDTH as int)
    }

    /// Whether drawing `n` rows of the sprite at the index register, placed
    /// by registers `x` and `y`, toggles framebuffer cell `cell`: a set
    /// pixel of the sprite falls on it.
    pub open spec fn toggles(self, x: u8, y: u8, n: u8, cell: int) -> bool {
        &&& self.sprite_row_of(y, cell) < n
        &&& self.sprite_col_of(x, cell) < 8
        &&& self.sprite_pixel(self.sprite_row_of(y, cell), self.sprite_col_of(x, cell))
    }

    /// Whether that draw turns a lit pixel off.
    pub open spec fn collides(self, x: u8, y: u8, n: u8) -> bool {
        exists|cell: int|
            0 <= cell < SCREEN_SIZE && self.screen[cell] && #[trigger] self.toggles(x, y, n, cell)
    }

    /// The sprite drawn: every cell it toggles is inverted, the flag
    /// register says whether a lit pixel went off, and the redraw flag is up.
    pub open spec fn update_pixels(self, x: u8, y: u8, n: u8) -> Machine {
        Machine {
            screen: Seq::new(
                SCREEN_SIZE as nat,
                |cell: int| self.screen[cell] != self.toggles(x, y, n, cell),
            ),
            registers: self.registers.update(
                FLAG_REGISTER as int,
                if self.collides(x, y, n) {
                    1u8
                } else {
                    0u8
                },
            ),
            redraw: true,
            ..self
        }
    }

    /// Both timers moved one step towards zero.
    pub open spec fn update_timers(self) -> Machine {
        Machine {
            delay: if self.delay > 0 { (self.delay - 1) as u8 } else { 0 },
            sound: if self.sound > 0 { (self.sound - 1) as u8 } else { 0 },
            ..self
        }
    }
}

/// A call followed at once by a return undoes the call: the program counter
/// is back where it was, and so is everything else.
pub proof fn lemma_call_then_return(m: Machine, nnn: u16)
    ensures
        m.call_subroutine(nnn).subroutine_return() == m,
{
    assert(m.stack.push(m.pc).drop_last() == m.stack);
}

/// A program that has been loaded is read back byte for byte from
/// `START_INDEX` on, and the rest of memory is as it was.
pub proof fn lemma_load_then_read(m: Machine, rom: Seq<u8>, a: int)
    requires
        m.wf(),
        rom.len() <= MAX_ROM_SIZE,
        0 <= a < MEM_SIZE,
    ensures
        m.load_rom(rom).wf(),
        START_INDEX <= a < START_INDEX + rom.len() ==> m.load_rom(rom).byte_at(a) == rom[a
            - START_INDEX],
        !(START_INDEX <= a < START_INDEX + rom.len()) ==> m.load_rom(rom).byte_at(a) == m.byte_at(
            a,
        ),
{
}

/// Drawing a sprite twice at the same place restores the framebuffer, and the
/// second draw reports a collision exactly where the first draw lit a pixel.
///
/// The place is the same where the first draw leaves the two coordinate
/// registers as they were, as it does unless one of them is the flag
/// register.
pub proof fn lemma_draw_twice(m: Machine, x: u8, y: u8, n: u8)
    requires
        m.wf(),
        x < REG_SIZE,
        y < REG_SIZE,
        m.update_pixels(x, y, n).origin_col(x) == m.origin_col(x),
        m.update_pixels(x, y, n).origin_row(y) == m.origin_row(y),
    ensures
        m.update_pixels(x, y, n).update_pixels(x, y, n).screen == m.screen,
        m.update_pixels(x, y, n).update_pixels(x, y, n).flag() == 1 <==> exists|cell: int|
            0 <= cell < SCREEN_SIZE && !m.screen[cell] && #[trigger] m.update_pixels(
                x,
                y,
                n,
            ).screen[cell],
        m.update_pixels(x, y, n).update_pixels(x, y, n).flag() == 0 || m.update_pixels(
            x,
            y,
            n,
        ).update_pixels(x, y, n).flag() == 1,
{
    let once = m.update_pixels(x, y, n);
    let twice = once.update_pixels(x, y, n);
    assert forall|cell: int| 0 <= cell < SCREEN_SIZE implies #[trigger] once.toggles(
        x,
        y,
        n,
        cell,
    ) == m.toggles(x, y, n, cell) by {}
    assert(twice.screen =~= m.screen);
    if once.collides(x, y, n) {
        let cell = choose|cell: int|
            0 <= cell < SCREEN_SIZE && once.screen[cell] && #[trigger] once.toggles(x, y, n, cell);
        assert(!m.screen[cell] && once.screen[cell]);
    }
    if exists|cell: int|
        0 <= cell < SCREEN_SIZE && !m.screen[cell] && #[trigger] once.screen[cell] {
        let cell = choose|cell: int|
            0 <= cell < SCREEN_SIZE && !m.screen[cell] && #[trigger] once.screen[cell];
        assert(once.toggles(x, y, n, cell));
    }
}

/// Where neither coordinate register is the flag register, a draw leaves
/// the place of the sprite as it was.
pub proof fn lemma_draw_keeps_origin(m: Machine, x: u8, y: u8, n: u8)
    requires
        m.wf(),
        x < FLAG_REGISTER,
        y < FLAG_REGISTER,
    ensures
        m.update_pixels(x, y, n).origin_col(x) == m.origin_col(x),
        m.update_pixels(x, y, n).origin_row(y) == m.origin_row(y),
{
}

} // verus!
