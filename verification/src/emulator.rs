//! The executable processor state and the instructions that act on it.

use crate::machine::{
    Machine, FLAG_REGISTER, FONT_SIZE, FONT_SPRITES, MAX_ROM_SIZE, MEM_SIZE, REG_SIZE, SCREEN_SIZE,
    START_INDEX,
};
use vstd::prelude::*;

verus! {

/// Why a program cannot be loaded.
#[derive(Clone, Copy, Debug, PartialEq, Eq)]
pub enum LoadError {
    /// The program does not fit between `START_INDEX` and the end of memory.
    TooLarge,
}

/// Why an instruction cannot be executed.
#[derive(Clone, Copy, Debug, PartialEq, Eq)]
pub enum Fault {
    /// A return from subroutine with no call outstanding.
    EmptyStack,
}

/// The processor: memory, registers, call stack, timers and framebuffer.
pub struct Emulator {
    stack: Vec<u16>,
    memory: [u8; MEM_SIZE],
    register: [u8; REG_SIZE],
    screen: [bool; SCREEN_SIZE],
    pc: u16,
    index: u16,
    dtimer: u8,
    stimer: u8,
    draw: bool,
}

impl View for Emulator {
    type V = Machine;

    closed spec fn view(&self) -> Machine {
        Machine {
            memory: self.memory@,
            registers: self.register@,
            screen: self.screen@,
            stack: self.stack@,
            pc: self.pc,
            index: self.index,
            delay: self.dtimer,
            sound: self.stimer,
            redraw: self.draw,
        }
    }
}

impl Emulator {
    /// Every state of the emulator has the fixed sizes of the model.
    pub proof fn lemma_view_wf(&self)
        ensures
            self@.wf(),
    {
    }

    /// A processor at power-on.
    pub fn new() -> (emu: Self)
        ensures
            emu@ == Machine::initial(),
    {
        let mut emu = Self {
            memory: [0; MEM_SIZE],
            screen: [false; SCREEN_SIZE],
            register: [0; REG_SIZE],
            index: 0,
            pc: START_INDEX,
            stack: Vec::new(),
            dtimer: 0,
            stimer: 0,
            draw: false,
        };
        emu.load_font();
        emu
    }

    /// Copies the font table to the bottom of memory.
    fn load_font(&mut self)
        ensures
            forall|a: int| 0 <= a < FONT_SIZE ==> final(self).memory@[a] == FONT_SPRITES@[a],
            forall|a: int|
                FONT_SIZE <= a < MEM_SIZE ==> final(self).memory@[a] == old(self).memory@[a],
            final(self).register == old(self).register,
            final(self).screen == old(self).screen,
            final(self).stack == old(self).stack,
            final(self).pc == old(self).pc,
            final(self).index == old(self).index,
            final(self).dtimer == old(self).dtimer,
            final(self).stimer == old(self).stimer,
            final(self).draw == old(self).draw,
    {
        let mut i: usize = 0;
        while i < FONT_SIZE
            invariant
                i <= FONT_SIZE,
                forall|a: int| 0 <= a < i ==> self.memory@[a] == FONT_SPRITES@[a],
                forall|a: int| i <= a < MEM_SIZE ==> self.memory@[a] == old(self).memory@[a],
                self.register == old(self).register,
                self.screen == old(self).screen,
                self.stack == old(self).stack,
                self.pc == old(self).pc,
                self.index == old(self).index,
                self.dtimer == old(self).dtimer,
                self.stimer == old(self).stimer,
                self.draw == old(self).draw,
            decreases FONT_SIZE - i,
        {
            self.memory[i] = FONT_SPRITES[i];
            i += 1;
        }
    }
}

// State as the run loop sees it.
impl Emulator {
    /// Whether the framebuffer has been drawn to since it was last presented.
    pub fn draw(&self) -> (flag: bool)
        ensures
            flag == self@.redraw,
    {
        self.draw
    }

    /// A copy of the framebuffer, row by row.
    pub fn display(&self) -> (pixels: [bool; SCREEN_SIZE])
        ensures
            pixels@ == self@.screen,
    {
        self.screen
    }

    /// Returns the processor to its state at power-on: the font table at the
    /// bottom of memory, everything else zero, the stack empty and the
    /// program counter at `START_INDEX`.
    pub fn reset(&mut self)
        ensures
            final(self)@ == Machine::initial(),
    {
        self.memory = [0; MEM_SIZE];
        self.screen = [false; SCREEN_SIZE];
        self.register = [0; REG_SIZE];
        self.index = 0;
        self.pc = START_INDEX;
        self.stack = Vec::new();
        self.dtimer = 0;
        self.stimer = 0;
        self.draw = false;
        self.load_font();
    }

    /// Copies a program into memory from `START_INDEX` on. A program that
    /// would run past the end of memory is refused and nothing is written.
    pub fn load_rom(&mut self, rom: &[u8]) -> (loaded: Result<(), LoadError>)
        ensures
            loaded is Ok <==> rom@.len() <= MAX_ROM_SIZE,
            loaded is Ok ==> final(self)@ == old(self)@.load_rom(rom@),
            loaded is Err ==> final(self)@ == old(self)@,
            loaded is Err ==> loaded == Err::<(), LoadError>(LoadError::TooLarge),
    {
        if rom.len() > MAX_ROM_SIZE {
            return Err(LoadError::TooLarge);
        }
        let mut i: usize = 0;
        while i < rom.len()
            invariant
                i <= rom@.len() <= MAX_ROM_SIZE,
                forall|a: int|
                    START_INDEX <= a < START_INDEX + i ==> self.memory@[a] == rom@[a
                        - START_INDEX],
                forall|a: int|
                    0 <= a < MEM_SIZE && !(START_INDEX <= a < START_INDEX + i)
                        ==> self.memory@[a] == old(self).memory@[a],
                self.register == old(self).register,
                self.screen == old(self).screen,
                self.stack == old(self).stack,
                self.pc == old(self).pc,
                self.index == old(self).index,
                self.dtimer == old(self).dtimer,
                self.stimer == old(self).stimer,
                self.draw == old(self).draw,
            decreases rom@.len() - i,
        {
            self.memory[START_INDEX as usize + i] = rom[i];
            i += 1;
        }
        Ok(())
    }

    /// Moves the program counter past one instruction.
    pub fn fetch_next_opcode(&mut self)
        ensures
            final(self)@ == old(self)@.fetch_next_opcode(),
    {
        self.pc = self.pc.wrapping_add(2);
    }

    /// Takes the redraw flag down once the framebuffer has been presented.
    pub fn update_screen(&mut self)
        ensures
            final(self)@ == old(self)@.update_screen(),
    {
        self.draw = false;
    }

    /// Moves each timer that is not zero one step towards zero.
    pub fn update_timers(&mut self)
        ensures
            final(self)@ == old(self)@.update_timers(),
    {
        if self.stimer > 0 {
            self.stimer -= 1;
        }
        if self.dtimer > 0 {
            self.dtimer -= 1;
        }
    }
}

// The instructions.
impl Emulator {
    /// `Vx := Vy << 1`, kept to eight bits. The flag register receives bit 0
    /// of `Vy` as it was before the instruction.
    pub fn shift_vx_left(&mut self, x: u8, y: u8)
        requires
            x < REG_SIZE,
            y < REG_SIZE,
        ensures
            final(self)@ == old(self)@.shift_vx_left(x, y),
            final(self)@.flag() == old(self)@.reg(y) & 1,
    {
        let vy: u8 = self.register(y);
        let lost_bit: u8 = vy & 1;
        self.set_reg(x, vy << 1u8);
        self.set_vf(lost_bit);
    }

    /// `Vx := Vy >> 1`. The flag register receives bit 0 of `Vy` as it was
    /// before the instruction.
    pub fn shift_vx_right(&mut self, x: u8, y: u8)
        requires
            x < REG_SIZE,
            y < REG_SIZE,
        ensures
            final(self)@ == old(self)@.shift_vx_right(x, y),
            final(self)@.flag() == old(self)@.reg(y) & 1,
    {
        let vy: u8 = self.register(y);
        let lost_bit: u8 = vy & 1;
        self.set_reg(x, vy >> 1u8);
        self.set_vf(lost_bit);
    }

    /// `Vx := Vy - Vx`. Where `Vx > Vy` the flag register becomes 0 and `Vx`
    /// keeps its value; otherwise the difference is stored and the flag
    /// register becomes 1.
    pub fn subtract_vy_vx(&mut self, y: u8, x: u8)
        requires
            x < REG_SIZE,
            y < REG_SIZE,
        ensures
            final(self)@ == old(self)@.subtract_vy_vx(y, x),
            final(self)@.flag() == 0 <==> old(self)@.reg(x) > old(self)@.reg(y),
            final(self)@.flag() == 0 || final(self)@.flag() == 1,
            x != FLAG_REGISTER && old(self)@.reg(x) > old(self)@.reg(y) ==> final(self)@.reg(x)
                == old(self)@.reg(x),
            x != FLAG_REGISTER && old(self)@.reg(x) <= old(self)@.reg(y) ==> final(self)@.reg(x)
                == old(self)@.reg(y) - old(self)@.reg(x),
    {
        let vx: u8 = self.register(x);
        let vy: u8 = self.register(y);
        if vx > vy {
            self.set_vf(0);
        } else {
            self.set_reg(x, vy - vx);
            self.set_vf(1);
        }
    }

    /// `Vx := Vx - Vy`. Where `Vy > Vx` the flag register becomes 0 and `Vx`
    /// keeps its value; otherwise the difference is stored and the flag
    /// register becomes 1.
    pub fn subtract_vx_vy(&mut self, x: u8, y: u8)
        requires
            x < REG_SIZE,
            y < REG_SIZE,
        ensures
            final(self)@ == old(self)@.subtract_vx_vy(x, y),
            final(self)@.flag() == 0 <==> old(self)@.reg(y) > old(self)@.reg(x),
            final(self)@.flag() == 0 || final(self)@.flag() == 1,
            x != FLAG_REGISTER && old(self)@.reg(y) > old(self)@.reg(x) ==> final(self)@.reg(x)
                == old(self)@.reg(x),
            x != FLAG_REGISTER && old(self)@.reg(y) <= old(self)@.reg(x) ==> final(self)@.reg(x)
                == old(self)@.reg(x) - old(self)@.reg(y),
    {
        let vx: u8 = self.register(x);
        let vy: u8 = self.register(y);
        if vy > vx {
            self.set_vf(0);
        } else {
            self.set_reg(x, vx - vy);
            self.set_vf(1);
        }
    }

    /// `Vx := Vx + Vy`. Where the sum does not fit a byte the flag register
    /// becomes 1 and `Vx` keeps its value; otherwise the sum is stored and
    /// the flag register becomes 0.
    pub fn add_vy_to_vx(&mut self, x: u8, y: u8)
        requires
            x < REG_SIZE,
            y < REG_SIZE,
        ensures
            final(self)@ == old(self)@.add_vy_to_vx(x, y),
            final(self)@.flag() == 1 <==> old(self)@.reg(x) + old(self)@.reg(y) > 255,
            final(self)@.flag() == 0 || final(self)@.flag() == 1,
            x != FLAG_REGISTER && old(self)@.reg(x) + old(self)@.reg(y) > 255
                ==> final(self)@.reg(x) == old(self)@.reg(x),
            x != FLAG_REGISTER && old(self)@.reg(x) + old(self)@.reg(y) <= 255
                ==> final(self)@.reg(x) == old(self)@.reg(x) + old(self)@.reg(y),
    {
        let vx: u8 = self.register(x);
        let vy: u8 = self.register(y);
        let result: Option<u8> = vx.checked_add(vy);
        match result {
            Some(sum) => {
                self.set_reg(x, sum);
                self.set_vf(0);
            },
            None => self.set_vf(1),
        }
    }

    /// `Vx := Vy`.
    pub fn set_vx_to_vy(&mut self, x: u8, y: u8)
        requires
            x < REG_SIZE,
            y < REG_SIZE,
        ensures
            final(self)@ == old(self)@.set_vx_to_vy(x, y),
    {
        let vy: u8 = self.register(y);
        self.set_reg(x, vy);
    }

    /// `Vx := Vx | Vy`.
    pub fn binary_or(&mut self, x: u8, y: u8)
        requires
            x < REG_SIZE,
            y < REG_SIZE,
        ensures
            final(self)@ == old(self)@.binary_or(x, y),
    {
        let vx: u8 = self.register(x);
        let vy: u8 = self.register(y);
        self.set_reg(x, vx | vy);
    }

    /// `Vx := Vx & Vy`.
    pub fn binary_and(&mut self, x: u8, y: u8)
        requires
            x < REG_SIZE,
            y < REG_SIZE,
        ensures
            final(self)@ == old(self)@.binary_and(x, y),
    {
        let vx: u8 = self.register(x);
        let vy: u8 = self.register(y);
        self.set_reg(x, vx & vy);
    }

    /// `Vx := Vx ^ Vy`.
    pub fn logical_xor(&mut self, x: u8, y: u8)
        requires
            x < REG_SIZE,
            y < REG_SIZE,
        ensures
            final(self)@ == old(self)@.logical_xor(x, y),
    {
        let vx: u8 = self.register(x);
        let vy: u8 = self.register(y);
        self.set_reg(x, vx ^ vy);
    }

    /// Turns every pixel off.
    pub fn clear_screen(&mut self)
        ensures
            final(self)@ == old(self)@.clear_screen(),
    {
        self.screen = [false; SCREEN_SIZE];
    }

    /// Transfers control to `nnn`.
    pub fn jump_to(&mut self, nnn: u16)
        ensures
            final(self)@ == old(self)@.jump_to(nnn),
    {
        self.pc = nnn;
    }

    /// `Vx := nn`.
    pub fn set_vx_to_nn(&mut self, x: u8, nn: u8)
        requires
            x < REG_SIZE,
        ensures
            final(self)@ == old(self)@.set_vx_to_nn(x, nn),
    {
        self.set_reg(x, nn);
    }

    /// `Vx := Vx + nn` where the sum fits a byte. Where it does not, the
    /// instruction does nothing; no flag is involved.
    pub fn add_to_vx(&mut self, x: u8, nn: u8)
        requires
            x < REG_SIZE,
        ensures
            final(self)@ == old(self)@.add_to_vx(x, nn),
    {
        let vx: u8 = self.register(x);
        let result: Option<u8> = vx.checked_add(nn);
        match result {
            Some(sum) => {
                self.set_reg(x, sum);
            },
            None => (),
        }
    }

    /// `I := nnn`.
    pub fn set_index(&mut self, nnn: u16)
        ensures
            final(self)@ == old(self)@.set_index(nnn),
    {
        self.index = nnn;
    }

    /// Draws `n` rows of the sprite at the index register with its top-left
    /// pixel at column `Vx mod 64`, row `Vy mod 32`. Each set bit of the sprite
    /// inverts the pixel it falls on; the sprite wraps round at the right and
    /// bottom edges. The flag register becomes 1 where a lit pixel went off
    /// and 0 otherwise, and the redraw flag goes up.
    pub fn update_pixels(&mut self, x: u8, y: u8, n: u8)
        requires
            x < REG_SIZE,
            y < REG_SIZE,
            n < 16,
        ensures
            final(self)@ == old(self)@.update_pixels(x, y, n),
    {
        let ox: usize = (self.register[x as usize] % 64) as usize;
        let oy: usize = (self.register[y as usize] % 32) as usize;
        let ghost before = self@;
        let mut collision = false;
        let mut i: u8 = 0;
        proof {
            lemma_draw_start(before, x, y, n);
        }
        while i < n
            invariant
                i <= n < 16,
                x < REG_SIZE,
                y < REG_SIZE,
                before == old(self)@,
                ox == before.origin_col(x),
                oy == before.origin_row(y),
                self.memory == old(self).memory,
                self.register == old(self).register,
                self.stack == old(self).stack,
                self.pc == old(self).pc,
                self.index == old(self).index,
                self.dtimer == old(self).dtimer,
                self.stimer == old(self).stimer,
                self.draw == old(self).draw,
                forall|cell: int|
                    0 <= cell < SCREEN_SIZE ==> self.screen@[cell] == (before.screen[cell]
                        != drawn_before(before, x, y, n, i as int, 0, cell)),
                collision == collides_before(before, x, y, n, i as int, 0),
            decreases n - i,
        {
            let byte: u8 = self.memory[(self.index as usize + i as usize) % MEM_SIZE];
            let row: usize = (oy + i as usize) % 32;
            let mut j: u8 = 0;
            while j < 8
                invariant
                    i < n < 16,
                    j <= 8,
                    x < REG_SIZE,
                    y < REG_SIZE,
                    before == old(self)@,
                    ox == before.origin_col(x),
                    oy == before.origin_row(y),
                    row == (oy + i) % 32,
                    byte == before.byte_at(before.index + i),
                    self.memory == old(self).memory,
                    self.register == old(self).register,
                    self.stack == old(self).stack,
                    self.pc == old(self).pc,
                    self.index == old(self).index,
                    self.dtimer == old(self).dtimer,
                    self.stimer == old(self).stimer,
                    self.draw == old(self).draw,
                    forall|cell: int|
                        0 <= cell < SCREEN_SIZE ==> self.screen@[cell] == (before.screen[cell]
                            != drawn_before(before, x, y, n, i as int, j as int, cell)),
                    collision == collides_before(before, x, y, n, i as int, j as int),
                decreases 8 - j,
            {
                let col: usize = (ox + j as usize) % 64;
                let cell: usize = row * 64 + col;
                proof {
                    lemma_draw_step(before, x, y, n, i as int, j as int);
                }
                if (byte >> (7 - j)) & 1 == 1 {
                    if self.screen[cell] {
                        collision = true;
                    }
                    self.screen[cell] = !self.screen[cell];
                }
                j += 1;
            }
            proof {
                lemma_draw_row_done(before, x, y, n, i as int);
            }
            i += 1;
        }
        proof {
            lemma_draw_done(before, x, y, n);
        }
        self.register[FLAG_REGISTER as usize] = if collision {
            1
        } else {
            0
        };
        self.draw = true;
    }

    /// Returns from the innermost subroutine: its return address leaves the
    /// stack and becomes the program counter. With no call outstanding this
    /// is a fault and the state stays as it is.
    pub fn subroutine_return(&mut self) -> (done: Result<(), Fault>)
        ensures
            done is Ok <==> old(self)@.stack.len() > 0,
            final(self)@ == old(self)@.subroutine_return(),
            done is Err ==> done == Err::<(), Fault>(Fault::EmptyStack),
    {
        match self.stack.pop() {
            Some(addr) => {
                self.pc = addr;
                Ok(())
            },
            None => Err(Fault::EmptyStack),
        }
    }

    /// Calls the subroutine at `nnn`: the program counter is pushed on the
    /// stack, and control goes to `nnn`.
    pub fn call_subroutine(&mut self, nnn: u16)
        ensures
            final(self)@ == old(self)@.call_subroutine(nnn),
    {
        self.stack.push(self.pc);
        self.pc = nnn;
    }
}

// Access to single components.
impl Emulator {
    /// Sets the flag register.
    pub fn set_vf(&mut self, v: u8)
        ensures
            final(self)@ == old(self)@.set_vf(v),
    {
        self.register[FLAG_REGISTER as usize] = v;
    }

    /// Sets register `i`.
    pub fn set_reg(&mut self, i: u8, v: u8)
        requires
            i < REG_SIZE,
        ensures
            final(self)@ == old(self)@.set_reg(i, v),
    {
        self.register[i as usize] = v;
    }

    /// Adds `v` to register `i`. The sum has to fit a byte.
    pub fn add_reg(&mut self, i: u8, v: u8)
        requires
            i < REG_SIZE,
            old(self)@.reg(i) + v <= 255,
        ensures
            final(self)@ == old(self)@.set_reg(i, (old(self)@.reg(i) + v) as u8),
    {
        self.register[i as usize] += v;
    }

    /// Register `i`.
    pub fn register(&self, i: u8) -> (v: u8)
        requires
            i < REG_SIZE,
        ensures
            v == self@.reg(i),
    {
        self.register[i as usize]
    }

    /// The byte at address `i`, reduced to the twelve bits that memory has.
    pub fn memory(&self, i: u16) -> (v: u8)
        ensures
            v == self@.byte_at(i as int),
    {
        self.memory[i as usize % MEM_SIZE]
    }

    /// Pixel `i` of the framebuffer, counted row by row.
    pub fn screen(&self, i: usize) -> (on: bool)
        requires
            i < SCREEN_SIZE,
        ensures
            on == self@.screen[i as int],
    {
        self.screen[i]
    }

    /// Stores `v` at address `i`.
    pub fn memory_add(&mut self, i: u8, v: u8)
        ensures
            final(self)@ == old(self)@.memory_add(i as int, v),
    {
        self.memory[i as usize] = v;
    }

    /// The program counter.
    pub fn pc(&self) -> (pc: u16)
        ensures
            pc == self@.pc,
    {
        self.pc
    }

    /// The index register.
    pub fn index(&self) -> (index: u16)
        ensures
            index == self@.index,
    {
        self.index
    }

    /// The number of calls outstanding.
    pub fn stack_depth(&self) -> (depth: usize)
        ensures
            depth == self@.stack.len(),
    {
        self.stack.len()
    }

    /// The delay timer.
    pub fn delay_timer(&self) -> (v: u8)
        ensures
            v == self@.delay,
    {
        self.dtimer
    }

    /// The sound timer.
    pub fn sound_timer(&self) -> (v: u8)
        ensures
            v == self@.sound,
    {
        self.stimer
    }

    /// Sets the delay timer.
    pub fn set_delay_timer(&mut self, v: u8)
        ensures
            final(self)@ == old(self)@.set_delay_timer(v),
    {
        self.dtimer = v;
    }

    /// Sets the sound timer.
    pub fn set_sound_timer(&mut self, v: u8)
        ensures
            final(self)@ == old(self)@.set_sound_timer(v),
    {
        self.stimer = v;
    }
}

// The draw, step by step. The loops of `Emulator::update_pixels` go through
// the sprite pixel by pixel; what follows relates the pixels gone through so
// far to the cells that `Machine::toggles` names.

/// Whether the draw of `Machine::update_pixels` toggles `cell` with a sprite
/// pixel that comes before row `rows`, column `cols` in drawing order.
#[verifier::opaque]
spec fn drawn_before(m: Machine, x: u8, y: u8, n: u8, rows: int, cols: int, cell: int) -> bool {
    &&& m.toggles(x, y, n, cell)
    &&& (m.sprite_row_of(y, cell) < rows || (m.sprite_row_of(y, cell) == rows && m.sprite_col_of(
        x,
        cell,
    ) < cols))
}

/// Going `d` steps on from `o` round a ring of `m` places, and measuring the
/// distance back to `o`, gives `d`.
proof fn lemma_ring_distance(m: int, o: int, d: int)
    requires
        m == 32 || m == 64,
        0 <= o < m,
        0 <= d < m,
    ensures
        ((o + d) % m - o) % m == d,
{
    if o + d < m {
        assert((o + d) % m == o + d);
    } else {
        assert((o + d) % m == o + d - m);
    }
}

/// Going on from `o` by the distance from `o` to `r` round a ring of `m`
/// places arrives at `r`.
proof fn lemma_ring_arrival(m: int, o: int, r: int)
    requires
        m == 32 || m == 64,
        0 <= o < m,
        0 <= r < m,
    ensures
        0 <= (r - o) % m < m,
        (o + (r - o) % m) % m == r,
{
    if r >= o {
        assert((r - o) % m == r - o);
    } else {
        assert((r - o) % m == r - o + m);
    }
}

/// Sprite pixel (`i`, `j`) falls on one cell of the framebuffer, and that
/// cell leads back to (`i`, `j`).
proof fn lemma_cell_of_sprite_pixel(m: Machine, x: u8, y: u8, i: int, j: int)
    requires
        0 <= i < 32,
        0 <= j < 64,
    ensures
        ({
            let cell = ((m.origin_row(y) + i) % 32) * 64 + (m.origin_col(x) + j) % 64;
            &&& 0 <= cell < SCREEN_SIZE
            &&& m.sprite_row_of(y, cell) == i
            &&& m.sprite_col_of(x, cell) == j
        }),
{
    let oy = m.origin_row(y);
    let ox = m.origin_col(x);
    let row = (oy + i) % 32;
    let col = (ox + j) % 64;
    let cell = row * 64 + col;
    assert(cell / 64 == row && cell % 64 == col);
    lemma_ring_distance(32, oy, i);
    lemma_ring_distance(64, ox, j);
}

/// Every cell of the framebuffer is the place of exactly one sprite pixel.
proof fn lemma_sprite_pixel_of_cell(m: Machine, x: u8, y: u8, cell: int)
    requires
        0 <= cell < SCREEN_SIZE,
    ensures
        0 <= m.sprite_row_of(y, cell) < 32,
        0 <= m.sprite_col_of(x, cell) < 64,
        cell == ((m.origin_row(y) + m.sprite_row_of(y, cell)) % 32) * 64 + (m.origin_col(x)
            + m.sprite_col_of(x, cell)) % 64,
{
    let oy = m.origin_row(y);
    let ox = m.origin_col(x);
    let row = cell / 64;
    let col = cell % 64;
    assert(cell == row * 64 + col);
    lemma_ring_arrival(32, oy, row);
    lemma_ring_arrival(64, ox, col);
}

/// Whether the pixels drawn before row `rows`, column `cols` turn a lit
/// pixel off.
spec fn collides_before(m: Machine, x: u8, y: u8, n: u8, rows: int, cols: int) -> bool {
    exists|cell: int|
        0 <= cell < SCREEN_SIZE && m.screen[cell] && #[trigger] drawn_before(
            m,
            x,
            y,
            n,
            rows,
            cols,
            cell,
        )
}

/// Before the first row nothing has been drawn.
proof fn lemma_draw_start(m: Machine, x: u8, y: u8, n: u8)
    ensures
        forall|c: int| 0 <= c < SCREEN_SIZE ==> !#[trigger] drawn_before(m, x, y, n, 0, 0, c),
        !collides_before(m, x, y, n, 0, 0),
{
    reveal(drawn_before);
    assert forall|c: int| 0 <= c < SCREEN_SIZE implies !#[trigger] drawn_before(
        m,
        x,
        y,
        n,
        0,
        0,
        c,
    ) by {
        lemma_sprite_pixel_of_cell(m, x, y, c);
    }
}

/// One step of the draw: going past sprite pixel (`i`, `j`) adds its cell to
/// the cells drawn, where the pixel is set, and nothing else.
proof fn lemma_draw_step(m: Machine, x: u8, y: u8, n: u8, i: int, j: int)
    requires
        0 <= i < n < 16,
        0 <= j < 8,
    ensures
        ({
            let cell = ((m.origin_row(y) + i) % 32) * 64 + (m.origin_col(x) + j) % 64;
            &&& 0 <= cell < SCREEN_SIZE
            &&& !drawn_before(m, x, y, n, i, j, cell)
            &&& forall|c: int|
                0 <= c < SCREEN_SIZE ==> #[trigger] drawn_before(m, x, y, n, i, j + 1, c) == (
                drawn_before(m, x, y, n, i, j, c) || (c == cell && m.sprite_pixel(i, j)))
            &&& collides_before(m, x, y, n, i, j + 1) == (collides_before(m, x, y, n, i, j) || (
            m.screen[cell] && m.sprite_pixel(i, j)))
        }),
{
    reveal(drawn_before);
    let cell = ((m.origin_row(y) + i) % 32) * 64 + (m.origin_col(x) + j) % 64;
    lemma_cell_of_sprite_pixel(m, x, y, i, j);
    assert forall|c: int| 0 <= c < SCREEN_SIZE implies #[trigger] drawn_before(
        m,
        x,
        y,
        n,
        i,
        j + 1,
        c,
    ) == (drawn_before(m, x, y, n, i, j, c) || (c == cell && m.sprite_pixel(i, j))) by {
        lemma_sprite_pixel_of_cell(m, x, y, c);
    }
    if collides_before(m, x, y, n, i, j + 1) {
        let c = choose|c: int|
            0 <= c < SCREEN_SIZE && m.screen[c] && #[trigger] drawn_before(m, x, y, n, i, j + 1, c);
        if drawn_before(m, x, y, n, i, j, c) {
            assert(collides_before(m, x, y, n, i, j));
        }
    }
    if collides_before(m, x, y, n, i, j) {
        let c = choose|c: int|
            0 <= c < SCREEN_SIZE && m.screen[c] && #[trigger] drawn_before(m, x, y, n, i, j, c);
        assert(drawn_before(m, x, y, n, i, j + 1, c));
    }
    if m.screen[cell] && m.sprite_pixel(i, j) {
        assert(drawn_before(m, x, y, n, i, j + 1, cell));
    }
}

/// The end of a sprite row is the start of the next.
proof fn lemma_draw_row_done(m: Machine, x: u8, y: u8, n: u8, i: int)
    requires
        0 <= i < n,
    ensures
        forall|c: int|
            0 <= c < SCREEN_SIZE ==> #[trigger] drawn_before(m, x, y, n, i + 1, 0, c)
                == drawn_before(m, x, y, n, i, 8, c),
        collides_before(m, x, y, n, i + 1, 0) == collides_before(m, x, y, n, i, 8),
{
    reveal(drawn_before);
    assert forall|c: int| 0 <= c < SCREEN_SIZE implies #[trigger] drawn_before(
        m,
        x,
        y,
        n,
        i + 1,
        0,
        c,
    ) == drawn_before(m, x, y, n, i, 8, c) by {
        lemma_sprite_pixel_of_cell(m, x, y, c);
    }
    if collides_before(m, x, y, n, i + 1, 0) {
        let c = choose|c: int|
            0 <= c < SCREEN_SIZE && m.screen[c] && #[trigger] drawn_before(m, x, y, n, i + 1, 0, c);
        assert(drawn_before(m, x, y, n, i, 8, c));
    }
    if collides_before(m, x, y, n, i, 8) {
        let c = choose|c: int|
            0 <= c < SCREEN_SIZE && m.screen[c] && #[trigger] drawn_before(m, x, y, n, i, 8, c);
        assert(drawn_before(m, x, y, n, i + 1, 0, c));
    }
}

/// After the last row every pixel of the sprite has been drawn.
proof fn lemma_draw_done(m: Machine, x: u8, y: u8, n: u8)
    ensures
        forall|c: int|
            0 <= c < SCREEN_SIZE ==> #[trigger] drawn_before(m, x, y, n, n as int, 0, c)
                == m.toggles(x, y, n, c),
        collides_before(m, x, y, n, n as int, 0) == m.collides(x, y, n),
{
    reveal(drawn_before);
    if collides_before(m, x, y, n, n as int, 0) {
        let c = choose|c: int|
            0 <= c < SCREEN_SIZE && m.screen[c] && #[trigger] drawn_before(
                m,
                x,
                y,
                n,
                n as int,
                0,
                c,
            );
        assert(m.toggles(x, y, n, c));
    }
    if m.collides(x, y, n) {
        let c = choose|c: int|
            0 <= c < SCREEN_SIZE && m.screen[c] && #[trigger] m.toggles(x, y, n, c);
        assert(drawn_before(m, x, y, n, n as int, 0, c));
    }
}

} // verus!
