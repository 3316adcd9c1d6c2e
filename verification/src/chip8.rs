//! The interpreter: the machine state as it is held in memory, and the
//! instructions as executable code, each proved to do what the model says.

use rand::Rng;
use vstd::prelude::*;
use crate::instruction::{
    address, bs4_usize, bs8_usize, decode, low_byte, low_nibble, Instruction,
};
use crate::machine::{
    clamp_address, clamp_key, lemma_execute_keeps_wf, Condition, CycleReport, Machine, FLAG,
    KEY_COUNT, KEY_SCAN_LIMIT, LAST_INSTRUCTION, MEMORY_SIZE, PROGRAM_START, REGISTER_COUNT,
    STACK_DEPTH,
};
use crate::sprite::DISPLAY_SIZE;

verus! {

/// Where the glyphs are put in memory.
pub const FONT_BASE: usize = 0x50;

/// The number of bytes of the glyphs: sixteen glyphs of five rows.
pub const FONT_SIZE: usize = 80;

/// The largest program that fits between `PROGRAM_START` and the end of memory.
pub const MAX_PROGRAM_SIZE: usize = 3584;

/// The glyphs of the digits `0` to `F`, five rows each, a row in the high
/// four bits of a byte.
pub const FONTSET: [u8; 80] = [
    0xF0, 0x90, 0x90, 0x90, 0xF0,
    0x20, 0x60, 0x20, 0x20, 0x70,
    0xF0, 0x10, 0xF0, 0x80, 0xF0,
    0xF0, 0x10, 0xF0, 0x10, 0xF0,
    0x90, 0x90, 0xF0, 0x10, 0x10,
    0xF0, 0x80, 0xF0, 0x10, 0xF0,
    0xF0, 0x80, 0xF0, 0x90, 0xF0,
    0xF0, 0x10, 0x20, 0x40, 0x40,
    0xF0, 0x90, 0xF0, 0x90, 0xF0,
    0xF0, 0x90, 0xF0, 0x10, 0xF0,
    0xF0, 0x90, 0xF0, 0x90, 0x90,
    0xE0, 0x90, 0xE0, 0x90, 0xE0,
    0xF0, 0x80, 0x80, 0x80, 0xF0,
    0xE0, 0x90, 0x90, 0x90, 0xE0,
    0xF0, 0x80, 0xF0, 0x80, 0xF0,
    0xF0, 0x80, 0xF0, 0x80, 0x80,
];

/// Why a program was not loaded.
#[derive(Clone, Copy, Debug, PartialEq, Eq, Structural)]
pub enum LoadError {
    /// The program is longer than `MAX_PROGRAM_SIZE` bytes.
    TooLarge,
}

/// Memory as the machine starts with it: the glyphs at `FONT_BASE`, and 0
/// everywhere else.
pub open spec fn initial_memory() -> Seq<u8> {
    Seq::new(
        MEMORY_SIZE as nat,
        |a: int|
            if FONT_BASE <= a < FONT_BASE + FONT_SIZE {
                FONTSET@[a - FONT_BASE]
            } else {
                0u8
            },
    )
}

/// The state in which the machine starts.
pub open spec fn initial_machine() -> Machine {
    Machine {
        opcode: 0,
        memory: initial_memory(),
        v: Seq::new(REGISTER_COUNT as nat, |r: int| 0u8),
        index: 0,
        pc: PROGRAM_START,
        display: Seq::new(DISPLAY_SIZE as nat, |c: int| 0u8),
        delay_timer: 0,
        sound_timer: 0,
        draw_flag: false,
        stack: Seq::new(STACK_DEPTH as nat, |e: int| 0u16),
        sp: 0,
        keypad: Seq::new(KEY_COUNT as nat, |k: int| 0u8),
    }
}

/// Memory after `program` was copied to `PROGRAM_START`.
pub open spec fn memory_with_program(memory: Seq<u8>, program: Seq<u8>) -> Seq<u8> {
    Seq::new(
        MEMORY_SIZE as nat,
        |a: int|
            if PROGRAM_START <= a < PROGRAM_START + program.len() {
                program[a - PROGRAM_START]
            } else {
                memory[a]
            },
    )
}

/// A CHIP-8 machine.
///
/// `VF` is a register like the others and also the flag that several
/// instructions write. A key is held while its cell of `keypad` is not 0; the
/// caller writes `keypad` between cycles, and clears `draw_flag` when it has
/// shown `display`.
pub struct Chip8 {
    pub opcode: u16,
    pub memory: [u8; 4096],
    pub v: [u8; 16],
    pub index: u16,
    pub pc: u16,
    pub display: [u8; 2048],
    pub delay_timer: u8,
    pub sound_timer: u8,
    pub draw_flag: bool,
    pub stack: [u16; 16],
    pub sp: u16,
    pub keypad: [u8; 16],
}

impl View for Chip8 {
    type V = Machine;

    open spec fn view(&self) -> Machine {
        Machine {
            opcode: self.opcode,
            memory: self.memory@,
            v: self.v@,
            index: self.index,
            pc: self.pc,
            display: self.display@,
            delay_timer: self.delay_timer,
            sound_timer: self.sound_timer,
            draw_flag: self.draw_flag,
            stack: self.stack@,
            sp: self.sp,
            keypad: self.keypad@,
        }
    }
}

impl Chip8 {
    /// The program counter points at an instruction inside memory, and the
    /// stack pointer at most one past the last entry of the call stack.
    pub open spec fn wf(&self) -> bool {
        self@.wf()
    }

    /// A machine in its initial state.
    pub fn new() -> (chip: Chip8)
        ensures
            chip@ == initial_machine(),
            chip.wf(),
    {
        let mut memory: [u8; 4096] = [0; 4096];
        let mut i: usize = 0;
        while i < FONT_SIZE
            invariant
                i <= FONT_SIZE,
                forall|a: int|
                    0 <= a < MEMORY_SIZE ==> #[trigger] memory@[a] == (if FONT_BASE <= a
                        < FONT_BASE + i {
                        FONTSET@[a - FONT_BASE]
                    } else {
                        0u8
                    }),
            decreases FONT_SIZE - i,
        {
            memory[FONT_BASE + i] = FONTSET[i];
            i += 1;
        }
        let chip = Chip8 {
            opcode: 0,
            memory,
            v: [0; 16],
            index: 0,
            pc: PROGRAM_START,
            display: [0; 2048],
            delay_timer: 0,
            sound_timer: 0,
            draw_flag: false,
            stack: [0; 16],
            sp: 0,
            keypad: [0; 16],
        };
        chip
    }

    /// Whether the state is well formed.
    pub fn is_well_formed(&self) -> (ok: bool)
        ensures
            ok == self.wf(),
    {
        self.pc <= LAST_INSTRUCTION && self.sp <= STACK_DEPTH
    }

    /// Copies `program` into memory at `PROGRAM_START`, or changes nothing
    /// if it does not fit.
    pub fn load_rom(&mut self, program: &[u8]) -> (result: Result<(), LoadError>)
        ensures
            program@.len() <= MAX_PROGRAM_SIZE ==> result is Ok && final(self)@ == (Machine {
                memory: memory_with_program(old(self)@.memory, program@),
                ..old(self)@
            }),
            program@.len() > MAX_PROGRAM_SIZE ==> result == Err::<(), LoadError>(
                LoadError::TooLarge,
            ) && final(self)@ == old(self)@,
    {
        if program.len() > MAX_PROGRAM_SIZE {
            return Err(LoadError::TooLarge);
        }
        let mut i: usize = 0;
        while i < program.len()
            invariant
                i <= program@.len() <= MAX_PROGRAM_SIZE,
                self@ == (Machine { memory: self@.memory, ..old(self)@ }),
                forall|a: int|
                    0 <= a < MEMORY_SIZE ==> #[trigger] self@.memory[a] == (if PROGRAM_START <= a
                        < PROGRAM_START + i {
                        program@[a - PROGRAM_START]
                    } else {
                        old(self)@.memory[a]
                    }),
            decreases program@.len() - i,
        {
            self.memory[PROGRAM_START as usize + i] = program[i];
            i += 1;
        }
        Ok(())
    }

    /// One cycle: fetches the instruction word at the program counter,
    /// carries the instruction out, and ticks the timers once.
    ///
    /// A word that names no operation, a call with the call stack full and
    /// a return with it empty are reported, and the machine goes on to the
    /// next instruction. The random instruction draws its number here, so
    /// for it the new state is known only up to that number.
    pub fn emulate_cycle(&mut self) -> (report: CycleReport)
        requires
            old(self).wf(),
        ensures
            final(self).wf(),
            report == old(self)@.report(),
            exists|sample: u16| final(self)@ == #[trigger] old(self)@.step(sample),
            old(self)@.next_instruction() != Instruction::Random ==> final(self)@ == old(self)@.step(0),
    {
        let high = self.memory[self.pc as usize] as u16;
        let low = self.memory[self.pc as usize + 1] as u16;
        assert(high < 256 && low < 256 ==> high << 8 | low == high * 256 + low) by (bit_vector);
        self.opcode = high << 8 | low;

        let insn = decode(self.opcode);
        let condition = self.condition(insn);
        let ghost fetched = self@;
        match insn {
            Instruction::Sys => self.insn_0nnn(),
            Instruction::ClearDisplay => self.insn_00e0(),
            Instruction::Return => self.insn_00ee(),
            Instruction::Jump => self.insn_1nnn(),
            Instruction::Call => self.insn_2nnn(),
            Instruction::SkipEqImm => self.insn_3xnn(),
            Instruction::SkipNeImm => self.insn_4xnn(),
            Instruction::SkipEqReg => self.insn_5xy0(),
            Instruction::LoadImm => self.insn_6xnn(),
            Instruction::AddImm => self.insn_7xnn(),
            Instruction::Move => self.insn_8xy0(),
            Instruction::Or => self.insn_8xy1(),
            Instruction::And => self.insn_8xy2(),
            Instruction::Xor => self.insn_8xy3(),
            Instruction::Add => self.insn_8xy4(),
            Instruction::Sub => self.insn_8xy5(),
            Instruction::ShiftRight => self.insn_8xy6(),
            Instruction::SubReverse => self.insn_8xy7(),
            Instruction::ShiftLeft => self.insn_8xye(),
            Instruction::SkipNeReg => self.insn_9xy0(),
            Instruction::LoadIndex => self.insn_annn(),
            Instruction::JumpOffset => self.insn_bnnn(),
            Instruction::Random => self.insn_cxnn(),
            Instruction::Draw => self.insn_dxyn(),
            Instruction::SkipKey => self.insn_ex9e(),
            Instruction::SkipNotKey => self.insn_exa1(),
            Instruction::GetDelay => self.insn_fx07(),
            Instruction::WaitKey => self.insn_fx0a(),
            Instruction::SetDelay => self.insn_fx15(),
            Instruction::SetSound => self.insn_fx18(),
            Instruction::AddIndex => self.insn_fx1e(),
            Instruction::Glyph => self.insn_fx29(),
            Instruction::Bcd => self.insn_fx33(),
            Instruction::Store => self.insn_fx55(),
            Instruction::Load => self.insn_fx65(),
            Instruction::Unrecognized => self.advance(),
        }
        let ghost sample: u16 = if insn == Instruction::Random {
            choose|sample: u16| self@ == #[trigger] fetched.op_random(sample)
        } else {
            0
        };
        proof {
            lemma_execute_keeps_wf(fetched, insn, sample);
        }
        let beep = self.tick_timers();
        assert(self@ == old(self)@.step(sample));
        CycleReport { condition, beep }
    }

    /// Moves the program counter to `target`, or to the last instruction of
    /// memory if `target` lies beyond it.
    fn goto(&mut self, target: u32)
        ensures
            final(self)@ == old(self)@.goto(target as int),
    {
        if target > LAST_INSTRUCTION as u32 {
            self.pc = LAST_INSTRUCTION;
        } else {
            self.pc = target as u16;
        }
    }

    /// Moves the program counter to the next instruction.
    fn advance(&mut self)
        ensures
            final(self)@ == old(self)@.advance(),
    {
        self.goto(self.pc as u32 + 2);
    }

    /// Moves the program counter past the next instruction if `skip`, to
    /// the next instruction otherwise.
    fn skip_if(&mut self, skip: bool)
        ensures
            final(self)@ == old(self)@.skip_if(skip),
    {
        if skip {
            self.goto(self.pc as u32 + 4);
        } else {
            self.goto(self.pc as u32 + 2);
        }
    }

    /// `0NNN`: ignored.
    pub fn insn_0nnn(&mut self)
        ensures
            final(self)@ == old(self)@.op_sys(),
    {
        self.advance();
    }

    /// `00E0`: clears the display.
    pub fn insn_00e0(&mut self)
        ensures
            final(self)@ == old(self)@.op_clear(),
    {
        self.display = [0; 2048];
        self.draw_flag = true;
        self.advance();
    }

    /// `00EE`: returns from a subroutine.
    pub fn insn_00ee(&mut self)
        requires
            old(self).wf(),
        ensures
            final(self)@ == old(self)@.op_return(),
    {
        if self.sp == 0 {
            self.advance();
        } else {
            self.sp -= 1;
            let saved = self.stack[self.sp as usize];
            self.goto(saved as u32 + 2);
        }
    }

    /// `1NNN`: jumps to `NNN`.
    pub fn insn_1nnn(&mut self)
        ensures
            final(self)@ == old(self)@.op_jump(),
    {
        self.goto(address(self.opcode) as u32);
    }

    /// `2NNN`: calls the subroutine at `NNN`.
    pub fn insn_2nnn(&mut self)
        ensures
            final(self)@ == old(self)@.op_call(),
    {
        if self.sp >= STACK_DEPTH {
            self.advance();
        } else {
            self.stack[self.sp as usize] = self.pc;
            self.sp += 1;
            self.goto(address(self.opcode) as u32);
        }
    }

    /// `3XNN`: skips the next instruction if `VX == NN`.
    pub fn insn_3xnn(&mut self)
        ensures
            final(self)@ == old(self)@.op_skip_eq_imm(),
    {
        let skip = self.v[bs8_usize(self.opcode)] == low_byte(self.opcode);
        self.skip_if(skip);
    }

    /// `4XNN`: skips the next instruction if `VX != NN`.
    pub fn insn_4xnn(&mut self)
        ensures
            final(self)@ == old(self)@.op_skip_ne_imm(),
    {
        let skip = self.v[bs8_usize(self.opcode)] != low_byte(self.opcode);
        self.skip_if(skip);
    }

    /// `5XY_`: skips the next instruction if `VX == VY`.
    pub fn insn_5xy0(&mut self)
        ensures
            final(self)@ == old(self)@.op_skip_eq_reg(),
    {
        let skip = self.v[bs8_usize(self.opcode)] == self.v[bs4_usize(self.opcode)];
        self.skip_if(skip);
    }

    /// `6XNN`: sets `VX` to `NN`.
    pub fn insn_6xnn(&mut self)
        ensures
            final(self)@ == old(self)@.op_load_imm(),
    {
        let x = bs8_usize(self.opcode);
        self.v[x] = low_byte(self.opcode);
        self.advance();
    }

    /// `7XNN`: adds `NN` to `VX`, modulo 256.
    pub fn insn_7xnn(&mut self)
        ensures
            final(self)@ == old(self)@.op_add_imm(),
    {
        let x = bs8_usize(self.opcode);
        let result: u16 = self.v[x] as u16 + low_byte(self.opcode) as u16;
        proof {
            lemma_low_bits(result);
        }
        self.v[x] = (result & 0x00FF) as u8;
        self.advance();
    }

    /// `8XY0`: sets `VX` to `VY`.
    pub fn insn_8xy0(&mut self)
        ensures
            final(self)@ == old(self)@.op_move(),
    {
        let x = bs8_usize(self.opcode);
        self.v[x] = self.v[bs4_usize(self.opcode)];
        self.advance();
    }

    /// `8XY1`: sets `VX` to `VX | VY`.
    pub fn insn_8xy1(&mut self)
        ensures
            final(self)@ == old(self)@.op_or(),
    {
        let x = bs8_usize(self.opcode);
        self.v[x] = self.v[x] | self.v[bs4_usize(self.opcode)];
        self.advance();
    }

    /// `8XY2`: sets `VX` to `VX & VY`.
    pub fn insn_8xy2(&mut self)
        ensures
            final(self)@ == old(self)@.op_and(),
    {
        let x = bs8_usize(self.opcode);
        self.v[x] = self.v[x] & self.v[bs4_usize(self.opcode)];
        self.advance();
    }

    /// `8XY3`: sets `VX` to `VX ^ VY`.
    pub fn insn_8xy3(&mut self)
        ensures
            final(self)@ == old(self)@.op_xor(),
    {
        let x = bs8_usize(self.opcode);
        self.v[x] = self.v[x] ^ self.v[bs4_usize(self.opcode)];
        self.advance();
    }

    /// `8XY4`: adds `VY` to `VX`, then sets `VF` to the carry.
    pub fn insn_8xy4(&mut self)
        ensures
            final(self)@ == old(self)@.op_add(),
    {
        let x = bs8_usize(self.opcode);
        let result: u16 = self.v[x] as u16 + self.v[bs4_usize(self.opcode)] as u16;
        proof {
            lemma_low_bits(result);
        }
        self.v[x] = (result & 0x00FF) as u8;
        self.v[FLAG] = ((result & 0x0100) >> 8) as u8;
        self.advance();
    }

    /// `8XY5`: subtracts `VY` from `VX`, then sets `VF` to 0 if that took a
    /// borrow, to 1 if not.
    pub fn insn_8xy5(&mut self)
        ensures
            final(self)@ == old(self)@.op_sub(),
    {
        let x = bs8_usize(self.opcode);
        let minuend: u16 = self.v[x] as u16;
        proof {
            lemma_borrow_bit(minuend);
        }
        let result: u16 = (0x0100 | minuend) - self.v[bs4_usize(self.opcode)] as u16;
        proof {
            lemma_low_bits(result);
        }
        self.v[x] = (result & 0x00FF) as u8;
        self.v[FLAG] = ((result & 0x0100) >> 8) as u8;
        self.advance();
    }

    /// `8XY6`: halves `VX`, then sets `VF` to the bit that fell off.
    pub fn insn_8xy6(&mut self)
        ensures
            final(self)@ == old(self)@.op_shift_right(),
    {
        let x = bs8_usize(self.opcode);
        let operand: u8 = self.v[x];
        assert(operand >> 1 == operand / 2) by (bit_vector);
        assert(operand & 0x01 == operand % 2) by (bit_vector);
        self.v[x] = operand >> 1;
        self.v[FLAG] = operand & 0x01;
        self.advance();
    }

    /// `8XY7`: sets `VX` to `VY - VX`, then sets `VF` to 0 if that took a
    /// borrow, to 1 if not.
    pub fn insn_8xy7(&mut self)
        ensures
            final(self)@ == old(self)@.op_sub_reverse(),
    {
        let x = bs8_usize(self.opcode);
        let minuend: u16 = self.v[bs4_usize(self.opcode)] as u16;
        proof {
            lemma_borrow_bit(minuend);
        }
        let result: u16 = (0x0100 | minuend) - self.v[x] as u16;
        proof {
            lemma_low_bits(result);
        }
        self.v[x] = (result & 0x00FF) as u8;
        self.v[FLAG] = ((result & 0x0100) >> 8) as u8;
        self.advance();
    }

    /// `8XYE`: doubles `VX`, then sets `VF` to the bit that fell off.
    pub fn insn_8xye(&mut self)
        ensures
            final(self)@ == old(self)@.op_shift_left(),
    {
        let x = bs8_usize(self.opcode);
        let operand: u8 = self.v[x];
        assert(operand << 1 == (operand * 2) % 256) by (bit_vector);
        assert(operand >> 7 == operand / 128) by (bit_vector);
        self.v[x] = operand << 1;
        self.v[FLAG] = operand >> 7;
        self.advance();
    }

    /// `9XY_`: skips the next instruction if `VX != VY`.
    pub fn insn_9xy0(&mut self)
        ensures
            final(self)@ == old(self)@.op_skip_ne_reg(),
    {
        let skip = self.v[bs8_usize(self.opcode)] != self.v[bs4_usize(self.opcode)];
        self.skip_if(skip);
    }

    /// `ANNN`: sets `I` to `NNN`.
    pub fn insn_annn(&mut self)
        ensures
            final(self)@ == old(self)@.op_load_index(),
    {
        self.index = address(self.opcode);
        self.advance();
    }

    /// `BNNN`: jumps to `NNN + V0`.
    pub fn insn_bnnn(&mut self)
        ensures
            final(self)@ == old(self)@.op_jump_offset(),
    {
        self.goto(address(self.opcode) as u32 + self.v[0] as u32);
    }

    /// `CXNN` with the random number given: sets `VX` to the low byte of
    /// `sample` masked by `NN`.
    pub fn insn_cxnn_with(&mut self, sample: u16)
        ensures
            final(self)@ == old(self)@.op_random(sample),
    {
        let x = bs8_usize(self.opcode);
        assert((sample & 0x00FF) == sample % 256) by (bit_vector);
        self.v[x] = (sample & 0x00FF) as u8 & low_byte(self.opcode);
        self.advance();
    }

    /// `CXNN`: sets `VX` to a random byte masked by `NN`.
    pub fn insn_cxnn(&mut self)
        ensures
            exists|sample: u16| final(self)@ == #[trigger] old(self)@.op_random(sample),
    {
        let sample = random_u16();
        self.insn_cxnn_with(sample);
    }

    /// `DXYN`: draws the `N`-row sprite at `I` onto the display at
    /// (`VX`, `VY`), then sets `VF` to 1 if that turned a set pixel off, to
    /// 0 if not.
    pub fn insn_dxyn(&mut self)
        ensures
            final(self)@ == old(self)@.op_draw(),
    {
        let x = self.v[bs8_usize(self.opcode)];
        let y = self.v[bs4_usize(self.opcode)];
        let height = low_nibble(self.opcode);
        let ghost sprite = old(self)@.sprite();
        let mut collided = false;
        let mut row: u8 = 0;
        while row < height
            invariant
                row <= height <= 15,
                height == old(self)@.n(),
                sprite == old(self)@.sprite(),
                x == sprite.x,
                y == sprite.y,
                self@ == (Machine { display: self@.display, ..old(self)@ }),
                self@.display == sprite.draw_prefix(old(self)@.display, (8 * row) as nat).0,
                collided == sprite.draw_prefix(old(self)@.display, (8 * row) as nat).1,
            decreases height - row,
        {
            let bits = self.memory[memory_cell(self.index as u32 + row as u32)];
            let mut col: u8 = 0;
            while col < 8
                invariant
                    col <= 8,
                    row < height <= 15,
                    sprite == old(self)@.sprite(),
                    sprite.rows.len() == height,
                    bits == sprite.rows[row as int],
                    x == sprite.x,
                    y == sprite.y,
                    self@ == (Machine { display: self@.display, ..old(self)@ }),
                    self@.display == sprite.draw_prefix(
                        old(self)@.display,
                        (8 * row + col) as nat,
                    ).0,
                    collided == sprite.draw_prefix(old(self)@.display, (8 * row + col) as nat).1,
                decreases 8 - col,
            {
                if bits & (0x80u8 >> col) != 0 {
                    let mut pos: usize = x as usize + col as usize + (y as usize + row as usize)
                        * 64;
                    if pos >= DISPLAY_SIZE {
                        pos = DISPLAY_SIZE - 1;
                    }
                    let pixel = self.display[pos];
                    if pixel == 1 {
                        collided = true;
                    }
                    self.display[pos] = pixel ^ 1;
                }
                col += 1;
            }
            row += 1;
        }
        self.v[FLAG] = if collided {
            1
        } else {
            0
        };
        self.draw_flag = true;
        self.advance();
    }

    /// `EX9E`: skips the next instruction if the key named by `VX` is held.
    pub fn insn_ex9e(&mut self)
        ensures
            final(self)@ == old(self)@.op_skip_key(),
    {
        let skip = self.keypad[key_cell(self.v[bs8_usize(self.opcode)])] != 0;
        self.skip_if(skip);
    }

    /// `EXA1`: skips the next instruction if the key named by `VX` is not
    /// held.
    pub fn insn_exa1(&mut self)
        ensures
            final(self)@ == old(self)@.op_skip_not_key(),
    {
        let skip = self.keypad[key_cell(self.v[bs8_usize(self.opcode)])] == 0;
        self.skip_if(skip);
    }

    /// `FX07`: sets `VX` to the delay timer.
    pub fn insn_fx07(&mut self)
        ensures
            final(self)@ == old(self)@.op_get_delay(),
    {
        let x = bs8_usize(self.opcode);
        self.v[x] = self.delay_timer;
        self.advance();
    }

    /// `FX0A`: if a key among `0..KEY_SCAN_LIMIT` is held, sets `VX` to the
    /// lowest such key and goes on; if none is, changes nothing.
    pub fn insn_fx0a(&mut self)
        ensures
            final(self)@ == old(self)@.op_wait_key(),
    {
        let mut key: usize = 0;
        while key < KEY_SCAN_LIMIT && self.keypad[key] == 0
            invariant
                key <= KEY_SCAN_LIMIT,
                self@ == old(self)@,
                forall|j: int| 0 <= j < key ==> !old(self)@.key_held(j),
            decreases KEY_SCAN_LIMIT - key,
        {
            key += 1;
        }
        if key < KEY_SCAN_LIMIT {
            assert(old(self)@.is_first_held(key as int));
            let x = bs8_usize(self.opcode);
            self.v[x] = key as u8;
            self.advance();
        }
    }

    /// `FX15`: sets the delay timer to `VX`.
    pub fn insn_fx15(&mut self)
        ensures
            final(self)@ == old(self)@.op_set_delay(),
    {
        self.delay_timer = self.v[bs8_usize(self.opcode)];
        self.advance();
    }

    /// `FX18`: sets the sound timer to `VX`.
    pub fn insn_fx18(&mut self)
        ensures
            final(self)@ == old(self)@.op_set_sound(),
    {
        self.sound_timer = self.v[bs8_usize(self.opcode)];
        self.advance();
    }

    /// `FX1E`: adds `VX` to `I`, modulo 4096, and sets `VF` to the bit of
    /// the sum above those twelve.
    pub fn insn_fx1e(&mut self)
        ensures
            final(self)@ == old(self)@.op_add_index(),
    {
        let result: u32 = self.index as u32 + self.v[bs8_usize(self.opcode)] as u32;
        assert(result & 0x0FFF == result % 4096) by (bit_vector);
        assert((result & 0x1000) >> 12 == (result / 4096) % 2) by (bit_vector);
        self.index = (result & 0x0FFF) as u16;
        self.v[FLAG] = ((result & 0x1000) >> 12) as u8;
        self.advance();
    }

    /// `FX29`: sets `I` to five times `VX`.
    pub fn insn_fx29(&mut self)
        ensures
            final(self)@ == old(self)@.op_glyph(),
    {
        self.index = self.v[bs8_usize(self.opcode)] as u16 * 0x05;
        self.advance();
    }

    /// `FX33`: writes the hundreds, tens and ones of `VX` at `I`, `I + 1`
    /// and `I + 2`.
    pub fn insn_fx33(&mut self)
        ensures
            final(self)@ == old(self)@.op_bcd(),
    {
        let value = self.v[bs8_usize(self.opcode)];
        self.memory[memory_cell(self.index as u32)] = value / 100;
        self.memory[memory_cell(self.index as u32 + 1)] = (value / 10) % 10;
        self.memory[memory_cell(self.index as u32 + 2)] = (value % 100) % 10;
        self.advance();
    }

    /// `FX55`: writes `V0..=VX` to memory at `I`.
    pub fn insn_fx55(&mut self)
        ensures
            final(self)@ == old(self)@.op_store(),
    {
        let count = bs8_usize(self.opcode) + 1;
        let mut i: usize = 0;
        while i < count
            invariant
                i <= count <= REGISTER_COUNT,
                self@ == (Machine { memory: old(self)@.stored(i as int), ..old(self)@ }),
            decreases count - i,
        {
            self.memory[memory_cell(self.index as u32 + i as u32)] = self.v[i];
            i += 1;
        }
        self.advance();
    }

    /// `FX65`: reads `V0..=VX` from memory at `I`.
    pub fn insn_fx65(&mut self)
        ensures
            final(self)@ == old(self)@.op_load(),
    {
        let count = bs8_usize(self.opcode) + 1;
        let mut i: usize = 0;
        while i < count
            invariant
                i <= count <= REGISTER_COUNT,
                self@ == (Machine { v: old(self)@.loaded(i as int), ..old(self)@ }),
            decreases count - i,
        {
            self.v[i] = self.memory[memory_cell(self.index as u32 + i as u32)];
            i += 1;
        }
        self.advance();
    }

    /// What is to be reported of `insn` if it is carried out now.
    fn condition(&self, insn: Instruction) -> (condition: Condition)
        ensures
            condition == self@.condition(insn),
    {
        match insn {
            Instruction::Unrecognized => Condition::UnrecognizedInstruction,
            Instruction::Call => if self.sp >= STACK_DEPTH {
                Condition::StackOverflow
            } else {
                Condition::Normal
            },
            Instruction::Return => if self.sp == 0 {
                Condition::StackUnderflow
            } else {
                Condition::Normal
            },
            _ => Condition::Normal,
        }
    }

    /// Counts each timer down by 1 unless it is 0, and tells whether the
    /// sound timer went from 1 to 0.
    fn tick_timers(&mut self) -> (beep: bool)
        ensures
            final(self)@ == old(self)@.tick(),
            beep == old(self)@.beeps(),
    {
        if self.delay_timer > 0 {
            self.delay_timer -= 1;
        }
        let beep = self.sound_timer == 1;
        if self.sound_timer > 0 {
            self.sound_timer -= 1;
        }
        beep
    }
}

/// The cell of memory that stands for `address`.
fn memory_cell(address: u32) -> (cell: usize)
    ensures
        cell == clamp_address(address as int),
{
    if address as usize >= MEMORY_SIZE {
        MEMORY_SIZE - 1
    } else {
        address as usize
    }
}

/// The cell of the keypad that stands for `key`.
fn key_cell(key: u8) -> (cell: usize)
    ensures
        cell == clamp_key(key as int),
{
    if key as usize >= KEY_COUNT {
        KEY_COUNT - 1
    } else {
        key as usize
    }
}

/// Draws a number from the thread-local generator of `rand`
/// (`rand::thread_rng`, then `Rng::gen`). Any `u16` may come back, and
/// two calls need not agree: nothing is claimed of the result. The generator
/// panics if the operating system cannot seed it.
#[verifier::external_body]
fn random_u16() -> (sample: u16) {
    rand::thread_rng().gen::<u16>()
}

/// The low byte of a number is its remainder modulo 256, and the bit above
/// the low byte tells whether the quotient is odd.
proof fn lemma_low_bits(n: u16)
    ensures
        n & 0x00FF == n % 256,
        (n & 0x0100) >> 8 == (n / 256) % 2,
{
    assert(n & 0x00FF == n % 256) by (bit_vector);
    assert((n & 0x0100) >> 8 == (n / 256) % 2) by (bit_vector);
}

/// Setting the bit above a byte adds 256 to it.
proof fn lemma_borrow_bit(n: u16)
    requires
        n < 256,
    ensures
        0x0100 | n == 256 + n,
{
    assert(n < 256 ==> 0x0100 | n == 256 + n) by (bit_vector);
}

} // verus!
