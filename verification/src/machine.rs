//! The machine as a mathematical object: its state, what each instruction
//! does to it, and one whole cycle.
//!
//! Where the instruction set leaves a choice, the machine is defined as
//! follows.
//!
//! - Every address the machine computes is kept inside the region it points
//!   into by clamping: an address past the end of a region stands for the
//!   last cell of that region. This holds of the program counter, of memory
//!   addresses, of key numbers and of frame-buffer cells (a sprite that runs
//!   past the end of the frame buffer does not wrap to its start).
//! - An instruction word that names no operation, a call that finds the call
//!   stack full and a return that finds it empty change nothing, are
//!   reported, and the machine steps to the next instruction.
//! - The wait for a key looks at the keys below `KEY_SCAN_LIMIT` only, and
//!   takes the lowest of those held.
//! - Storing and loading registers leave `I` as it was.
//! - An instruction that writes a flag to `VF` writes its result first and
//!   the flag last, and reads its operands before either.
//! - The glyph of digit `d` is looked up at address `5 * d`.

use vstd::prelude::*;
use crate::instruction::{
    spec_decode, Instruction, operand_n, operand_nn, operand_nnn, operand_x, operand_y,
};
use crate::sprite::{Sprite, DISPLAY_SIZE};

verus! {

/// The number of bytes of memory.
pub const MEMORY_SIZE: usize = 4096;

/// The number of registers.
pub const REGISTER_COUNT: usize = 16;

/// The number of calls that can be in progress at once.
pub const STACK_DEPTH: u16 = 16;

/// The number of keys.
pub const KEY_COUNT: usize = 16;

/// Where programs are loaded and start to run.
pub const PROGRAM_START: u16 = 0x200;

/// The highest address at which a two-byte instruction can be fetched.
pub const LAST_INSTRUCTION: u16 = 4094;

/// The index of the flag register `VF`.
pub const FLAG: usize = 0xF;

/// The keys `0..KEY_SCAN_LIMIT` are looked at while waiting for a key; the
/// last key of the pad is not.
pub const KEY_SCAN_LIMIT: usize = 15;

/// What a cycle has to report besides the new state.
#[derive(Clone, Copy, Debug, PartialEq, Eq, Structural)]
pub enum Condition {
    /// The instruction was carried out.
    Normal,
    /// The instruction word names no operation; it was skipped.
    UnrecognizedInstruction,
    /// A call found the call stack full; it was skipped.
    StackOverflow,
    /// A return found the call stack empty; it was skipped.
    StackUnderflow,
}

/// The observable events of one cycle.
#[derive(Clone, Copy, Debug, PartialEq, Eq, Structural)]
pub struct CycleReport {
    /// How the instruction of this cycle fared.
    pub condition: Condition,
    /// Whether the sound timer went from 1 to 0 in this cycle.
    pub beep: bool,
}

/// The program counter that stands for `target`.
pub open spec fn clamp_pc(target: int) -> u16 {
    if target > LAST_INSTRUCTION {
        LAST_INSTRUCTION
    } else {
        target as u16
    }
}

/// The memory address that stands for `address`.
pub open spec fn clamp_address(address: int) -> int {
    if address >= MEMORY_SIZE {
        MEMORY_SIZE - 1
    } else {
        address
    }
}

/// The key that stands for `key`.
pub open spec fn clamp_key(key: int) -> int {
    if key >= KEY_COUNT {
        KEY_COUNT - 1
    } else {
        key
    }
}

/// The state of the machine.
#[verifier::ext_equal]
pub struct Machine {
    /// The instruction word fetched last.
    pub opcode: u16,
    pub memory: Seq<u8>,
    /// The registers `V0` to `VF`.
    pub v: Seq<u8>,
    pub index: u16,
    pub pc: u16,
    /// The frame buffer, row by row, 64 cells to a row.
    pub display: Seq<u8>,
    pub delay_timer: u8,
    pub sound_timer: u8,
    /// Set when the frame buffer was written and has to be shown.
    pub draw_flag: bool,
    /// The return addresses of the calls in progress; the first `sp` count.
    pub stack: Seq<u16>,
    pub sp: u16,
    /// The keys; a key is held while its cell is not 0.
    pub keypad: Seq<u8>,
}

impl Machine {
    /// The state is one the machine can be in.
    pub open spec fn wf(self) -> bool {
        &&& self.memory.len() == MEMORY_SIZE
        &&& self.v.len() == REGISTER_COUNT
        &&& self.display.len() == DISPLAY_SIZE
        &&& self.stack.len() == STACK_DEPTH
        &&& self.keypad.len() == KEY_COUNT
        &&& self.pc <= LAST_INSTRUCTION
        &&& self.sp <= STACK_DEPTH
    }

    /// The register index `X` of the instruction word.
    pub open spec fn x(self) -> int {
        operand_x(self.opcode)
    }

    /// The register index `Y` of the instruction word.
    pub open spec fn y(self) -> int {
        operand_y(self.opcode)
    }

    /// The four-bit operand `N` of the instruction word.
    pub open spec fn n(self) -> int {
        operand_n(self.opcode)
    }

    /// The eight-bit operand `NN` of the instruction word.
    pub open spec fn nn(self) -> u8 {
        operand_nn(self.opcode) as u8
    }

    /// The twelve-bit operand `NNN` of the instruction word.
    pub open spec fn nnn(self) -> u16 {
        operand_nnn(self.opcode) as u16
    }

    /// The value of register `VX`.
    pub open spec fn vx(self) -> u8 {
        self.v[self.x()]
    }

    /// The value of register `VY`.
    pub open spec fn vy(self) -> u8 {
        self.v[self.y()]
    }

    /// The state with the program counter at `target`.
    pub open spec fn goto(self, target: int) -> Machine {
        Machine { pc: clamp_pc(target), ..self }
    }

    /// The state with the program counter at the next instruction.
    pub open spec fn advance(self) -> Machine {
        self.goto(self.pc + 2)
    }

    /// The state with the program counter past the next instruction if
    /// `skip`, at the next instruction otherwise.
    pub open spec fn skip_if(self, skip: bool) -> Machine {
        self.goto(
            if skip {
                self.pc + 4
            } else {
                self.pc + 2
            },
        )
    }

    /// The state with `value` in register `r`.
    pub open spec fn with_reg(self, r: int, value: u8) -> Machine {
        Machine { v: self.v.update(r, value), ..self }
    }

    /// The state with `value` in `VX` and then `flag` in `VF`.
    pub open spec fn with_result(self, value: u8, flag: u8) -> Machine {
        Machine { v: self.v.update(self.x(), value).update(FLAG as int, flag), ..self }
    }

    /// Whether key `k` is held.
    pub open spec fn key_held(self, k: int) -> bool {
        self.keypad[k] != 0
    }

    /// Whether `k` is the lowest key held among those that are looked at.
    pub open spec fn is_first_held(self, k: int) -> bool {
        &&& 0 <= k < KEY_SCAN_LIMIT
        &&& self.key_held(k)
        &&& forall|j: int| 0 <= j < k ==> !self.key_held(j)
    }

    /// The sprite that a draw instruction draws: `N` rows read from memory
    /// at `I`, placed at (`VX`, `VY`).
    pub open spec fn sprite(self) -> Sprite {
        Sprite {
            rows: Seq::new(self.n() as nat, |r: int| self.memory[clamp_address(self.index + r)]),
            x: self.vx(),
            y: self.vy(),
        }
    }

    /// Memory after the registers `V0..count` were written at `I`, one after
    /// the other.
    pub open spec fn stored(self, count: int) -> Seq<u8> {
        Seq::new(
            MEMORY_SIZE as nat,
            |a: int|
                if a == MEMORY_SIZE - 1 && count >= 1 && self.index + count - 1 >= MEMORY_SIZE - 1 {
                    self.v[count - 1]
                } else if self.index <= a < self.index + count {
                    self.v[a - self.index]
                } else {
                    self.memory[a]
                },
        )
    }

    /// The registers after `V0..count` were read from memory at `I`.
    pub open spec fn loaded(self, count: int) -> Seq<u8> {
        Seq::new(
            REGISTER_COUNT as nat,
            |r: int|
                if r < count {
                    self.memory[clamp_address(self.index + r)]
                } else {
                    self.v[r]
                },
        )
    }

    /// `0NNN`: nothing but the step to the next instruction.
    pub open spec fn op_sys(self) -> Machine {
        self.advance()
    }

    /// `00E0`: every cell of the frame buffer becomes 0.
    pub open spec fn op_clear(self) -> Machine {
        Machine {
            display: Seq::new(DISPLAY_SIZE as nat, |c: int| 0u8),
            draw_flag: true,
            ..self
        }.advance()
    }

    /// `00EE`: resume after the call that was made last; with no call in
    /// progress, nothing but the step to the next instruction.
    pub open spec fn op_return(self) -> Machine {
        if self.sp == 0 {
            self.advance()
        } else {
            Machine { sp: (self.sp - 1) as u16, ..self }.goto(self.stack[self.sp - 1] + 2)
        }
    }

    /// `1NNN`.
    pub open spec fn op_jump(self) -> Machine {
        self.goto(self.nnn() as int)
    }

    /// `2NNN`: remember the address of this instruction and go to `NNN`;
    /// with the call stack full, nothing but the step to the next instruction.
    pub open spec fn op_call(self) -> Machine {
        if self.sp >= STACK_DEPTH {
            self.advance()
        } else {
            Machine {
                stack: self.stack.update(self.sp as int, self.pc),
                sp: (self.sp + 1) as u16,
                ..self
            }.goto(self.nnn() as int)
        }
    }

    /// `3XNN`.
    pub open spec fn op_skip_eq_imm(self) -> Machine {
        self.skip_if(self.vx() == self.nn())
    }

    /// `4XNN`.
    pub open spec fn op_skip_ne_imm(self) -> Machine {
        self.skip_if(self.vx() != self.nn())
    }

    /// `5XY_`.
    pub open spec fn op_skip_eq_reg(self) -> Machine {
        self.skip_if(self.vx() == self.vy())
    }

    /// `6XNN`.
    pub open spec fn op_load_imm(self) -> Machine {
        self.with_reg(self.x(), self.nn()).advance()
    }

    /// `7XNN`: the sum modulo 256; `VF` is not a flag here.
    pub open spec fn op_add_imm(self) -> Machine {
        self.with_reg(self.x(), ((self.vx() + self.nn()) % 256) as u8).advance()
    }

    /// `8XY0`.
    pub open spec fn op_move(self) -> Machine {
        self.with_reg(self.x(), self.vy()).advance()
    }

    /// `8XY1`.
    pub open spec fn op_or(self) -> Machine {
        self.with_reg(self.x(), self.vx() | self.vy()).advance()
    }

    /// `8XY2`.
    pub open spec fn op_and(self) -> Machine {
        self.with_reg(self.x(), self.vx() & self.vy()).advance()
    }

    /// `8XY3`.
    pub open spec fn op_xor(self) -> Machine {
        self.with_reg(self.x(), self.vx() ^ self.vy()).advance()
    }

    /// `8XY4`: the sum modulo 256, and the carry.
    pub open spec fn op_add(self) -> Machine {
        let sum = self.vx() + self.vy();
        self.with_result((sum % 256) as u8, (sum / 256) as u8).advance()
    }

    /// `8XY5`: the difference modulo 256, and 1 unless a borrow was needed.
    pub open spec fn op_sub(self) -> Machine {
        self.with_result(
            ((self.vx() - self.vy()) % 256) as u8,
            if self.vx() >= self.vy() {
                1
            } else {
                0
            },
        ).advance()
    }

    /// `8XY6`: half of `VX`, and the bit that fell off.
    pub open spec fn op_shift_right(self) -> Machine {
        self.with_result(self.vx() / 2, self.vx() % 2).advance()
    }

    /// `8XY7`: the difference `VY - VX` modulo 256, and 1 unless a borrow
    /// was needed.
    pub open spec fn op_sub_reverse(self) -> Machine {
        self.with_result(
            ((self.vy() - self.vx()) % 256) as u8,
            if self.vy() >= self.vx() {
                1
            } else {
                0
            },
        ).advance()
    }

    /// `8XYE`: twice `VX` modulo 256, and the bit that fell off.
    pub open spec fn op_shift_left(self) -> Machine {
        self.with_result(((self.vx() * 2) % 256) as u8, self.vx() / 128).advance()
    }

    /// `9XY_`.
    pub open spec fn op_skip_ne_reg(self) -> Machine {
        self.skip_if(self.vx() != self.vy())
    }

    /// `ANNN`.
    pub open spec fn op_load_index(self) -> Machine {
        Machine { index: self.nnn(), ..self }.advance()
    }

    /// `BNNN`.
    pub open spec fn op_jump_offset(self) -> Machine {
        self.goto(self.nnn() + self.v[0])
    }

    /// `CXNN`, where the random number drawn is `sample`.
    pub open spec fn op_random(self, sample: u16) -> Machine {
        self.with_reg(self.x(), ((sample % 256) as u8) & self.nn()).advance()
    }

    /// `DXYN`: the sprite is drawn onto the frame buffer, and `VF` tells
    /// whether it turned a set pixel off.
    pub open spec fn op_draw(self) -> Machine {
        Machine {
            display: self.sprite().drawn(self.display),
            v: self.v.update(
                FLAG as int,
                if self.sprite().collides(self.display) {
                    1
                } else {
                    0
                },
            ),
            draw_flag: true,
            ..self
        }.advance()
    }

    /// `EX9E`.
    pub open spec fn op_skip_key(self) -> Machine {
        self.skip_if(self.key_held(clamp_key(self.vx() as int)))
    }

    /// `EXA1`.
    pub open spec fn op_skip_not_key(self) -> Machine {
        self.skip_if(!self.key_held(clamp_key(self.vx() as int)))
    }

    /// `FX07`.
    pub open spec fn op_get_delay(self) -> Machine {
        self.with_reg(self.x(), self.delay_timer).advance()
    }

    /// `FX0A`: with a key held, `VX` becomes the lowest such key and the
    /// machine goes on; with none held, nothing changes, so that the
    /// instruction is tried again in the next cycle.
    pub open spec fn op_wait_key(self) -> Machine {
        if exists|k: int| self.is_first_held(k) {
            self.with_reg(self.x(), (choose|k: int| self.is_first_held(k)) as u8).advance()
        } else {
            self
        }
    }

    /// `FX15`.
    pub open spec fn op_set_delay(self) -> Machine {
        Machine { delay_timer: self.vx(), ..self }.advance()
    }

    /// `FX18`.
    pub open spec fn op_set_sound(self) -> Machine {
        Machine { sound_timer: self.vx(), ..self }.advance()
    }

    /// `FX1E`: the sum modulo 4096, and in `VF` the bit of the sum above
    /// those twelve.
    pub open spec fn op_add_index(self) -> Machine {
        let sum = self.index + self.vx();
        Machine {
            index: (sum % 4096) as u16,
            v: self.v.update(FLAG as int, ((sum / 4096) % 2) as u8),
            ..self
        }.advance()
    }

    /// `FX29`: glyphs are five bytes each.
    pub open spec fn op_glyph(self) -> Machine {
        Machine { index: (5 * self.vx()) as u16, ..self }.advance()
    }

    /// `FX33`: hundreds, tens and ones of `VX`, written in this order at
    /// `I`, `I + 1` and `I + 2`.
    pub open spec fn op_bcd(self) -> Machine {
        Machine {
            memory: self.memory.update(clamp_address(self.index as int), self.vx() / 100).update(
                clamp_address(self.index + 1),
                (self.vx() / 10) % 10,
            ).update(clamp_address(self.index + 2), self.vx() % 10),
            ..self
        }.advance()
    }

    /// `FX55`: `V0..=VX` are written at `I`; `I` stays.
    pub open spec fn op_store(self) -> Machine {
        Machine { memory: self.stored(self.x() + 1), ..self }.advance()
    }

    /// `FX65`: `V0..=VX` are read from `I`; `I` stays.
    pub open spec fn op_load(self) -> Machine {
        Machine { v: self.loaded(self.x() + 1), ..self }.advance()
    }

    /// A word that names no operation: nothing but the step to the next
    /// instruction.
    pub open spec fn op_unrecognized(self) -> Machine {
        self.advance()
    }

    /// The state after `insn` was carried out on the operands in `opcode`.
    pub open spec fn execute(self, insn: Instruction, sample: u16) -> Machine {
        match insn {
            Instruction::Sys => self.op_sys(),
            Instruction::ClearDisplay => self.op_clear(),
            Instruction::Return => self.op_return(),
            Instruction::Jump => self.op_jump(),
            Instruction::Call => self.op_call(),
            Instruction::SkipEqImm => self.op_skip_eq_imm(),
            Instruction::SkipNeImm => self.op_skip_ne_imm(),
            Instruction::SkipEqReg => self.op_skip_eq_reg(),
            Instruction::LoadImm => self.op_load_imm(),
            Instruction::AddImm => self.op_add_imm(),
            Instruction::Move => self.op_move(),
            Instruction::Or => self.op_or(),
            Instruction::And => self.op_and(),
            Instruction::Xor => self.op_xor(),
            Instruction::Add => self.op_add(),
            Instruction::Sub => self.op_sub(),
            Instruction::ShiftRight => self.op_shift_right(),
            Instruction::SubReverse => self.op_sub_reverse(),
            Instruction::ShiftLeft => self.op_shift_left(),
            Instruction::SkipNeReg => self.op_skip_ne_reg(),
            Instruction::LoadIndex => self.op_load_index(),
            Instruction::JumpOffset => self.op_jump_offset(),
            Instruction::Random => self.op_random(sample),
            Instruction::Draw => self.op_draw(),
            Instruction::SkipKey => self.op_skip_key(),
            Instruction::SkipNotKey => self.op_skip_not_key(),
            Instruction::GetDelay => self.op_get_delay(),
            Instruction::WaitKey => self.op_wait_key(),
            Instruction::SetDelay => self.op_set_delay(),
            Instruction::SetSound => self.op_set_sound(),
            Instruction::AddIndex => self.op_add_index(),
            Instruction::Glyph => self.op_glyph(),
            Instruction::Bcd => self.op_bcd(),
            Instruction::Store => self.op_store(),
            Instruction::Load => self.op_load(),
            Instruction::Unrecognized => self.op_unrecognized(),
        }
    }

    /// What is reported of `insn` when it is carried out in this state.
    pub open spec fn condition(self, insn: Instruction) -> Condition {
        match insn {
            Instruction::Unrecognized => Condition::UnrecognizedInstruction,
            Instruction::Call => if self.sp >= STACK_DEPTH {
                Condition::StackOverflow
            } else {
                Condition::Normal
            },
            Instruction::Return => if self.sp == 0 {
                Condition::StackUnderflow
            } else {
                Condition::Normal
            },
            _ => Condition::Normal,
        }
    }

    /// The instruction word at the program counter, high byte first.
    pub open spec fn fetch(self) -> u16 {
        (self.memory[self.pc as int] * 256 + self.memory[self.pc + 1]) as u16
    }

    /// The state with the instruction word at the program counter in `opcode`.
    pub open spec fn fetched(self) -> Machine {
        Machine { opcode: self.fetch(), ..self }
    }

    /// The operation that the next cycle carries out.
    pub open spec fn next_instruction(self) -> Instruction {
        spec_decode(self.fetch())
    }

    /// The state after one tick of the timers: each goes down by 1 unless
    /// it is 0.
    pub open spec fn tick(self) -> Machine {
        Machine {
            delay_timer: if self.delay_timer > 0 {
                (self.delay_timer - 1) as u8
            } else {
                0
            },
            sound_timer: if self.sound_timer > 0 {
                (self.sound_timer - 1) as u8
            } else {
                0
            },
            ..self
        }
    }

    /// Whether the next tick takes the sound timer from 1 to 0.
    pub open spec fn beeps(self) -> bool {
        self.sound_timer == 1
    }

    /// The state after one cycle: fetch, decode, execute, tick. `sample` is
    /// the random number drawn if the instruction asks for one.
    pub open spec fn step(self, sample: u16) -> Machine {
        self.fetched().execute(self.next_instruction(), sample).tick()
    }

    /// The state after as many cycles as `samples` has numbers, the cycles
    /// drawing their random numbers from `samples` in order.
    pub open spec fn run(self, samples: Seq<u16>) -> Machine
        decreases samples.len(),
    {
        if samples.len() == 0 {
            self
        } else {
            self.run(samples.drop_last()).step(samples.last())
        }
    }

    /// What one cycle reports.
    pub open spec fn report(self) -> CycleReport {
        CycleReport {
            condition: self.fetched().condition(self.next_instruction()),
            beep: self.fetched().execute(self.next_instruction(), 0).beeps(),
        }
    }
}

/// Carrying out an instruction takes a well-formed state to a well-formed
/// state, whatever the instruction and the random number drawn.
pub proof fn lemma_execute_keeps_wf(s: Machine, insn: Instruction, sample: u16)
    requires
        s.wf(),
    ensures
        s.execute(insn, sample).wf(),
{
    if insn == Instruction::Draw {
        crate::sprite::lemma_draw_prefix_cells(s.sprite(), s.display, s.sprite().area());
    }
}

} // verus!
