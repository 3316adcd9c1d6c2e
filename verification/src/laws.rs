//! Laws of the machine, proved of the model that the interpreter follows.

use vstd::prelude::*;
use crate::instruction::Instruction;
use crate::machine::{
    clamp_pc, Machine, FLAG, LAST_INSTRUCTION, MEMORY_SIZE, REGISTER_COUNT, STACK_DEPTH,
};
use crate::sprite::{lemma_drawn_twice, lemma_second_draw_collides, DISPLAY_SIZE};

verus! {

/// An arithmetic instruction leaves a byte in its destination register.
/// If it is one of those that produce a carry, a borrow or a bit shifted
/// out, it leaves 0 or 1 in `VF`, also where `VF` is its destination or its
/// operand. The others do not touch `VF` unless it is their destination.
pub proof fn lemma_arithmetic_result(s: Machine, insn: Instruction, sample: u16)
    requires
        s.wf(),
        insn.is_arithmetic(),
    ensures
        0 <= s.execute(insn, sample).v[s.x()] <= 255,
        insn.sets_flag() ==> s.execute(insn, sample).v[FLAG as int] == 0 || s.execute(
            insn,
            sample,
        ).v[FLAG as int] == 1,
        !insn.sets_flag() && s.x() != FLAG ==> s.execute(insn, sample).v[FLAG as int]
            == s.v[FLAG as int],
{
}

/// Adding a register to `I` leaves an address below 4096 in `I`, and 0 or
/// 1 in `VF` if `I` was below 4096 before.
pub proof fn lemma_add_index_result(s: Machine)
    requires
        s.wf(),
    ensures
        s.op_add_index().index < 4096,
        s.op_add_index().v[FLAG as int] <= 1,
        s.index < 4096 ==> (s.op_add_index().v[FLAG as int] == 1 <==> s.index + s.vx() >= 4096),
{
}

/// Storing `V0..=VX` at `I` and then loading `V0..=VX` from `I` gives the
/// registers back, whatever happened to the machine in between, as long as
/// `I` and those cells of memory are as the store left them. The range has to
/// lie inside memory: past its end the cells of the range coincide.
pub proof fn lemma_store_load_round_trip(s: Machine, t: Machine)
    requires
        s.wf(),
        t.wf(),
        s.index + s.x() < MEMORY_SIZE,
        t.index == s.index,
        t.x() == s.x(),
        forall|a: int|
            s.index <= a <= s.index + s.x() ==> t.memory[a] == s.op_store().memory[a],
    ensures
        forall|i: int| 0 <= i <= s.x() ==> t.op_load().v[i] == s.v[i],
        forall|i: int| s.x() < i < REGISTER_COUNT ==> t.op_load().v[i] == t.v[i],
{
}

/// The plain round trip: a store followed at once by the load of the same
/// range changes no register.
pub proof fn lemma_store_then_load(s: Machine)
    requires
        s.wf(),
        s.index + s.x() < MEMORY_SIZE,
    ensures
        s.op_store().op_load().v == s.v,
{
    lemma_store_load_round_trip(s, s.op_store());
}

/// Clearing the display leaves every cell at 0, so a second clear changes
/// nothing in the frame buffer.
pub proof fn lemma_clear_twice(s: Machine)
    ensures
        forall|c: int| 0 <= c < DISPLAY_SIZE ==> s.op_clear().display[c] == 0,
        s.op_clear().op_clear().display == s.op_clear().display,
        s.op_clear().draw_flag,
{
}

/// Drawing the same sprite at the same place twice in a row restores the
/// frame buffer, and the second drawing reports a collision if the first
/// turned any cell from 0 to 1.
///
/// The place is the same if the first drawing left `VX` and `VY` as they
/// were, which it does unless one of them is `VF`.
pub proof fn lemma_draw_twice(s: Machine)
    requires
        s.wf(),
        s.op_draw().vx() == s.vx(),
        s.op_draw().vy() == s.vy(),
    ensures
        s.op_draw().op_draw().display == s.display,
        (exists|c: int| 0 <= c < DISPLAY_SIZE && s.display[c] == 0 && s.op_draw().display[c] == 1)
            ==> s.op_draw().op_draw().v[FLAG as int] == 1,
{
    let once = s.op_draw();
    lemma_drawn_twice(s.sprite(), s.display);
    if exists|c: int| 0 <= c < DISPLAY_SIZE && s.display[c] == 0 && once.display[c] == 1 {
        let c = choose|c: int| 0 <= c < DISPLAY_SIZE && s.display[c] == 0 && once.display[c] == 1;
        lemma_second_draw_collides(s.sprite(), s.display, c);
    }
}

/// Where the program counter goes: an instruction that is neither a jump,
/// a call, a return, a skip nor the wait for a key steps to the next
/// instruction; a skip steps to the next or to the one after it; the wait
/// for a key stays or steps to the next. No step leaves memory: at the last
/// instruction of memory the program counter stays.
pub proof fn lemma_program_counter(s: Machine, insn: Instruction, sample: u16)
    requires
        s.wf(),
    ensures
        !insn.is_jump() && !insn.is_skip() && insn != Instruction::WaitKey ==> s.execute(
            insn,
            sample,
        ).pc == clamp_pc(s.pc + 2),
        insn.is_skip() ==> s.execute(insn, sample).pc == clamp_pc(s.pc + 2) || s.execute(
            insn,
            sample,
        ).pc == clamp_pc(s.pc + 4),
        insn == Instruction::WaitKey ==> s.execute(insn, sample).pc == s.pc || s.execute(
            insn,
            sample,
        ).pc == clamp_pc(s.pc + 2),
        s.pc + 4 <= LAST_INSTRUCTION ==> clamp_pc(s.pc + 2) == s.pc + 2 && clamp_pc(s.pc + 4)
            == s.pc + 4,
{
}

/// A call that finds room on the call stack, followed at once by a return,
/// resumes at the instruction after the call, with the call stack as deep as
/// before.
pub proof fn lemma_call_then_return(s: Machine)
    requires
        s.wf(),
        s.sp < STACK_DEPTH,
    ensures
        s.op_call().pc == clamp_pc(s.nnn() as int),
        s.op_call().op_return().pc == clamp_pc(s.pc + 2),
        s.op_call().op_return().sp == s.sp,
{
}

/// The machine only reads the keypad, and whenever a cycle changes the
/// frame buffer it raises the draw flag. No instruction lowers the draw flag.
pub proof fn lemma_keypad_and_draw_flag(s: Machine, sample: u16)
    requires
        s.wf(),
    ensures
        s.step(sample).keypad == s.keypad,
        s.step(sample).display != s.display ==> s.step(sample).draw_flag,
        s.draw_flag ==> s.step(sample).draw_flag,
{
}

/// In a cycle each timer goes down by exactly 1, or stays at 0, unless the
/// instruction of that cycle sets it.
pub proof fn lemma_timers_count_down(s: Machine, sample: u16)
    requires
        s.wf(),
    ensures
        s.next_instruction() != Instruction::SetDelay ==> s.step(sample).delay_timer == (if s.delay_timer
            > 0 {
            s.delay_timer - 1
        } else {
            0
        }),
        s.next_instruction() != Instruction::SetSound ==> s.step(sample).sound_timer == (if s.sound_timer
            > 0 {
            s.sound_timer - 1
        } else {
            0
        }),
{
}

/// The random number matters to the random instruction only, and never to
/// what a cycle reports.
pub proof fn lemma_sample_matters_to_random_only(s: Machine, a: u16, b: u16)
    ensures
        s.next_instruction() != Instruction::Random ==> s.step(a) == s.step(b),
        s.fetched().execute(s.next_instruction(), a).beeps() == s.report().beep,
{
}

/// A cycle takes a well-formed state to a well-formed state.
pub proof fn lemma_step_keeps_wf(s: Machine, sample: u16)
    requires
        s.wf(),
    ensures
        s.step(sample).wf(),
{
    crate::machine::lemma_execute_keeps_wf(s.fetched(), s.next_instruction(), sample);
}

/// What is left of a timer that stood at `timer` after `cycles` cycles.
pub open spec fn counted_down(timer: u8, cycles: nat) -> int {
    if timer >= cycles {
        timer - cycles
    } else {
        0
    }
}

/// As long as no instruction sets the delay timer, it goes down by 1 in
/// every cycle until it is 0, and then stays 0.
pub proof fn lemma_delay_timer_runs_down(s: Machine, samples: Seq<u16>)
    requires
        s.wf(),
        forall|k: int|
            0 <= k < samples.len() ==> (#[trigger] s.run(samples.take(k))).next_instruction()
                != Instruction::SetDelay,
    ensures
        s.run(samples).wf(),
        s.run(samples).delay_timer == counted_down(s.delay_timer, samples.len()),
    decreases samples.len(),
{
    if samples.len() > 0 {
        let earlier = samples.drop_last();
        assert forall|k: int| 0 <= k < earlier.len() implies (#[trigger] s.run(
            earlier.take(k),
        )).next_instruction() != Instruction::SetDelay by {
            assert(earlier.take(k) =~= samples.take(k));
        }
        lemma_delay_timer_runs_down(s, earlier);
        lemma_step_keeps_wf(s.run(earlier), samples.last());
        lemma_timers_count_down(s.run(earlier), samples.last());
    }
}

/// As long as no instruction sets the sound timer, it goes down by 1 in
/// every cycle until it is 0, and then stays 0.
pub proof fn lemma_sound_timer_runs_down(s: Machine, samples: Seq<u16>)
    requires
        s.wf(),
        forall|k: int|
            0 <= k < samples.len() ==> (#[trigger] s.run(samples.take(k))).next_instruction()
                != Instruction::SetSound,
    ensures
        s.run(samples).wf(),
        s.run(samples).sound_timer == counted_down(s.sound_timer, samples.len()),
    decreases samples.len(),
{
    if samples.len() > 0 {
        let earlier = samples.drop_last();
        assert forall|k: int| 0 <= k < earlier.len() implies (#[trigger] s.run(
            earlier.take(k),
        )).next_instruction() != Instruction::SetSound by {
            assert(earlier.take(k) =~= samples.take(k));
        }
        lemma_sound_timer_runs_down(s, earlier);
        lemma_step_keeps_wf(s.run(earlier), samples.last());
        lemma_timers_count_down(s.run(earlier), samples.last());
    }
}

} // verus!
