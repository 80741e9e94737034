use vstd::prelude::*;

use crate::draw::{lemma_draw_twice, lights};
use crate::engine::{exec_spec, opcode_at, step_spec};
use crate::instruction::{addr_of, decode_spec, Instruction};
use crate::machine::{pressed, RunState, State, FLAG, MEM_SIZE, STACK_DEPTH};
use crate::screen::pixel;

verus! {

/// Add-with-carry of `a = Vx` and `b = Vy` leaves `(a + b) mod 256` in `Vx` and sets the
/// flag register to 1 exactly when `a + b > 255`, else to 0.
pub proof fn lemma_add_with_carry(s: State, x: u8, y: u8, a: u8, b: u8, rnd: u8)
    requires
        s.wf(),
        x < 15,
        y < 16,
        s.v[x as int] == a,
        s.v[y as int] == b,
    ensures
        exec_spec(s, Instruction::AddCarry { x, y }, rnd) is Ok,
        exec_spec(s, Instruction::AddCarry { x, y }, rnd)->Ok_0.v[x as int] == (a + b) % 256,
        exec_spec(s, Instruction::AddCarry { x, y }, rnd)->Ok_0.v[FLAG as int] == if a + b > 255 {
            1u8
        } else {
            0u8
        },
{
}

/// Subtract-with-borrow of `a = Vx` and `b = Vy` leaves `(a - b) mod 256` in `Vx` and sets
/// the flag register to 1 exactly when `a >= b`, else to 0.
pub proof fn lemma_sub_with_borrow(s: State, x: u8, y: u8, a: u8, b: u8, rnd: u8)
    requires
        s.wf(),
        x < 15,
        y < 16,
        s.v[x as int] == a,
        s.v[y as int] == b,
    ensures
        exec_spec(s, Instruction::SubBorrow { x, y }, rnd) is Ok,
        exec_spec(s, Instruction::SubBorrow { x, y }, rnd)->Ok_0.v[x as int] == (a - b) % 256,
        exec_spec(s, Instruction::SubBorrow { x, y }, rnd)->Ok_0.v[FLAG as int] == if a >= b {
            1u8
        } else {
            0u8
        },
{
    assert((a - b + 256) % 256 == (a - b) % 256);
}

/// Clearing the screen, whatever was drawn before, leaves every pixel dark.
pub proof fn lemma_clear_screen(s: State, rnd: u8)
    requires
        s.wf(),
    ensures
        exec_spec(s, Instruction::ClearScreen, rnd) is Ok,
        forall|r: int, c: u64|
            0 <= r < 32 && c < 64 ==> !#[trigger] pixel(
                exec_spec(s, Instruction::ClearScreen, rnd)->Ok_0.screen[r],
                c,
            ),
{
    assert forall|c: u64| c < 64 implies !#[trigger] pixel(0u64, c) by {
        assert((0u64 >> (63u64 - c) as u64) & 1u64 == 0u64) by (bit_vector);
    }
}

/// Drawing the same sprite at the same place twice in a row restores the framebuffer,
/// and the second draw sets the flag register to 1 exactly when the first lit a pixel.
/// The place is fixed by registers other than the flag register, which the first draw
/// overwrites.
pub proof fn lemma_draw_twice_restores(s: State, x: u8, y: u8, n: u8, rnd: u8)
    requires
        s.wf(),
        x < 15,
        y < 15,
        n < 16,
        s.i + n <= MEM_SIZE,
    ensures
        ({
            let ins = Instruction::Draw { x, y, n };
            let once = exec_spec(s, ins, rnd)->Ok_0;
            let twice = exec_spec(once, ins, rnd)->Ok_0;
            let sprite = s.mem.subrange(s.i as int, s.i + n);
            &&& exec_spec(s, ins, rnd) is Ok
            &&& exec_spec(once, ins, rnd) is Ok
            &&& twice.screen == s.screen
            &&& (twice.v[FLAG as int] == 1) == lights(
                s.screen,
                sprite,
                s.v[x as int],
                (s.v[y as int] % 32) as int,
            )
        }),
{
    let ins = Instruction::Draw { x, y, n };
    let once = exec_spec(s, ins, rnd)->Ok_0;
    assert(once.v[x as int] == s.v[x as int]);
    assert(once.v[y as int] == s.v[y as int]);
    lemma_draw_twice(s.screen, s.mem.subrange(s.i as int, s.i + n), s.v[x as int], (s.v[y as int] % 32) as int);
}

/// A jump opcode `1nnn` sets the program counter to exactly `nnn` and changes nothing else.
pub proof fn lemma_jump(s: State, nnn: u16, rnd: u8)
    requires
        s.wf(),
        s.run is Running,
        s.pc + 1 < MEM_SIZE,
        nnn < 0x1000,
        opcode_at(s.mem, s.pc as int) == 0x1000u16 | nnn,
    ensures
        step_spec(s, rnd) == Ok::<State, crate::engine::Fault>(State { pc: nnn as usize, ..s }),
{
    let op = 0x1000u16 | nnn;
    assert(op >> 12u16 == 1u16 && op & 0x0FFFu16 == nnn) by (bit_vector)
        requires
            nnn < 0x1000u16,
            op == 0x1000u16 | nnn,
    ;
    assert(decode_spec(op) == Some(Instruction::Jump { addr: addr_of(op) }));
}

/// A call followed at once by a return brings the program counter to the instruction
/// after the call and the stack pointer back where it was.
pub proof fn lemma_call_then_return(s: State, addr: u16, rnd: u8)
    requires
        s.wf(),
        s.sp < STACK_DEPTH,
        s.pc + 1 < MEM_SIZE,
    ensures
        ({
            let called = exec_spec(s, Instruction::Call { addr }, rnd)->Ok_0;
            let returned = exec_spec(called, Instruction::Return, rnd)->Ok_0;
            &&& exec_spec(s, Instruction::Call { addr }, rnd) is Ok
            &&& exec_spec(called, Instruction::Return, rnd) is Ok
            &&& returned.pc == s.pc + 2
            &&& returned.sp == s.sp
        }),
{
}

/// Once waiting for a key, stepping leaves the machine as it is, whatever happens in
/// between; the first key pressed then lands in the waiting register and the program
/// counter moves on by exactly 2 past the wait instruction.
pub proof fn lemma_wait_for_key(s: State, x: u8, key: u8, rnd: u8, later: u8)
    requires
        s.wf(),
        s.run is Running,
        s.pc + 1 < MEM_SIZE,
        x < 16,
        key < 16,
    ensures
        ({
            let waiting = exec_spec(s, Instruction::WaitKey { x }, rnd)->Ok_0;
            &&& exec_spec(s, Instruction::WaitKey { x }, rnd) is Ok
            &&& waiting.pc == s.pc
            &&& waiting.run == RunState::WaitingForKey(x)
            &&& step_spec(waiting, later) == Ok::<State, crate::engine::Fault>(waiting)
            &&& pressed(waiting, key).pc == s.pc + 2
            &&& pressed(waiting, key).v[x as int] == key
            &&& pressed(waiting, key).run == RunState::Running
        }),
{
}

/// Storing or loading registers `V0..=Vx` leaves the index register increased by `x + 1`,
/// and fails only when the range would reach past the end of memory.
pub proof fn lemma_register_range_index(s: State, x: u8, rnd: u8)
    requires
        s.wf(),
        x < 16,
    ensures
        exec_spec(s, Instruction::StoreRegs { x }, rnd) is Ok <==> s.i + x + 1 <= MEM_SIZE,
        exec_spec(s, Instruction::LoadRegs { x }, rnd) is Ok <==> s.i + x + 1 <= MEM_SIZE,
        exec_spec(s, Instruction::StoreRegs { x }, rnd) is Ok ==> exec_spec(
            s,
            Instruction::StoreRegs { x },
            rnd,
        )->Ok_0.i == s.i + x + 1,
        exec_spec(s, Instruction::LoadRegs { x }, rnd) is Ok ==> exec_spec(
            s,
            Instruction::LoadRegs { x },
            rnd,
        )->Ok_0.i == s.i + x + 1,
{
}

} // verus!
