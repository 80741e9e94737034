use vstd::prelude::*;

use crate::draw::{collides, drawn};
use crate::instruction::{decode, decode_spec, Instruction};
use crate::machine::{key_down, Chip8, RunState, State, FLAG, MEM_SIZE, STACK_DEPTH};

verus! {

/// Why a step could not be carried out; the machine is left as it was.
#[derive(Clone, Copy, Debug, PartialEq, Eq, Structural)]
pub enum Fault {
    /// The opcode matches no instruction.
    UnknownOpcode(u16),
    /// The program counter leaves no room for a two-byte instruction in memory.
    PcOutOfRange,
    /// A call with all sixteen stack slots in use.
    StackOverflow,
    /// A return with an empty stack.
    StackUnderflow,
    /// A memory access through the index register reaches past the end of memory.
    MemoryOutOfRange,
    /// Adding a register to the index register overflows sixteen bits.
    IndexOverflow,
}

/// `s` moved on to the next instruction.
pub open spec fn advanced(s: State) -> State {
    State { pc: (s.pc + 2) as usize, ..s }
}

/// `s` moved past the next instruction when `c` holds, else on to it.
pub open spec fn skipped_if(s: State, c: bool) -> State {
    State { pc: (s.pc + if c { 4int } else { 2int }) as usize, ..s }
}

/// `s` with register `x` set to `value` after the flag register is set to `flag`,
/// moved on to the next instruction.
pub open spec fn with_flag(s: State, x: u8, value: u8, flag: u8) -> State {
    advanced(State { v: s.v.update(FLAG as int, flag).update(x as int, value), ..s })
}

/// `s` with register `x` set to `value`, moved on to the next instruction.
pub open spec fn with_reg(s: State, x: u8, value: u8) -> State {
    advanced(State { v: s.v.update(x as int, value), ..s })
}

/// The effect of executing `ins` on `s`; `rnd` is the random byte that the
/// random-and instruction draws.
pub open spec fn exec_spec(s: State, ins: Instruction, rnd: u8) -> Result<State, Fault> {
    let v = s.v;
    match ins {
        Instruction::ClearScreen => Ok(advanced(State { screen: Seq::new(32, |r: int| 0u64), ..s })),
        Instruction::Return => if s.sp == 0 {
            Err(Fault::StackUnderflow)
        } else {
            Ok(State { sp: (s.sp - 1) as usize, pc: (s.stack[s.sp - 1] + 2) as usize, ..s })
        },
        Instruction::Jump { addr } => Ok(State { pc: addr as usize, ..s }),
        Instruction::Call { addr } => if s.sp >= STACK_DEPTH {
            Err(Fault::StackOverflow)
        } else {
            Ok(
                State {
                    stack: s.stack.update(s.sp as int, s.pc as u16),
                    sp: (s.sp + 1) as usize,
                    pc: addr as usize,
                    ..s
                },
            )
        },
        Instruction::SkipEqImm { x, kk } => Ok(skipped_if(s, v[x as int] == kk)),
        Instruction::SkipNeImm { x, kk } => Ok(skipped_if(s, v[x as int] != kk)),
        Instruction::SkipEqReg { x, y } => Ok(skipped_if(s, v[x as int] == v[y as int])),
        Instruction::LoadImm { x, kk } => Ok(with_reg(s, x, kk)),
        Instruction::AddImm { x, kk } => Ok(with_reg(s, x, ((v[x as int] + kk) % 256) as u8)),
        Instruction::Assign { x, y } => Ok(with_reg(s, x, v[y as int])),
        Instruction::Or { x, y } => Ok(with_reg(s, x, v[x as int] | v[y as int])),
        Instruction::And { x, y } => Ok(with_reg(s, x, v[x as int] & v[y as int])),
        Instruction::Xor { x, y } => Ok(with_reg(s, x, v[x as int] ^ v[y as int])),
        Instruction::AddCarry { x, y } => {
            let sum = v[x as int] + v[y as int];
            Ok(with_flag(s, x, (sum % 256) as u8, if sum > 255 { 1 } else { 0 }))
        },
        Instruction::SubBorrow { x, y } => {
            let (a, b) = (v[x as int], v[y as int]);
            Ok(with_flag(s, x, ((a - b + 256) % 256) as u8, if a >= b { 1 } else { 0 }))
        },
        Instruction::ShiftRight { x, y } => Ok(
            with_flag(s, x, v[y as int] >> 1u8, v[y as int] & 1u8),
        ),
        Instruction::SubReverse { x, y } => {
            let (a, b) = (v[x as int], v[y as int]);
            Ok(with_flag(s, x, ((b - a + 256) % 256) as u8, if b >= a { 1 } else { 0 }))
        },
        Instruction::ShiftLeft { x, y } => Ok(
            with_flag(s, x, v[y as int] << 1u8, v[y as int] >> 7u8),
        ),
        Instruction::SkipNeReg { x, y } => Ok(skipped_if(s, v[x as int] != v[y as int])),
        Instruction::LoadIndex { addr } => Ok(advanced(State { i: addr, ..s })),
        Instruction::JumpOffset { addr } => Ok(State { pc: (addr + v[0]) as usize, ..s }),
        Instruction::Random { x, kk } => Ok(with_reg(s, x, rnd & kk)),
        Instruction::Draw { x, y, n } => if s.i + n > MEM_SIZE {
            Err(Fault::MemoryOutOfRange)
        } else {
            let sprite = s.mem.subrange(s.i as int, s.i + n);
            let (col, row) = (v[x as int], (v[y as int] % 32) as int);
            Ok(
                advanced(
                    State {
                        screen: drawn(s.screen, sprite, col, row),
                        v: v.update(
                            FLAG as int,
                            if collides(s.screen, sprite, col, row) {
                                1
                            } else {
                                0
                            },
                        ),
                        ..s
                    },
                ),
            )
        },
        Instruction::SkipKey { x } => Ok(skipped_if(s, key_down(s.keyboard, v[x as int] as int))),
        Instruction::SkipNoKey { x } => Ok(
            skipped_if(s, !key_down(s.keyboard, v[x as int] as int)),
        ),
        Instruction::LoadDelay { x } => Ok(with_reg(s, x, s.delay)),
        Instruction::WaitKey { x } => Ok(State { run: RunState::WaitingForKey(x), ..s }),
        Instruction::SetDelay { x } => Ok(advanced(State { delay: v[x as int], ..s })),
        Instruction::SetSound { x } => Ok(advanced(State { sound: v[x as int], ..s })),
        Instruction::AddIndex { x } => {
            let sum = s.i + v[x as int];
            if sum > 0xFFFF {
                Err(Fault::IndexOverflow)
            } else {
                Ok(
                    advanced(
                        State {
                            v: v.update(FLAG as int, if sum > 0xFFF { 1 } else { 0 }),
                            i: sum as u16,
                            ..s
                        },
                    ),
                )
            }
        },
        Instruction::LoadFont { x } => Ok(advanced(State { i: (5 * v[x as int]) as u16, ..s })),
        Instruction::StoreBcd { x } => if s.i + 3 > MEM_SIZE {
            Err(Fault::MemoryOutOfRange)
        } else {
            let d = v[x as int];
            Ok(
                advanced(
                    State {
                        mem: s.mem.update(s.i as int, d / 100).update(s.i + 1, (d / 10) % 10).update(
                            s.i + 2,
                            d % 10,
                        ),
                        ..s
                    },
                ),
            )
        },
        Instruction::StoreRegs { x } => if s.i + x + 1 > MEM_SIZE {
            Err(Fault::MemoryOutOfRange)
        } else {
            Ok(
                advanced(
                    State {
                        mem: Seq::new(
                            s.mem.len(),
                            |a: int|
                                if s.i <= a <= s.i + x {
                                    v[a - s.i]
                                } else {
                                    s.mem[a]
                                },
                        ),
                        i: (s.i + x + 1) as u16,
                        ..s
                    },
                ),
            )
        },
        Instruction::LoadRegs { x } => if s.i + x + 1 > MEM_SIZE {
            Err(Fault::MemoryOutOfRange)
        } else {
            Ok(
                advanced(
                    State {
                        v: Seq::new(
                            v.len(),
                            |k: int|
                                if k <= x {
                                    s.mem[s.i + k]
                                } else {
                                    v[k]
                                },
                        ),
                        i: (s.i + x + 1) as u16,
                        ..s
                    },
                ),
            )
        },
    }
}

/// The opcode stored at `pc`: high byte first.
pub open spec fn opcode_at(mem: Seq<u8>, pc: int) -> u16 {
    ((mem[pc] as u16) << 8u16) | (mem[pc + 1] as u16)
}

/// The effect of one step on `s`: nothing while waiting for a key, else fetch,
/// decode and execute the instruction at the program counter.
pub open spec fn step_spec(s: State, rnd: u8) -> Result<State, Fault> {
    match s.run {
        RunState::WaitingForKey(_) => Ok(s),
        RunState::Running => if s.pc + 1 >= MEM_SIZE {
            Err(Fault::PcOutOfRange)
        } else {
            let op = opcode_at(s.mem, s.pc as int);
            match decode_spec(op) {
                None => Err(Fault::UnknownOpcode(op)),
                Some(ins) => exec_spec(s, ins, rnd),
            }
        },
    }
}

/// The machine went from `before` to `after` and returned `r` as `res` prescribes:
/// the new state on success, the old one with the fault otherwise.
pub open spec fn outcome(
    res: Result<State, Fault>,
    r: Result<(), Fault>,
    before: State,
    after: State,
) -> bool {
    match res {
        Ok(t) => r is Ok && after == t,
        Err(f) => r == Err::<(), Fault>(f) && after == before,
    }
}

/// Relies on `rand::random::<u8>`: any byte may come back.
#[verifier::external_body]
fn random_byte() -> u8 {
    rand::random::<u8>()
}

impl Chip8 {
    fn advance(&mut self)
        requires
            old(self).pc + 1 < MEM_SIZE,
        ensures
            final(self)@ == advanced(old(self)@),
    {
        self.pc = self.pc + 2;
    }

    fn skip_if(&mut self, c: bool)
        requires
            old(self).pc + 1 < MEM_SIZE,
        ensures
            final(self)@ == skipped_if(old(self)@, c),
    {
        self.pc = if c { self.pc + 4 } else { self.pc + 2 };
    }

    fn set_reg(&mut self, x: u8, value: u8)
        requires
            x < 16,
            old(self).pc + 1 < MEM_SIZE,
        ensures
            final(self)@ == with_reg(old(self)@, x, value),
    {
        self.v[x as usize] = value;
        self.advance();
    }

    fn set_with_flag(&mut self, x: u8, value: u8, flag: u8)
        requires
            x < 16,
            old(self).pc + 1 < MEM_SIZE,
        ensures
            final(self)@ == with_flag(old(self)@, x, value, flag),
    {
        self.v[FLAG] = flag;
        self.v[x as usize] = value;
        self.advance();
    }

    /// Instructions that only move the program counter, the stack or the run state, or
    /// clear the screen.
    fn exec_control(&mut self, ins: Instruction, rnd: u8) -> (r: Result<(), Fault>)
        requires
            old(self).wf(),
            old(self).run is Running,
            ins.wf(),
            old(self).pc + 1 < MEM_SIZE,
            ({
                ||| ins is ClearScreen
                ||| ins is Return
                ||| ins is Jump
                ||| ins is Call
                ||| ins is SkipEqImm
                ||| ins is SkipNeImm
                ||| ins is SkipEqReg
                ||| ins is SkipNeReg
                ||| ins is JumpOffset
                ||| ins is SkipKey
                ||| ins is SkipNoKey
                ||| ins is WaitKey
            }),
        ensures
            final(self).wf(),
            outcome(exec_spec(old(self)@, ins, rnd), r, old(self)@, final(self)@),
    {
        match ins {
            Instruction::ClearScreen => {
                self.screen = [0u64; 32];
                self.advance();
                assert(self@.screen =~= Seq::new(32, |r: int| 0u64));
            },
            Instruction::Return => {
                if self.sp == 0 {
                    return Err(Fault::StackUnderflow);
                }
                self.sp = self.sp - 1;
                self.pc = self.stack[self.sp] as usize + 2;
            },
            Instruction::Jump { addr } => {
                self.pc = addr as usize;
            },
            Instruction::Call { addr } => {
                if self.sp >= STACK_DEPTH {
                    return Err(Fault::StackOverflow);
                }
                self.stack[self.sp] = self.pc as u16;
                self.sp = self.sp + 1;
                self.pc = addr as usize;
            },
            Instruction::SkipEqImm { x, kk } => {
                let c = self.v[x as usize] == kk;
                self.skip_if(c);
            },
            Instruction::SkipNeImm { x, kk } => {
                let c = self.v[x as usize] != kk;
                self.skip_if(c);
            },
            Instruction::SkipEqReg { x, y } => {
                let c = self.v[x as usize] == self.v[y as usize];
                self.skip_if(c);
            },
            Instruction::SkipNeReg { x, y } => {
                let c = self.v[x as usize] != self.v[y as usize];
                self.skip_if(c);
            },
            Instruction::JumpOffset { addr } => {
                self.pc = addr as usize + self.v[0] as usize;
            },
            Instruction::SkipKey { x } => {
                let k = self.v[x as usize];
                let down = k < 16 && self.is_pressed(k);
                self.skip_if(down);
            },
            Instruction::SkipNoKey { x } => {
                let k = self.v[x as usize];
                let down = k < 16 && self.is_pressed(k);
                self.skip_if(!down);
            },
            Instruction::WaitKey { x } => {
                self.run = RunState::WaitingForKey(x);
            },
            _ => {},
        }
        Ok(())
    }

    /// Instructions that work on registers, timers and the index register.
    fn exec_registers(&mut self, ins: Instruction, rnd: u8) -> (r: Result<(), Fault>)
        requires
            old(self).wf(),
            old(self).run is Running,
            ins.wf(),
            old(self).pc + 1 < MEM_SIZE,
            ({
                ||| ins is LoadImm
                ||| ins is AddImm
                ||| ins is Assign
                ||| ins is Or
                ||| ins is And
                ||| ins is Xor
                ||| ins is AddCarry
                ||| ins is SubBorrow
                ||| ins is ShiftRight
                ||| ins is SubReverse
                ||| ins is ShiftLeft
                ||| ins is LoadIndex
                ||| ins is Random
                ||| ins is LoadDelay
                ||| ins is SetDelay
                ||| ins is SetSound
                ||| ins is AddIndex
                ||| ins is LoadFont
            }),
        ensures
            final(self).wf(),
            outcome(exec_spec(old(self)@, ins, rnd), r, old(self)@, final(self)@),
    {
        match ins {
            Instruction::LoadImm { x, kk } => {
                self.set_reg(x, kk);
            },
            Instruction::AddImm { x, kk } => {
                let a = self.v[x as usize];
                self.set_reg(x, ((a as u16 + kk as u16) % 256) as u8);
            },
            Instruction::Assign { x, y } => {
                let b = self.v[y as usize];
                self.set_reg(x, b);
            },
            Instruction::Or { x, y } => {
                let (a, b) = (self.v[x as usize], self.v[y as usize]);
                self.set_reg(x, a | b);
            },
            Instruction::And { x, y } => {
                let (a, b) = (self.v[x as usize], self.v[y as usize]);
                self.set_reg(x, a & b);
            },
            Instruction::Xor { x, y } => {
                let (a, b) = (self.v[x as usize], self.v[y as usize]);
                self.set_reg(x, a ^ b);
            },
            Instruction::AddCarry { x, y } => {
                let sum = self.v[x as usize] as u16 + self.v[y as usize] as u16;
                self.set_with_flag(x, (sum % 256) as u8, if sum > 255 { 1 } else { 0 });
            },
            Instruction::SubBorrow { x, y } => {
                let (a, b) = (self.v[x as usize], self.v[y as usize]);
                let diff = ((a as u16 + 256 - b as u16) % 256) as u8;
                self.set_with_flag(x, diff, if a >= b { 1 } else { 0 });
            },
            Instruction::ShiftRight { x, y } => {
                let b = self.v[y as usize];
                self.set_with_flag(x, b >> 1u8, b & 1u8);
            },
            Instruction::SubReverse { x, y } => {
                let (a, b) = (self.v[x as usize], self.v[y as usize]);
                let diff = ((b as u16 + 256 - a as u16) % 256) as u8;
                self.set_with_flag(x, diff, if b >= a { 1 } else { 0 });
            },
            Instruction::ShiftLeft { x, y } => {
                let b = self.v[y as usize];
                self.set_with_flag(x, b << 1u8, b >> 7u8);
            },
            Instruction::LoadIndex { addr } => {
                self.i = addr;
                self.advance();
            },
            Instruction::Random { x, kk } => {
                self.set_reg(x, rnd & kk);
            },
            Instruction::LoadDelay { x } => {
                let d = self.delay;
                self.set_reg(x, d);
            },
            Instruction::SetDelay { x } => {
                self.delay = self.v[x as usize];
                self.advance();
            },
            Instruction::SetSound { x } => {
                self.sound = self.v[x as usize];
                self.advance();
            },
            Instruction::AddIndex { x } => {
                let sum = self.i as u32 + self.v[x as usize] as u32;
                if sum > 0xFFFF {
                    return Err(Fault::IndexOverflow);
                }
                self.v[FLAG] = if sum > 0xFFF { 1 } else { 0 };
                self.i = sum as u16;
                self.advance();
            },
            Instruction::LoadFont { x } => {
                self.i = 5 * self.v[x as usize] as u16;
                self.advance();
            },
            _ => {},
        }
        Ok(())
    }

    /// Instructions that read or write memory through the index register.
    fn exec_memory(&mut self, ins: Instruction, rnd: u8) -> (r: Result<(), Fault>)
        requires
            old(self).wf(),
            old(self).run is Running,
            ins.wf(),
            old(self).pc + 1 < MEM_SIZE,
            ({
                ||| ins is Draw
                ||| ins is StoreBcd
                ||| ins is StoreRegs
                ||| ins is LoadRegs
            }),
        ensures
            final(self).wf(),
            outcome(exec_spec(old(self)@, ins, rnd), r, old(self)@, final(self)@),
    {
        let ghost start = self@;
        match ins {
            Instruction::Draw { x, y, n } => {
                if self.i as usize + n as usize > MEM_SIZE {
                    return Err(Fault::MemoryOutOfRange);
                }
                let col = self.v[x as usize];
                let row = self.v[y as usize] % 32;
                let hit = self.draw_sprite(n as usize, col, row);
                self.v[FLAG] = if hit { 1 } else { 0 };
                self.advance();
            },
            Instruction::StoreBcd { x } => {
                if self.i as usize + 3 > MEM_SIZE {
                    return Err(Fault::MemoryOutOfRange);
                }
                let d = self.v[x as usize];
                let a = self.i as usize;
                self.mem[a] = d / 100;
                self.mem[a + 1] = (d / 10) % 10;
                self.mem[a + 2] = d % 10;
                self.advance();
            },
            Instruction::StoreRegs { x } => {
                if self.i as usize + x as usize + 1 > MEM_SIZE {
                    return Err(Fault::MemoryOutOfRange);
                }
                let base = self.i as usize;
                assert(self@.mem =~= Seq::new(
                    start.mem.len(),
                    |a: int|
                        if base <= a < base + 0 {
                            start.v[a - base]
                        } else {
                            start.mem[a]
                        },
                ));
                let mut k: usize = 0;
                while k <= x as usize
                    invariant
                        x < 16,
                        k <= x + 1,
                        base == start.i,
                        base + x + 1 <= MEM_SIZE,
                        start.wf(),
                        self@ == (State {
                            mem: Seq::new(
                                start.mem.len(),
                                |a: int|
                                    if base <= a < base + k {
                                        start.v[a - base]
                                    } else {
                                        start.mem[a]
                                    },
                            ),
                            ..start
                        }),
                    decreases x + 1 - k,
                {
                    let ghost before = self@.mem;
                    self.mem[base + k] = self.v[k];
                    proof {
                        assert(self@.mem =~= Seq::new(
                            start.mem.len(),
                            |a: int|
                                if base <= a < base + k + 1 {
                                    start.v[a - base]
                                } else {
                                    start.mem[a]
                                },
                        ));
                    }
                    k += 1;
                }
                self.i = self.i + x as u16 + 1;
                self.advance();
                assert(self@.mem =~= exec_spec(start, ins, rnd)->Ok_0.mem);
            },
            Instruction::LoadRegs { x } => {
                if self.i as usize + x as usize + 1 > MEM_SIZE {
                    return Err(Fault::MemoryOutOfRange);
                }
                let base = self.i as usize;
                assert(self@.v =~= Seq::new(
                    start.v.len(),
                    |j: int|
                        if j < 0 {
                            start.mem[base + j]
                        } else {
                            start.v[j]
                        },
                ));
                let mut k: usize = 0;
                while k <= x as usize
                    invariant
                        x < 16,
                        k <= x + 1,
                        base == start.i,
                        base + x + 1 <= MEM_SIZE,
                        start.wf(),
                        self@ == (State {
                            v: Seq::new(
                                start.v.len(),
                                |j: int|
                                    if j < k {
                                        start.mem[base + j]
                                    } else {
                                        start.v[j]
                                    },
                            ),
                            ..start
                        }),
                    decreases x + 1 - k,
                {
                    self.v[k] = self.mem[base + k];
                    proof {
                        assert(self@.v =~= Seq::new(
                            start.v.len(),
                            |j: int|
                                if j < k + 1 {
                                    start.mem[base + j]
                                } else {
                                    start.v[j]
                                },
                        ));
                    }
                    k += 1;
                }
                self.i = self.i + x as u16 + 1;
                self.advance();
                assert(self@.v =~= exec_spec(start, ins, rnd)->Ok_0.v);
            },
            _ => {},
        }
        Ok(())
    }

    /// Executes one decoded instruction fetched from the program counter; `rnd` is the
    /// byte that the random-and instruction uses. On a fault nothing changes.
    pub fn execute(&mut self, ins: Instruction, rnd: u8) -> (r: Result<(), Fault>)
        requires
            old(self).wf(),
            old(self).run is Running,
            ins.wf(),
            old(self).pc + 1 < MEM_SIZE,
        ensures
            final(self).wf(),
            outcome(exec_spec(old(self)@, ins, rnd), r, old(self)@, final(self)@),
    {
        match ins {
            Instruction::ClearScreen
            | Instruction::Return
            | Instruction::Jump { .. }
            | Instruction::Call { .. }
            | Instruction::SkipEqImm { .. }
            | Instruction::SkipNeImm { .. }
            | Instruction::SkipEqReg { .. }
            | Instruction::SkipNeReg { .. }
            | Instruction::JumpOffset { .. }
            | Instruction::SkipKey { .. }
            | Instruction::SkipNoKey { .. }
            | Instruction::WaitKey { .. } => self.exec_control(ins, rnd),
            Instruction::Draw { .. }
            | Instruction::StoreBcd { .. }
            | Instruction::StoreRegs { .. }
            | Instruction::LoadRegs { .. } => self.exec_memory(ins, rnd),
            _ => self.exec_registers(ins, rnd),
        }
    }

    /// Runs one instruction: does nothing while waiting for a key, else fetches the
    /// opcode at the program counter, decodes and executes it. On a fault nothing changes.
    pub fn step(&mut self) -> (r: Result<(), Fault>)
        requires
            old(self).wf(),
        ensures
            final(self).wf(),
            exists|rnd: u8| outcome(#[trigger] step_spec(old(self)@, rnd), r, old(self)@, final(self)@),
    {
        let ghost start = self@;
        if let RunState::WaitingForKey(_) = self.run {
            assert(outcome(step_spec(start, 0), Ok(()), start, self@));
            return Ok(());
        }
        if self.pc >= MEM_SIZE - 1 {
            assert(outcome(step_spec(start, 0), Err(Fault::PcOutOfRange), start, self@));
            return Err(Fault::PcOutOfRange);
        }
        let opcode: u16 = ((self.mem[self.pc] as u16) << 8u16) | (self.mem[self.pc + 1] as u16);
        assert(opcode == opcode_at(start.mem, start.pc as int));
        match decode(opcode) {
            None => {
                assert(outcome(step_spec(start, 0), Err(Fault::UnknownOpcode(opcode)), start, self@));
                Err(Fault::UnknownOpcode(opcode))
            },
            Some(ins) => {
                let rnd = if let Instruction::Random { .. } = ins {
                    random_byte()
                } else {
                    0
                };
                let r = self.execute(ins, rnd);
                assert(outcome(step_spec(start, rnd), r, start, self@));
                r
            },
        }
    }
}

} // verus!
