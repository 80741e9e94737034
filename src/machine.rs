use vstd::prelude::*;

use crate::font::{font, font_bytes, FONT_LEN};
use crate::screen::pixel;

verus! {

/// Addressable bytes of memory.
pub const MEM_SIZE: usize = 4096;

/// Address at which a program is loaded and execution starts.
pub const PROGRAM_START: usize = 0x200;

/// Number of general registers; the last one doubles as the flag register.
pub const NUM_REGS: usize = 16;

/// Index of the flag register.
pub const FLAG: usize = 15;

/// Depth of the call stack.
pub const STACK_DEPTH: usize = 16;

/// Whether the instruction engine runs or is suspended until a key is pressed.
#[derive(Clone, Copy, Debug, PartialEq, Eq, Structural)]
pub enum RunState {
    Running,
    /// Suspended; the next key pressed is written into the given register.
    WaitingForKey(u8),
}

/// The machine's state as mathematical values.
pub struct State {
    pub mem: Seq<u8>,
    pub v: Seq<u8>,
    pub i: u16,
    pub pc: usize,
    pub screen: Seq<u64>,
    pub delay: u8,
    pub sound: u8,
    pub sp: usize,
    pub stack: Seq<u16>,
    pub keyboard: u16,
    pub run: RunState,
}

/// A CHIP-8 machine: memory, registers, call stack, framebuffer, timers and keyboard latch.
pub struct Chip8 {
    /// Glyphs at 0..80, the program from `PROGRAM_START` on.
    pub mem: [u8; 4096],
    /// General registers `V0..VF`; `VF` is the flag register.
    pub v: [u8; 16],
    /// Index register.
    pub i: u16,
    /// Program counter: address of the next instruction.
    pub pc: usize,
    /// 32 rows of 64 pixels; column 0 is a row's highest bit.
    pub screen: [u64; 32],
    /// Delay timer, counted down by the host.
    pub delay: u8,
    /// Sound timer, counted down by the host.
    pub sound: u8,
    /// Number of return addresses on the stack.
    pub sp: usize,
    /// Return addresses; slots `0..sp` are in use.
    pub stack: [u16; 16],
    /// One bit per key, bit `k` for key `k`.
    pub keyboard: u16,
    /// Whether instructions run or wait for a key.
    pub run: RunState,
}

impl View for Chip8 {
    type V = State;

    open spec fn view(&self) -> State {
        State {
            mem: self.mem@,
            v: self.v@,
            i: self.i,
            pc: self.pc,
            screen: self.screen@,
            delay: self.delay,
            sound: self.sound,
            sp: self.sp,
            stack: self.stack@,
            keyboard: self.keyboard,
            run: self.run,
        }
    }
}

impl State {
    /// The stack pointer stays within the stack, and a suspended machine waits on a
    /// register with its program counter on a fetchable instruction.
    pub open spec fn wf(self) -> bool {
        &&& self.mem.len() == MEM_SIZE
        &&& self.v.len() == NUM_REGS
        &&& self.screen.len() == 32
        &&& self.stack.len() == STACK_DEPTH
        &&& self.sp <= STACK_DEPTH
        &&& (self.run matches RunState::WaitingForKey(x) ==> x < 16 && self.pc + 1 < MEM_SIZE)
    }
}

/// Whether key `k` is down in the keyboard latch.
pub open spec fn key_down(keyboard: u16, k: int) -> bool {
    0 <= k < 16 && (keyboard >> k as u16) & 1u16 == 1u16
}

/// `s` after key `key` goes down: the key's bit is set, and a machine waiting for a key
/// takes it into the waiting register, resumes and moves on to the next instruction.
pub open spec fn pressed(s: State, key: u8) -> State {
    let keyboard = s.keyboard | (1u16 << key);
    match s.run {
        RunState::Running => State { keyboard, ..s },
        RunState::WaitingForKey(x) => State {
            keyboard,
            v: s.v.update(x as int, key),
            pc: (s.pc + 2) as usize,
            run: RunState::Running,
            ..s
        },
    }
}

/// Memory right after loading program `prg`: glyphs at 0..80, the program at
/// `PROGRAM_START`, zero elsewhere.
pub open spec fn initial_memory(prg: Seq<u8>) -> Seq<u8> {
    Seq::new(
        MEM_SIZE as nat,
        |a: int|
            if a < FONT_LEN {
                font()[a]
            } else if PROGRAM_START <= a < PROGRAM_START + prg.len() {
                prg[a - PROGRAM_START]
            } else {
                0u8
            },
    )
}

/// The state of a machine freshly loaded with program `prg`.
pub open spec fn initial_state(prg: Seq<u8>) -> State {
    State {
        mem: initial_memory(prg),
        v: Seq::new(16, |k: int| 0u8),
        i: 0,
        pc: PROGRAM_START,
        screen: Seq::new(32, |k: int| 0u64),
        delay: 0,
        sound: 0,
        sp: 0,
        stack: Seq::new(16, |k: int| 0u16),
        keyboard: 0,
        run: RunState::Running,
    }
}

impl Chip8 {
    /// See `State::wf`.
    pub open spec fn wf(&self) -> bool {
        self@.wf()
    }

    /// A machine with `prg` loaded at `PROGRAM_START` and the glyph table at address 0.
    /// The program must fit between `PROGRAM_START` and the end of memory; a host checks
    /// the length of a ROM before loading it.
    pub fn new(prg: Vec<u8>) -> (r: Chip8)
        requires
            prg@.len() <= MEM_SIZE - PROGRAM_START,
        ensures
            r.wf(),
            r@ == initial_state(prg@),
    {
        let mut mem = [0u8; 4096];
        let glyphs = font_bytes();
        let mut a: usize = 0;
        while a < FONT_LEN
            invariant
                a <= FONT_LEN,
                glyphs@ == font(),
                forall|k: int| 0 <= k < a ==> mem@[k] == font()[k],
                forall|k: int| a <= k < MEM_SIZE ==> mem@[k] == 0,
            decreases FONT_LEN - a,
        {
            mem[a] = glyphs[a];
            a += 1;
        }
        let mut j: usize = 0;
        while j < prg.len()
            invariant
                j <= prg@.len(),
                prg@.len() <= MEM_SIZE - PROGRAM_START,
                forall|k: int| 0 <= k < FONT_LEN ==> mem@[k] == font()[k],
                forall|k: int| FONT_LEN <= k < PROGRAM_START ==> mem@[k] == 0,
                forall|k: int| 0 <= k < j ==> mem@[PROGRAM_START + k] == prg@[k],
                forall|k: int| PROGRAM_START + j <= k < MEM_SIZE ==> mem@[k] == 0,
            decreases prg@.len() - j,
        {
            mem[PROGRAM_START + j] = prg[j];
            j += 1;
        }
        let r = Chip8 {
            mem,
            v: [0u8; 16],
            i: 0,
            pc: PROGRAM_START,
            screen: [0u64; 32],
            delay: 0,
            sound: 0,
            sp: 0,
            stack: [0u16; 16],
            keyboard: 0,
            run: RunState::Running,
        };
        assert(r@.mem =~= initial_memory(prg@));
        assert(r@.v =~= initial_state(prg@).v);
        assert(r@.screen =~= initial_state(prg@).screen);
        assert(r@.stack =~= initial_state(prg@).stack);
        r
    }

    /// Counts the delay timer down by one, stopping at zero.
    pub fn decrement_delay(&mut self)
        ensures
            final(self)@ == (State {
                delay: if old(self).delay > 0 { (old(self).delay - 1) as u8 } else { 0 },
                ..old(self)@
            }),
    {
        if self.delay > 0 {
            self.delay -= 1;
        }
    }

    /// The sound timer; the host sounds a tone while it is above zero.
    pub fn sound(&self) -> (r: u8)
        ensures
            r == self.sound,
    {
        self.sound
    }

    /// Counts the sound timer down by one, stopping at zero.
    pub fn decrement_sound(&mut self)
        ensures
            final(self)@ == (State {
                sound: if old(self).sound > 0 { (old(self).sound - 1) as u8 } else { 0 },
                ..old(self)@
            }),
    {
        if self.sound > 0 {
            self.sound -= 1;
        }
    }

    /// The framebuffer.
    pub fn screen(&self) -> (r: &[u64; 32])
        ensures
            r@ == self.screen@,
    {
        &self.screen
    }

    /// Marks `key` as down; a machine waiting for a key takes it into the waiting
    /// register and moves on to the next instruction.
    pub fn press_key(&mut self, key: u8)
        requires
            old(self).wf(),
            key < 16,
        ensures
            final(self).wf(),
            final(self)@ == pressed(old(self)@, key),
            key_down(final(self).keyboard, key as int),
    {
        self.keyboard = self.keyboard | (1u16 << key);
        assert(key_down(self.keyboard, key as int)) by {
            let kb = old(self).keyboard;
            assert(((kb | (1u16 << key)) >> key) & 1u16 == 1u16) by (bit_vector)
                requires
                    key < 16,
            ;
        }
        if let RunState::WaitingForKey(x) = self.run {
            self.v[x as usize] = key;
            self.pc = self.pc + 2;
            self.run = RunState::Running;
        }
    }

    /// Marks `key` as up.
    pub fn release_key(&mut self, key: u8)
        requires
            key < 16,
        ensures
            final(self)@ == (State { keyboard: old(self).keyboard & !(1u16 << key), ..old(self)@ }),
            !key_down(final(self).keyboard, key as int),
    {
        self.keyboard = self.keyboard & !(1u16 << key);
        assert(!key_down(self.keyboard, key as int)) by {
            let kb = old(self).keyboard;
            assert(((kb & !(1u16 << key)) >> key) & 1u16 == 0u16) by (bit_vector)
                requires
                    key < 16,
            ;
        }
    }

    /// Whether `key` is down.
    pub fn is_pressed(&self, key: u8) -> (r: bool)
        requires
            key < 16,
        ensures
            r == key_down(self.keyboard, key as int),
    {
        let kb = self.keyboard;
        assert(((kb & (1u16 << key)) != 0u16) == ((kb >> key) & 1u16 == 1u16)) by (bit_vector)
            requires
                key < 16,
        ;
        (self.keyboard & (1u16 << key)) != 0
    }

    /// XORs `bit` (0 or 1) onto column `x` of row `y`; true when that turned a lit pixel off.
    pub fn set_pixel(&mut self, bit: u64, x: usize, y: usize) -> (r: bool)
        requires
            bit <= 1,
            x < 64,
            y < 32,
        ensures
            final(self)@ == (State {
                screen: old(self)@.screen.update(
                    y as int,
                    old(self).screen[y as int] ^ (bit << (63 - x) as u64),
                ),
                ..old(self)@
            }),
            r == (bit == 1 && pixel(old(self).screen[y as int], x as u64)),
    {
        let mask: u64 = 1u64 << (63 - x) as u64;
        let row = self.screen[y];
        let old_val = row & mask;
        self.screen[y] = row ^ (bit << (63 - x) as u64);
        let new_val = self.screen[y] & mask;
        let s = (63 - x) as u64;
        assert((old_val > 0 && (row ^ (bit << s)) & mask == 0) == (bit == 1 && (row >> s) & 1u64
            == 1u64)) by (bit_vector)
            requires
                bit <= 1,
                s < 64,
                mask == 1u64 << s,
                old_val == row & mask,
        ;
        old_val > 0 && new_val == 0
    }
}

} // verus!
