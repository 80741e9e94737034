use vstd::prelude::*;

use crate::machine::{Chip8, State, FLAG};
use crate::screen::byte_mask;

verus! {

/// Which sprite row lands on screen row `r` when the sprite's first row is `row`.
pub open spec fn sprite_offset(row: int, r: int) -> int {
    (r - row + 32) % 32
}

/// The bits that a sprite drawn at (`col`, `row`) XORs onto screen row `r`.
pub open spec fn sprite_mask(sprite: Seq<u8>, col: u8, row: int, r: int) -> u64 {
    let k = sprite_offset(row, r);
    if k < sprite.len() {
        byte_mask(sprite[k], col as u64)
    } else {
        0
    }
}

/// The framebuffer after XOR-drawing `sprite` (at most 32 rows) with its top-left at
/// (`col`, `row`); rows and columns wrap around.
pub open spec fn drawn(screen: Seq<u64>, sprite: Seq<u8>, col: u8, row: int) -> Seq<u64> {
    Seq::new(32, |r: int| screen[r] ^ sprite_mask(sprite, col, row, r))
}

/// Whether drawing `sprite` at (`col`, `row`) turns some lit pixel off.
pub open spec fn collides(screen: Seq<u64>, sprite: Seq<u8>, col: u8, row: int) -> bool {
    exists|r: int| 0 <= r < 32 && #[trigger] (screen[r] & sprite_mask(sprite, col, row, r)) != 0
}

/// Whether drawing `sprite` at (`col`, `row`) turns some dark pixel on.
pub open spec fn lights(screen: Seq<u64>, sprite: Seq<u8>, col: u8, row: int) -> bool {
    exists|r: int| 0 <= r < 32 && #[trigger] (!screen[r] & sprite_mask(sprite, col, row, r)) != 0
}

/// Drawing a sprite twice at one place restores the framebuffer, and the second draw
/// collides exactly when the first one lit some pixel.
pub proof fn lemma_draw_twice(screen: Seq<u64>, sprite: Seq<u8>, col: u8, row: int)
    requires
        screen.len() == 32,
    ensures
        drawn(drawn(screen, sprite, col, row), sprite, col, row) == screen,
        collides(drawn(screen, sprite, col, row), sprite, col, row) == lights(
            screen,
            sprite,
            col,
            row,
        ),
{
    let once = drawn(screen, sprite, col, row);
    assert forall|r: int| 0 <= r < 32 implies (once[r] & #[trigger] sprite_mask(sprite, col, row, r)
        != 0) == ((!screen[r] & sprite_mask(sprite, col, row, r)) != 0) by {
        let a = screen[r];
        let m = sprite_mask(sprite, col, row, r);
        assert(((a ^ m) & m != 0) == (!a & m != 0)) by (bit_vector);
    }
    assert forall|r: int| 0 <= r < 32 implies #[trigger] drawn(once, sprite, col, row)[r]
        == screen[r] by {
        let a = screen[r];
        let m = sprite_mask(sprite, col, row, r);
        assert((a ^ m) ^ m == a) by (bit_vector);
    }
    assert(drawn(once, sprite, col, row) =~= screen);
    if collides(once, sprite, col, row) {
        let r = choose|r: int| 0 <= r < 32 && #[trigger] (once[r] & sprite_mask(sprite, col, row, r)) != 0;
        assert((!screen[r] & sprite_mask(sprite, col, row, r)) != 0);
    }
    if lights(screen, sprite, col, row) {
        let r = choose|r: int| 0 <= r < 32 && #[trigger] (!screen[r] & sprite_mask(sprite, col, row, r)) != 0;
        assert((once[r] & sprite_mask(sprite, col, row, r)) != 0);
    }
}

/// The row bits covered by sprite byte `b` drawn at column `x`.
fn row_mask(b: u8, x: u64) -> (r: u64)
    ensures
        r == byte_mask(b, x),
{
    let m: u64 = (b as u64) << 56u64;
    let s: u64 = x % 64;
    if s == 0 {
        m
    } else {
        (m >> s) | (m << (64 - s))
    }
}

impl Chip8 {
    /// XORs sprite byte `byte` onto row `y` at column `x`, wrapping past column 63, and
    /// returns whether a lit pixel went dark.
    fn xor_row(&mut self, byte: u8, x: u8, y: usize) -> (r: bool)
        requires
            y < 32,
        ensures
            final(self)@ == (State {
                screen: old(self)@.screen.update(
                    y as int,
                    old(self).screen[y as int] ^ byte_mask(byte, x as u64),
                ),
                ..old(self)@
            }),
            r == (old(self).screen[y as int] & byte_mask(byte, x as u64) != 0),
    {
        let mask = row_mask(byte, x as u64);
        let row = self.screen[y];
        self.screen[y] = row ^ mask;
        row & mask != 0
    }

    /// Draws one sprite byte at column `x` (taken mod 64) of row `y`; the flag register
    /// becomes 1 when a lit pixel went dark, else 0.
    pub fn draw_byte(&mut self, byte: u8, x: usize, y: usize)
        requires
            y < 32,
        ensures
            ({
                let mask = byte_mask(byte, (x % 64) as u64);
                let hit = old(self).screen[y as int] & mask != 0;
                final(self)@ == State {
                    screen: old(self)@.screen.update(y as int, old(self).screen[y as int] ^ mask),
                    v: old(self)@.v.update(FLAG as int, if hit { 1u8 } else { 0u8 }),
                    ..old(self)@
                }
            }),
    {
        let hit = self.xor_row(byte, (x % 64) as u8, y);
        self.v[FLAG] = if hit { 1 } else { 0 };
    }

    /// XOR-draws the `n` bytes at `self.i` as sprite rows, the first at (`col`, `row`),
    /// and returns whether any lit pixel went dark.
    pub(crate) fn draw_sprite(&mut self, n: usize, col: u8, row: u8) -> (r: bool)
        requires
            n < 16,
            row < 32,
            old(self).i + n <= old(self)@.mem.len(),
        ensures
            ({
                let sprite = old(self)@.mem.subrange(old(self).i as int, old(self).i + n);
                &&& final(self)@ == (State {
                    screen: drawn(old(self)@.screen, sprite, col, row as int),
                    ..old(self)@
                })
                &&& r == collides(old(self)@.screen, sprite, col, row as int)
            }),
    {
        let ghost start = self@;
        let ghost sprite = start.mem.subrange(self.i as int, self.i + n);
        proof {
            let empty = sprite.subrange(0, 0);
            assert forall|q: int| 0 <= q < 32 implies #[trigger] drawn(
                start.screen,
                empty,
                col,
                row as int,
            )[q] == start.screen[q] by {
                let a = start.screen[q];
                assert(a ^ 0u64 == a) by (bit_vector);
            }
            assert(drawn(start.screen, empty, col, row as int) =~= start.screen);
            if collides(start.screen, empty, col, row as int) {
                let q = choose|q: int| 0 <= q < 32 && #[trigger] (start.screen[q] & sprite_mask(empty, col, row as int, q)) != 0;
                let a = start.screen[q];
                assert(a & 0u64 == 0u64) by (bit_vector);
            }
        }
        let mut k: usize = 0;
        let mut hit = false;
        while k < n
            invariant
                k <= n < 16,
                row < 32,
                start.screen.len() == 32,
                sprite == start.mem.subrange(start.i as int, start.i + n),
                start.i + n <= start.mem.len(),
                self@ == (State {
                    screen: drawn(start.screen, sprite.subrange(0, k as int), col, row as int),
                    ..start
                }),
                hit == collides(start.screen, sprite.subrange(0, k as int), col, row as int),
            decreases n - k,
        {
            let r = (row as usize + k) % 32;
            let byte = self.mem[self.i as usize + k];
            let ghost before = sprite.subrange(0, k as int);
            let ghost after = sprite.subrange(0, k + 1);
            proof {
                assert(byte == sprite[k as int]);
                assert(sprite_offset(row as int, r as int) == k);
                assert forall|q: int| 0 <= q < 32 && q != r implies sprite_mask(after, col, row as int, q)
                    == sprite_mask(before, col, row as int, q) by {
                    assert(sprite_offset(row as int, q) != k);
                }
                assert(sprite_mask(before, col, row as int, r as int) == 0);
                assert(sprite_mask(after, col, row as int, r as int) == byte_mask(byte, col as u64));
            }
            let hit_row = self.xor_row(byte, col, r);
            proof {
                let s0 = start.screen;
                let a = s0[r as int];
                assert(a ^ 0u64 == a) by (bit_vector);
                assert(self@.screen =~= drawn(s0, after, col, row as int));
                if hit_row {
                    assert((s0[r as int] & sprite_mask(after, col, row as int, r as int)) != 0);
                }
                if collides(s0, before, col, row as int) {
                    let q = choose|q: int| 0 <= q < 32 && #[trigger] (s0[q] & sprite_mask(before, col, row as int, q)) != 0;
                    if q == r {
                        let a = s0[q];
                        assert(a & 0u64 == 0u64) by (bit_vector);
                    }
                    assert((s0[q] & sprite_mask(after, col, row as int, q)) != 0);
                }
                if collides(s0, after, col, row as int) {
                    let q = choose|q: int| 0 <= q < 32 && #[trigger] (s0[q] & sprite_mask(after, col, row as int, q)) != 0;
                    if q != r {
                        assert((s0[q] & sprite_mask(before, col, row as int, q)) != 0);
                    }
                }
            }
            hit = hit || hit_row;
            k += 1;
        }
        assert(sprite.subrange(0, n as int) =~= sprite);
        hit
    }
}

} // verus!
