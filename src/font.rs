use vstd::prelude::*;

verus! {

/// Number of bytes in the built-in glyph table: sixteen glyphs of five rows.
pub const FONT_LEN: usize = 80;

/// The built-in hexadecimal digit glyphs, five bytes each; digit `d` starts at `5 * d`.
pub open spec fn font() -> Seq<u8> {
    seq![
        0xF0u8, 0x90, 0x90, 0x90, 0xF0, // 0
        0x20, 0x60, 0x20, 0x20, 0x70, // 1
        0xF0, 0x10, 0xF0, 0x80, 0xF0, // 2
        0xF0, 0x10, 0xF0, 0x10, 0xF0, // 3
        0x90, 0x90, 0xF0, 0x10, 0x10, // 4
        0xF0, 0x80, 0xF0, 0x10, 0xF0, // 5
        0xF0, 0x80, 0xF0, 0x90, 0xF0, // 6
        0xF0, 0x10, 0x20, 0x40, 0x40, // 7
        0xF0, 0x90, 0xF0, 0x90, 0xF0, // 8
        0xF0, 0x90, 0xF0, 0x10, 0xF0, // 9
        0xF0, 0x90, 0xF0, 0x90, 0x90, // A
        0xE0, 0x90, 0xE0, 0x90, 0xE0, // B
        0xF0, 0x80, 0x80, 0x80, 0xF0, // C
        0xE0, 0x90, 0x90, 0x90, 0xE0, // D
        0xF0, 0x80, 0xF0, 0x80, 0xF0, // E
        0xF0, 0x80, 0xF0, 0x80, 0x80, // F
    ]
}

/// The glyph table as bytes.
pub fn font_bytes() -> (r: [u8; 80])
    ensures
        r@ == font(),
{
    let r: [u8; 80] = [
        0xF0, 0x90, 0x90, 0x90, 0xF0, //
        0x20, 0x60, 0x20, 0x20, 0x70, //
        0xF0, 0x10, 0xF0, 0x80, 0xF0, //
        0xF0, 0x10, 0xF0, 0x10, 0xF0, //
        0x90, 0x90, 0xF0, 0x10, 0x10, //
        0xF0, 0x80, 0xF0, 0x10, 0xF0, //
        0xF0, 0x80, 0xF0, 0x90, 0xF0, //
        0xF0, 0x10, 0x20, 0x40, 0x40, //
        0xF0, 0x90, 0xF0, 0x90, 0xF0, //
        0xF0, 0x90, 0xF0, 0x10, 0xF0, //
        0xF0, 0x90, 0xF0, 0x90, 0x90, //
        0xE0, 0x90, 0xE0, 0x90, 0xE0, //
        0xF0, 0x80, 0x80, 0x80, 0xF0, //
        0xE0, 0x90, 0x90, 0x90, 0xE0, //
        0xF0, 0x80, 0xF0, 0x80, 0xF0, //
        0xF0, 0x80, 0xF0, 0x80, 0x80, //
    ];
    assert(r@ =~= font());
    r
}

} // verus!
