use vstd::prelude::*;

verus! {

/// One decoded instruction. `x` and `y` select registers (0..16), `kk` is an 8-bit
/// immediate, `n` a 4-bit immediate and `addr` a 12-bit address.
#[derive(Clone, Copy, Debug, PartialEq, Eq, Structural)]
pub enum Instruction {
    ClearScreen,
    Return,
    Jump { addr: u16 },
    Call { addr: u16 },
    SkipEqImm { x: u8, kk: u8 },
    SkipNeImm { x: u8, kk: u8 },
    SkipEqReg { x: u8, y: u8 },
    LoadImm { x: u8, kk: u8 },
    AddImm { x: u8, kk: u8 },
    Assign { x: u8, y: u8 },
    Or { x: u8, y: u8 },
    And { x: u8, y: u8 },
    Xor { x: u8, y: u8 },
    AddCarry { x: u8, y: u8 },
    SubBorrow { x: u8, y: u8 },
    ShiftRight { x: u8, y: u8 },
    SubReverse { x: u8, y: u8 },
    ShiftLeft { x: u8, y: u8 },
    SkipNeReg { x: u8, y: u8 },
    LoadIndex { addr: u16 },
    JumpOffset { addr: u16 },
    Random { x: u8, kk: u8 },
    Draw { x: u8, y: u8, n: u8 },
    SkipKey { x: u8 },
    SkipNoKey { x: u8 },
    LoadDelay { x: u8 },
    WaitKey { x: u8 },
    SetDelay { x: u8 },
    SetSound { x: u8 },
    AddIndex { x: u8 },
    LoadFont { x: u8 },
    StoreBcd { x: u8 },
    StoreRegs { x: u8 },
    LoadRegs { x: u8 },
}

/// Bits 8..12 of an opcode: the first register operand.
pub open spec fn x_of(op: u16) -> u8 {
    ((op & 0x0F00u16) >> 8u16) as u8
}

/// Bits 4..8 of an opcode: the second register operand.
pub open spec fn y_of(op: u16) -> u8 {
    ((op & 0x00F0u16) >> 4u16) as u8
}

/// Bits 0..4 of an opcode.
pub open spec fn n_of(op: u16) -> u8 {
    (op & 0x000Fu16) as u8
}

/// Bits 0..8 of an opcode.
pub open spec fn kk_of(op: u16) -> u8 {
    (op & 0x00FFu16) as u8
}

/// Bits 0..12 of an opcode.
pub open spec fn addr_of(op: u16) -> u16 {
    op & 0x0FFFu16
}

/// The instruction that an opcode encodes, or `None` for an undefined opcode.
pub open spec fn decode_spec(op: u16) -> Option<Instruction> {
    let (x, y, n, kk, addr) = (x_of(op), y_of(op), n_of(op), kk_of(op), addr_of(op));
    let family = op >> 12u16;
    if family == 0 {
        if kk == 0xE0 {
            Some(Instruction::ClearScreen)
        } else if kk == 0xEE {
            Some(Instruction::Return)
        } else {
            None
        }
    } else if family == 1 {
        Some(Instruction::Jump { addr })
    } else if family == 2 {
        Some(Instruction::Call { addr })
    } else if family == 3 {
        Some(Instruction::SkipEqImm { x, kk })
    } else if family == 4 {
        Some(Instruction::SkipNeImm { x, kk })
    } else if family == 5 {
        Some(Instruction::SkipEqReg { x, y })
    } else if family == 6 {
        Some(Instruction::LoadImm { x, kk })
    } else if family == 7 {
        Some(Instruction::AddImm { x, kk })
    } else if family == 8 {
        if n == 0 {
            Some(Instruction::Assign { x, y })
        } else if n == 1 {
            Some(Instruction::Or { x, y })
        } else if n == 2 {
            Some(Instruction::And { x, y })
        } else if n == 3 {
            Some(Instruction::Xor { x, y })
        } else if n == 4 {
            Some(Instruction::AddCarry { x, y })
        } else if n == 5 {
            Some(Instruction::SubBorrow { x, y })
        } else if n == 6 {
            Some(Instruction::ShiftRight { x, y })
        } else if n == 7 {
            Some(Instruction::SubReverse { x, y })
        } else if n == 0xE {
            Some(Instruction::ShiftLeft { x, y })
        } else {
            None
        }
    } else if family == 9 {
        Some(Instruction::SkipNeReg { x, y })
    } else if family == 0xA {
        Some(Instruction::LoadIndex { addr })
    } else if family == 0xB {
        Some(Instruction::JumpOffset { addr })
    } else if family == 0xC {
        Some(Instruction::Random { x, kk })
    } else if family == 0xD {
        Some(Instruction::Draw { x, y, n })
    } else if family == 0xE {
        if kk == 0x9E {
            Some(Instruction::SkipKey { x })
        } else if kk == 0xA1 {
            Some(Instruction::SkipNoKey { x })
        } else {
            None
        }
    } else if kk == 0x07 {
        Some(Instruction::LoadDelay { x })
    } else if kk == 0x0A {
        Some(Instruction::WaitKey { x })
    } else if kk == 0x15 {
        Some(Instruction::SetDelay { x })
    } else if kk == 0x18 {
        Some(Instruction::SetSound { x })
    } else if kk == 0x1E {
        Some(Instruction::AddIndex { x })
    } else if kk == 0x29 {
        Some(Instruction::LoadFont { x })
    } else if kk == 0x33 {
        Some(Instruction::StoreBcd { x })
    } else if kk == 0x55 {
        Some(Instruction::StoreRegs { x })
    } else if kk == 0x65 {
        Some(Instruction::LoadRegs { x })
    } else {
        None
    }
}

impl Instruction {
    /// Operands are within their fields' widths.
    pub open spec fn wf(self) -> bool {
        match self {
            Instruction::ClearScreen | Instruction::Return => true,
            Instruction::Jump { addr }
            | Instruction::Call { addr }
            | Instruction::LoadIndex { addr }
            | Instruction::JumpOffset { addr } => addr < 0x1000,
            Instruction::SkipEqImm { x, .. }
            | Instruction::SkipNeImm { x, .. }
            | Instruction::LoadImm { x, .. }
            | Instruction::AddImm { x, .. }
            | Instruction::Random { x, .. }
            | Instruction::SkipKey { x }
            | Instruction::SkipNoKey { x }
            | Instruction::LoadDelay { x }
            | Instruction::WaitKey { x }
            | Instruction::SetDelay { x }
            | Instruction::SetSound { x }
            | Instruction::AddIndex { x }
            | Instruction::LoadFont { x }
            | Instruction::StoreBcd { x }
            | Instruction::StoreRegs { x }
            | Instruction::LoadRegs { x } => x < 16,
            Instruction::Draw { x, y, n } => x < 16 && y < 16 && n < 16,
            Instruction::SkipEqReg { x, y }
            | Instruction::Assign { x, y }
            | Instruction::Or { x, y }
            | Instruction::And { x, y }
            | Instruction::Xor { x, y }
            | Instruction::AddCarry { x, y }
            | Instruction::SubBorrow { x, y }
            | Instruction::ShiftRight { x, y }
            | Instruction::SubReverse { x, y }
            | Instruction::ShiftLeft { x, y }
            | Instruction::SkipNeReg { x, y } => x < 16 && y < 16,
        }
    }
}

/// The first register operand of an opcode.
pub fn r1(opcode: u16) -> (r: usize)
    ensures
        r == x_of(opcode),
        r < 16,
{
    assert(((opcode & 0x0F00u16) >> 8u16) < 16) by (bit_vector);
    ((opcode & 0x0F00) >> 8) as usize
}

/// The second register operand of an opcode.
pub fn r2(opcode: u16) -> (r: usize)
    ensures
        r == y_of(opcode),
        r < 16,
{
    assert(((opcode & 0x00F0u16) >> 4u16) < 16) by (bit_vector);
    ((opcode & 0x00F0) >> 4) as usize
}

/// The low byte of an opcode: its 8-bit immediate.
pub fn cst(opcode: u16) -> (r: u8)
    ensures
        r == kk_of(opcode),
{
    assert(opcode as u8 == (opcode & 0x00FFu16) as u8) by (bit_vector);
    opcode as u8
}

/// Decodes one opcode; `None` when it matches no instruction.
pub fn decode(opcode: u16) -> (r: Option<Instruction>)
    ensures
        r == decode_spec(opcode),
        r matches Some(ins) ==> ins.wf(),
{
    let x = r1(opcode) as u8;
    let y = r2(opcode) as u8;
    let n = (opcode & 0x000F) as u8;
    let kk = cst(opcode);
    let addr = opcode & 0x0FFF;
    assert((opcode & 0x000Fu16) < 16 && (opcode & 0x0FFFu16) < 0x1000 && (opcode >> 12u16) < 16)
        by (bit_vector);
    match opcode >> 12 {
        0x0 => if kk == 0xE0 {
            Some(Instruction::ClearScreen)
        } else if kk == 0xEE {
            Some(Instruction::Return)
        } else {
            None
        },
        0x1 => Some(Instruction::Jump { addr }),
        0x2 => Some(Instruction::Call { addr }),
        0x3 => Some(Instruction::SkipEqImm { x, kk }),
        0x4 => Some(Instruction::SkipNeImm { x, kk }),
        0x5 => Some(Instruction::SkipEqReg { x, y }),
        0x6 => Some(Instruction::LoadImm { x, kk }),
        0x7 => Some(Instruction::AddImm { x, kk }),
        0x8 => match n {
            0x0 => Some(Instruction::Assign { x, y }),
            0x1 => Some(Instruction::Or { x, y }),
            0x2 => Some(Instruction::And { x, y }),
            0x3 => Some(Instruction::Xor { x, y }),
            0x4 => Some(Instruction::AddCarry { x, y }),
            0x5 => Some(Instruction::SubBorrow { x, y }),
            0x6 => Some(Instruction::ShiftRight { x, y }),
            0x7 => Some(Instruction::SubReverse { x, y }),
            0xE => Some(Instruction::ShiftLeft { x, y }),
            _ => None,
        },
        0x9 => Some(Instruction::SkipNeReg { x, y }),
        0xA => Some(Instruction::LoadIndex { addr }),
        0xB => Some(Instruction::JumpOffset { addr }),
        0xC => Some(Instruction::Random { x, kk }),
        0xD => Some(Instruction::Draw { x, y, n }),
        0xE => if kk == 0x9E {
            Some(Instruction::SkipKey { x })
        } else if kk == 0xA1 {
            Some(Instruction::SkipNoKey { x })
        } else {
            None
        },
        _ => match kk {
            0x07 => Some(Instruction::LoadDelay { x }),
            0x0A => Some(Instruction::WaitKey { x }),
            0x15 => Some(Instruction::SetDelay { x }),
            0x18 => Some(Instruction::SetSound { x }),
            0x1E => Some(Instruction::AddIndex { x }),
            0x29 => Some(Instruction::LoadFont { x }),
            0x33 => Some(Instruction::StoreBcd { x }),
            0x55 => Some(Instruction::StoreRegs { x }),
            0x65 => Some(Instruction::LoadRegs { x }),
            _ => None,
        },
    }
}

} // verus!
