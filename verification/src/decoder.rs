//! The decoder: a pure function from a raw 16-bit instruction word to a
//! tagged [`OpCode`] variant. It splits the word into a leading 4-bit family,
//! two 4-bit register-index nibbles, a trailing 4-bit sub-opcode, a trailing
//! 8-bit immediate and a trailing 12-bit address, and never fails:
//! unrecognized bit patterns decode to [`OpCode::Unknown`].

use vstd::prelude::*;

use crate::opcode::OpCode;
use crate::opcode::op_wf;

verus! {

/// The leading 4-bit opcode family of an instruction word.
pub open spec fn family_nibble(w: u16) -> u16 {
    (w & 0xF000) >> 12
}

/// The second nibble: the first register index.
pub open spec fn x_nibble(w: u16) -> u16 {
    (w & 0x0F00) >> 8
}

/// The third nibble: the second register index.
pub open spec fn y_nibble(w: u16) -> u16 {
    (w & 0x00F0) >> 4
}

/// The trailing 4-bit sub-opcode or count.
pub open spec fn n_nibble(w: u16) -> u16 {
    w & 0x000F
}

/// The trailing 8-bit immediate.
pub open spec fn nn_byte(w: u16) -> u16 {
    w & 0x00FF
}

/// The trailing 12-bit address.
pub open spec fn nnn_addr(w: u16) -> u16 {
    w & 0x0FFF
}

/// Each bit field of an instruction word lies below the bound its width gives.
pub proof fn lemma_field_bounds(w: u16)
    by (bit_vector)
    ensures
        (w & 0xF000) >> 12 < 16,
        (w & 0x0F00) >> 8 < 16,
        (w & 0x00F0) >> 4 < 16,
        w & 0x000F < 16,
        w & 0x00FF < 256,
        w & 0x0FFF < 4096,
{
}

/// What the decoder returns for each instruction word: the selection table of
/// the CHIP-8 instruction set.
pub open spec fn spec_decode(w: u16) -> OpCode {
    let kind = family_nibble(w);
    let x = x_nibble(w) as usize;
    let y = y_nibble(w) as usize;
    let n = n_nibble(w) as u8;
    let nn = nn_byte(w) as u8;
    let nnn = nnn_addr(w);
    if kind == 0x0 {
        if x == 0x0 && y == 0xE && n == 0x0 {
            OpCode::ClearScreen
        } else if x == 0x0 && y == 0xE && n == 0xE {
            OpCode::RetFromSubroutine
        } else {
            OpCode::Unknown
        }
    } else if kind == 0x1 {
        OpCode::Jump(nnn)
    } else if kind == 0x2 {
        OpCode::CallSubroutine(nnn)
    } else if kind == 0x3 {
        OpCode::SkipIfRegisterEquals(x as u8, nn)
    } else if kind == 0x4 {
        OpCode::SkipIfRegisterNotEquals(x as u8, nn)
    } else if kind == 0x5 {
        if n == 0x0 {
            OpCode::SkipIfBothRegistersEqual(x as u8, y as u8)
        } else {
            OpCode::Unknown
        }
    } else if kind == 0x6 {
        (OpCode::SetRegister { register: x, value: nn })
    } else if kind == 0x7 {
        (OpCode::AddRegister { register: x, value: nn })
    } else if kind == 0x8 {
        if n == 0x0 {
            OpCode::SetRegisterToRegisterValue(x as u8, y as u8)
        } else if n == 0x1 {
            OpCode::SetRegisterToRegisterValueUsingOR(x as u8, y as u8)
        } else if n == 0x2 {
            OpCode::SetRegisterToRegisterValueUsingAND(x as u8, y as u8)
        } else if n == 0x3 {
            OpCode::SetRegisterToRegisterValueUsingXOR(x as u8, y as u8)
        } else if n == 0x4 {
            OpCode::AddRegisterToRegister(x as u8, y as u8)
        } else if n == 0x5 {
            OpCode::SubRegisterToRegister(x as u8, y as u8)
        } else if n == 0x6 {
            OpCode::ShiftRightRegisterFromRegister(x as u8, y as u8)
        } else if n == 0x7 {
            OpCode::SubRegisterToRegisterReverse(x as u8, y as u8)
        } else if n == 0xE {
            OpCode::ShiftLeftRegisterFromRegister(x as u8, y as u8)
        } else {
            OpCode::Unknown
        }
    } else if kind == 0x9 {
        if n == 0x0 {
            OpCode::SkipIfBothRegistersNotEqual(x as u8, y as u8)
        } else {
            OpCode::Unknown
        }
    } else if kind == 0xA {
        OpCode::SetIndex(nnn)
    } else if kind == 0xB {
        OpCode::JumpWithV0Offset(nnn)
    } else if kind == 0xC {
        OpCode::SetRegisterWithRandom(x, nn)
    } else if kind == 0xD {
        OpCode::Draw(x, y, n)
    } else if kind == 0xE {
        if y == 0x9 && n == 0xE {
            OpCode::SkipIfKey(x)
        } else if y == 0xA && n == 0x1 {
            OpCode::SkipIfNotKey(x)
        } else {
            OpCode::Unknown
        }
    } else {
        // kind == 0xF
        if y == 0x0 && n == 0x7 {
            OpCode::SetRegisterFromDelayTimer(x as u8)
        } else if y == 0x0 && n == 0xA {
            OpCode::GetKey(x)
        } else if y == 0x1 && n == 0x5 {
            OpCode::SetDelayTimerFromRegister(x as u8)
        } else if y == 0x1 && n == 0x8 {
            OpCode::SetSoundTimerFromRegister(x as u8)
        } else if y == 0x1 && n == 0xE {
            OpCode::AddRegisterValueToIndex(x as u8)
        } else if y == 0x2 && n == 0x9 {
            OpCode::LoadSpriteRepresentationInMemory(x as u8)
        } else if y == 0x3 && n == 0x3 {
            OpCode::StoreBCDRepresentationOfRegister(x as u8)
        } else if y == 0x5 && n == 0x5 {
            OpCode::LoadFromRegistersToMemory(x as u8)
        } else if y == 0x6 && n == 0x5 {
            OpCode::LoadFromMemoryToRegisters(x as u8)
        } else {
            OpCode::Unknown
        }
    }
}

/// Deterministically map a raw 16-bit instruction word to its decoded
/// variant. Total: every word decodes, unrecognized patterns to
/// [`OpCode::Unknown`].
pub fn decode_instruction(instruction: u16) -> (op: OpCode)
    ensures
        op == spec_decode(instruction),
        op_wf(op),
{
    proof {
        lemma_field_bounds(instruction);
    }
    let kind: u16 = (instruction & 0xF000) >> 12;
    let x: usize = ((instruction & 0x0F00) >> 8) as usize;
    let y: usize = ((instruction & 0x00F0) >> 4) as usize;
    let n: u8 = (instruction & 0x000F) as u8;
    let nn: u8 = (instruction & 0x00FF) as u8;
    let nnn: u16 = instruction & 0x0FFF;
    if kind == 0x0 {
        if x == 0x0 && y == 0xE && n == 0x0 {
            OpCode::ClearScreen
        } else if x == 0x0 && y == 0xE && n == 0xE {
            OpCode::RetFromSubroutine
        } else {
            OpCode::Unknown
        }
    } else if kind == 0x1 {
        OpCode::Jump(nnn)
    } else if kind == 0x2 {
        OpCode::CallSubroutine(nnn)
    } else if kind == 0x3 {
        OpCode::SkipIfRegisterEquals(x as u8, nn)
    } else if kind == 0x4 {
        OpCode::SkipIfRegisterNotEquals(x as u8, nn)
    } else if kind == 0x5 {
        if n == 0x0 {
            OpCode::SkipIfBothRegistersEqual(x as u8, y as u8)
        } else {
            OpCode::Unknown
        }
    } else if kind == 0x6 {
        OpCode::SetRegister { register: x, value: nn }
    } else if kind == 0x7 {
        OpCode::AddRegister { register: x, value: nn }
    } else if kind == 0x8 {
        if n == 0x0 {
            OpCode::SetRegisterToRegisterValue(x as u8, y as u8)
        } else if n == 0x1 {
            OpCode::SetRegisterToRegisterValueUsingOR(x as u8, y as u8)
        } else if n == 0x2 {
            OpCode::SetRegisterToRegisterValueUsingAND(x as u8, y as u8)
        } else if n == 0x3 {
            OpCode::SetRegisterToRegisterValueUsingXOR(x as u8, y as u8)
        } else if n == 0x4 {
            OpCode::AddRegisterToRegister(x as u8, y as u8)
        } else if n == 0x5 {
            OpCode::SubRegisterToRegister(x as u8, y as u8)
        } else if n == 0x6 {
            OpCode::ShiftRightRegisterFromRegister(x as u8, y as u8)
        } else if n == 0x7 {
            OpCode::SubRegisterToRegisterReverse(x as u8, y as u8)
        } else if n == 0xE {
            OpCode::ShiftLeftRegisterFromRegister(x as u8, y as u8)
        } else {
            OpCode::Unknown
        }
    } else if kind == 0x9 {
        if n == 0x0 {
            OpCode::SkipIfBothRegistersNotEqual(x as u8, y as u8)
        } else {
            OpCode::Unknown
        }
    } else if kind == 0xA {
        OpCode::SetIndex(nnn)
    } else if kind == 0xB {
        OpCode::JumpWithV0Offset(nnn)
    } else if kind == 0xC {
        OpCode::SetRegisterWithRandom(x, nn)
    } else if kind == 0xD {
        OpCode::Draw(x, y, n)
    } else if kind == 0xE {
        if y == 0x9 && n == 0xE {
            OpCode::SkipIfKey(x)
        } else if y == 0xA && n == 0x1 {
            OpCode::SkipIfNotKey(x)
        } else {
            OpCode::Unknown
        }
    } else {
        if y == 0x0 && n == 0x7 {
            OpCode::SetRegisterFromDelayTimer(x as u8)
        } else if y == 0x0 && n == 0xA {
            OpCode::GetKey(x)
        } else if y == 0x1 && n == 0x5 {
            OpCode::SetDelayTimerFromRegister(x as u8)
        } else if y == 0x1 && n == 0x8 {
            OpCode::SetSoundTimerFromRegister(x as u8)
        } else if y == 0x1 && n == 0xE {
            OpCode::AddRegisterValueToIndex(x as u8)
        } else if y == 0x2 && n == 0x9 {
            OpCode::LoadSpriteRepresentationInMemory(x as u8)
        } else if y == 0x3 && n == 0x3 {
            OpCode::StoreBCDRepresentationOfRegister(x as u8)
        } else if y == 0x5 && n == 0x5 {
            OpCode::LoadFromRegistersToMemory(x as u8)
        } else if y == 0x6 && n == 0x5 {
            OpCode::LoadFromMemoryToRegisters(x as u8)
        } else {
            OpCode::Unknown
        }
    }
}

} // verus!
