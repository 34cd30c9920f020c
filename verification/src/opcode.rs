//! The decoded instruction variants of the CHIP-8 instruction set.

use vstd::prelude::*;

verus! {

/// One decoded CHIP-8 instruction. Register indices are 4-bit values
/// (0x0..=0xF), immediates are 8-bit, addresses are 12-bit; the decoder
/// guarantees those ranges.
#[derive(Copy, Clone, Debug, PartialEq, Eq, Structural)]
pub enum OpCode {
    /// 00E0: clear the framebuffer.
    ClearScreen,
    /// 00EE: return from a subroutine.
    RetFromSubroutine,
    /// 1NNN: jump to address NNN.
    Jump(u16),
    /// BNNN: jump to address NNN + V0.
    JumpWithV0Offset(u16),
    /// 2NNN: call the subroutine at address NNN.
    CallSubroutine(u16),
    /// 6XNN: set VX to NN.
    SetRegister { register: usize, value: u8 },
    /// 7XNN: add NN to VX, wrapping, without touching VF.
    AddRegister { register: usize, value: u8 },
    /// ANNN: set the index register to NNN.
    SetIndex(u16),
    /// CXNN: set VX to a random byte masked by NN.
    SetRegisterWithRandom(usize, u8),
    /// DXYN: draw an N-row sprite from memory[I] at (VX, VY).
    Draw(usize, usize, u8),
    /// 3XNN: skip the next instruction if VX == NN.
    SkipIfRegisterEquals(u8, u8),
    /// 4XNN: skip the next instruction if VX != NN.
    SkipIfRegisterNotEquals(u8, u8),
    /// 5XY0: skip the next instruction if VX == VY.
    SkipIfBothRegistersEqual(u8, u8),
    /// 9XY0: skip the next instruction if VX != VY.
    SkipIfBothRegistersNotEqual(u8, u8),
    /// 8XY0: set VX to VY.
    SetRegisterToRegisterValue(u8, u8),
    /// 8XY1: set VX to VX | VY.
    SetRegisterToRegisterValueUsingOR(u8, u8),
    /// 8XY2: set VX to VX & VY.
    SetRegisterToRegisterValueUsingAND(u8, u8),
    /// 8XY3: set VX to VX ^ VY.
    SetRegisterToRegisterValueUsingXOR(u8, u8),
    /// 8XY4: set VX to VX + VY wrapping; VF = 1 on carry, else 0.
    AddRegisterToRegister(u8, u8),
    /// 8XY5: set VX to VX - VY wrapping; VF = 0 on borrow, else 1.
    SubRegisterToRegister(u8, u8),
    /// 8XY6: shift VX right by one; VF = the bit shifted out.
    ShiftRightRegisterFromRegister(u8, u8),
    /// 8XYE: shift VX left by one; VF = the bit shifted out.
    ShiftLeftRegisterFromRegister(u8, u8),
    /// 8XY7: set VX to VY - VX wrapping; VF = 0 on borrow, else 1.
    SubRegisterToRegisterReverse(u8, u8),
    /// FX65: load registers V0..=VX from memory starting at I.
    LoadFromMemoryToRegisters(u8),
    /// FX55: store registers V0..=VX to memory starting at I.
    LoadFromRegistersToMemory(u8),
    /// FX33: store the decimal digits of VX at I, I+1, I+2.
    StoreBCDRepresentationOfRegister(u8),
    /// FX1E: add VX to the index register.
    AddRegisterValueToIndex(u8),
    /// FX07: set VX to the delay timer.
    SetRegisterFromDelayTimer(u8),
    /// FX18: set the sound timer to VX.
    SetSoundTimerFromRegister(u8),
    /// FX15: set the delay timer to VX.
    SetDelayTimerFromRegister(u8),
    /// FX0A: wait until the key named by VX is pressed.
    GetKey(usize),
    /// EX9E: skip the next instruction if the key named by VX is pressed.
    SkipIfKey(usize),
    /// EXA1: skip the next instruction if the key named by VX is not pressed.
    SkipIfNotKey(usize),
    /// FX29: point the index register at the built-in glyph for VX.
    LoadSpriteRepresentationInMemory(u8),
    /// Any bit pattern that matches no family/sub-opcode combination.
    Unknown,
}

/// Every register index, count, or address carried by a decoded instruction
/// lies in the range its bit field allows.
pub open spec fn op_wf(op: OpCode) -> bool {
    match op {
        OpCode::ClearScreen => true,
        OpCode::RetFromSubroutine => true,
        OpCode::Jump(nnn) => nnn < 4096,
        OpCode::JumpWithV0Offset(nnn) => nnn < 4096,
        OpCode::CallSubroutine(nnn) => nnn < 4096,
        OpCode::SetRegister { register, value } => register < 16,
        OpCode::AddRegister { register, value } => register < 16,
        OpCode::SetIndex(nnn) => nnn < 4096,
        OpCode::SetRegisterWithRandom(x, nn) => x < 16,
        OpCode::Draw(x, y, n) => x < 16 && y < 16 && n < 16,
        OpCode::SkipIfRegisterEquals(x, nn) => x < 16,
        OpCode::SkipIfRegisterNotEquals(x, nn) => x < 16,
        OpCode::SkipIfBothRegistersEqual(x, y) => x < 16 && y < 16,
        OpCode::SkipIfBothRegistersNotEqual(x, y) => x < 16 && y < 16,
        OpCode::SetRegisterToRegisterValue(x, y) => x < 16 && y < 16,
        OpCode::SetRegisterToRegisterValueUsingOR(x, y) => x < 16 && y < 16,
        OpCode::SetRegisterToRegisterValueUsingAND(x, y) => x < 16 && y < 16,
        OpCode::SetRegisterToRegisterValueUsingXOR(x, y) => x < 16 && y < 16,
        OpCode::AddRegisterToRegister(x, y) => x < 16 && y < 16,
        OpCode::SubRegisterToRegister(x, y) => x < 16 && y < 16,
        OpCode::ShiftRightRegisterFromRegister(x, y) => x < 16 && y < 16,
        OpCode::ShiftLeftRegisterFromRegister(x, y) => x < 16 && y < 16,
        OpCode::SubRegisterToRegisterReverse(x, y) => x < 16 && y < 16,
        OpCode::LoadFromMemoryToRegisters(x) => x < 16,
        OpCode::LoadFromRegistersToMemory(x) => x < 16,
        OpCode::StoreBCDRepresentationOfRegister(x) => x < 16,
        OpCode::AddRegisterValueToIndex(x) => x < 16,
        OpCode::SetRegisterFromDelayTimer(x) => x < 16,
        OpCode::SetSoundTimerFromRegister(x) => x < 16,
        OpCode::SetDelayTimerFromRegister(x) => x < 16,
        OpCode::GetKey(x) => x < 16,
        OpCode::SkipIfKey(x) => x < 16,
        OpCode::SkipIfNotKey(x) => x < 16,
        OpCode::LoadSpriteRepresentationInMemory(x) => x < 16,
        OpCode::Unknown => true,
    }
}

} // verus!
