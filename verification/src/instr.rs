//! The decoded-instruction record the interpreter consumes. An external
//! disassembly collaborator decodes raw bytes; this core only reads the
//! resulting opcode identity, length, operand registers, immediates (already
//! sign- or zero-extended as each opcode calls for) and memory-operand
//! components.

use vstd::prelude::*;

use crate::registers::Reg;

verus! {

/// Opcode identity, restricted to the supported subset; everything else is
/// `Other` and takes the unsupported-instruction failure path.
#[derive(Clone, Copy, Debug, PartialEq, Eq, Structural)]
pub enum Opcode {
    /// `enter imm16, imm8`
    EnterImm16Imm8,
    /// `call rel32`
    CallRel32,
    /// `call dword ptr [mem]`
    CallRm32,
    /// `ret`
    Retn,
    /// `jmp rel32`
    JmpRel32,
    /// `push imm8` (sign-extended to 32 bits by the decoder)
    PushImm8,
    /// `push imm32`
    PushImm32,
    /// `push r32`
    PushR32,
    /// `push dword ptr [mem]`
    PushRm32,
    /// `pop r32`
    PopR32,
    /// `mov dword ptr [mem], imm32`
    MovRm32Imm32,
    /// `mov [moffs], eax`
    MovMoffs32Eax,
    /// `mov eax, [moffs]`
    MovEaxMoffs32,
    /// `mov r/m32, r32`, register destination only
    MovRm32R32,
    /// `mov r32, r/m32`, register source only
    MovR32Rm32,
    /// `and r/m32, imm8`, register destination only (imm8 zero-extended)
    AndRm32Imm8,
    /// `sub r/m32, imm32`, register destination only, wrapping
    SubRm32Imm32,
    /// `lea r32, [mem]`
    LeaR32M,
    /// any opcode outside the supported subset
    Other,
}

/// One decoded instruction. Every field is as the disassembly collaborator
/// reports it; fields an opcode does not use are ignored by its semantics.
#[derive(Clone, Copy, Debug)]
pub struct Instr {
    /// Which semantic rule applies.
    pub opcode: Opcode,
    /// The decoder's raw numeric opcode identity, carried into the
    /// unsupported-instruction error for diagnostics.
    pub code_id: u32,
    /// Instruction length in bytes.
    pub len: u32,
    /// The address immediately following the instruction.
    pub next_ip: u32,
    /// Absolute near-branch target of `call rel32` / `jmp rel32`.
    pub near_branch: u32,
    /// 8-bit immediate, not extended (`and r/m32, imm8` zero-extends it).
    pub imm8: u8,
    /// 8-bit immediate sign-extended to 32 bits (`push imm8`).
    pub imm8to32: u32,
    /// 16-bit immediate (`enter`).
    pub imm16: u16,
    /// 32-bit immediate.
    pub imm32: u32,
    /// First operand's register, when the first operand is a register.
    pub op0_reg: Reg,
    /// Second operand's register, when the second operand is a register.
    pub op1_reg: Reg,
    /// The first operand is a register operand.
    pub op0_is_reg: bool,
    /// The second operand is a register operand.
    pub op1_is_reg: bool,
    /// Index register of the memory operand; `NoReg` when absent.
    pub mem_index: Reg,
    /// Scale factor of the memory operand; the supported subset requires 1.
    pub mem_scale: u32,
    /// 32-bit displacement of the memory operand.
    pub mem_disp: u32,
}

/// The instruction respects the contracts the supported subset was designed
/// for: scale 1 wherever the memory operand is used, no index register on an
/// indirect call, register operands where the rule demands registers, and no
/// register identifier outside the supported set. Anything else is a
/// programming-contract violation of the addressing model, a hard stop
/// rather than a silently wrong result.
pub open spec fn wf_instr(i: Instr) -> bool {
    match i.opcode {
        Opcode::EnterImm16Imm8 => true,
        Opcode::CallRel32 => true,
        Opcode::CallRm32 => i.mem_scale == 1 && i.mem_index == Reg::NoReg,
        Opcode::Retn => true,
        Opcode::JmpRel32 => true,
        Opcode::PushImm8 => true,
        Opcode::PushImm32 => true,
        Opcode::PushR32 => i.op0_reg != Reg::Other,
        Opcode::PushRm32 => i.mem_scale == 1 && i.mem_index != Reg::Other,
        Opcode::PopR32 => i.op0_reg != Reg::Other,
        Opcode::MovRm32Imm32 => i.mem_scale == 1 && i.mem_index != Reg::Other,
        Opcode::MovMoffs32Eax => i.mem_scale == 1 && i.mem_index != Reg::Other,
        Opcode::MovEaxMoffs32 => i.mem_scale == 1 && i.mem_index != Reg::Other,
        Opcode::MovRm32R32 => i.op0_is_reg && i.op0_reg != Reg::Other && i.op1_reg != Reg::Other,
        Opcode::MovR32Rm32 => i.op1_is_reg && i.op0_reg != Reg::Other && i.op1_reg != Reg::Other,
        Opcode::AndRm32Imm8 => i.op0_is_reg && i.op0_reg != Reg::Other,
        Opcode::SubRm32Imm32 => i.op0_is_reg && i.op0_reg != Reg::Other,
        Opcode::LeaR32M => i.mem_scale == 1 && i.mem_index != Reg::Other && i.op0_reg != Reg::Other,
        Opcode::Other => true,
    }
}

impl Instr {
    /// Runtime check of `wf_instr`, used on instructions coming from the
    /// decoder before they are executed.
    pub fn wf_check(&self) -> (b: bool)
        ensures
            b == wf_instr(*self),
    {
        match self.opcode {
            Opcode::EnterImm16Imm8 => true,
            Opcode::CallRel32 => true,
            Opcode::CallRm32 => self.mem_scale == 1 && self.mem_index == Reg::NoReg,
            Opcode::Retn => true,
            Opcode::JmpRel32 => true,
            Opcode::PushImm8 => true,
            Opcode::PushImm32 => true,
            Opcode::PushR32 => self.op0_reg != Reg::Other,
            Opcode::PushRm32 => self.mem_scale == 1 && self.mem_index != Reg::Other,
            Opcode::PopR32 => self.op0_reg != Reg::Other,
            Opcode::MovRm32Imm32 => self.mem_scale == 1 && self.mem_index != Reg::Other,
            Opcode::MovMoffs32Eax => self.mem_scale == 1 && self.mem_index != Reg::Other,
            Opcode::MovEaxMoffs32 => self.mem_scale == 1 && self.mem_index != Reg::Other,
            Opcode::MovRm32R32 => self.op0_is_reg && self.op0_reg != Reg::Other && self.op1_reg
                != Reg::Other,
            Opcode::MovR32Rm32 => self.op1_is_reg && self.op0_reg != Reg::Other && self.op1_reg
                != Reg::Other,
            Opcode::AndRm32Imm8 => self.op0_is_reg && self.op0_reg != Reg::Other,
            Opcode::SubRm32Imm32 => self.op0_is_reg && self.op0_reg != Reg::Other,
            Opcode::LeaR32M => self.mem_scale == 1 && self.mem_index != Reg::Other && self.op0_reg
                != Reg::Other,
            Opcode::Other => true,
        }
    }
}

} // verus!
