//! The boundary to the external disassembly collaborator. Decoding raw
//! bytes into an instruction record is out of this core's scope; the
//! `iced_x86` decoder does it. Decoding is a function of the bytes and the
//! address alone, so each field of the decoded record is given a name here,
//! and the one trusted wrapper ties what the decoder returned to those
//! names; everything downstream is then proved against the named record.

use vstd::prelude::*;

use crate::arith::w_add;
use crate::instr::{Instr, Opcode};
use crate::registers::Reg;
use iced_x86::Code;
use iced_x86::Decoder;
use iced_x86::DecoderOptions;
use iced_x86::OpKind;
use iced_x86::Register;

verus! {

#[verifier::external_type_specification]
#[verifier::external_body]
pub struct ExCode(iced_x86::Code);

#[verifier::external_type_specification]
#[verifier::external_body]
pub struct ExRegister(iced_x86::Register);

/// The opcode identity decoded at `ip`, mapped onto the supported subset.
pub uninterp spec fn decoded_opcode(mem: Seq<u8>, ip: u32) -> Opcode;

/// The decoder's raw numeric opcode identity at `ip`.
pub uninterp spec fn decoded_code_id(mem: Seq<u8>, ip: u32) -> u32;

/// The length in bytes of the instruction decoded at `ip`.
pub uninterp spec fn decoded_len(mem: Seq<u8>, ip: u32) -> u32;

/// The 32-bit address following the instruction decoded at `ip`.
pub uninterp spec fn decoded_next_ip(mem: Seq<u8>, ip: u32) -> u32;

/// The absolute near-branch target of the instruction decoded at `ip`.
pub uninterp spec fn decoded_near_branch(mem: Seq<u8>, ip: u32) -> u32;

/// The raw 8-bit immediate of the instruction decoded at `ip`.
pub uninterp spec fn decoded_imm8(mem: Seq<u8>, ip: u32) -> u8;

/// The 8-bit immediate decoded at `ip`, sign-extended to 32 bits.
pub uninterp spec fn decoded_imm8to32(mem: Seq<u8>, ip: u32) -> u32;

/// The 16-bit immediate of the instruction decoded at `ip`.
pub uninterp spec fn decoded_imm16(mem: Seq<u8>, ip: u32) -> u16;

/// The 32-bit immediate of the instruction decoded at `ip`.
pub uninterp spec fn decoded_imm32(mem: Seq<u8>, ip: u32) -> u32;

/// The first operand's register of the instruction decoded at `ip`.
pub uninterp spec fn decoded_op0_reg(mem: Seq<u8>, ip: u32) -> Reg;

/// The second operand's register of the instruction decoded at `ip`.
pub uninterp spec fn decoded_op1_reg(mem: Seq<u8>, ip: u32) -> Reg;

/// Whether the first operand decoded at `ip` is a register operand.
pub uninterp spec fn decoded_op0_is_reg(mem: Seq<u8>, ip: u32) -> bool;

/// Whether the second operand decoded at `ip` is a register operand.
pub uninterp spec fn decoded_op1_is_reg(mem: Seq<u8>, ip: u32) -> bool;

/// The memory operand's index register of the instruction decoded at `ip`.
pub uninterp spec fn decoded_mem_index(mem: Seq<u8>, ip: u32) -> Reg;

/// The memory operand's scale factor of the instruction decoded at `ip`.
pub uninterp spec fn decoded_mem_scale(mem: Seq<u8>, ip: u32) -> u32;

/// The memory operand's 32-bit displacement of the instruction decoded at
/// `ip`.
pub uninterp spec fn decoded_mem_disp(mem: Seq<u8>, ip: u32) -> u32;

/// The whole instruction record decoded at `ip`: the named fields
/// assembled. `decode_at` returns exactly this record.
pub open spec fn decoded(mem: Seq<u8>, ip: u32) -> Instr {
    Instr {
        opcode: decoded_opcode(mem, ip),
        code_id: decoded_code_id(mem, ip),
        len: decoded_len(mem, ip),
        next_ip: decoded_next_ip(mem, ip),
        near_branch: decoded_near_branch(mem, ip),
        imm8: decoded_imm8(mem, ip),
        imm8to32: decoded_imm8to32(mem, ip),
        imm16: decoded_imm16(mem, ip),
        imm32: decoded_imm32(mem, ip),
        op0_reg: decoded_op0_reg(mem, ip),
        op1_reg: decoded_op1_reg(mem, ip),
        op0_is_reg: decoded_op0_is_reg(mem, ip),
        op1_is_reg: decoded_op1_is_reg(mem, ip),
        mem_index: decoded_mem_index(mem, ip),
        mem_scale: decoded_mem_scale(mem, ip),
        mem_disp: decoded_mem_disp(mem, ip),
    }
}

/// Relies on iced_x86::Decoder::with_ip and Decoder::decode, and on the
/// Instruction accessors code, len, next_ip32, near_branch32, immediate8,
/// immediate8to32, immediate16, immediate32, op0_register, op1_register,
/// op0_kind, op1_kind, memory_index, memory_index_scale and
/// memory_displacement32: decodes exactly one instruction from the
/// 32-bit-mode code stream that begins at offset `ip` of `mem`, and hands
/// its fields over as plain values. The result depends on the bytes and the
/// address alone, so each field equals its name; the decoder also sets the
/// next IP to `ip` plus the decoded length, wrapping. (32 is a valid
/// bitness, so construction cannot fail; on an empty or invalid stream the
/// decoder reports an invalid opcode, which takes the
/// unsupported-instruction path.)
#[verifier::external_body]
pub(crate) fn decode_at(mem: &Vec<u8>, ip: u32) -> (r: Instr)
    requires
        ip as int <= mem@.len(),
    ensures
        r.opcode == decoded_opcode(mem@, ip),
        r.code_id == decoded_code_id(mem@, ip),
        r.len == decoded_len(mem@, ip),
        r.next_ip == decoded_next_ip(mem@, ip),
        r.near_branch == decoded_near_branch(mem@, ip),
        r.imm8 == decoded_imm8(mem@, ip),
        r.imm8to32 == decoded_imm8to32(mem@, ip),
        r.imm16 == decoded_imm16(mem@, ip),
        r.imm32 == decoded_imm32(mem@, ip),
        r.op0_reg == decoded_op0_reg(mem@, ip),
        r.op1_reg == decoded_op1_reg(mem@, ip),
        r.op0_is_reg == decoded_op0_is_reg(mem@, ip),
        r.op1_is_reg == decoded_op1_is_reg(mem@, ip),
        r.mem_index == decoded_mem_index(mem@, ip),
        r.mem_scale == decoded_mem_scale(mem@, ip),
        r.mem_disp == decoded_mem_disp(mem@, ip),
        r.next_ip == w_add(ip, r.len),
{
    let mut d = Decoder::with_ip(32, &mem[ip as usize..], ip as u64, DecoderOptions::NONE);
    let i = d.decode();
    Instr {
        opcode: opcode_of(i.code()), code_id: i.code() as u32, len: i.len() as u32,
        next_ip: i.next_ip32(), near_branch: i.near_branch32(), imm8: i.immediate8(),
        imm8to32: i.immediate8to32() as u32, imm16: i.immediate16(), imm32: i.immediate32(),
        op0_reg: reg_of(i.op0_register()), op1_reg: reg_of(i.op1_register()),
        op0_is_reg: i.op0_kind() == OpKind::Register, op1_is_reg: i.op1_kind() == OpKind::Register,
        mem_index: reg_of(i.memory_index()), mem_scale: i.memory_index_scale(),
        mem_disp: i.memory_displacement32(),
    }
}

/// Tells the variants of iced_x86::Code apart: each opcode of the supported
/// subset maps to its identity, every other opcode to `Opcode::Other`.
#[verifier::external_body]
pub(crate) fn opcode_of(c: iced_x86::Code) -> (r: Opcode) {
    match c {
        Code::Enterd_imm16_imm8 => Opcode::EnterImm16Imm8, Code::Call_rel32_32 => Opcode::CallRel32,
        Code::Call_rm32 => Opcode::CallRm32, Code::Retnd => Opcode::Retn,
        Code::Jmp_rel32_32 => Opcode::JmpRel32, Code::Pushd_imm8 => Opcode::PushImm8,
        Code::Pushd_imm32 => Opcode::PushImm32, Code::Push_r32 => Opcode::PushR32,
        Code::Push_rm32 => Opcode::PushRm32, Code::Pop_r32 => Opcode::PopR32,
        Code::Mov_rm32_imm32 => Opcode::MovRm32Imm32, Code::Mov_moffs32_EAX => Opcode::MovMoffs32Eax,
        Code::Mov_EAX_moffs32 => Opcode::MovEaxMoffs32, Code::Mov_rm32_r32 => Opcode::MovRm32R32,
        Code::Mov_r32_rm32 => Opcode::MovR32Rm32, Code::And_rm32_imm8 => Opcode::AndRm32Imm8,
        Code::Sub_rm32_imm32 => Opcode::SubRm32Imm32, Code::Lea_r32_m => Opcode::LeaR32M,
        _ => Opcode::Other,
    }
}

/// Tells the variants of iced_x86::Register apart: the absent register, the
/// eight 32-bit general-purpose registers and the instruction pointer map to
/// their identifiers, every other register to `Reg::Other`.
#[verifier::external_body]
pub(crate) fn reg_of(r: iced_x86::Register) -> (id: Reg) {
    match r {
        Register::None => Reg::NoReg,
        Register::EAX => Reg::Eax,
        Register::EBX => Reg::Ebx,
        Register::ECX => Reg::Ecx,
        Register::EDX => Reg::Edx,
        Register::ESP => Reg::Esp,
        Register::EBP => Reg::Ebp,
        Register::ESI => Reg::Esi,
        Register::EDI => Reg::Edi,
        Register::EIP => Reg::Eip,
        _ => Reg::Other,
    }
}

} // verus!
