//! Instruction semantics, the import-interception tri-state, and the full
//! decode-and-execute step on real instruction bytes.

use x86emu::cpu::Cpu;
use x86emu::instr::{Instr, Opcode};
use x86emu::machine::{Error, ImportHandler, NoHandlers, StepEvent, X86};
use x86emu::registers::Reg;

fn machine(mem_size: usize) -> X86<NoHandlers> {
    let mut m: X86<NoHandlers> = X86::new();
    m.cpu.mem = vec![0u8; mem_size];
    m
}

fn instr(opcode: Opcode) -> Instr {
    Instr {
        opcode,
        code_id: 0,
        len: 2,
        next_ip: 0,
        near_branch: 0,
        imm8: 0,
        imm8to32: 0,
        imm16: 0,
        imm32: 0,
        op0_reg: Reg::NoReg,
        op1_reg: Reg::NoReg,
        op0_is_reg: false,
        op1_is_reg: false,
        mem_index: Reg::NoReg,
        mem_scale: 1,
        mem_disp: 0,
    }
}

#[test]
fn call_rel32_pushes_return_address() {
    let mut m = machine(0x1000);
    m.cpu.regs.esp = 0x800;
    m.cpu.regs.eip = 0x1002;
    let mut i = instr(Opcode::CallRel32);
    i.len = 5;
    i.next_ip = 0x1007;
    i.near_branch = 0x401000;
    let r = m.execute(&i);
    assert_eq!(r, Ok(StepEvent::Ran));
    assert_eq!(m.cpu.regs.eip, 0x401000);
    assert_eq!(m.cpu.regs.esp, 0x7FC);
    assert_eq!(m.read_u32(0x7FC), 0x1007);
}

#[test]
fn ret_after_call_restores_eip_and_esp() {
    let mut m = machine(0x1000);
    m.cpu.regs.esp = 0x800;
    m.cpu.regs.eip = 0x1002;
    let mut call = instr(Opcode::CallRel32);
    call.len = 5;
    call.next_ip = 0x1007;
    call.near_branch = 0x200;
    assert_eq!(m.execute(&call), Ok(StepEvent::Ran));
    let mut ret = instr(Opcode::Retn);
    ret.len = 1;
    ret.next_ip = 0x201;
    assert_eq!(m.execute(&ret), Ok(StepEvent::Ran));
    assert_eq!(m.cpu.regs.eip, 0x1007);
    assert_eq!(m.cpu.regs.esp, 0x800);
}

struct CountInEax;

impl ImportHandler for CountInEax {
    fn handle(&self, cpu: &mut Cpu) {
        cpu.regs.eax += 1;
    }
}

fn call_rm32_at_slot(slot: u32, next_ip: u32) -> Instr {
    let mut i = instr(Opcode::CallRm32);
    i.len = 6;
    i.next_ip = next_ip;
    i.mem_index = Reg::NoReg;
    i.mem_scale = 1;
    i.mem_disp = slot;
    i
}

#[test]
fn import_with_handler_runs_it_exactly_once() {
    let mut m: X86<CountInEax> = X86::new();
    m.cpu.mem = vec![0u8; 0x1000];
    m.cpu.regs.esp = 0x800;
    m.write_u32(0x200, 0x770000);
    m.imports.insert(0x770000, Some(CountInEax));
    let i = call_rm32_at_slot(0x200, 0x1006);
    let r = m.execute(&i);
    assert_eq!(r, Ok(StepEvent::HandledImport { target: 0x770000 }));
    assert_eq!(m.cpu.regs.eax, 1, "handler must run exactly once");
    assert_eq!(m.cpu.regs.esp, 0x800, "no return address is pushed");
    assert_eq!(m.cpu.regs.eip, 0x1006);
}

#[test]
fn import_without_handler_is_a_reported_no_op() {
    let mut m = machine(0x1000);
    m.cpu.regs.esp = 0x800;
    m.write_u32(0x200, 0x770004);
    m.imports.insert(0x770004, None);
    let i = call_rm32_at_slot(0x200, 0x1006);
    let r = m.execute(&i);
    assert_eq!(r, Ok(StepEvent::UnimplementedImport { target: 0x770004 }));
    assert_eq!(m.cpu.regs.esp, 0x800);
    assert_eq!(m.cpu.regs.eip, 0x1006);
    assert_eq!(m.read_u32(0x7FC), 0, "stack memory untouched");
}

#[test]
fn import_absent_behaves_like_direct_call() {
    let mut indirect = machine(0x1000);
    indirect.cpu.regs.esp = 0x800;
    indirect.write_u32(0x200, 0x555);
    let r1 = indirect.execute(&call_rm32_at_slot(0x200, 0x1006));

    let mut direct = machine(0x1000);
    direct.cpu.regs.esp = 0x800;
    direct.write_u32(0x200, 0x555);
    let mut call = instr(Opcode::CallRel32);
    call.len = 5;
    call.next_ip = 0x1006;
    call.near_branch = 0x555;
    let r2 = direct.execute(&call);

    assert_eq!(r1, Ok(StepEvent::Ran));
    assert_eq!(r1, r2);
    assert_eq!(indirect.cpu.regs, direct.cpu.regs);
    assert_eq!(indirect.cpu.mem, direct.cpu.mem);
    assert_eq!(indirect.cpu.regs.eip, 0x555);
    assert_eq!(indirect.read_u32(indirect.cpu.regs.esp), 0x1006);
}

#[test]
fn push_then_call_scenario_through_decoder() {
    let mut m = machine(0x2000);
    m.cpu.regs.esp = 0x800;
    m.cpu.regs.eip = 0x1000;
    // push 0x2A
    m.cpu.mem[0x1000] = 0x6A;
    m.cpu.mem[0x1001] = 0x2A;
    // call 0x00401000 (rel32 from next ip 0x1007)
    m.cpu.mem[0x1002] = 0xE8;
    m.cpu.mem[0x1003] = 0xF9;
    m.cpu.mem[0x1004] = 0xFF;
    m.cpu.mem[0x1005] = 0x3F;
    m.cpu.mem[0x1006] = 0x00;

    assert_eq!(m.step(), Ok(StepEvent::Ran));
    assert_eq!(m.cpu.regs.esp, 0x7FC);
    assert_eq!(m.read_u32(0x7FC), 0x2A);
    assert_eq!(m.cpu.regs.eip, 0x1002);

    assert_eq!(m.step(), Ok(StepEvent::Ran));
    assert_eq!(m.cpu.regs.eip, 0x401000);
    assert_eq!(m.cpu.regs.esp, 0x7F8);
    assert_eq!(m.read_u32(0x7F8), 0x1007, "return address is the address after the call");
}

#[test]
fn unsupported_opcode_leaves_eip_at_instruction_start() {
    let mut m = machine(0x1100);
    m.cpu.regs.eip = 0x1000;
    m.cpu.mem[0x1000] = 0x90; // nop, outside the supported subset
    let r = m.step();
    assert!(matches!(r, Err(Error::Unsupported { .. })));
    assert_eq!(m.cpu.regs.eip, 0x1000, "eip is rewound to the instruction start");
}

#[test]
fn unsupported_opcode_error_carries_identity() {
    let mut m = machine(0x100);
    m.cpu.regs.eip = 0x10;
    let mut i = instr(Opcode::Other);
    i.code_id = 4242;
    i.len = 2;
    i.next_ip = 0x12;
    let r = m.execute(&i);
    assert_eq!(r, Err(Error::Unsupported { code: 4242 }));
    assert_eq!(m.cpu.regs.eip, 0x10);
}

#[test]
fn and_imm8_zero_extends_and_touches_only_destination() {
    let mut m = machine(0x100);
    m.cpu.regs.eax = 0xFFFFFFFF;
    m.cpu.regs.ebx = 0x1111;
    m.cpu.regs.esp = 0x40;
    let mut i = instr(Opcode::AndRm32Imm8);
    i.len = 3;
    i.next_ip = 3;
    i.op0_is_reg = true;
    i.op0_reg = Reg::Eax;
    i.imm8 = 0x0F;
    assert_eq!(m.execute(&i), Ok(StepEvent::Ran));
    assert_eq!(m.cpu.regs.eax, 0x0000000F);
    assert_eq!(m.cpu.regs.ebx, 0x1111);
    assert_eq!(m.cpu.regs.ecx, 0);
    assert_eq!(m.cpu.regs.edx, 0);
    assert_eq!(m.cpu.regs.esp, 0x40);
    assert_eq!(m.cpu.regs.ebp, 0);
    assert_eq!(m.cpu.regs.esi, 0);
    assert_eq!(m.cpu.regs.edi, 0);
}

#[test]
fn enter_builds_stack_frame() {
    let mut m = machine(0x200);
    m.cpu.regs.esp = 0x100;
    m.cpu.regs.ebp = 0x77;
    let mut i = instr(Opcode::EnterImm16Imm8);
    i.len = 4;
    i.next_ip = 4;
    i.imm16 = 0x10;
    assert_eq!(m.execute(&i), Ok(StepEvent::Ran));
    assert_eq!(m.read_u32(0xFC), 0x77, "old frame pointer is pushed");
    assert_eq!(m.cpu.regs.ebp, 0xFC);
    assert_eq!(m.cpu.regs.esp, 0xEC);
}

#[test]
fn jmp_rel32_sets_eip() {
    let mut m = machine(0x100);
    let mut i = instr(Opcode::JmpRel32);
    i.next_ip = 5;
    i.near_branch = 0x4321;
    assert_eq!(m.execute(&i), Ok(StepEvent::Ran));
    assert_eq!(m.cpu.regs.eip, 0x4321);
}

#[test]
fn push_imm8_is_sign_extended_by_decoder() {
    let mut m = machine(0x100);
    m.cpu.regs.esp = 0x80;
    let mut i = instr(Opcode::PushImm8);
    i.imm8to32 = 0xFFFFFFFE; // push -2
    assert_eq!(m.execute(&i), Ok(StepEvent::Ran));
    assert_eq!(m.read_u32(0x7C), 0xFFFFFFFE);
}

#[test]
fn push_imm32_and_push_r32() {
    let mut m = machine(0x100);
    m.cpu.regs.esp = 0x80;
    m.cpu.regs.esi = 0xABCD;
    let mut i = instr(Opcode::PushImm32);
    i.imm32 = 0xCAFEF00D;
    assert_eq!(m.execute(&i), Ok(StepEvent::Ran));
    assert_eq!(m.read_u32(0x7C), 0xCAFEF00D);
    let mut j = instr(Opcode::PushR32);
    j.op0_is_reg = true;
    j.op0_reg = Reg::Esi;
    assert_eq!(m.execute(&j), Ok(StepEvent::Ran));
    assert_eq!(m.read_u32(0x78), 0xABCD);
}

#[test]
fn push_rm32_reads_memory_operand() {
    let mut m = machine(0x100);
    m.cpu.regs.esp = 0x80;
    m.cpu.regs.ebx = 0x20;
    m.write_u32(0x30, 0x9999);
    let mut i = instr(Opcode::PushRm32);
    i.mem_index = Reg::Ebx;
    i.mem_disp = 0x10;
    assert_eq!(m.execute(&i), Ok(StepEvent::Ran));
    assert_eq!(m.read_u32(0x7C), 0x9999);
}

#[test]
fn pop_r32_sets_register() {
    let mut m = machine(0x100);
    m.cpu.regs.esp = 0x40;
    m.write_u32(0x40, 0x31337);
    let mut i = instr(Opcode::PopR32);
    i.op0_is_reg = true;
    i.op0_reg = Reg::Edi;
    assert_eq!(m.execute(&i), Ok(StepEvent::Ran));
    assert_eq!(m.cpu.regs.edi, 0x31337);
    assert_eq!(m.cpu.regs.esp, 0x44);
}

#[test]
fn pop_into_esp_overrides_increment() {
    let mut m = machine(0x100);
    m.cpu.regs.esp = 0x40;
    m.write_u32(0x40, 0x55);
    let mut i = instr(Opcode::PopR32);
    i.op0_is_reg = true;
    i.op0_reg = Reg::Esp;
    assert_eq!(m.execute(&i), Ok(StepEvent::Ran));
    assert_eq!(m.cpu.regs.esp, 0x55, "popped value wins over the increment");
}

#[test]
fn mov_memory_forms() {
    let mut m = machine(0x100);
    m.cpu.regs.eax = 0x11223344;
    let mut store_imm = instr(Opcode::MovRm32Imm32);
    store_imm.mem_disp = 0x10;
    store_imm.imm32 = 0x5555;
    assert_eq!(m.execute(&store_imm), Ok(StepEvent::Ran));
    assert_eq!(m.read_u32(0x10), 0x5555);

    let mut store_eax = instr(Opcode::MovMoffs32Eax);
    store_eax.mem_disp = 0x20;
    assert_eq!(m.execute(&store_eax), Ok(StepEvent::Ran));
    assert_eq!(m.read_u32(0x20), 0x11223344);

    let mut load_eax = instr(Opcode::MovEaxMoffs32);
    load_eax.mem_disp = 0x10;
    assert_eq!(m.execute(&load_eax), Ok(StepEvent::Ran));
    assert_eq!(m.cpu.regs.eax, 0x5555);
}

#[test]
fn mov_register_forms() {
    let mut m = machine(0x10);
    m.cpu.regs.ecx = 0xAA;
    let mut i = instr(Opcode::MovRm32R32);
    i.op0_is_reg = true;
    i.op1_is_reg = true;
    i.op0_reg = Reg::Edx;
    i.op1_reg = Reg::Ecx;
    assert_eq!(m.execute(&i), Ok(StepEvent::Ran));
    assert_eq!(m.cpu.regs.edx, 0xAA);

    let mut j = instr(Opcode::MovR32Rm32);
    j.op0_is_reg = true;
    j.op1_is_reg = true;
    j.op0_reg = Reg::Ebp;
    j.op1_reg = Reg::Edx;
    assert_eq!(m.execute(&j), Ok(StepEvent::Ran));
    assert_eq!(m.cpu.regs.ebp, 0xAA);
}

#[test]
fn sub_imm32_wraps_on_underflow() {
    let mut m = machine(0x10);
    m.cpu.regs.ecx = 1;
    let mut i = instr(Opcode::SubRm32Imm32);
    i.op0_is_reg = true;
    i.op0_reg = Reg::Ecx;
    i.imm32 = 3;
    assert_eq!(m.execute(&i), Ok(StepEvent::Ran));
    assert_eq!(m.cpu.regs.ecx, 0xFFFFFFFE);
}

#[test]
fn lea_computes_address_without_dereference() {
    let mut m = machine(0x10); // too small to hold the address itself
    m.cpu.regs.esi = 0x30;
    let mut i = instr(Opcode::LeaR32M);
    i.op0_is_reg = true;
    i.op0_reg = Reg::Edi;
    i.mem_index = Reg::Esi;
    i.mem_disp = 0x10;
    assert_eq!(m.execute(&i), Ok(StepEvent::Ran));
    assert_eq!(m.cpu.regs.edi, 0x40);
}

#[test]
fn out_of_bounds_read_is_a_memory_fault() {
    let mut m = machine(0x100);
    let mut i = instr(Opcode::MovEaxMoffs32);
    i.next_ip = 6;
    i.mem_disp = 0x200;
    let r = m.execute(&i);
    assert_eq!(r, Err(Error::MemFault { addr: 0x200 }));
    assert_eq!(m.cpu.regs.eax, 0, "a faulting read writes nothing");
    assert_eq!(m.cpu.regs.eip, 6, "eip was already advanced when the fault hit");
}

#[test]
fn push_below_memory_is_a_memory_fault() {
    let mut m = machine(0x100);
    m.cpu.regs.esp = 2;
    let mut i = instr(Opcode::PushImm32);
    i.imm32 = 7;
    let r = m.execute(&i);
    assert_eq!(r, Err(Error::MemFault { addr: 0xFFFFFFFE }));
    assert_eq!(m.cpu.regs.esp, 2, "esp is untouched by a faulting push");
}

#[test]
fn eip_outside_memory_is_a_memory_fault() {
    let mut m = machine(0x10);
    m.cpu.regs.eip = 0x40;
    assert_eq!(m.step(), Err(Error::MemFault { addr: 0x40 }));
    assert_eq!(m.cpu.regs.eip, 0x40);
}

#[test]
fn memory_operand_on_register_only_rule_is_a_contract_violation() {
    let mut m = machine(0x100);
    m.cpu.regs.eip = 0x10;
    // mov eax, [ebx]: Mov_r32_rm32 whose second operand is memory, which the
    // supported subset's register-only rule rejects.
    m.cpu.mem[0x10] = 0x8B;
    m.cpu.mem[0x11] = 0x03;
    assert_eq!(m.step(), Err(Error::ContractViolation));
    assert_eq!(m.cpu.regs.eip, 0x10, "the machine is unchanged");
}

#[test]
fn mov_between_registers_through_decoder() {
    let mut m = machine(0x100);
    m.cpu.regs.ebx = 5;
    m.cpu.regs.eip = 0x20;
    // mov eax, ebx (89 D8: Mov_rm32_r32 with a register destination)
    m.cpu.mem[0x20] = 0x89;
    m.cpu.mem[0x21] = 0xD8;
    assert_eq!(m.step(), Ok(StepEvent::Ran));
    assert_eq!(m.cpu.regs.eax, 5);
    assert_eq!(m.cpu.regs.eip, 0x22);
}
