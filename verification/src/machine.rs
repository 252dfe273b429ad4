//! The interpreter core: the machine that owns guest memory, registers and
//! the import table, the decode-dispatch-execute step, and the semantic rule
//! of every instruction in the supported subset.

use std::collections::HashMap;

use vstd::prelude::*;

use crate::arith::{w_add, w_sub, wrapping_sub32};
use crate::cpu::{can32, can_pop, can_push, pop_val, popped, pushed, sread32, swrite32, Cpu, CpuView};
use crate::decode::{decode_at, decoded};
use crate::instr::{wf_instr, Instr, Opcode};
use crate::registers::{rget, rset, zeroed, Reg, Registers};

verus! {

/// A failure that aborts one step. Both kinds propagate to the caller, who
/// decides whether to halt, patch, or retry; the core never retries.
#[derive(Clone, Copy, Debug, PartialEq, Eq, Structural)]
pub enum Error {
    /// The opcode is outside the supported subset. eip has been rewound to
    /// the instruction's start, so the offending bytes can be inspected;
    /// `code` is the decoder's raw opcode identity.
    Unsupported { code: u32 },
    /// A 4-byte access at `addr` would leave guest memory. Never masked or
    /// clamped.
    MemFault { addr: u32 },
    /// The decoder produced an operand form the addressing model was never
    /// designed for (a scale other than 1, an index register on an indirect
    /// call, a non-register operand where the rule demands a register, or a
    /// register identifier outside the supported set). A hard stop: the
    /// machine is left exactly as it was before the step.
    ContractViolation,
}

/// What a successful step did, surfaced so the host can observe import
/// interception without the core doing any I/O of its own.
#[derive(Clone, Copy, Debug, PartialEq, Eq, Structural)]
pub enum StepEvent {
    /// The instruction executed as ordinary guest code.
    Ran,
    /// An indirect call hit an import registered with a handler; the handler
    /// simulated the whole call and return.
    HandledImport { target: u32 },
    /// An indirect call hit an import registered without a handler: the
    /// designed non-fatal diagnostic for not-yet-emulated APIs. The call was
    /// treated as a no-op and execution continues after it.
    UnimplementedImport { target: u32 },
}

/// A host-provided emulation of one operating-system API. The handler gets
/// exclusive mutable access to the machine core and must leave it as if the
/// intercepted call had executed and returned: it may read and write
/// registers, memory and the stack directly.
pub trait ImportHandler {
    /// Simulate the entire call and return of the intercepted API.
    fn handle(&self, cpu: &mut Cpu);
}

/// An import handler that does nothing, for machines run without any host
/// emulation.
pub struct NoHandlers;

impl ImportHandler for NoHandlers {
    fn handle(&self, _cpu: &mut Cpu) {
    }
}

/// The three states an indirect-call target can be in with respect to the
/// import table.
#[derive(Clone, Copy, Debug, PartialEq, Eq, Structural)]
pub enum ImportState {
    /// No entry: the target is ordinary guest code.
    Absent,
    /// An entry with a handler: the host emulates the call.
    Handled,
    /// An entry without a handler: known but not yet emulated.
    Unhandled,
}

/// How the import table classifies `target`.
pub open spec fn import_state<H>(imp: Map<u32, Option<H>>, target: u32) -> ImportState {
    if !imp.contains_key(target) {
        ImportState::Absent
    } else if imp[target].is_some() {
        ImportState::Handled
    } else {
        ImportState::Unhandled
    }
}

/// Effective address of an instruction's memory operand: index register plus
/// displacement, wrapping in the 32-bit address space. (The supported subset
/// requires scale 1, so the scale does not appear.)
pub open spec fn sea(r: Registers, i: Instr) -> u32 {
    w_add(rget(r, i.mem_index), i.mem_disp)
}

/// `c` with the instruction pointer replaced.
pub open spec fn with_eip(c: CpuView, ip: u32) -> CpuView {
    CpuView { regs: (Registers { eip: ip, ..c.regs }), ..c }
}

/// `c` with the register file replaced.
pub open spec fn with_regs(c: CpuView, r: Registers) -> CpuView {
    CpuView { regs: r, ..c }
}

/// Outcome of pushing `v` onto the stack of `c`: the pushed state, or a
/// memory fault at the slot below esp with the state unchanged.
pub open spec fn push_value(c: CpuView, v: u32) -> (CpuView, Result<StepEvent, Error>) {
    if can_push(c) {
        (pushed(c, v), Ok(StepEvent::Ran))
    } else {
        (c, Err(Error::MemFault { addr: w_sub(c.regs.esp, 4) }))
    }
}

/// The machine state and result after executing `i` from `pre`, ignoring the
/// import table: this is the semantics of every instruction in the supported
/// subset, with an indirect call taken as an ordinary call through the
/// pointer slot. The instruction pointer is advanced to `i.next_ip` before
/// any other effect, so pushed return addresses and branch targets are
/// relative to the instruction's end; on an unsupported opcode it is rewound
/// by the instruction's length.
pub open spec fn det_step(pre: CpuView, i: Instr) -> (CpuView, Result<StepEvent, Error>) {
    let c = with_eip(pre, i.next_ip);
    match i.opcode {
        Opcode::EnterImm16Imm8 => {
            if can_push(c) {
                let c2 = pushed(c, c.regs.ebp);
                (
                    with_regs(
                        c2,
                        (Registers {
                            ebp: c2.regs.esp,
                            esp: w_sub(c2.regs.esp, i.imm16 as u32),
                            ..c2.regs
                        }),
                    ),
                    Ok(StepEvent::Ran),
                )
            } else {
                (c, Err(Error::MemFault { addr: w_sub(c.regs.esp, 4) }))
            }
        },
        Opcode::CallRel32 => {
            if can_push(c) {
                (with_eip(pushed(c, i.next_ip), i.near_branch), Ok(StepEvent::Ran))
            } else {
                (c, Err(Error::MemFault { addr: w_sub(c.regs.esp, 4) }))
            }
        },
        Opcode::CallRm32 => {
            let a = sea(c.regs, i);
            if !can32(c.mem, a) {
                (c, Err(Error::MemFault { addr: a }))
            } else {
                let t = sread32(c.mem, a);
                if can_push(c) {
                    (with_eip(pushed(c, i.next_ip), t), Ok(StepEvent::Ran))
                } else {
                    (c, Err(Error::MemFault { addr: w_sub(c.regs.esp, 4) }))
                }
            }
        },
        Opcode::Retn => {
            if can_pop(c) {
                (with_eip(popped(c), pop_val(c)), Ok(StepEvent::Ran))
            } else {
                (c, Err(Error::MemFault { addr: c.regs.esp }))
            }
        },
        Opcode::JmpRel32 => (with_eip(c, i.near_branch), Ok(StepEvent::Ran)),
        Opcode::PushImm8 => push_value(c, i.imm8to32),
        Opcode::PushImm32 => push_value(c, i.imm32),
        Opcode::PushR32 => push_value(c, rget(c.regs, i.op0_reg)),
        Opcode::PushRm32 => {
            let a = sea(c.regs, i);
            if !can32(c.mem, a) {
                (c, Err(Error::MemFault { addr: a }))
            } else {
                push_value(c, sread32(c.mem, a))
            }
        },
        Opcode::PopR32 => {
            if can_pop(c) {
                let c2 = popped(c);
                (with_regs(c2, rset(c2.regs, i.op0_reg, pop_val(c))), Ok(StepEvent::Ran))
            } else {
                (c, Err(Error::MemFault { addr: c.regs.esp }))
            }
        },
        Opcode::MovRm32Imm32 => {
            let a = sea(c.regs, i);
            if !can32(c.mem, a) {
                (c, Err(Error::MemFault { addr: a }))
            } else {
                ((CpuView { mem: swrite32(c.mem, a, i.imm32), ..c }), Ok(StepEvent::Ran))
            }
        },
        Opcode::MovMoffs32Eax => {
            let a = sea(c.regs, i);
            if !can32(c.mem, a) {
                (c, Err(Error::MemFault { addr: a }))
            } else {
                ((CpuView { mem: swrite32(c.mem, a, c.regs.eax), ..c }), Ok(StepEvent::Ran))
            }
        },
        Opcode::MovEaxMoffs32 => {
            let a = sea(c.regs, i);
            if !can32(c.mem, a) {
                (c, Err(Error::MemFault { addr: a }))
            } else {
                (
                    with_regs(c, (Registers { eax: sread32(c.mem, a), ..c.regs })),
                    Ok(StepEvent::Ran),
                )
            }
        },
        Opcode::MovRm32R32 => (
            with_regs(c, rset(c.regs, i.op0_reg, rget(c.regs, i.op1_reg))),
            Ok(StepEvent::Ran),
        ),
        Opcode::MovR32Rm32 => (
            with_regs(c, rset(c.regs, i.op0_reg, rget(c.regs, i.op1_reg))),
            Ok(StepEvent::Ran),
        ),
        Opcode::AndRm32Imm8 => (
            with_regs(c, rset(c.regs, i.op0_reg, rget(c.regs, i.op0_reg) & (i.imm8 as u32))),
            Ok(StepEvent::Ran),
        ),
        Opcode::SubRm32Imm32 => (
            with_regs(c, rset(c.regs, i.op0_reg, w_sub(rget(c.regs, i.op0_reg), i.imm32))),
            Ok(StepEvent::Ran),
        ),
        Opcode::LeaR32M => (
            with_regs(c, rset(c.regs, i.op0_reg, sea(c.regs, i))),
            Ok(StepEvent::Ran),
        ),
        Opcode::Other => (
            with_eip(c, w_sub(i.next_ip, i.len)),
            Err(Error::Unsupported { code: i.code_id }),
        ),
    }
}

/// Full relation between the machine before and after executing `i`: the
/// deterministic semantics of `det_step`, except that an indirect call whose
/// readable pointer slot is registered in the import table is intercepted.
/// With a handler the whole machine is handed to the handler after eip has
/// advanced, so nothing beyond the result is promised about the final state;
/// without one the call is a no-op and only the diagnostic is returned.
pub open spec fn step_post<H>(
    pre: CpuView,
    imp: Map<u32, Option<H>>,
    i: Instr,
    post: CpuView,
    r: Result<StepEvent, Error>,
) -> bool {
    let c = with_eip(pre, i.next_ip);
    if i.opcode == Opcode::CallRm32 {
        let a = sea(c.regs, i);
        if !can32(c.mem, a) {
            post == c && r == Err::<StepEvent, Error>(Error::MemFault { addr: a })
        } else {
            let t = sread32(c.mem, a);
            match import_state(imp, t) {
                ImportState::Handled => r == Ok::<StepEvent, Error>(
                    StepEvent::HandledImport { target: t },
                ),
                ImportState::Unhandled => post == c && r == Ok::<StepEvent, Error>(
                    StepEvent::UnimplementedImport { target: t },
                ),
                ImportState::Absent => post == det_step(pre, i).0 && r == det_step(pre, i).1,
            }
        }
    } else {
        post == det_step(pre, i).0 && r == det_step(pre, i).1
    }
}

/// A near call executed at any state whose stack can take one value: eip
/// lands on the branch target, the top of stack holds the return address
/// (the address following the call), and esp has decreased by exactly 4.
pub proof fn lemma_call_rel32(pre: CpuView, i: Instr)
    requires
        i.opcode == Opcode::CallRel32,
        can_push(with_eip(pre, i.next_ip)),
    ensures
        det_step(pre, i).1 == Ok::<StepEvent, Error>(StepEvent::Ran),
        det_step(pre, i).0.regs.eip == i.near_branch,
        det_step(pre, i).0.regs.esp == pre.regs.esp - 4,
        sread32(det_step(pre, i).0.mem, det_step(pre, i).0.regs.esp) == i.next_ip,
{
    crate::cpu::lemma_write32_read32(pre.mem, w_sub(pre.regs.esp, 4), i.next_ip);
}

/// A return immediately after a near call restores eip to the pushed return
/// address and esp to its pre-call value.
pub proof fn lemma_call_then_ret(pre: CpuView, i: Instr, j: Instr)
    requires
        i.opcode == Opcode::CallRel32,
        can_push(with_eip(pre, i.next_ip)),
        j.opcode == Opcode::Retn,
    ensures
        ({
            let mid = det_step(pre, i).0;
            let fin = det_step(mid, j).0;
            det_step(mid, j).1 == Ok::<StepEvent, Error>(StepEvent::Ran) && fin.regs.eip
                == i.next_ip && fin.regs.esp == pre.regs.esp
        }),
{
    lemma_call_rel32(pre, i);
}

/// An indirect call through a pointer slot with no import-table entry
/// behaves exactly like a direct near call whose target is the slot's
/// value.
pub proof fn lemma_call_rm32_absent<H>(
    pre: CpuView,
    imp: Map<u32, Option<H>>,
    i: Instr,
    j: Instr,
    post: CpuView,
    r: Result<StepEvent, Error>,
)
    requires
        i.opcode == Opcode::CallRm32,
        wf_instr(i),
        can32(pre.mem, sea(pre.regs, i)),
        !imp.contains_key(sread32(pre.mem, sea(pre.regs, i))),
        j.opcode == Opcode::CallRel32,
        j.next_ip == i.next_ip,
        j.near_branch == sread32(pre.mem, sea(pre.regs, i)),
    ensures
        step_post(pre, imp, i, post, r) <==> (post == det_step(pre, j).0 && r == det_step(
            pre,
            j,
        ).1),
{
}

/// An indirect call through a slot registered without a handler is the
/// designed non-fatal path: the observable result names the unimplemented
/// import, execution continues at the address following the call, and
/// registers (but for eip), stack and memory are untouched.
pub proof fn lemma_call_rm32_unhandled<H>(
    pre: CpuView,
    imp: Map<u32, Option<H>>,
    i: Instr,
    post: CpuView,
    r: Result<StepEvent, Error>,
)
    requires
        i.opcode == Opcode::CallRm32,
        wf_instr(i),
        can32(pre.mem, sea(pre.regs, i)),
        import_state(imp, sread32(pre.mem, sea(pre.regs, i))) == ImportState::Unhandled,
        step_post(pre, imp, i, post, r),
    ensures
        r == Ok::<StepEvent, Error>(
            StepEvent::UnimplementedImport { target: sread32(pre.mem, sea(pre.regs, i)) },
        ),
        post == with_eip(pre, i.next_ip),
        post.regs.esp == pre.regs.esp,
        post.mem == pre.mem,
{
}

/// An unsupported opcode whose next-ip is its start plus its length (as the
/// decoder reports it) fails the step and leaves the whole machine, eip
/// included, exactly as it was before the step.
pub proof fn lemma_unsupported_rewind(pre: CpuView, i: Instr)
    requires
        i.opcode == Opcode::Other,
        i.next_ip == w_add(pre.regs.eip, i.len),
    ensures
        det_step(pre, i).1 == Err::<StepEvent, Error>(Error::Unsupported { code: i.code_id }),
        det_step(pre, i).0.regs == pre.regs,
        det_step(pre, i).0.mem == pre.mem,
{
    crate::arith::lemma_w_sub_w_add(pre.regs.eip, i.len);
}

/// `and r/m32, imm8` on a register destination masks that register with the
/// zero-extended immediate and leaves every other general-purpose register,
/// and all of memory, untouched.
pub proof fn lemma_and_imm8_frame(pre: CpuView, i: Instr, q: Reg)
    requires
        i.opcode == Opcode::AndRm32Imm8,
        wf_instr(i),
        i.op0_reg != Reg::NoReg,
        i.op0_reg != Reg::Eip,
        q != i.op0_reg,
        q != Reg::Eip,
    ensures
        det_step(pre, i).1 == Ok::<StepEvent, Error>(StepEvent::Ran),
        rget(det_step(pre, i).0.regs, i.op0_reg) == rget(pre.regs, i.op0_reg) & (i.imm8 as u32),
        rget(det_step(pre, i).0.regs, q) == rget(pre.regs, q),
        det_step(pre, i).0.mem == pre.mem,
{
    let c = with_eip(pre, i.next_ip);
    let v = rget(c.regs, i.op0_reg) & (i.imm8 as u32);
    crate::registers::lemma_rget_rset_same(c.regs, i.op0_reg, v);
    crate::registers::lemma_rget_rset_frame(c.regs, i.op0_reg, q, v);
}

/// The machine: guest memory, registers and load base in `cpu`, plus the
/// import table mapping a guest address (the value found in an import-table
/// slot) to an optional host handler. Entries are registered before
/// execution begins; the interpreter only reads the table.
pub struct X86<H: ImportHandler> {
    pub cpu: Cpu,
    pub imports: HashMap<u32, Option<H>>,
}

impl<H: ImportHandler> X86<H> {
    /// A fresh machine: empty memory, zeroed registers, base zero, no
    /// imports registered.
    pub fn new() -> (r: X86<H>)
        ensures
            r.cpu@.mem == Seq::<u8>::empty(),
            zeroed(r.cpu@.regs),
            r.cpu@.base == 0,
            r.imports@ == Map::<u32, Option<H>>::empty(),
    {
        X86 { cpu: Cpu::new(), imports: HashMap::new() }
    }

    /// Read the little-endian 32-bit value at `offset` of guest memory.
    pub fn read_u32(&self, offset: u32) -> (r: u32)
        requires
            can32(self.cpu@.mem, offset),
        ensures
            r == sread32(self.cpu@.mem, offset),
    {
        self.cpu.read_u32(offset)
    }

    /// Store `value` at `offset` of guest memory, little-endian.
    pub fn write_u32(&mut self, offset: u32, value: u32)
        requires
            can32(old(self).cpu@.mem, offset),
        ensures
            final(self).cpu@.mem == swrite32(old(self).cpu@.mem, offset, value),
            final(self).cpu@.regs == old(self).cpu@.regs,
            final(self).cpu@.base == old(self).cpu@.base,
            final(self).imports == old(self).imports,
    {
        self.cpu.write_u32(offset, value)
    }

    /// Push `value` onto the guest stack.
    pub fn push(&mut self, value: u32)
        requires
            can_push(old(self).cpu@),
        ensures
            final(self).cpu@ == pushed(old(self).cpu@, value),
            final(self).imports == old(self).imports,
    {
        self.cpu.push(value)
    }

    /// Pop the top 32-bit value off the guest stack.
    pub fn pop(&mut self) -> (r: u32)
        requires
            can_pop(old(self).cpu@),
        ensures
            r == pop_val(old(self).cpu@),
            final(self).cpu@ == popped(old(self).cpu@),
            final(self).imports == old(self).imports,
    {
        self.cpu.pop()
    }

    /// Effective address of the instruction's memory operand. The supported
    /// subset admits only scale factor 1; any other scale is a contract
    /// violation of the addressing model, so it is excluded here.
    fn addr(&self, instr: &Instr) -> (a: u32)
        requires
            instr.mem_scale == 1,
            instr.mem_index != Reg::Other,
        ensures
            a == sea(self.cpu.regs, *instr),
    {
        crate::arith::wrapping_add32(self.cpu.regs.get(instr.mem_index), instr.mem_disp)
    }

    /// Push `value`, or fail the step with a memory fault if the slot below
    /// esp is outside guest memory.
    fn push_checked(&mut self, value: u32) -> (r: Result<StepEvent, Error>)
        ensures
            final(self).imports == old(self).imports,
            (final(self).cpu@, r) == push_value(old(self).cpu@, value),
    {
        if self.cpu.can_push_now() {
            self.cpu.push(value);
            Ok(StepEvent::Ran)
        } else {
            Err(Error::MemFault { addr: wrapping_sub32(self.cpu.regs.esp, 4) })
        }
    }

    /// Execute one already-decoded instruction: advance eip to the address
    /// after the instruction, then apply its semantic rule. The relation
    /// between the old and new machine and the result is exactly
    /// `step_post`; the import table is never written.
    pub fn execute(&mut self, instr: &Instr) -> (r: Result<StepEvent, Error>)
        requires
            wf_instr(*instr),
        ensures
            final(self).imports == old(self).imports,
            step_post(old(self).cpu@, old(self).imports@, *instr, final(self).cpu@, r),
    {
        self.cpu.regs.eip = instr.next_ip;
        match instr.opcode {
            Opcode::EnterImm16Imm8 => {
                if self.cpu.can_push_now() {
                    let frame = self.cpu.regs.ebp;
                    self.cpu.push(frame);
                    self.cpu.regs.ebp = self.cpu.regs.esp;
                    self.cpu.regs.esp = wrapping_sub32(self.cpu.regs.esp, instr.imm16 as u32);
                    Ok(StepEvent::Ran)
                } else {
                    Err(Error::MemFault { addr: wrapping_sub32(self.cpu.regs.esp, 4) })
                }
            },
            Opcode::CallRel32 => {
                if self.cpu.can_push_now() {
                    self.cpu.push(instr.next_ip);
                    self.cpu.regs.eip = instr.near_branch;
                    Ok(StepEvent::Ran)
                } else {
                    Err(Error::MemFault { addr: wrapping_sub32(self.cpu.regs.esp, 4) })
                }
            },
            Opcode::CallRm32 => {
                let a = self.addr(instr);
                if !self.cpu.can_access(a) {
                    return Err(Error::MemFault { addr: a });
                }
                let target = self.cpu.read_u32(a);
                match self.imports.get(&target) {
                    Some(entry) => match entry {
                        Some(handler) => {
                            handler.handle(&mut self.cpu);
                            Ok(StepEvent::HandledImport { target })
                        },
                        None => Ok(StepEvent::UnimplementedImport { target }),
                    },
                    None => {
                        if self.cpu.can_push_now() {
                            self.cpu.push(instr.next_ip);
                            self.cpu.regs.eip = target;
                            Ok(StepEvent::Ran)
                        } else {
                            Err(Error::MemFault { addr: wrapping_sub32(self.cpu.regs.esp, 4) })
                        }
                    },
                }
            },
            Opcode::Retn => {
                if self.cpu.can_pop_now() {
                    let ret = self.cpu.pop();
                    self.cpu.regs.eip = ret;
                    Ok(StepEvent::Ran)
                } else {
                    Err(Error::MemFault { addr: self.cpu.regs.esp })
                }
            },
            Opcode::JmpRel32 => {
                self.cpu.regs.eip = instr.near_branch;
                Ok(StepEvent::Ran)
            },
            Opcode::PushImm8 => self.push_checked(instr.imm8to32),
            Opcode::PushImm32 => self.push_checked(instr.imm32),
            Opcode::PushR32 => {
                let v = self.cpu.regs.get(instr.op0_reg);
                self.push_checked(v)
            },
            Opcode::PushRm32 => {
                let a = self.addr(instr);
                if !self.cpu.can_access(a) {
                    return Err(Error::MemFault { addr: a });
                }
                let v = self.cpu.read_u32(a);
                self.push_checked(v)
            },
            Opcode::PopR32 => {
                if self.cpu.can_pop_now() {
                    let v = self.cpu.pop();
                    self.cpu.regs.set(instr.op0_reg, v);
                    Ok(StepEvent::Ran)
                } else {
                    Err(Error::MemFault { addr: self.cpu.regs.esp })
                }
            },
            Opcode::MovRm32Imm32 => {
                let a = self.addr(instr);
                if !self.cpu.can_access(a) {
                    return Err(Error::MemFault { addr: a });
                }
                self.cpu.write_u32(a, instr.imm32);
                Ok(StepEvent::Ran)
            },
            Opcode::MovMoffs32Eax => {
                let a = self.addr(instr);
                if !self.cpu.can_access(a) {
                    return Err(Error::MemFault { addr: a });
                }
                let v = self.cpu.regs.eax;
                self.cpu.write_u32(a, v);
                Ok(StepEvent::Ran)
            },
            Opcode::MovEaxMoffs32 => {
                let a = self.addr(instr);
                if !self.cpu.can_access(a) {
                    return Err(Error::MemFault { addr: a });
                }
                self.cpu.regs.eax = self.cpu.read_u32(a);
                Ok(StepEvent::Ran)
            },
            Opcode::MovRm32R32 => {
                let v = self.cpu.regs.get(instr.op1_reg);
                self.cpu.regs.set(instr.op0_reg, v);
                Ok(StepEvent::Ran)
            },
            Opcode::MovR32Rm32 => {
                let v = self.cpu.regs.get(instr.op1_reg);
                self.cpu.regs.set(instr.op0_reg, v);
                Ok(StepEvent::Ran)
            },
            Opcode::AndRm32Imm8 => {
                let v = self.cpu.regs.get(instr.op0_reg) & (instr.imm8 as u32);
                self.cpu.regs.set(instr.op0_reg, v);
                Ok(StepEvent::Ran)
            },
            Opcode::SubRm32Imm32 => {
                let v = wrapping_sub32(self.cpu.regs.get(instr.op0_reg), instr.imm32);
                self.cpu.regs.set(instr.op0_reg, v);
                Ok(StepEvent::Ran)
            },
            Opcode::LeaR32M => {
                let a = self.addr(instr);
                self.cpu.regs.set(instr.op0_reg, a);
                Ok(StepEvent::Ran)
            },
            Opcode::Other => {
                self.cpu.regs.eip = wrapping_sub32(instr.next_ip, instr.len);
                Err(Error::Unsupported { code: instr.code_id })
            },
        }
    }

    /// One decode-and-execute cycle: decode the instruction at the current
    /// eip from guest memory (32-bit mode), check the addressing model's
    /// contracts, and execute it. The step fails with a memory fault at eip
    /// exactly when eip is beyond guest memory, and with
    /// `ContractViolation` exactly when the instruction decoded at eip
    /// (the named record `decoded`) violates the addressing model's
    /// contracts; in both cases the machine is unchanged. Otherwise the old
    /// and new machine and the result are related by `step_post` for
    /// exactly that decoded instruction.
    pub fn step(&mut self) -> (r: Result<StepEvent, Error>)
        ensures
            final(self).imports == old(self).imports,
            ({
                let m = old(self).cpu@.mem;
                let ip = old(self).cpu@.regs.eip;
                if !(ip <= m.len()) {
                    r == Err::<StepEvent, Error>(Error::MemFault { addr: ip }) && final(self).cpu@
                        == old(self).cpu@
                } else {
                    let i = decoded(m, ip);
                    i.next_ip == w_add(ip, i.len) && if !wf_instr(i) {
                        r == Err::<StepEvent, Error>(Error::ContractViolation) && final(self).cpu@
                            == old(self).cpu@
                    } else {
                        step_post(old(self).cpu@, old(self).imports@, i, final(self).cpu@, r)
                    }
                }
            }),
    {
        let ip = self.cpu.regs.eip;
        let n: usize = self.cpu.mem.len();
        if !((ip as usize) <= n) {
            return Err(Error::MemFault { addr: ip });
        }
        let instr = decode_at(&self.cpu.mem, ip);
        if !instr.wf_check() {
            return Err(Error::ContractViolation);
        }
        self.execute(&instr)
    }
}

} // verus!
