//! The machine core a host handler may touch: flat guest memory, the
//! register file, and the recorded load base, together with the
//! little-endian 32-bit read/write primitives and the descending,
//! 4-byte stack primitives built on them.

use vstd::prelude::*;

use crate::arith::{w_add, w_sub, wrapping_add32};
use crate::registers::Registers;

verus! {

/// Guest memory, registers and load base. One `Cpu` is one guest thread of
/// control; the interpreter and host-provided import handlers mutate it, and
/// nothing else does.
pub struct Cpu {
    /// Flat guest memory, addressed by 32-bit offsets. Loading the
    /// executable image into it is the constructing collaborator's business;
    /// the core only reads and writes within the existing bounds.
    pub mem: Vec<u8>,
    /// The register file.
    pub regs: Registers,
    /// The load base of the executable image, recorded for collaborators
    /// outside this core.
    pub base: u32,
}

/// The mathematical value of a `Cpu`: the memory as a byte sequence, plus
/// the registers and load base.
pub struct CpuView {
    pub mem: Seq<u8>,
    pub regs: Registers,
    pub base: u32,
}

impl View for Cpu {
    type V = CpuView;

    open spec fn view(&self) -> CpuView {
        CpuView { mem: self.mem@, regs: self.regs, base: self.base }
    }
}

/// The little-endian value of four bytes.
pub open spec fn le32(b0: u8, b1: u8, b2: u8, b3: u8) -> u32 {
    (b0 as u32) | ((b1 as u32) << 8) | ((b2 as u32) << 16) | ((b3 as u32) << 24)
}

/// A 4-byte access at `a` stays within `m`.
pub open spec fn can32(m: Seq<u8>, a: u32) -> bool {
    a + 4 <= m.len()
}

/// The 32-bit little-endian value stored at `a`.
pub open spec fn sread32(m: Seq<u8>, a: u32) -> u32 {
    le32(m[a as int], m[a as int + 1], m[a as int + 2], m[a as int + 3])
}

/// The memory after storing `v` at `a`, little-endian.
pub open spec fn swrite32(m: Seq<u8>, a: u32, v: u32) -> Seq<u8> {
    m.update(a as int, (v & 0xFF) as u8).update(a as int + 1, ((v >> 8) & 0xFF) as u8).update(
        a as int + 2,
        ((v >> 16) & 0xFF) as u8,
    ).update(a as int + 3, ((v >> 24) & 0xFF) as u8)
}

/// The stack can take one more 4-byte value: esp is at least 4 (the slot
/// below exists in the 32-bit address space) and the slot lies in memory.
pub open spec fn can_push(c: CpuView) -> bool {
    4 <= c.regs.esp && can32(c.mem, w_sub(c.regs.esp, 4))
}

/// The state after pushing `v`: esp moves down 4, then `v` is stored there.
pub open spec fn pushed(c: CpuView, v: u32) -> CpuView {
    CpuView {
        mem: swrite32(c.mem, w_sub(c.regs.esp, 4), v),
        regs: (Registers { esp: w_sub(c.regs.esp, 4), ..c.regs }),
        ..c
    }
}

/// The top of stack is readable.
pub open spec fn can_pop(c: CpuView) -> bool {
    can32(c.mem, c.regs.esp)
}

/// The value a pop returns: the 32-bit value at esp.
pub open spec fn pop_val(c: CpuView) -> u32 {
    sread32(c.mem, c.regs.esp)
}

/// The state after popping: esp moves up 4, memory untouched.
pub open spec fn popped(c: CpuView) -> CpuView {
    CpuView { regs: (Registers { esp: w_add(c.regs.esp, 4), ..c.regs }), ..c }
}

impl Cpu {
    /// An empty machine core: no memory, zeroed registers, base zero.
    pub fn new() -> (r: Cpu)
        ensures
            r@.mem == Seq::<u8>::empty(),
            crate::registers::zeroed(r@.regs),
            r@.base == 0,
    {
        Cpu { mem: Vec::new(), regs: Registers::new(), base: 0 }
    }

    /// Whether a 4-byte access at `offset` stays within guest memory.
    pub fn can_access(&self, offset: u32) -> (b: bool)
        ensures
            b == can32(self@.mem, offset),
    {
        let n: usize = self.mem.len();
        n >= 4 && (offset as usize) <= n - 4
    }

    /// Whether the stack can take one more 4-byte value.
    pub fn can_push_now(&self) -> (b: bool)
        ensures
            b == can_push(self@),
    {
        4 <= self.regs.esp && self.can_access(self.regs.esp - 4)
    }

    /// Whether the top of the stack is readable.
    pub fn can_pop_now(&self) -> (b: bool)
        ensures
            b == can_pop(self@),
    {
        self.can_access(self.regs.esp)
    }

    /// Read the little-endian 32-bit value at `offset`. The access must lie
    /// within guest memory; an unverified caller that passes an out-of-bounds
    /// offset fails loudly rather than getting a clamped read.
    pub fn read_u32(&self, offset: u32) -> (r: u32)
        requires
            can32(self@.mem, offset),
        ensures
            r == sread32(self@.mem, offset),
    {
        let _n: usize = self.mem.len();
        let o = offset as usize;
        let b0 = self.mem[o];
        let b1 = self.mem[o + 1];
        let b2 = self.mem[o + 2];
        let b3 = self.mem[o + 3];
        (b0 as u32) | ((b1 as u32) << 8) | ((b2 as u32) << 16) | ((b3 as u32) << 24)
    }

    /// Store `value` at `offset`, little-endian. The access must lie within
    /// guest memory; an unverified caller that passes an out-of-bounds offset
    /// fails loudly rather than getting a clamped write.
    pub fn write_u32(&mut self, offset: u32, value: u32)
        requires
            can32(old(self)@.mem, offset),
        ensures
            final(self)@.mem == swrite32(old(self)@.mem, offset, value),
            final(self)@.regs == old(self)@.regs,
            final(self)@.base == old(self)@.base,
    {
        proof {
            assert((value & 0xFF) < 256 && ((value >> 8) & 0xFF) < 256 && ((value >> 16) & 0xFF)
                < 256 && ((value >> 24) & 0xFF) < 256) by (bit_vector);
        }
        let _n: usize = self.mem.len();
        let o = offset as usize;
        self.mem[o] = (value & 0xFF) as u8;
        self.mem[o + 1] = ((value >> 8) & 0xFF) as u8;
        self.mem[o + 2] = ((value >> 16) & 0xFF) as u8;
        self.mem[o + 3] = ((value >> 24) & 0xFF) as u8;
    }

    /// Push `value`: esp decreases by 4, then the value is stored at the new
    /// esp. The slot must lie within guest memory.
    pub fn push(&mut self, value: u32)
        requires
            can_push(old(self)@),
        ensures
            final(self)@ == pushed(old(self)@, value),
    {
        let slot = self.regs.esp - 4;
        self.regs.esp = slot;
        self.write_u32(slot, value);
    }

    /// Pop: read the value at esp, then esp increases by 4. The top of the
    /// stack must lie within guest memory.
    pub fn pop(&mut self) -> (r: u32)
        requires
            can_pop(old(self)@),
        ensures
            r == pop_val(old(self)@),
            final(self)@ == popped(old(self)@),
    {
        let value = self.read_u32(self.regs.esp);
        self.regs.esp = wrapping_add32(self.regs.esp, 4);
        value
    }
}

/// Little-endian round trip: reading back the 32-bit value just written at
/// the same offset yields that value.
pub proof fn lemma_write32_read32(m: Seq<u8>, a: u32, v: u32)
    requires
        can32(m, a),
    ensures
        sread32(swrite32(m, a, v), a) == v,
        swrite32(m, a, v).len() == m.len(),
{
    let b0: u8 = (v & 0xFF) as u8;
    let b1: u8 = ((v >> 8) & 0xFF) as u8;
    let b2: u8 = ((v >> 16) & 0xFF) as u8;
    let b3: u8 = ((v >> 24) & 0xFF) as u8;
    assert((b0 as u32) | ((b1 as u32) << 8) | ((b2 as u32) << 16) | ((b3 as u32) << 24) == v)
        by (bit_vector)
        requires
            b0 == (v & 0xFF) as u8,
            b1 == ((v >> 8) & 0xFF) as u8,
            b2 == ((v >> 16) & 0xFF) as u8,
            b3 == ((v >> 24) & 0xFF) as u8,
    ;
}

/// Popping immediately after pushing returns the pushed value and restores
/// esp to its pre-push value; the pop is always possible after the push.
pub proof fn lemma_push_then_pop(c: CpuView, v: u32)
    requires
        can_push(c),
    ensures
        can_pop(pushed(c, v)),
        pop_val(pushed(c, v)) == v,
        popped(pushed(c, v)).regs.esp == c.regs.esp,
        popped(pushed(c, v)).mem == pushed(c, v).mem,
{
    lemma_write32_read32(c.mem, w_sub(c.regs.esp, 4), v);
}

} // verus!
