//! The register file: the eight 32-bit general-purpose registers, the
//! instruction pointer, and the six 16-bit segment registers, with typed
//! get/set access indexed by a register identifier.

use vstd::prelude::*;

verus! {

/// Identifier of a register as it appears in a decoded instruction's
/// operands. `NoReg` means "no register here" (for example an absent index
/// register in an addressing mode) and resolves to zero by convention.
/// `Other` stands for every identifier outside the supported set (segment
/// registers, 8/16-bit registers, and so on); resolving it is a contract
/// violation, not a silent default.
#[derive(Clone, Copy, Debug, PartialEq, Eq, Structural)]
pub enum Reg {
    NoReg,
    Eax,
    Ebx,
    Ecx,
    Edx,
    Esp,
    Ebp,
    Esi,
    Edi,
    Eip,
    Other,
}

/// The CPU register file. Segment registers are stored but not reachable
/// through the generic get/set path; they are reserved for future addressing
/// needs.
#[derive(Clone, Copy, Debug, PartialEq, Eq, Structural)]
pub struct Registers {
    pub eax: u32,
    pub ebx: u32,
    pub ecx: u32,
    pub edx: u32,
    pub esp: u32,
    pub ebp: u32,
    pub esi: u32,
    pub edi: u32,
    pub eip: u32,
    pub cs: u16,
    pub ds: u16,
    pub es: u16,
    pub fs: u16,
    pub gs: u16,
    pub ss: u16,
}

/// The value a register identifier resolves to: `NoReg` reads as zero,
/// `Other` as zero only formally (executable code never reaches it).
pub open spec fn rget(r: Registers, id: Reg) -> u32 {
    match id {
        Reg::NoReg => 0,
        Reg::Eax => r.eax,
        Reg::Ebx => r.ebx,
        Reg::Ecx => r.ecx,
        Reg::Edx => r.edx,
        Reg::Esp => r.esp,
        Reg::Ebp => r.ebp,
        Reg::Esi => r.esi,
        Reg::Edi => r.edi,
        Reg::Eip => r.eip,
        Reg::Other => 0,
    }
}

/// The register file after writing `v` to the register `id` names; writes to
/// `NoReg` are ignored by convention.
pub open spec fn rset(r: Registers, id: Reg, v: u32) -> Registers {
    match id {
        Reg::NoReg => r,
        Reg::Eax => (Registers { eax: v, ..r }),
        Reg::Ebx => (Registers { ebx: v, ..r }),
        Reg::Ecx => (Registers { ecx: v, ..r }),
        Reg::Edx => (Registers { edx: v, ..r }),
        Reg::Esp => (Registers { esp: v, ..r }),
        Reg::Ebp => (Registers { ebp: v, ..r }),
        Reg::Esi => (Registers { esi: v, ..r }),
        Reg::Edi => (Registers { edi: v, ..r }),
        Reg::Eip => (Registers { eip: v, ..r }),
        Reg::Other => r,
    }
}

/// All fields are zero, the state of a freshly created machine.
pub open spec fn zeroed(r: Registers) -> bool {
    r.eax == 0 && r.ebx == 0 && r.ecx == 0 && r.edx == 0 && r.esp == 0 && r.ebp == 0 && r.esi == 0
        && r.edi == 0 && r.eip == 0 && r.cs == 0 && r.ds == 0 && r.es == 0 && r.fs == 0 && r.gs
        == 0 && r.ss == 0
}

impl Registers {
    /// A zero-initialized register file.
    pub fn new() -> (r: Registers)
        ensures
            zeroed(r),
    {
        Registers {
            eax: 0,
            ebx: 0,
            ecx: 0,
            edx: 0,
            esp: 0,
            ebp: 0,
            esi: 0,
            edi: 0,
            eip: 0,
            cs: 0,
            ds: 0,
            es: 0,
            fs: 0,
            gs: 0,
            ss: 0,
        }
    }

    /// Read the register `id` names; `NoReg` reads as zero. `Other` is a
    /// contract violation and is excluded; an unverified caller that passes
    /// it fails loudly.
    pub fn get(&self, id: Reg) -> (r: u32)
        requires
            id != Reg::Other,
        ensures
            r == rget(*self, id),
    {
        match id {
            Reg::NoReg => 0,
            Reg::Eax => self.eax,
            Reg::Ebx => self.ebx,
            Reg::Ecx => self.ecx,
            Reg::Edx => self.edx,
            Reg::Esp => self.esp,
            Reg::Ebp => self.ebp,
            Reg::Esi => self.esi,
            Reg::Edi => self.edi,
            Reg::Eip => self.eip,
            Reg::Other => vstd::pervasive::unreached(),
        }
    }

    /// Write the register `id` names; writes to `NoReg` are ignored. `Other`
    /// is a contract violation and is excluded; an unverified caller that
    /// passes it fails loudly.
    pub fn set(&mut self, id: Reg, v: u32)
        requires
            id != Reg::Other,
        ensures
            *final(self) == rset(*old(self), id, v),
    {
        match id {
            Reg::NoReg => (),
            Reg::Eax => self.eax = v,
            Reg::Ebx => self.ebx = v,
            Reg::Ecx => self.ecx = v,
            Reg::Edx => self.edx = v,
            Reg::Esp => self.esp = v,
            Reg::Ebp => self.ebp = v,
            Reg::Esi => self.esi = v,
            Reg::Edi => self.edi = v,
            Reg::Eip => self.eip = v,
            Reg::Other => vstd::pervasive::unreached(),
        }
    }
}

/// Reading back the register just written yields the written value, as long
/// as the identifier names a real register.
pub proof fn lemma_rget_rset_same(r: Registers, id: Reg, v: u32)
    requires
        id != Reg::NoReg,
        id != Reg::Other,
    ensures
        rget(rset(r, id, v), id) == v,
{
}

/// Writing one register leaves every differently-named register unchanged.
pub proof fn lemma_rget_rset_frame(r: Registers, id: Reg, other: Reg, v: u32)
    requires
        id != other,
    ensures
        rget(rset(r, id, v), other) == rget(r, other),
{
}

} // verus!
