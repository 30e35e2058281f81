//! The memory-mapped generation of the per-core interrupt controller.
//!
//! This generation exposes its registers in a 4 KiB memory-mapped window,
//! one 32-bit register every 16 bytes.  An instance owns the window for one
//! core's controller as a bounds-checked register file of 1024 32-bit
//! cells, indexed by byte offset divided by four; the embedding kernel maps
//! the window once per core and hands it over.

use vstd::prelude::*;

use crate::apic::Icr;
use crate::lvt::spec_lvt_msr_index;
use crate::lvt::LVTRegister;
use crate::lvt::LVT;

verus! {

/// Cell index of the controller-identifier register, byte offset 0x20.
const XAPIC_ID: usize = 8;

/// Cell index of the version register, byte offset 0x30.
const XAPIC_VERSION: usize = 12;

/// Cell index of the end-of-interrupt register, byte offset 0xB0.
const XAPIC_EOI: usize = 44;

/// Cell index of the spurious-interrupt vector register, byte offset 0xF0;
/// its bit 8 software-enables the controller.
const XAPIC_SVR: usize = 60;

/// Cell index of the low half of the interrupt-command register, byte
/// offset 0x300; writing it issues the command.
const XAPIC_ICR_LOW: usize = 192;

/// Cell index of the high half of the interrupt-command register, byte
/// offset 0x310.
const XAPIC_ICR_HIGH: usize = 196;

/// The cell index of a Local Vector Table register in the memory-mapped
/// window: each register sits sixteen bytes after the previous one, at the
/// byte offset its model-specific-register index maps to.
pub open spec fn xapic_reg_index(reg: LVTRegister) -> int {
    (spec_lvt_msr_index(reg) - 0x800) * 4
}

/// Relies on the cpuid interface re-exported as `x86::cpuid`
/// (`CpuId::new`, `CpuId::get_feature_info`, `FeatureInfo::has_apic`):
/// reports whether the processor advertises an on-chip interrupt
/// controller.  The answer depends on the machine, so nothing further is
/// promised.
#[verifier::external_body]
fn cpu_has_apic() -> bool {
    match x86::cpuid::CpuId::new().get_feature_info() {
        Some(f) => f.has_apic(),
        None => false,
    }
}

/// One core's memory-mapped controller: the owned register window.
pub struct XApic {
    regs: Vec<u32>,
}

impl View for XApic {
    type V = Seq<u32>;

    closed spec fn view(&self) -> Seq<u32> {
        self.regs@
    }
}

impl XApic {
    /// The register window covers the whole 4 KiB mapping.
    pub open spec fn wf(self) -> bool {
        self@.len() == 1024
    }

    /// Whether this processor supports the memory-mapped controller
    /// generation, as a capability probe with no side effect.
    pub fn support() -> bool {
        cpu_has_apic()
    }

    /// Takes ownership of one core's mapped register window.
    pub fn new(regs: Vec<u32>) -> (r: XApic)
        requires
            regs@.len() == 1024,
        ensures
            r.wf(),
            r@ == regs@,
    {
        XApic { regs }
    }

    /// The cell index of a Local Vector Table register.
    fn reg_index(reg: LVTRegister) -> (r: usize)
        ensures
            r == xapic_reg_index(reg),
            188 <= r <= 220,
    {
        ((reg.index() - 0x800) * 4) as usize
    }

    /// Arms this core's controller: software-enables it through bit 8 of
    /// the spurious-interrupt vector register.
    pub fn init_current_cpu(&mut self) -> (r: bool)
        requires
            old(self).wf(),
        ensures
            final(self)@ == old(self)@.update(60, old(self)@[60] | 0x100),
            final(self)@[60] & 0x100 != 0,
            final(self).wf(),
            r,
    {
        let v = self.regs[XAPIC_SVR];
        self.regs.set(XAPIC_SVR, v | 0x100);
        proof {
            let x = old(self)@[60];
            assert((x | 0x100) & 0x100 != 0) by (bit_vector);
        }
        true
    }

    /// Signals end of interrupt servicing by writing zero to the
    /// end-of-interrupt register.
    pub fn send_eoi(&mut self)
        requires
            old(self).wf(),
        ensures
            final(self)@ == old(self)@.update(44, 0),
            final(self).wf(),
    {
        self.regs.set(XAPIC_EOI, 0);
    }

    /// The controller's implementation version, the bottom byte of the
    /// version register.
    pub fn version(&self) -> (r: u8)
        requires
            self.wf(),
        ensures
            r as u32 == self@[12] & 0xFF,
    {
        let reg = self.regs[XAPIC_VERSION];
        proof {
            let v = reg;
            assert(v & 0xFF < 256 && ((v & 0xFF) as u8) as u32 == v & 0xFF) by (bit_vector);
        }
        (reg & 0xFF) as u8
    }

    /// Whether the controller can suppress end-of-interrupt broadcasts,
    /// bit 24 of the version register.
    pub fn support_eoi_broadcast_suppression(&self) -> (r: bool)
        requires
            self.wf(),
        ensures
            r <==> (self@[12] >> 24) & 1 == 1,
    {
        (self.regs[XAPIC_VERSION] >> 24) & 1 == 1
    }

    /// How many Local Vector Table entries the controller implements: the
    /// version register reports the highest index, one less than the
    /// count, so one is added back, wrapping on the all-ones field.
    pub fn max_lvt_entry(&self) -> (r: u8)
        requires
            self.wf(),
        ensures
            (self@[12] >> 16) & 0xFF < 255 ==> r as u32 == ((self@[12] >> 16) & 0xFF) + 1,
            (self@[12] >> 16) & 0xFF == 255 ==> r == 0,
    {
        let reg = self.regs[XAPIC_VERSION];
        proof {
            let v = reg;
            assert((v >> 16) & 0xFF < 256 && (((v >> 16) & 0xFF) as u8) as u32 == (v >> 16)
                & 0xFF) by (bit_vector);
        }
        (((reg >> 16) & 0xFF) as u8).wrapping_add(1)
    }

    /// The hardware identifier of this core's controller, the top byte of
    /// the identifier register.
    pub fn id(&self) -> (r: u32)
        requires
            self.wf(),
        ensures
            r == (self@[8] >> 24) & 0xFF,
    {
        (self.regs[XAPIC_ID] >> 24) & 0xFF
    }

    /// Writes an entry's raw value into its Local Vector Table register.
    pub fn set_lvt(&mut self, lvt: LVT)
        requires
            old(self).wf(),
        ensures
            final(self)@ == old(self)@.update(xapic_reg_index(lvt.kind()), lvt.raw()),
            final(self).wf(),
    {
        let idx = Self::reg_index(lvt.register());
        let data = lvt.data();
        self.regs.set(idx, data);
    }

    /// Reads an entry back from its Local Vector Table register.
    pub fn read_lvt(&self, reg: LVTRegister) -> (r: LVT)
        requires
            self.wf(),
        ensures
            r.kind() == reg,
            r.raw() == self@[xapic_reg_index(reg)],
    {
        let idx = Self::reg_index(reg);
        LVT::from_parts(reg, self.regs[idx])
    }

    /// Sets the mask bit of every Local Vector Table register, leaving all
    /// other register bits as they stand.
    pub fn mask_all_lvt(&mut self)
        requires
            old(self).wf(),
        ensures
            forall|reg: LVTRegister|
                final(self)@[#[trigger] xapic_reg_index(reg)] == (old(self)@[xapic_reg_index(reg)]
                    | 0x10000),
            forall|j: int|
                0 <= j < 1024 && j != 188 && j != 200 && j != 204 && j != 208 && j != 212 && j
                    != 216 && j != 220 ==> final(self)@[j] == old(self)@[j],
            final(self).wf(),
    {
        self.mask_one(LVTRegister::CMCI);
        self.mask_one(LVTRegister::Timer);
        self.mask_one(LVTRegister::Thermal);
        self.mask_one(LVTRegister::PerformanceMonitor);
        self.mask_one(LVTRegister::LINT0);
        self.mask_one(LVTRegister::LINT1);
        self.mask_one(LVTRegister::ErrorReg);
    }

    /// Sets the mask bit of one Local Vector Table register.
    fn mask_one(&mut self, reg: LVTRegister)
        requires
            old(self).wf(),
        ensures
            final(self)@ == old(self)@.update(
                xapic_reg_index(reg),
                old(self)@[xapic_reg_index(reg)] | 0x10000,
            ),
            final(self).wf(),
    {
        let idx = Self::reg_index(reg);
        let v = self.regs[idx];
        self.regs.set(idx, v | 0x10000);
    }

    /// Issues an inter-processor interrupt: writes the high half of the
    /// command first, then the low half, whose write triggers the send.
    pub fn write_icr(&mut self, icr: Icr)
        requires
            old(self).wf(),
        ensures
            final(self)@ == old(self)@.update(196, (icr.raw() >> 32) as u32).update(
                192,
                icr.raw() as u32,
            ),
            final(self).wf(),
    {
        let high = icr.upper();
        let low = icr.lower();
        self.regs.set(XAPIC_ICR_HIGH, high);
        self.regs.set(XAPIC_ICR_LOW, low);
    }
}

} // verus!
