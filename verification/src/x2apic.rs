//! The model-specific-register generation of the per-core interrupt
//! controller.
//!
//! This generation exposes its registers as 64-bit model-specific registers
//! at indices 0x800 to 0x83F; register access is inherently core-local
//! through that namespace.  An instance owns the model of one core's
//! register window as a bounds-checked file of 64 cells, indexed by
//! model-specific-register index minus 0x800; the embedding kernel performs
//! the actual register-instruction accesses and keeps the model in step.

use vstd::prelude::*;

use crate::apic::Icr;
use crate::lvt::spec_lvt_msr_index;
use crate::lvt::LVTRegister;
use crate::lvt::LVT;

verus! {

/// Cell index of the controller-identifier register, index 0x802.
const X2APIC_ID: usize = 2;

/// Cell index of the version register, index 0x803.
const X2APIC_VERSION: usize = 3;

/// Cell index of the end-of-interrupt register, index 0x80B.
const X2APIC_EOI: usize = 11;

/// Cell index of the spurious-interrupt vector register, index 0x80F;
/// its bit 8 software-enables the controller.
const X2APIC_SVR: usize = 15;

/// Cell index of the interrupt-command register, index 0x830, a single
/// 64-bit register in this generation.
const X2APIC_ICR: usize = 48;

/// The cell index of a Local Vector Table register in the register window.
pub open spec fn x2apic_reg_index(reg: LVTRegister) -> int {
    spec_lvt_msr_index(reg) - 0x800
}

/// Relies on the cpuid interface re-exported as `x86::cpuid`
/// (`CpuId::new`, `CpuId::get_feature_info`, `FeatureInfo::has_x2apic`):
/// reports whether the processor advertises the model-specific-register
/// controller generation.  The answer depends on the machine, so nothing
/// further is promised.
#[verifier::external_body]
fn cpu_has_x2apic() -> bool {
    match x86::cpuid::CpuId::new().get_feature_info() {
        Some(f) => f.has_x2apic(),
        None => false,
    }
}

/// One core's model-specific-register controller: the owned model of its
/// register window.
pub struct X2Apic {
    regs: Vec<u64>,
}

impl View for X2Apic {
    type V = Seq<u64>;

    closed spec fn view(&self) -> Seq<u64> {
        self.regs@
    }
}

impl X2Apic {
    /// The register window covers indices 0x800 to 0x83F.
    pub open spec fn wf(self) -> bool {
        self@.len() == 64
    }

    /// Whether this processor supports the model-specific-register
    /// controller generation, as a capability probe with no side effect.
    pub fn support() -> bool {
        cpu_has_x2apic()
    }

    /// Takes ownership of the model of one core's register window.
    pub fn new(regs: Vec<u64>) -> (r: X2Apic)
        requires
            regs@.len() == 64,
        ensures
            r.wf(),
            r@ == regs@,
    {
        X2Apic { regs }
    }

    /// The cell index of a Local Vector Table register.
    fn reg_index(reg: LVTRegister) -> (r: usize)
        ensures
            r == x2apic_reg_index(reg),
            47 <= r <= 55,
    {
        (reg.index() - 0x800) as usize
    }

    /// Arms this core's controller: software-enables it through bit 8 of
    /// the spurious-interrupt vector register.
    pub fn init_current_cpu(&mut self) -> (r: bool)
        requires
            old(self).wf(),
        ensures
            final(self)@ == old(self)@.update(15, old(self)@[15] | 0x100),
            final(self)@[15] & 0x100 != 0,
            final(self).wf(),
            r,
    {
        let v = self.regs[X2APIC_SVR];
        self.regs.set(X2APIC_SVR, v | 0x100);
        proof {
            let x = old(self)@[15];
            assert((x | 0x100) & 0x100 != 0) by (bit_vector);
        }
        true
    }

    /// Signals end of interrupt servicing by writing zero to the
    /// end-of-interrupt register.
    pub fn send_eoi(&mut self)
        requires
            old(self).wf(),
        ensures
            final(self)@ == old(self)@.update(11, 0),
            final(self).wf(),
    {
        self.regs.set(X2APIC_EOI, 0);
    }

    /// The controller's implementation version, the bottom byte of the
    /// version register.
    pub fn version(&self) -> (r: u8)
        requires
            self.wf(),
        ensures
            r as u64 == self@[3] & 0xFF,
    {
        let reg = self.regs[X2APIC_VERSION];
        proof {
            let v = reg;
            assert(v & 0xFF < 256 && ((v & 0xFF) as u8) as u64 == v & 0xFF) by (bit_vector);
        }
        (reg & 0xFF) as u8
    }

    /// Whether the controller can suppress end-of-interrupt broadcasts,
    /// bit 24 of the version register.
    pub fn support_eoi_broadcast_suppression(&self) -> (r: bool)
        requires
            self.wf(),
        ensures
            r <==> (self@[3] >> 24) & 1 == 1,
    {
        (self.regs[X2APIC_VERSION] >> 24) & 1 == 1
    }

    /// How many Local Vector Table entries the controller implements: the
    /// version register reports the highest index, one less than the
    /// count, so one is added back, wrapping on the all-ones field.
    pub fn max_lvt_entry(&self) -> (r: u8)
        requires
            self.wf(),
        ensures
            (self@[3] >> 16) & 0xFF < 255 ==> r as u64 == ((self@[3] >> 16) & 0xFF) + 1,
            (self@[3] >> 16) & 0xFF == 255 ==> r == 0,
    {
        let reg = self.regs[X2APIC_VERSION];
        proof {
            let v = reg;
            assert((v >> 16) & 0xFF < 256 && (((v >> 16) & 0xFF) as u8) as u64 == (v >> 16)
                & 0xFF) by (bit_vector);
        }
        (((reg >> 16) & 0xFF) as u8).wrapping_add(1)
    }

    /// The hardware identifier of this core's controller: the full 32-bit
    /// identifier register of this generation.
    pub fn id(&self) -> (r: u32)
        requires
            self.wf(),
        ensures
            r == self@[2] as u32,
    {
        #[verifier::truncate] (self.regs[X2APIC_ID] as u32)
    }

    /// Writes an entry's raw value into its Local Vector Table register.
    pub fn set_lvt(&mut self, lvt: LVT)
        requires
            old(self).wf(),
        ensures
            final(self)@ == old(self)@.update(x2apic_reg_index(lvt.kind()), lvt.raw() as u64),
            final(self).wf(),
    {
        let idx = Self::reg_index(lvt.register());
        let data = lvt.data();
        self.regs.set(idx, data as u64);
    }

    /// Reads an entry back from its Local Vector Table register; the
    /// register's defined fields all lie in its low 32 bits.
    pub fn read_lvt(&self, reg: LVTRegister) -> (r: LVT)
        requires
            self.wf(),
        ensures
            r.kind() == reg,
            r.raw() == self@[x2apic_reg_index(reg)] as u32,
    {
        let idx = Self::reg_index(reg);
        LVT::from_parts(reg, #[verifier::truncate] (self.regs[idx] as u32))
    }

    /// Sets the mask bit of every Local Vector Table register, leaving all
    /// other register bits as they stand.
    pub fn mask_all_lvt(&mut self)
        requires
            old(self).wf(),
        ensures
            forall|reg: LVTRegister|
                final(self)@[#[trigger] x2apic_reg_index(reg)] == (old(self)@[x2apic_reg_index(
                    reg,
                )] | 0x10000),
            forall|j: int|
                0 <= j < 64 && j != 47 && j != 50 && j != 51 && j != 52 && j != 53 && j != 54 && j
                    != 55 ==> final(self)@[j] == old(self)@[j],
            final(self).wf(),
    {
        self.mask_one(LVTRegister::CMCI);
        self.mask_one(LVTRegister::Timer);
        self.mask_one(LVTRegister::Thermal);
        self.mask_one(LVTRegister::PerformanceMonitor);
        self.mask_one(LVTRegister::LINT0);
        self.mask_one(LVTRegister::LINT1);
        self.mask_one(LVTRegister::ErrorReg);
    }

    /// Sets the mask bit of one Local Vector Table register.
    fn mask_one(&mut self, reg: LVTRegister)
        requires
            old(self).wf(),
        ensures
            final(self)@ == old(self)@.update(
                x2apic_reg_index(reg),
                old(self)@[x2apic_reg_index(reg)] | 0x10000,
            ),
            final(self).wf(),
    {
        let idx = Self::reg_index(reg);
        let v = self.regs[idx];
        self.regs.set(idx, v | 0x10000);
    }

    /// Issues an inter-processor interrupt: writes the whole command into
    /// the single 64-bit interrupt-command register.
    pub fn write_icr(&mut self, icr: Icr)
        requires
            old(self).wf(),
        ensures
            final(self)@ == old(self)@.update(48, icr.raw()),
            final(self).wf(),
    {
        let high = icr.upper();
        let low = icr.lower();
        proof {
            let v = icr.raw();
            assert((((v >> 32) as u32 as u64) << 32) | (v as u32 as u64) == v) by (bit_vector);
        }
        self.regs.set(X2APIC_ICR, ((high as u64) << 32) | (low as u64));
    }
}

} // verus!
