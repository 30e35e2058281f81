//! The controller facade: boot-time generation selection and uniform
//! dispatch.
//!
//! The machine offers one of two hardware-incompatible controller
//! generations.  Boot code probes for the model-specific-register
//! generation first and falls back to the memory-mapped generation; the
//! outcome is an immutable tagged value, selected once, and every later
//! operation dispatches on that tag with a single pattern match.

use vstd::prelude::*;

use crate::error::SystemError;
use crate::ioapic::rte_low_index;
use crate::ioapic::IoApic;
use crate::lvt::LVTRegister;
use crate::lvt::LVT;
use crate::x2apic::x2apic_reg_index;
use crate::x2apic::X2Apic;
use crate::xapic::xapic_reg_index;
use crate::xapic::XApic;

verus! {

/// An interrupt command: the 64-bit value that, written to the
/// interrupt-command register, issues an inter-processor interrupt or a
/// start-up signal to another core.
#[derive(Debug, Clone, Copy, PartialEq, Eq, Structural)]
pub struct Icr {
    value: u64,
}

impl Icr {
    /// The raw 64-bit command value.
    pub closed spec fn raw(self) -> u64 {
        self.value
    }

    /// Wraps a raw 64-bit command value.
    pub fn new(value: u64) -> (r: Icr)
        ensures
            r.raw() == value,
    {
        Icr { value }
    }

    /// The low 32 bits of the command.
    pub fn lower(&self) -> (r: u32)
        ensures
            r == self.raw() as u32,
    {
        #[verifier::truncate] (self.value as u32)
    }

    /// The high 32 bits of the command.
    pub fn upper(&self) -> (r: u32)
        ensures
            r == (self.raw() >> 32) as u32,
    {
        #[verifier::truncate] ((self.value >> 32) as u32)
    }
}

/// Which controller generation boot-time negotiation selected.
#[derive(Debug, Clone, Copy, PartialEq, Eq, Structural)]
pub enum LocalApicEnableType {
    /// The memory-mapped generation.
    XApic,
    /// The model-specific-register generation.
    X2Apic,
}

/// The selected backend together with its state, the tagged value that
/// dispatch matches on.
enum LocalApicBackend {
    XApic(XApic),
    X2Apic(X2Apic),
}

/// The per-core controller as the rest of the kernel sees it: the backend
/// selected at boot, dispatched to by pattern match on every operation.
pub struct CurrentApic {
    backend: LocalApicBackend,
}

/// Widening a 32-bit register value before extracting a field gives the
/// same field as extracting it first.
proof fn lemma_widen_fields(v: u32)
    by (bit_vector)
    ensures
        (v as u64) & 0xFF == (v & 0xFF) as u64,
        ((v as u64) >> 16) & 0xFF == ((v >> 16) & 0xFF) as u64,
        ((v as u64) >> 24) & 1 == ((v >> 24) & 1) as u64,
        (v as u64) & 0x100 == (v & 0x100) as u64,
        (v as u64) as u32 == v,
{
}

impl CurrentApic {
    /// Which generation this facade drives.
    pub closed spec fn enable_type(self) -> LocalApicEnableType {
        match self.backend {
            LocalApicBackend::XApic(_) => LocalApicEnableType::XApic,
            LocalApicBackend::X2Apic(_) => LocalApicEnableType::X2Apic,
        }
    }

    /// The selected backend's register window is well-formed.
    pub closed spec fn wf(self) -> bool {
        match self.backend {
            LocalApicBackend::XApic(x) => x.wf(),
            LocalApicBackend::X2Apic(x) => x.wf(),
        }
    }

    /// The raw value of one Local Vector Table register under the current
    /// selection.
    pub closed spec fn lvt_raw(self, reg: LVTRegister) -> u32 {
        match self.backend {
            LocalApicBackend::XApic(x) => x@[xapic_reg_index(reg)],
            LocalApicBackend::X2Apic(x) => x@[x2apic_reg_index(reg)] as u32,
        }
    }

    /// The raw value of the version register under the current selection.
    pub closed spec fn version_reg(self) -> u64 {
        match self.backend {
            LocalApicBackend::XApic(x) => x@[12] as u64,
            LocalApicBackend::X2Apic(x) => x@[3],
        }
    }

    /// The controller identifier under the current selection: the top byte
    /// of the identifier register for the memory-mapped generation, the
    /// full register for the other.
    pub closed spec fn id_value(self) -> u32 {
        match self.backend {
            LocalApicBackend::XApic(x) => (x@[8] >> 24) & 0xFF,
            LocalApicBackend::X2Apic(x) => x@[2] as u32,
        }
    }

    /// The raw value of the interrupt-command register under the current
    /// selection; the memory-mapped generation splits it over two cells.
    pub closed spec fn icr_reg(self) -> u64 {
        match self.backend {
            LocalApicBackend::XApic(x) => ((x@[196] as u64) << 32) | (x@[192] as u64),
            LocalApicBackend::X2Apic(x) => x@[48],
        }
    }

    /// The raw value of the end-of-interrupt register under the current
    /// selection.
    pub closed spec fn eoi_reg(self) -> u64 {
        match self.backend {
            LocalApicBackend::XApic(x) => x@[44] as u64,
            LocalApicBackend::X2Apic(x) => x@[11],
        }
    }

    /// Whether the controller has been software-enabled: bit 8 of the
    /// spurious-interrupt vector register.
    pub closed spec fn armed(self) -> bool {
        match self.backend {
            LocalApicBackend::XApic(x) => x@[60] & 0x100 != 0,
            LocalApicBackend::X2Apic(x) => x@[15] & 0x100 != 0,
        }
    }

    /// All Local Vector Table registers hold the same raw values in `self`
    /// as in `other`.
    pub open spec fn lvts_unchanged(self, other: CurrentApic) -> bool {
        forall|reg: LVTRegister| #![trigger self.lvt_raw(reg)] self.lvt_raw(reg) == other.lvt_raw(
            reg,
        )
    }

    /// Builds the facade around the model-specific-register generation.
    pub fn from_x2apic(x2apic: X2Apic) -> (r: CurrentApic)
        ensures
            r.enable_type() is X2Apic,
            r.wf() <==> x2apic.wf(),
            forall|reg: LVTRegister| #![trigger r.lvt_raw(reg)] r.lvt_raw(reg) == x2apic@[
                x2apic_reg_index(reg)] as u32,
            r.version_reg() == x2apic@[3],
            r.id_value() == x2apic@[2] as u32,
            r.icr_reg() == x2apic@[48],
            r.eoi_reg() == x2apic@[11],
            r.armed() <==> x2apic@[15] & 0x100 != 0,
    {
        CurrentApic { backend: LocalApicBackend::X2Apic(x2apic) }
    }

    /// Builds the facade around the memory-mapped generation.
    pub fn from_xapic(xapic: XApic) -> (r: CurrentApic)
        ensures
            r.enable_type() is XApic,
            r.wf() <==> xapic.wf(),
            forall|reg: LVTRegister| #![trigger r.lvt_raw(reg)] r.lvt_raw(reg) == xapic@[
                xapic_reg_index(reg)],
            r.version_reg() == xapic@[12] as u64,
            r.id_value() == (xapic@[8] >> 24) & 0xFF,
            r.icr_reg() == ((xapic@[196] as u64) << 32) | (xapic@[192] as u64),
            r.eoi_reg() == xapic@[44] as u64,
            r.armed() <==> xapic@[60] & 0x100 != 0,
    {
        CurrentApic { backend: LocalApicBackend::XApic(xapic) }
    }

    /// Whether this processor offers a local controller at all.
    pub fn support() -> (r: bool)
        ensures
            r,
    {
        true
    }

    /// Whether the model-specific-register generation is the one selected.
    pub fn x2apic_enabled(&self) -> (r: bool)
        ensures
            r <==> self.enable_type() is X2Apic,
    {
        match &self.backend {
            LocalApicBackend::X2Apic(_) => true,
            LocalApicBackend::XApic(_) => false,
        }
    }

    /// Arms the calling core's controller, whichever generation is
    /// selected, by software-enabling it.
    pub fn init_current_cpu(&mut self) -> (r: bool)
        requires
            old(self).wf(),
        ensures
            r,
            final(self).wf(),
            final(self).enable_type() == old(self).enable_type(),
            final(self).armed(),
            final(self).lvts_unchanged(*old(self)),
            final(self).version_reg() == old(self).version_reg(),
            final(self).id_value() == old(self).id_value(),
            final(self).icr_reg() == old(self).icr_reg(),
            final(self).eoi_reg() == old(self).eoi_reg(),
    {
        match &mut self.backend {
            LocalApicBackend::XApic(x) => x.init_current_cpu(),
            LocalApicBackend::X2Apic(x) => x.init_current_cpu(),
        }
    }

    /// Signals end of interrupt servicing on the selected backend.
    pub fn send_eoi(&mut self)
        requires
            old(self).wf(),
        ensures
            final(self).wf(),
            final(self).enable_type() == old(self).enable_type(),
            final(self).eoi_reg() == 0,
            final(self).lvts_unchanged(*old(self)),
            final(self).version_reg() == old(self).version_reg(),
            final(self).id_value() == old(self).id_value(),
            final(self).icr_reg() == old(self).icr_reg(),
            final(self).armed() == old(self).armed(),
    {
        match &mut self.backend {
            LocalApicBackend::XApic(x) => x.send_eoi(),
            LocalApicBackend::X2Apic(x) => x.send_eoi(),
        }
    }

    /// The controller's implementation version, the bottom byte of the
    /// version register.
    pub fn version(&self) -> (r: u8)
        requires
            self.wf(),
        ensures
            r as u64 == self.version_reg() & 0xFF,
    {
        match &self.backend {
            LocalApicBackend::XApic(x) => {
                let v = x.version();
                proof {
                    lemma_widen_fields(x@[12]);
                }
                v
            },
            LocalApicBackend::X2Apic(x) => x.version(),
        }
    }

    /// Whether the controller can suppress end-of-interrupt broadcasts,
    /// bit 24 of the version register.
    pub fn support_eoi_broadcast_suppression(&self) -> (r: bool)
        requires
            self.wf(),
        ensures
            r <==> (self.version_reg() >> 24) & 1 == 1,
    {
        match &self.backend {
            LocalApicBackend::XApic(x) => {
                let v = x.support_eoi_broadcast_suppression();
                proof {
                    lemma_widen_fields(x@[12]);
                }
                v
            },
            LocalApicBackend::X2Apic(x) => x.support_eoi_broadcast_suppression(),
        }
    }

    /// How many Local Vector Table entries the controller implements: the
    /// reported highest index plus one, wrapping on the all-ones field.
    pub fn max_lvt_entry(&self) -> (r: u8)
        requires
            self.wf(),
        ensures
            (self.version_reg() >> 16) & 0xFF < 255 ==> r as u64 == ((self.version_reg() >> 16)
                & 0xFF) + 1,
            (self.version_reg() >> 16) & 0xFF == 255 ==> r == 0,
    {
        match &self.backend {
            LocalApicBackend::XApic(x) => {
                let v = x.max_lvt_entry();
                proof {
                    lemma_widen_fields(x@[12]);
                }
                v
            },
            LocalApicBackend::X2Apic(x) => x.max_lvt_entry(),
        }
    }

    /// The hardware identifier of the calling core's controller.
    pub fn id(&self) -> (r: u32)
        requires
            self.wf(),
        ensures
            r == self.id_value(),
    {
        match &self.backend {
            LocalApicBackend::XApic(x) => x.id(),
            LocalApicBackend::X2Apic(x) => x.id(),
        }
    }

    /// Writes an entry's raw value into its Local Vector Table register on
    /// the selected backend; every other register keeps its value.
    pub fn set_lvt(&mut self, lvt: LVT)
        requires
            old(self).wf(),
        ensures
            final(self).wf(),
            final(self).enable_type() == old(self).enable_type(),
            final(self).lvt_raw(lvt.kind()) == lvt.raw(),
            forall|reg: LVTRegister|
                reg != lvt.kind() ==> #[trigger] final(self).lvt_raw(reg) == old(self).lvt_raw(
                    reg,
                ),
            final(self).version_reg() == old(self).version_reg(),
            final(self).id_value() == old(self).id_value(),
            final(self).icr_reg() == old(self).icr_reg(),
            final(self).eoi_reg() == old(self).eoi_reg(),
            final(self).armed() == old(self).armed(),
    {
        proof {
            let v = lvt.raw();
            assert((v as u64) as u32 == v) by (bit_vector);
        }
        match &mut self.backend {
            LocalApicBackend::XApic(x) => x.set_lvt(lvt),
            LocalApicBackend::X2Apic(x) => x.set_lvt(lvt),
        }
    }

    /// Reads an entry back from its Local Vector Table register on the
    /// selected backend.
    pub fn read_lvt(&self, reg: LVTRegister) -> (r: LVT)
        requires
            self.wf(),
        ensures
            r.kind() == reg,
            r.raw() == self.lvt_raw(reg),
    {
        match &self.backend {
            LocalApicBackend::XApic(x) => x.read_lvt(reg),
            LocalApicBackend::X2Apic(x) => x.read_lvt(reg),
        }
    }

    /// Sets the mask bit of every Local Vector Table register on the
    /// selected backend, leaving all other register bits as they stand.
    pub fn mask_all_lvt(&mut self)
        requires
            old(self).wf(),
        ensures
            final(self).wf(),
            final(self).enable_type() == old(self).enable_type(),
            forall|reg: LVTRegister| #![trigger final(self).lvt_raw(reg)] final(self).lvt_raw(reg)
                == old(self).lvt_raw(reg) | 0x10000,
            final(self).version_reg() == old(self).version_reg(),
            final(self).id_value() == old(self).id_value(),
            final(self).icr_reg() == old(self).icr_reg(),
            final(self).eoi_reg() == old(self).eoi_reg(),
            final(self).armed() == old(self).armed(),
    {
        proof {
            assert(forall|x: u64| #![trigger x | 0x10000] ((x | 0x10000) as u32) == ((x as u32)
                | 0x10000)) by (bit_vector);
        }
        match &mut self.backend {
            LocalApicBackend::XApic(x) => x.mask_all_lvt(),
            LocalApicBackend::X2Apic(x) => x.mask_all_lvt(),
        }
    }

    /// Issues an inter-processor interrupt through the selected backend's
    /// interrupt-command register.
    pub fn write_icr(&mut self, icr: Icr)
        requires
            old(self).wf(),
        ensures
            final(self).wf(),
            final(self).enable_type() == old(self).enable_type(),
            final(self).icr_reg() == icr.raw(),
            final(self).lvts_unchanged(*old(self)),
            final(self).version_reg() == old(self).version_reg(),
            final(self).id_value() == old(self).id_value(),
            final(self).eoi_reg() == old(self).eoi_reg(),
            final(self).armed() == old(self).armed(),
    {
        proof {
            let v = icr.raw();
            assert(((((v >> 32) as u32) as u64) << 32) | ((v as u32) as u64) == v) by (bit_vector);
        }
        match &mut self.backend {
            LocalApicBackend::XApic(x) => x.write_icr(icr),
            LocalApicBackend::X2Apic(x) => x.write_icr(icr),
        }
    }
}

/// Brings up the interrupt-controller layer on the boot core: selects the
/// controller generation, arms the boot core's controller, and masks every
/// line of the shared I/O router before anything else can enable one.
///
/// The model-specific-register generation is probed first and preferred;
/// the memory-mapped window is the fallback.  When neither is available
/// the machine configuration is unsupported and boot cannot continue; the
/// POSIX errno number for a missing device is returned.
pub fn apic_init(
    x2apic_supported: bool,
    x2apic: X2Apic,
    xapic: Option<XApic>,
    ioapic_regs: Vec<u32>,
) -> (r: Result<(CurrentApic, IoApic), i32>)
    requires
        x2apic.wf(),
        xapic matches Some(x) ==> x.wf(),
        ioapic_regs@.len() == 256,
        ((ioapic_regs@[1] >> 16) & 0xFF) + 1 <= 120,
    ensures
        r is Ok <==> x2apic_supported || xapic is Some,
        r matches Ok(pair) ==> {
            &&& pair.0.wf()
            &&& pair.0.armed()
            &&& (pair.0.enable_type() is X2Apic <==> x2apic_supported)
            &&& pair.1.wf()
            &&& pair.1.spec_supported_interrupts() == ((ioapic_regs@[1] >> 16) & 0xFF) + 1
            &&& forall|line: int|
                0 <= line < pair.1.spec_supported_interrupts() ==> pair.1@[#[trigger] rte_low_index(
                    line,
                )] & 0x10000 != 0
        },
        !x2apic_supported && xapic is None ==> r == Err::<(CurrentApic, IoApic), i32>(19),
{
    if x2apic_supported {
        let mut backend = x2apic;
        backend.init_current_cpu();
        let apic = CurrentApic::from_x2apic(backend);
        let io = IoApic::new(ioapic_regs);
        proof {
            lemma_new_lines_masked(io);
        }
        Ok((apic, io))
    } else {
        match xapic {
            Some(mut backend) => {
                backend.init_current_cpu();
                let apic = CurrentApic::from_xapic(backend);
                let io = IoApic::new(ioapic_regs);
                proof {
                    lemma_new_lines_masked(io);
                }
                Ok((apic, io))
            },
            None => Err(SystemError::ENODEV.to_posix_errno()),
        }
    }
}

/// A freshly initialized router leaves every supported line masked: each
/// line's low register holds its line vector with the masked flag.
proof fn lemma_new_lines_masked(io: IoApic)
    requires
        io.wf(),
        forall|line: int|
            0 <= line < io.spec_supported_interrupts() ==> io@[#[trigger] rte_low_index(line)] == (
            (0x20 + line) as u32 | 0x10000),
    ensures
        forall|line: int|
            0 <= line < io.spec_supported_interrupts() ==> io@[#[trigger] rte_low_index(line)]
                & 0x10000 != 0,
{
    assert forall|line: int| 0 <= line < io.spec_supported_interrupts() implies io@[
        #[trigger] rte_low_index(line)] & 0x10000 != 0 by {
        let v = (0x20 + line) as u32;
        assert((v | 0x10000) & 0x10000 != 0) by (bit_vector);
    }
}

/// Brings up the local controller of one application core during that
/// core's own start-up, independently of the boot core's selection event:
/// the same probe order, without touching the shared I/O router.
pub fn apic_init_ap_core(
    x2apic_supported: bool,
    x2apic: X2Apic,
    xapic: Option<XApic>,
) -> (r: Result<CurrentApic, SystemError>)
    requires
        x2apic.wf(),
        xapic matches Some(x) ==> x.wf(),
    ensures
        r is Ok <==> x2apic_supported || xapic is Some,
        r matches Ok(apic) ==> apic.wf() && apic.armed() && (apic.enable_type() is X2Apic
            <==> x2apic_supported),
        !x2apic_supported && xapic is None ==> r == Err::<CurrentApic, SystemError>(
            SystemError::ENODEV,
        ),
{
    if x2apic_supported {
        let mut backend = x2apic;
        backend.init_current_cpu();
        Ok(CurrentApic::from_x2apic(backend))
    } else {
        match xapic {
            Some(mut backend) => {
                backend.init_current_cpu();
                Ok(CurrentApic::from_xapic(backend))
            },
            None => Err(SystemError::ENODEV),
        }
    }
}

} // verus!
