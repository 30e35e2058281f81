use apic::apic::{apic_init, apic_init_ap_core, CurrentApic, Icr, LocalApicEnableType};
use apic::error::SystemError;
use apic::ioapic::IoApic;
use apic::lvt::{LVTRegister, LVT};
use apic::x2apic::X2Apic;
use apic::xapic::XApic;

fn msr_window() -> Vec<u64> {
    let mut regs = vec![0u64; 64];
    // Version 0x15, four table entries reported, broadcast suppression.
    regs[3] = (1 << 24) | (3 << 16) | 0x15;
    regs[2] = 0xABCD_1234;
    regs
}

fn mmio_window() -> Vec<u32> {
    let mut regs = vec![0u32; 1024];
    regs[12] = (5 << 16) | 0x14;
    regs[8] = 0x0700_0000;
    regs
}

fn router_window() -> Vec<u32> {
    let mut regs = vec![0u32; 256];
    regs[1] = 23 << 16;
    regs
}

#[test]
fn x2apic_facade_reports_fields() {
    let apic = CurrentApic::from_x2apic(X2Apic::new(msr_window()));
    assert!(apic.x2apic_enabled());
    assert_eq!(apic.version(), 0x15);
    assert!(apic.support_eoi_broadcast_suppression());
    assert_eq!(apic.max_lvt_entry(), 4);
    assert_eq!(apic.id(), 0xABCD_1234);
    assert!(CurrentApic::support());
}

#[test]
fn xapic_facade_reports_fields() {
    let apic = CurrentApic::from_xapic(XApic::new(mmio_window()));
    assert!(!apic.x2apic_enabled());
    assert_eq!(apic.version(), 0x14);
    assert!(!apic.support_eoi_broadcast_suppression());
    assert_eq!(apic.max_lvt_entry(), 6);
    assert_eq!(apic.id(), 7);
}

#[test]
fn facade_lvt_round_trip() {
    let mut apic = CurrentApic::from_x2apic(X2Apic::new(msr_window()));
    let entry = LVT::new(LVTRegister::Timer, 0x20041).unwrap();
    apic.set_lvt(entry);
    let back = apic.read_lvt(LVTRegister::Timer);
    assert_eq!(back, entry);
    // Other registers are untouched.
    assert_eq!(apic.read_lvt(LVTRegister::LINT0).data(), 0);
}

#[test]
fn facade_lvt_round_trip_mmio() {
    let mut apic = CurrentApic::from_xapic(XApic::new(mmio_window()));
    let entry = LVT::new(LVTRegister::CMCI, 0x00207).unwrap();
    apic.set_lvt(entry);
    assert_eq!(apic.read_lvt(LVTRegister::CMCI), entry);
}

#[test]
fn mask_all_lvt_sets_every_mask_bit() {
    let kinds = [
        LVTRegister::CMCI,
        LVTRegister::Timer,
        LVTRegister::Thermal,
        LVTRegister::PerformanceMonitor,
        LVTRegister::LINT0,
        LVTRegister::LINT1,
        LVTRegister::ErrorReg,
    ];
    let mut apic = CurrentApic::from_x2apic(X2Apic::new(msr_window()));
    let entry = LVT::new(LVTRegister::Thermal, 0x45).unwrap();
    apic.set_lvt(entry);
    apic.mask_all_lvt();
    for reg in kinds {
        assert!(apic.read_lvt(reg).mask());
    }
    // The rest of the register survives.
    assert_eq!(apic.read_lvt(LVTRegister::Thermal).vector(), 0x45);
}

#[test]
fn icr_halves_recombine() {
    let icr = Icr::new(0x1122_3344_5566_7788);
    assert_eq!(icr.upper(), 0x1122_3344);
    assert_eq!(icr.lower(), 0x5566_7788);
    let mut apic = CurrentApic::from_xapic(XApic::new(mmio_window()));
    apic.write_icr(icr);
    let mut apic2 = CurrentApic::from_x2apic(X2Apic::new(msr_window()));
    apic2.write_icr(icr);
}

#[test]
fn init_current_cpu_arms_the_controller() {
    let mut apic = CurrentApic::from_x2apic(X2Apic::new(msr_window()));
    assert!(apic.init_current_cpu());
    let mut apic = CurrentApic::from_xapic(XApic::new(mmio_window()));
    assert!(apic.init_current_cpu());
    apic.send_eoi();
}

#[test]
fn apic_init_prefers_x2apic() {
    let r = apic_init(true, X2Apic::new(msr_window()), None, router_window());
    let (apic, io) = r.unwrap();
    assert!(apic.x2apic_enabled());
    assert_eq!(io.supported_interrupts(), 24);
    for line in 0..24u8 {
        assert_ne!(io.read(0x10 + 2 * line) & 0x10000, 0);
    }
}

#[test]
fn apic_init_falls_back_to_xapic() {
    let r = apic_init(
        false,
        X2Apic::new(msr_window()),
        Some(XApic::new(mmio_window())),
        router_window(),
    );
    let (apic, _io) = r.unwrap();
    assert!(!apic.x2apic_enabled());
}

#[test]
fn apic_init_without_any_generation_fails() {
    let r = apic_init(false, X2Apic::new(msr_window()), None, router_window());
    assert_eq!(r.err(), Some(19));
}

#[test]
fn ap_core_init_mirrors_the_probe_order() {
    let ok = apic_init_ap_core(true, X2Apic::new(msr_window()), None);
    assert!(ok.unwrap().x2apic_enabled());
    let fallback =
        apic_init_ap_core(false, X2Apic::new(msr_window()), Some(XApic::new(mmio_window())));
    assert!(!fallback.unwrap().x2apic_enabled());
    let none = apic_init_ap_core(false, X2Apic::new(msr_window()), None);
    assert_eq!(none.err(), Some(SystemError::ENODEV));
}

#[test]
fn enable_type_values_differ() {
    assert_ne!(LocalApicEnableType::XApic, LocalApicEnableType::X2Apic);
    let io = IoApic::new(router_window());
    assert_eq!(io.version(), 0);
}
