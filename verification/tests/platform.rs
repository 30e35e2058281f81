use apic::boot::{ArchBootParams, PhysAddr, VirtAddr};
use apic::monitor::{Signal, TabsState};
use apic::smp::{kick_cpu, IpiKind, IpiTarget};

#[test]
fn arch_fdt_prefers_the_mapped_address() {
    let mapped = ArchBootParams {
        fdt_paddr: PhysAddr::new(0x8000_0000),
        fdt_vaddr: Some(VirtAddr::new(0xFFFF_8000_0000_0000)),
    };
    assert_eq!(mapped.arch_fdt().data(), 0xFFFF_8000_0000_0000);

    let unmapped = ArchBootParams { fdt_paddr: PhysAddr::new(0x8000_0000), fdt_vaddr: None };
    assert_eq!(unmapped.arch_fdt().data(), 0x8000_0000);
}

#[test]
fn boot_params_default_is_null() {
    let params = ArchBootParams::default();
    assert!(params.fdt_paddr.is_null());
    assert!(params.fdt_vaddr.is_none());
    assert_eq!(params.arch_fdt().data(), 0);
}

#[test]
fn kick_cpu_builds_the_request() {
    let (kind, target) = kick_cpu(3).unwrap();
    assert_eq!(kind, IpiKind::KickCpu);
    assert_eq!(target, IpiTarget::Specified(3));
    assert!(kick_cpu(usize::MAX).is_ok());
}

#[test]
fn tabs_cycle_forward_and_back() {
    let mut tabs = TabsState::new(vec!["Tab0", "Tab1", "Tab2"]);
    assert_eq!(tabs.index, 0);
    tabs.next();
    assert_eq!(tabs.index, 1);
    tabs.next();
    assert_eq!(tabs.index, 2);
    tabs.next();
    assert_eq!(tabs.index, 0);
    tabs.previous();
    assert_eq!(tabs.index, 2);
    tabs.previous();
    assert_eq!(tabs.index, 1);
}

#[test]
fn signal_window_rolls_forward() {
    let mut signal = Signal { points: vec![1, 2, 3, 4, 5], tick_rate: 2 };
    signal.on_tick(&vec![6, 7]);
    assert_eq!(signal.points, vec![3, 4, 5, 6, 7]);
    signal.on_tick(&vec![8]);
    assert_eq!(signal.points, vec![5, 6, 7, 8]);
    signal.on_tick(&vec![]);
    assert_eq!(signal.points, vec![7, 8]);
}
