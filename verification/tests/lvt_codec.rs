use apic::error::SystemError;
use apic::lvt::{ApicTimerMode, DeliveryMode, DeliveryStatus, LVTRegister, TriggerMode, LVT};

#[test]
fn decode_timer_entry() {
    let e = LVT::new(LVTRegister::Timer, 0x00028).unwrap();
    assert_eq!(e.vector(), 0x28);
    assert_eq!(e.delivery_mode(), None);
    assert!(!e.mask());
    assert_eq!(e.timer_mode(), Some(ApicTimerMode::OneShot));
    assert_eq!(e.register(), LVTRegister::Timer);
}

#[test]
fn decode_lint0_trigger_mode() {
    let level = LVT::new(LVTRegister::LINT0, 1 << 15).unwrap();
    assert_eq!(level.trigger_mode(), Some(TriggerMode::Level));
    let edge = LVT::new(LVTRegister::LINT0, 0).unwrap();
    assert_eq!(edge.trigger_mode(), Some(TriggerMode::Edge));
}

#[test]
fn decode_rejects_reserved_delivery_mode() {
    // Delivery-mode encodings 1 and 3 are reserved.
    assert!(LVT::new(LVTRegister::CMCI, 0b001 << 8).is_none());
    assert!(LVT::new(LVTRegister::Thermal, 0b011 << 8).is_none());
    // The timer kind has no delivery-mode field, so those bits are ignored.
    assert!(LVT::new(LVTRegister::Timer, 0b011 << 8).is_some());
}

#[test]
fn decode_rejects_reserved_timer_mode() {
    assert!(LVT::new(LVTRegister::Timer, 0b11 << 17).is_none());
    // Other kinds have no timer-mode field, so those bits are ignored.
    assert!(LVT::new(LVTRegister::ErrorReg, 0b11 << 17).is_some());
}

#[test]
fn decode_encode_round_trips() {
    // Entries whose raw value carries only supported fields decode from
    // their own encoding back to themselves, for each register kind.
    let cases: Vec<(LVTRegister, u32)> = vec![
        (LVTRegister::CMCI, 0x10755),
        (LVTRegister::Timer, 0x30041),
        (LVTRegister::Thermal, 0x00207),
        (LVTRegister::PerformanceMonitor, 0x10499),
        (LVTRegister::LINT0, 0x1A033),
        (LVTRegister::LINT1, 0x08730),
        (LVTRegister::ErrorReg, 0x100FE),
    ];
    for (reg, raw) in cases {
        let e = LVT::new(reg, raw).unwrap();
        assert_eq!(e.data(), raw);
        let again = LVT::new(e.register(), e.data()).unwrap();
        assert_eq!(again, e);
    }
}

#[test]
fn decode_drops_unsupported_bits() {
    // The error kind keeps only vector and mask; everything else is
    // dropped rather than kept.
    let e = LVT::new(LVTRegister::ErrorReg, 0xFFFF_FFFF).unwrap();
    assert_eq!(e.data(), 0x100FF);
    // The delivery-status bit is read-only hardware state and is never
    // copied in.
    let e = LVT::new(LVTRegister::CMCI, 1 << 12).unwrap();
    assert_eq!(e.data(), 0);
}

#[test]
fn set_delivery_mode_rejected_on_timer_and_error() {
    for reg in [LVTRegister::Timer, LVTRegister::ErrorReg] {
        let mut e = LVT::new(reg, 0).unwrap();
        let before = e.data();
        assert_eq!(e.set_delivery_mode(DeliveryMode::Fixed), Err(SystemError::EINVAL));
        assert_eq!(e.data(), before);
    }
}

#[test]
fn set_delivery_mode_accepted_elsewhere() {
    for reg in [
        LVTRegister::CMCI,
        LVTRegister::Thermal,
        LVTRegister::PerformanceMonitor,
        LVTRegister::LINT0,
        LVTRegister::LINT1,
    ] {
        let mut e = LVT::new(reg, 0).unwrap();
        assert_eq!(e.set_delivery_mode(DeliveryMode::NMI), Ok(()));
        assert_eq!(e.delivery_mode(), Some(DeliveryMode::NMI));
        assert_eq!(e.data() >> 8 & 0b111, 0b100);
    }
}

#[test]
fn set_trigger_mode_rejected_off_the_input_pins() {
    for reg in [
        LVTRegister::CMCI,
        LVTRegister::Timer,
        LVTRegister::Thermal,
        LVTRegister::PerformanceMonitor,
        LVTRegister::ErrorReg,
    ] {
        let mut e = LVT::new(reg, 0).unwrap();
        let before = e.data();
        assert_eq!(e.set_trigger_mode(TriggerMode::Level), Err(SystemError::EINVAL));
        assert_eq!(e.data(), before);
        assert_eq!(e.trigger_mode(), None);
    }
}

#[test]
fn set_trigger_mode_accepted_on_the_input_pins() {
    for reg in [LVTRegister::LINT0, LVTRegister::LINT1] {
        let mut e = LVT::new(reg, 0).unwrap();
        assert_eq!(e.set_trigger_mode(TriggerMode::Level), Ok(()));
        assert_eq!(e.trigger_mode(), Some(TriggerMode::Level));
        assert_eq!(e.data() & (1 << 15), 1 << 15);
        assert_eq!(e.set_trigger_mode(TriggerMode::Edge), Ok(()));
        assert_eq!(e.trigger_mode(), Some(TriggerMode::Edge));
        assert_eq!(e.data() & (1 << 15), 0);
    }
}

#[test]
fn set_timer_mode_only_on_timer() {
    let mut t = LVT::new(LVTRegister::Timer, 0).unwrap();
    assert_eq!(t.set_timer_mode(ApicTimerMode::Periodic), Ok(()));
    assert_eq!(t.timer_mode(), Some(ApicTimerMode::Periodic));
    assert_eq!(t.data() >> 17 & 0b11, 0b01);
    assert_eq!(t.set_timer_mode(ApicTimerMode::TSCDeadline), Ok(()));
    assert_eq!(t.data() >> 17 & 0b11, 0b10);

    let mut e = LVT::new(LVTRegister::LINT0, 0).unwrap();
    assert_eq!(e.set_timer_mode(ApicTimerMode::OneShot), Err(SystemError::EINVAL));
    assert_eq!(e.timer_mode(), None);
}

#[test]
fn delivery_status_bit_twelve() {
    assert_eq!(DeliveryStatus::from(0), DeliveryStatus::Idle);
    assert_eq!(DeliveryStatus::from(1 << 12), DeliveryStatus::SendPending);
    assert_eq!(DeliveryStatus::from(0xFFFF_EFFF), DeliveryStatus::Idle);
    assert_eq!(DeliveryStatus::from(0xFFFF_FFFF), DeliveryStatus::SendPending);
    let e = LVT::new(LVTRegister::LINT1, 0).unwrap();
    assert_eq!(e.delivery_status(), DeliveryStatus::Idle);
}

#[test]
fn vector_and_mask_setters() {
    let mut e = LVT::new(LVTRegister::Thermal, 0).unwrap();
    e.set_vector(0x77);
    assert_eq!(e.vector(), 0x77);
    e.set_mask(true);
    assert!(e.mask());
    assert_eq!(e.data(), 0x10077);
    e.set_mask(false);
    assert!(!e.mask());
    assert_eq!(e.vector(), 0x77);
}

#[test]
fn polarity_setter_and_getter() {
    let mut e = LVT::new(LVTRegister::LINT0, 0).unwrap();
    assert!(e.interrupt_input_pin_polarity());
    e.set_interrupt_input_pin_polarity(false);
    assert!(!e.interrupt_input_pin_polarity());
    assert_eq!(e.data() & (1 << 13), 1 << 13);
    e.set_interrupt_input_pin_polarity(true);
    assert!(e.interrupt_input_pin_polarity());
}

#[test]
fn delivery_mode_try_from_values() {
    assert_eq!(DeliveryMode::try_from(0), Ok(DeliveryMode::Fixed));
    assert_eq!(DeliveryMode::try_from(2), Ok(DeliveryMode::SMI));
    assert_eq!(DeliveryMode::try_from(4), Ok(DeliveryMode::NMI));
    assert_eq!(DeliveryMode::try_from(5), Ok(DeliveryMode::INIT));
    assert_eq!(DeliveryMode::try_from(6), Ok(DeliveryMode::StartUp));
    assert_eq!(DeliveryMode::try_from(7), Ok(DeliveryMode::ExtINT));
    assert_eq!(DeliveryMode::try_from(1), Err(SystemError::EINVAL));
    assert_eq!(DeliveryMode::try_from(3), Err(SystemError::EINVAL));
    assert_eq!(DeliveryMode::try_from(8), Err(SystemError::EINVAL));
}

#[test]
fn timer_mode_try_from_values() {
    assert_eq!(ApicTimerMode::try_from(0), Ok(ApicTimerMode::OneShot));
    assert_eq!(ApicTimerMode::try_from(1), Ok(ApicTimerMode::Periodic));
    assert_eq!(ApicTimerMode::try_from(2), Ok(ApicTimerMode::TSCDeadline));
    assert_eq!(ApicTimerMode::try_from(3), Err(SystemError::EINVAL));
}

#[test]
fn register_indices() {
    assert_eq!(LVTRegister::CMCI.index(), 0x82F);
    assert_eq!(LVTRegister::Timer.index(), 0x832);
    assert_eq!(LVTRegister::Thermal.index(), 0x833);
    assert_eq!(LVTRegister::PerformanceMonitor.index(), 0x834);
    assert_eq!(LVTRegister::LINT0.index(), 0x835);
    assert_eq!(LVTRegister::LINT1.index(), 0x836);
    assert_eq!(LVTRegister::ErrorReg.index(), 0x837);
}

#[test]
fn masked_constant() {
    assert_eq!(LVT::MASKED, 0x10000);
    assert_eq!(SystemError::EINVAL.to_posix_errno(), 22);
    assert_eq!(SystemError::ENODEV.to_posix_errno(), 19);
}
