use apic::ioapic::IoApic;

/// A fresh register window whose version register reports `lines`
/// supported lines (the hardware field holds the count minus one).
fn window(lines: u32) -> Vec<u32> {
    let mut regs = vec![0u32; 256];
    regs[1] = (lines - 1) << 16;
    regs
}

fn low(line: u8) -> u8 {
    0x10 + 2 * line
}

fn high(line: u8) -> u8 {
    0x10 + 2 * line + 1
}

#[test]
fn new_masks_every_line() {
    let io = IoApic::new(window(24));
    assert_eq!(io.supported_interrupts(), 24);
    for line in 0..24u8 {
        assert_eq!(io.read(low(line)), (0x20 + line as u32) | 0x10000);
        assert_eq!(io.read(high(line)), 0);
    }
}

#[test]
fn disable_all_leaves_every_line_masked() {
    let mut io = IoApic::new(window(24));
    // Enable a few lines first so the bring-up masking is not what the
    // final read observes.
    io.enable(3, 1);
    io.config(7, 0x40, 2, true, false, true, false);
    assert_eq!(io.read(low(7)) & 0x10000, 0);
    io.disable_all();
    for line in 0..24u8 {
        assert_ne!(io.read(low(line)) & 0x10000, 0);
        assert_eq!(io.read(high(line)), 0);
    }
    // The vector recorded for each line survives the disabling.
    assert_eq!(io.irq_vector(7), 0x40);
}

#[test]
fn enable_routes_and_unmasks() {
    let mut io = IoApic::new(window(8));
    io.enable(5, 3);
    // Edge-triggered, active-high, fixed delivery, unmasked: only the
    // vector remains in the low register.
    assert_eq!(io.read(low(5)), 0x25);
    assert_eq!(io.read(high(5)), 3 << 24);
}

#[test]
fn disable_keeps_vector_and_masks() {
    let mut io = IoApic::new(window(8));
    io.enable(2, 1);
    io.disable(2);
    assert_eq!(io.read(low(2)), 0x22 | 0x10000);
    assert_eq!(io.read(high(2)), 0);
}

#[test]
fn config_programs_the_entry() {
    let mut io = IoApic::new(window(8));
    io.config(1, 0x55, 4, true, false, true, false);
    assert_eq!(io.read(low(1)), 0x55 | 0x8000 | 0x2000 | 0x800);
    assert_eq!(io.read(high(1)), 4 << 24);
    io.config(1, 0x55, 4, false, true, false, true);
    assert_eq!(io.read(low(1)), 0x55 | 0x10000);
}

#[test]
fn config_low_vector_forces_mask() {
    let mut io = IoApic::new(window(8));
    io.config(5, 0x10, 2, false, true, false, false);
    assert_ne!(io.read(low(5)) & 0x10000, 0);
    assert_eq!(io.read(low(5)), 0x10 | 0x10000);
}

#[test]
fn config_high_vector_forces_mask() {
    let mut io = IoApic::new(window(8));
    io.config(4, 0xF0, 2, false, true, false, false);
    assert_ne!(io.read(low(4)) & 0x10000, 0);
    io.config(4, 0xEF, 2, false, true, false, false);
    assert_eq!(io.read(low(4)) & 0x10000, 0);
}

#[test]
fn set_irq_vector_then_read_back() {
    let mut io = IoApic::new(window(8));
    io.config(6, 0x30, 1, false, true, false, false);
    io.set_irq_vector(6, 0x44);
    assert_eq!(io.irq_vector(6), 0x44);
    // The line was enabled with a usable vector, so it stays enabled.
    assert_eq!(io.read(low(6)) & 0x10000, 0);
}

#[test]
fn set_irq_vector_keeps_disabled_line_disabled() {
    let mut io = IoApic::new(window(8));
    io.config(3, 0x05, 1, false, true, false, false);
    // Vector 0x05 lies outside the usable range, so the entry is masked;
    // rewriting the vector must not quietly enable the line.
    io.set_irq_vector(3, 0x33);
    assert_eq!(io.irq_vector(3), 0x33);
    assert_ne!(io.read(low(3)) & 0x10000, 0);
}

#[test]
fn id_and_version_fields() {
    let mut regs = window(4);
    regs[0] = 0x0500_0000;
    regs[1] |= 0x21;
    let io = IoApic::new(regs);
    assert_eq!(io.id(), 5);
    assert_eq!(io.version(), 0x21);
    assert_eq!(io.supported_interrupts(), 4);
}
