//! Interrupt-controller support library: a bit-exact codec for Local Vector
//! Table registers, register-level models of the two local-controller
//! generations (memory-mapped and model-specific-register based), the facade
//! that dispatches between them, and the shared I/O interrupt router.

mod bits;

pub mod apic;
pub mod boot;
pub mod error;
pub mod ioapic;
pub mod lvt;
pub mod monitor;
pub mod smp;
pub mod x2apic;
pub mod xapic;
