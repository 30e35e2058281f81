//! Boot parameters handed over by the platform's early start-up code.

use vstd::prelude::*;

verus! {

/// A physical memory address.
#[derive(Debug, Clone, Copy, PartialEq, Eq, Structural)]
pub struct PhysAddr {
    value: usize,
}

impl PhysAddr {
    /// The numeric address value.
    pub closed spec fn spec_data(self) -> usize {
        self.value
    }

    /// Wraps a numeric physical address.
    pub fn new(value: usize) -> (r: PhysAddr)
        ensures
            r.spec_data() == value,
    {
        PhysAddr { value }
    }

    /// The numeric address value.
    pub fn data(&self) -> (r: usize)
        ensures
            r == self.spec_data(),
    {
        self.value
    }

    /// Whether this is the null address.
    pub fn is_null(&self) -> (r: bool)
        ensures
            r <==> self.spec_data() == 0,
    {
        self.value == 0
    }
}

/// A virtual memory address.
#[derive(Debug, Clone, Copy, PartialEq, Eq, Structural)]
pub struct VirtAddr {
    value: usize,
}

impl VirtAddr {
    /// The numeric address value.
    pub closed spec fn spec_data(self) -> usize {
        self.value
    }

    /// Wraps a numeric virtual address.
    pub fn new(value: usize) -> (r: VirtAddr)
        ensures
            r.spec_data() == value,
    {
        VirtAddr { value }
    }

    /// The numeric address value.
    pub fn data(&self) -> (r: usize)
        ensures
            r == self.spec_data(),
    {
        self.value
    }
}

/// Where early boot found the flattened device tree: its physical address,
/// and its virtual address once the kernel address space is mapped.
#[derive(Debug, Clone, Copy, PartialEq, Eq, Structural)]
pub struct ArchBootParams {
    /// The physical address of the device tree at boot.
    pub fdt_paddr: PhysAddr,
    /// The virtual address of the device tree, once mapped.
    pub fdt_vaddr: Option<VirtAddr>,
}

impl ArchBootParams {
    /// The address at which the device tree can be read right now: the
    /// mapped virtual address when one exists, otherwise the physical
    /// address, which is still identity-reachable before the kernel
    /// address space is set up.
    pub fn arch_fdt(&self) -> (r: VirtAddr)
        ensures
            self.fdt_vaddr is None ==> r.spec_data() == self.fdt_paddr.spec_data(),
            self.fdt_vaddr matches Some(v) ==> r == v,
    {
        if self.fdt_vaddr.is_none() {
            return VirtAddr::new(self.fdt_paddr.data());
        }
        self.fdt_vaddr.unwrap()
    }
}

impl Default for ArchBootParams {
    /// The state before any boot code ran: a null physical address and no
    /// mapping.
    fn default() -> (r: ArchBootParams)
        ensures
            r.fdt_paddr.spec_data() == 0,
            r.fdt_vaddr is None,
    {
        ArchBootParams { fdt_paddr: PhysAddr::new(0), fdt_vaddr: None }
    }
}

} // verus!
