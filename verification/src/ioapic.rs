//! The shared I/O interrupt router.
//!
//! The router holds a redirection table that maps external interrupt lines
//! onto per-core vectors.  Each line occupies two consecutive 32-bit
//! registers: the low register holds the vector in its bottom byte together
//! with the delivery flags, the high register holds the destination core
//! identifier in its top byte.  The hardware window is reached through an
//! indexed two-register protocol; this type owns the window as a
//! bounds-checked register file, one 32-bit cell per register index, which
//! the byte-wide index register can address.  The device is shared by every
//! core and the two-step protocol is not atomic, so an embedding kernel must
//! serialise all access to one `IoApic` value behind a single lock.

use vstd::prelude::*;

use crate::bits::get_bits_u32;
use crate::bits::lemma_or_zero;
use crate::bits::set_bits_u32;

verus! {

/// Register index of the identifier register.
const REG_ID: u8 = 0x00;

/// Register index of the version register, which also reports how many
/// lines the router supports.
const REG_VER: u8 = 0x01;

/// Register index of the first redirection-table entry.
const REG_TABLE: u8 = 0x10;

/// Redirection-entry flag: the line is masked.
const RTE_DISABLED: u32 = 0x00010000;

/// Redirection-entry flag: level-triggered rather than edge-triggered.
const RTE_LEVEL: u32 = 0x00008000;

/// Redirection-entry flag: active-low rather than active-high.
const RTE_ACTIVELOW: u32 = 0x00002000;

/// Redirection-entry flag: the destination is a logical processor group
/// rather than a single core identifier.
const RTE_LOGICAL: u32 = 0x00000800;

/// No redirection-entry flag set: edge-triggered, active-high, fixed
/// delivery, physical destination, unmasked.
const RTE_NONE: u32 = 0x00000000;

/// The register index of the low redirection-table register of `line`.
pub open spec fn rte_low_index(line: int) -> int {
    0x10 + 2 * line
}

/// The register index of the high redirection-table register of `line`.
pub open spec fn rte_high_index(line: int) -> int {
    0x10 + 2 * line + 1
}

/// The delivery flags that `config` assembles.  A vector outside the usable
/// range 0x20 to 0xEF forces the masked flag regardless of the caller's
/// request.
pub open spec fn spec_rte_flags(
    vector: u8,
    level_triggered: bool,
    active_high: bool,
    dest_logic: bool,
    mask: bool,
) -> u32 {
    (if level_triggered {
        0x8000u32
    } else {
        0u32
    }) | (if !active_high {
        0x2000u32
    } else {
        0u32
    }) | (if dest_logic {
        0x800u32
    } else {
        0u32
    }) | (if mask || vector < 0x20 || vector > 0xEF {
        0x10000u32
    } else {
        0u32
    })
}

/// What replacing a line's vector leaves in the low register: the new
/// vector in the bottom byte, and the masked flag forced on when the
/// previous vector already lay outside the usable range, so that a
/// previously disabled line stays disabled across the rewrite.
pub open spec fn spec_set_vector_low(low: u32, vector: u8) -> u32 {
    let adjusted = if !(0x20 <= (low & 0xFF) <= 0xEF) {
        low | 0x10000
    } else {
        low
    };
    (adjusted & 0xFFFF_FF00) | (vector as u32)
}

/// The shared I/O interrupt router, modelled as the owned register window
/// its indexed protocol addresses.
pub struct IoApic {
    regs: Vec<u32>,
}

impl View for IoApic {
    type V = Seq<u32>;

    closed spec fn view(&self) -> Seq<u32> {
        self.regs@
    }
}

impl IoApic {
    /// How many redirection-table lines the router reports, the raw count
    /// field plus the off-by-one correction.
    pub open spec fn spec_supported_interrupts(self) -> int {
        ((self@[1] >> 16) & 0xFF) + 1
    }

    /// The register window covers every index the byte-wide index register
    /// can address, and the reported line count keeps the whole table
    /// inside it.
    pub open spec fn wf(self) -> bool {
        &&& self@.len() == 256
        &&& self.spec_supported_interrupts() <= 120
    }

    /// Takes ownership of the router's register window, then masks every
    /// redirection-table line before returning, programming line `i` with
    /// vector `0x20 + i`: no line may be left enabled at power-on defaults.
    pub fn new(regs: Vec<u32>) -> (r: IoApic)
        requires
            regs@.len() == 256,
            ((regs@[1] >> 16) & 0xFF) + 1 <= 120,
        ensures
            r.wf(),
            r.spec_supported_interrupts() == ((regs@[1] >> 16) & 0xFF) + 1,
            forall|line: int|
                0 <= line < r.spec_supported_interrupts() ==> r@[rte_low_index(line)] == ((0x20
                    + line) as u32 | 0x10000) && r@[rte_high_index(line)] == 0,
            forall|j: int| 0 <= j < 0x10 ==> r@[j] == regs@[j],
            forall|j: int|
                0x10 + 2 * r.spec_supported_interrupts() <= j < 256 ==> r@[j] == regs@[j],
    {
        let ghost init = regs@;
        let mut result = IoApic { regs };
        let n = result.supported_interrupts();
        let mut i: u8 = 0;
        while i < n
            invariant
                result.wf(),
                i <= n,
                n == result.spec_supported_interrupts(),
                result@.len() == 256,
                forall|line: int|
                    0 <= line < i ==> result@[rte_low_index(line)] == ((0x20 + line) as u32
                        | 0x10000) && result@[rte_high_index(line)] == 0,
                forall|j: int| 0 <= j < 0x10 ==> result@[j] == init[j],
                forall|j: int| 0x10 + 2 * i <= j < 256 ==> result@[j] == init[j],
            decreases n - i,
        {
            result.write_rte(i, 0x20 + i, RTE_DISABLED, 0);
            proof {
                assert((0u8 as u32) << 24 == 0u32) by (bit_vector);
            }
            i = i + 1;
        }
        result
    }

    /// Reads one register of the window.  Registers 0x3 to 0xF are
    /// reserved and may not be addressed.
    pub fn read(&self, reg: u8) -> (r: u32)
        requires
            self.wf(),
            reg < 0x3 || reg >= 0x10,
        ensures
            r == self@[reg as int],
    {
        self.regs[reg as usize]
    }

    /// Writes one register of the window.  Registers 0x1 and 0x2 are
    /// read-only and registers 0x3 to 0xF are reserved, so only the
    /// identifier register and the redirection table may be addressed.
    fn write(&mut self, reg: u8, data: u32)
        requires
            old(self).wf(),
            reg == 0 || reg >= 0x10,
        ensures
            final(self)@ == old(self)@.update(reg as int, data),
            final(self).wf(),
            final(self).spec_supported_interrupts() == old(self).spec_supported_interrupts(),
    {
        self.regs.set(reg as usize, data);
    }

    /// Writes both registers of one redirection-table entry: the low
    /// register from vector and flags, the high register from the
    /// destination core identifier.
    fn write_rte(&mut self, rte_index: u8, vector: u8, flags: u32, dest: u8)
        requires
            old(self).wf(),
            rte_index < 120,
        ensures
            final(self)@ == old(self)@.update(
                rte_low_index(rte_index as int),
                (vector as u32) | flags,
            ).update(rte_high_index(rte_index as int), (dest as u32) << 24),
            final(self).wf(),
            final(self).spec_supported_interrupts() == old(self).spec_supported_interrupts(),
    {
        self.write(REG_TABLE + 2 * rte_index, (vector as u32) | flags);
        self.write(REG_TABLE + 2 * rte_index + 1, (dest as u32) << 24);
    }

    /// Re-enables `irq`, keeping whatever vector is currently recorded for
    /// the line and programming it edge-triggered, active-high, fixed
    /// delivery, unmasked, routed to the core whose hardware identifier is
    /// `cpunum`.
    pub fn enable(&mut self, irq: u8, cpunum: u8)
        requires
            old(self).wf(),
            irq < old(self).spec_supported_interrupts(),
        ensures
            final(self)@ == old(self)@.update(
                rte_low_index(irq as int),
                old(self)@[rte_low_index(irq as int)] & 0xFF,
            ).update(rte_high_index(irq as int), (cpunum as u32) << 24),
            final(self)@[rte_low_index(irq as int)] & 0x10000 == 0,
            final(self).wf(),
            final(self).spec_supported_interrupts() == old(self).spec_supported_interrupts(),
    {
        let vector = self.irq_vector(irq);
        proof {
            lemma_or_zero();
            let low = self@[rte_low_index(irq as int)];
            assert((low & 0xFF) & 0x10000 == 0) by (bit_vector);
        }
        self.write_rte(irq, vector, RTE_NONE, cpunum);
    }

    /// Disables `irq`: keeps the recorded vector, forces the masked flag,
    /// clears every other flag and the destination.
    pub fn disable(&mut self, irq: u8)
        requires
            old(self).wf(),
            irq < old(self).spec_supported_interrupts(),
        ensures
            final(self)@ == old(self)@.update(
                rte_low_index(irq as int),
                (old(self)@[rte_low_index(irq as int)] & 0xFF) | 0x10000,
            ).update(rte_high_index(irq as int), 0),
            final(self)@[rte_low_index(irq as int)] & 0x10000 != 0,
            final(self).wf(),
            final(self).spec_supported_interrupts() == old(self).spec_supported_interrupts(),
    {
        let vector = self.irq_vector(irq);
        proof {
            let low = self@[rte_low_index(irq as int)];
            assert(((low & 0xFF) | 0x10000) & 0x10000 != 0 && (0u8 as u32) << 24 == 0) by (
            bit_vector);
        }
        self.write_rte(irq, vector, RTE_DISABLED, 0);
    }

    /// Disables every supported line: each keeps its recorded vector, is
    /// marked edge-triggered, active-high and masked, and is routed to no
    /// core.  Every supported line's masked flag is set afterwards.
    pub fn disable_all(&mut self)
        requires
            old(self).wf(),
        ensures
            final(self).wf(),
            final(self).spec_supported_interrupts() == old(self).spec_supported_interrupts(),
            forall|line: int|
                0 <= line < old(self).spec_supported_interrupts() ==> final(self)@[rte_low_index(
                    line,
                )] == ((old(self)@[rte_low_index(line)] & 0xFF) | 0x10000) && final(self)@[rte_high_index(line)] == 0,
            forall|line: int|
                0 <= line < old(self).spec_supported_interrupts() ==> final(self)@[rte_low_index(
                    line,
                )] & 0x10000 != 0,
            forall|j: int| 0 <= j < 0x10 ==> final(self)@[j] == old(self)@[j],
            forall|j: int|
                0x10 + 2 * old(self).spec_supported_interrupts() <= j < 256 ==> final(self)@[j]
                    == old(self)@[j],
    {
        let n = self.supported_interrupts();
        let mut i: u8 = 0;
        while i < n
            invariant
                self.wf(),
                i <= n,
                n == self.spec_supported_interrupts(),
                self.spec_supported_interrupts() == old(self).spec_supported_interrupts(),
                forall|line: int|
                    0 <= line < i ==> self@[rte_low_index(line)] == ((old(self)@[rte_low_index(
                        line,
                    )] & 0xFF) | 0x10000) && self@[rte_high_index(line)] == 0,
                forall|line: int|
                    0 <= line < i ==> self@[rte_low_index(line)] & 0x10000 != 0,
                forall|j: int| 0 <= j < 0x10 ==> self@[j] == old(self)@[j],
                forall|j: int| 0x10 + 2 * i <= j < 256 ==> self@[j] == old(self)@[j],
            decreases n - i,
        {
            self.disable(i);
            i = i + 1;
        }
    }

    /// Programs one redirection-table entry in full: vector, destination
    /// core, trigger mode, polarity, destination mode and mask.  A vector
    /// outside the usable range 0x20 to 0xEF forces the entry to a masked
    /// state regardless of the requested mask value.
    pub fn config(
        &mut self,
        irq_offset: u8,
        vector: u8,
        dest: u8,
        level_triggered: bool,
        active_high: bool,
        dest_logic: bool,
        mask: bool,
    )
        requires
            old(self).wf(),
            irq_offset < old(self).spec_supported_interrupts(),
        ensures
            final(self)@ == old(self)@.update(
                rte_low_index(irq_offset as int),
                (vector as u32) | spec_rte_flags(
                    vector,
                    level_triggered,
                    active_high,
                    dest_logic,
                    mask,
                ),
            ).update(rte_high_index(irq_offset as int), (dest as u32) << 24),
            vector < 0x20 || vector > 0xEF ==> final(self)@[rte_low_index(irq_offset as int)]
                & 0x10000 != 0,
            final(self).wf(),
            final(self).spec_supported_interrupts() == old(self).spec_supported_interrupts(),
    {
        let mut mask = mask;
        if !(0x20 <= vector && vector <= 0xEF) {
            mask = true;
        }
        let flags: u32 = (if level_triggered {
            RTE_LEVEL
        } else {
            RTE_NONE
        }) | (if !active_high {
            RTE_ACTIVELOW
        } else {
            RTE_NONE
        }) | (if dest_logic {
            RTE_LOGICAL
        } else {
            RTE_NONE
        }) | (if mask {
            RTE_DISABLED
        } else {
            RTE_NONE
        });
        proof {
            let v = vector as u32;
            let x = (if level_triggered {
                0x8000u32
            } else {
                0u32
            }) | (if !active_high {
                0x2000u32
            } else {
                0u32
            }) | (if dest_logic {
                0x800u32
            } else {
                0u32
            });
            assert((v | (x | 0x10000)) & 0x10000 != 0) by (bit_vector);
        }
        self.write_rte(irq_offset, vector, flags, dest)
    }

    /// The vector currently recorded for `irq`: the bottom byte of the
    /// line's low register.
    pub fn irq_vector(&self, irq: u8) -> (r: u8)
        requires
            self.wf(),
            irq < self.spec_supported_interrupts(),
        ensures
            r as u32 == self@[rte_low_index(irq as int)] & 0xFF,
    {
        let low = self.read(REG_TABLE + 2 * irq);
        let bits = get_bits_u32(low, 0, 8);
        proof {
            assert(low << 24 >> 24 >> 0 == low & 0xFF && low & 0xFF < 256 && ((low & 0xFF) as u8)
                as u32 == low & 0xFF) by (bit_vector);
        }
        bits as u8
    }

    /// Replaces the vector recorded for `irq`, leaving the rest of the low
    /// register as it stands, except that the masked flag is forced on when
    /// the previous vector already lay outside the usable range.
    pub fn set_irq_vector(&mut self, irq: u8, vector: u8)
        requires
            old(self).wf(),
            irq < old(self).spec_supported_interrupts(),
        ensures
            final(self)@ == old(self)@.update(
                rte_low_index(irq as int),
                spec_set_vector_low(old(self)@[rte_low_index(irq as int)], vector),
            ),
            final(self)@[rte_low_index(irq as int)] & 0xFF == vector as u32,
            final(self).wf(),
            final(self).spec_supported_interrupts() == old(self).spec_supported_interrupts(),
    {
        let mut old_reg = self.read(REG_TABLE + 2 * irq);
        let old_vector = get_bits_u32(old_reg, 0, 8);
        proof {
            let o = old_reg;
            assert(o << 24 >> 24 >> 0 == o & 0xFF) by (bit_vector);
        }
        if !(0x20 <= old_vector && old_vector <= 0xEF) {
            old_reg = old_reg | RTE_DISABLED;
        }
        proof {
            let v = vector as u32;
            assert(v < 256 ==> v << ((32 - (8 - 0)) as u32) >> ((32 - (8 - 0)) as u32) == v) by (
            bit_vector);
        }
        let updated = set_bits_u32(old_reg, 0, 8, vector as u32);
        proof {
            let a = old_reg;
            let v = vector as u32;
            assert((a & !(!0u32 << ((32 - 8) as u32) >> ((32 - 8) as u32) >> (0 as u32) << (0
                as u32))) | (v << (0 as u32)) == (a & 0xFFFF_FF00) | v) by (bit_vector);
            assert(v < 256 ==> ((a & 0xFFFF_FF00) | v) & 0xFF == v) by (bit_vector);
        }
        self.write(REG_TABLE + 2 * irq, updated);
    }

    /// The router's hardware identifier, bits 24 to 27 of the identifier
    /// register.
    pub fn id(&self) -> (r: u8)
        requires
            self.wf(),
        ensures
            r as u32 == (self@[0] >> 24) & 0xF,
    {
        let reg = self.read(REG_ID);
        let bits = get_bits_u32(reg, 24, 28);
        proof {
            let v = reg;
            assert(v << 4 >> 4 >> 24 == (v >> 24) & 0xF && (v >> 24) & 0xF < 256 && (((v >> 24)
                & 0xF) as u8) as u32 == (v >> 24) & 0xF) by (bit_vector);
        }
        bits as u8
    }

    /// The router's implementation version, the bottom byte of the version
    /// register.
    pub fn version(&self) -> (r: u8)
        requires
            self.wf(),
        ensures
            r as u32 == self@[1] & 0xFF,
    {
        let reg = self.read(REG_VER);
        let bits = get_bits_u32(reg, 0, 8);
        proof {
            let v = reg;
            assert(v << 24 >> 24 >> 0 == v & 0xFF && v & 0xFF < 256 && ((v & 0xFF) as u8) as u32
                == v & 0xFF) by (bit_vector);
        }
        bits as u8
    }

    /// How many interrupt lines this router supports.  The hardware
    /// reports the highest valid table index, one less than the count, so
    /// one is added back.
    pub fn supported_interrupts(&self) -> (r: u8)
        requires
            self.wf(),
        ensures
            r as int == self.spec_supported_interrupts(),
    {
        let reg = self.read(REG_VER);
        let bits = get_bits_u32(reg, 16, 24);
        proof {
            let v = reg;
            assert(v << 8 >> 8 >> 16 == (v >> 16) & 0xFF && (v >> 16) & 0xFF < 256) by (bit_vector);
        }
        (bits + 1) as u8
    }
}

/// Replacing a line's vector and then reading it back yields the new
/// vector, whatever the low register held before.
pub proof fn lemma_set_vector_then_read(low: u32, vector: u8)
    ensures
        spec_set_vector_low(low, vector) & 0xFF == vector as u32,
{
    let adjusted = if !(0x20 <= (low & 0xFF) <= 0xEF) {
        low | 0x10000
    } else {
        low
    };
    let v = vector as u32;
    assert(v < 256 ==> ((adjusted & 0xFFFF_FF00) | v) & 0xFF == v) by (bit_vector);
}

} // verus!
