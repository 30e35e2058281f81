//! Bit-exact codec for Local Vector Table registers.
//!
//! A Local Vector Table entry is a 32-bit hardware register whose layout is
//! `[31:19 reserved][18:17 timer mode][16 mask][15 trigger][14 reserved]
//! [13 polarity][12 delivery status][11 reserved][10:8 delivery mode]
//! [7:0 vector]`.  Which fields exist depends on the register kind: the
//! delivery-mode field is absent for the timer and error kinds, polarity and
//! trigger mode exist only for the two input-pin kinds, and the timer-mode
//! field exists only for the timer kind.  Writing a field that the kind does
//! not support fails with an invalid-argument error instead of silently
//! flipping the bit; reading such a field reports absence.

use vstd::prelude::*;

use crate::bits::lemma_or_zero;
use crate::error::SystemError;

verus! {

/// The register kinds of the Local Vector Table.
#[derive(Debug, Clone, Copy, PartialEq, Eq, Structural)]
pub enum LVTRegister {
    /// Corrected machine-check interrupt register.
    CMCI,
    /// Timer interrupt register.
    Timer,
    /// Thermal-sensor interrupt register.
    Thermal,
    /// Performance-monitor counter overflow register.
    PerformanceMonitor,
    /// First local interrupt input pin.
    LINT0,
    /// Second local interrupt input pin.
    LINT1,
    /// Internal-error interrupt register.
    ErrorReg,
}

/// The model-specific-register index of each Local Vector Table register.
pub open spec fn spec_lvt_msr_index(reg: LVTRegister) -> u32 {
    match reg {
        LVTRegister::CMCI => 0x82F,
        LVTRegister::Timer => 0x832,
        LVTRegister::Thermal => 0x833,
        LVTRegister::PerformanceMonitor => 0x834,
        LVTRegister::LINT0 => 0x835,
        LVTRegister::LINT1 => 0x836,
        LVTRegister::ErrorReg => 0x837,
    }
}

impl LVTRegister {
    /// The model-specific-register index of this register.
    pub fn index(&self) -> (r: u32)
        ensures
            r == spec_lvt_msr_index(*self),
    {
        match self {
            LVTRegister::CMCI => 0x82F,
            LVTRegister::Timer => 0x832,
            LVTRegister::Thermal => 0x833,
            LVTRegister::PerformanceMonitor => 0x834,
            LVTRegister::LINT0 => 0x835,
            LVTRegister::LINT1 => 0x836,
            LVTRegister::ErrorReg => 0x837,
        }
    }
}

/// Whether entries of kind `reg` carry a delivery-mode field.
pub open spec fn supports_delivery_mode(reg: LVTRegister) -> bool {
    !(reg is Timer || reg is ErrorReg)
}

/// Whether `reg` is one of the two local interrupt input pins, the only
/// kinds that carry polarity and trigger-mode fields.
pub open spec fn is_input_pin(reg: LVTRegister) -> bool {
    reg is LINT0 || reg is LINT1
}

/// The writable-field mask, phrased over the three capability flags so that
/// bit-level lemmas can treat the kind as three booleans.
pub open spec fn field_mask_bits(delivery: bool, pin: bool, timer: bool) -> u32 {
    (0xFFu32 | 0x10000u32)
        | (if delivery { 0x700u32 } else { 0u32 })
        | (if pin { 0xA000u32 } else { 0u32 })
        | (if timer { 0x60000u32 } else { 0u32 })
}

/// The mask of all field bits that entries of kind `reg` may carry.
pub open spec fn field_mask(reg: LVTRegister) -> u32 {
    field_mask_bits(supports_delivery_mode(reg), is_input_pin(reg), reg is Timer)
}

/// Whether a three-bit delivery-mode field value is a defined enumerant.
/// The encodings 1 and 3 are reserved.
pub open spec fn valid_delivery_bits(bits: u32) -> bool {
    bits == 0 || bits == 2 || bits == 4 || bits == 5 || bits == 6 || bits == 7
}

/// Whether the raw value `data` decodes for kind `reg`: every enumerant
/// field that the kind supports must hold a defined value.
pub open spec fn decode_ok(reg: LVTRegister, data: u32) -> bool {
    &&& supports_delivery_mode(reg) ==> valid_delivery_bits((data >> 8) & 7)
    &&& reg is Timer ==> (data >> 17) & 3 != 3
}

/// How a delivered interrupt is interpreted by the receiving core.
#[derive(Debug, Clone, Copy, PartialEq, Eq, Structural)]
pub enum DeliveryMode {
    /// Deliver the vector held in the entry's vector field.
    Fixed,
    /// Deliver a system-management interrupt; the vector field must be zero.
    SMI,
    /// Deliver a non-maskable interrupt; the vector field is ignored.
    NMI,
    /// Deliver an INIT request; the vector field must be zero.
    INIT,
    /// Deliver a start-up request to the target core.
    StartUp,
    /// Deliver a vector obtained from an external legacy controller.
    ExtINT,
}

/// The three-bit field encoding of each delivery mode.
pub open spec fn delivery_mode_bits(mode: DeliveryMode) -> u32 {
    match mode {
        DeliveryMode::Fixed => 0,
        DeliveryMode::SMI => 2,
        DeliveryMode::NMI => 4,
        DeliveryMode::INIT => 5,
        DeliveryMode::StartUp => 6,
        DeliveryMode::ExtINT => 7,
    }
}

impl DeliveryMode {
    /// The three-bit field encoding of this delivery mode.
    pub fn bits(&self) -> (r: u32)
        ensures
            r == delivery_mode_bits(*self),
    {
        match self {
            DeliveryMode::Fixed => 0,
            DeliveryMode::SMI => 2,
            DeliveryMode::NMI => 4,
            DeliveryMode::INIT => 5,
            DeliveryMode::StartUp => 6,
            DeliveryMode::ExtINT => 7,
        }
    }

    /// Decodes a three-bit delivery-mode field value, rejecting the two
    /// reserved encodings and anything that does not fit in three bits.
    pub fn try_from(value: u8) -> (r: Result<DeliveryMode, SystemError>)
        ensures
            r is Ok <==> valid_delivery_bits(value as u32),
            r matches Ok(m) ==> delivery_mode_bits(m) == value as u32,
            r is Err ==> r == Err::<DeliveryMode, SystemError>(SystemError::EINVAL),
    {
        match value {
            0 => Ok(DeliveryMode::Fixed),
            2 => Ok(DeliveryMode::SMI),
            4 => Ok(DeliveryMode::NMI),
            5 => Ok(DeliveryMode::INIT),
            6 => Ok(DeliveryMode::StartUp),
            7 => Ok(DeliveryMode::ExtINT),
            _ => Err(SystemError::EINVAL),
        }
    }
}

/// Whether the interrupt recorded by an entry has been handed to the core.
#[derive(Debug, Clone, Copy, PartialEq, Eq, Structural)]
pub enum DeliveryStatus {
    /// No request pending: none was raised, or the core accepted it.
    Idle,
    /// A request was raised but the core has not yet accepted it.
    SendPending,
}

impl DeliveryStatus {
    /// Decodes the delivery-status field, bit 12 of a raw register value.
    pub fn from(data: u32) -> (r: DeliveryStatus)
        ensures
            r is SendPending <==> data & 0x1000 != 0,
            r is Idle <==> data & 0x1000 == 0,
    {
        if data & 0x1000 == 0 {
            DeliveryStatus::Idle
        } else {
            DeliveryStatus::SendPending
        }
    }
}

/// Edge- versus level-triggered interrupt signalling.
#[derive(Debug, Clone, Copy, PartialEq, Eq, Structural)]
pub enum TriggerMode {
    Edge,
    Level,
}

/// The operating modes of the timer register.
#[derive(Debug, Clone, Copy, PartialEq, Eq, Structural)]
pub enum ApicTimerMode {
    /// Count down once and stop.
    OneShot,
    /// Reload and count down again after each expiry.
    Periodic,
    /// Fire when the time-stamp counter reaches a programmed deadline.
    TSCDeadline,
}

/// The two-bit field encoding of each timer mode; the encoding 3 is reserved.
pub open spec fn timer_mode_bits(mode: ApicTimerMode) -> u32 {
    match mode {
        ApicTimerMode::OneShot => 0,
        ApicTimerMode::Periodic => 1,
        ApicTimerMode::TSCDeadline => 2,
    }
}

impl ApicTimerMode {
    /// Decodes a two-bit timer-mode field value, rejecting the reserved
    /// encoding.
    pub fn try_from(value: u8) -> (r: Result<ApicTimerMode, SystemError>)
        ensures
            r is Ok <==> value < 3,
            r matches Ok(m) ==> timer_mode_bits(m) == value as u32,
            r is Err ==> r == Err::<ApicTimerMode, SystemError>(SystemError::EINVAL),
    {
        match value {
            0 => Ok(ApicTimerMode::OneShot),
            1 => Ok(ApicTimerMode::Periodic),
            2 => Ok(ApicTimerMode::TSCDeadline),
            _ => Err(SystemError::EINVAL),
        }
    }
}

/// The field mask evaluated at the four capability combinations that the
/// seven register kinds realise.
proof fn lemma_field_mask_values()
    by (bit_vector)
    ensures
        field_mask_bits(true, false, false) == 0x107FFu32,
        field_mask_bits(false, false, false) == 0x100FFu32,
        field_mask_bits(true, true, false) == 0x1A7FFu32,
        field_mask_bits(false, false, true) == 0x700FFu32,
{
}

/// The field-update chain that decoding performs, folded into a single mask,
/// one equation for each of the four capability combinations: plain kinds
/// run the vector, delivery-mode and mask steps; the error kind skips the
/// delivery mode; input pins add polarity and trigger; the timer swaps the
/// delivery mode for the timer mode.
proof fn lemma_decode_composition(d: u32)
    by (bit_vector)
    ensures
        (((((0u32 & 0xFFFF_FF00) | (d & 0xFF)) & 0xFFFF_F8FF) | ((d >> 8 & 7) << 8))
            & 0xFFFE_FFFF) | (if d & 0x10000 != 0 {
            0x10000u32
        } else {
            0u32
        }) == d & 0x107FF,
        (((0u32 & 0xFFFF_FF00) | (d & 0xFF)) & 0xFFFE_FFFF) | (if d & 0x10000 != 0 {
            0x10000u32
        } else {
            0u32
        }) == d & 0x100FF,
        (((((((((0u32 & 0xFFFF_FF00) | (d & 0xFF)) & 0xFFFF_F8FF) | ((d >> 8 & 7) << 8))
            & 0xFFFF_DFFF) | (if d & 0x2000 == 0 {
            0u32
        } else {
            0x2000u32
        })) & 0xFFFF_7FFF) | (if d & 0x8000 != 0 {
            0x8000u32
        } else {
            0u32
        })) & 0xFFFE_FFFF) | (if d & 0x10000 != 0 {
            0x10000u32
        } else {
            0u32
        }) == d & 0x1A7FF,
        (((((0u32 & 0xFFFF_FF00) | (d & 0xFF)) & 0xFFFE_FFFF) | (if d & 0x10000 != 0 {
            0x10000u32
        } else {
            0u32
        })) & 0xFFF9_FFFF) | ((d >> 17 & 3) << 17) == d & 0x700FF,
{
}

/// Masking with a field mask clears everything outside it and leaves the
/// enumerant fields that lie inside it untouched.
proof fn lemma_canonical_fields(d: u32)
    by (bit_vector)
    ensures
        (d & 0x107FF) & !0x107FFu32 == 0,
        (d & 0x100FF) & !0x100FFu32 == 0,
        (d & 0x1A7FF) & !0x1A7FFu32 == 0,
        (d & 0x700FF) & !0x700FFu32 == 0,
        (d & 0x107FF) >> 8 & 7 == d >> 8 & 7,
        (d & 0x1A7FF) >> 8 & 7 == d >> 8 & 7,
        (d & 0x700FF) >> 17 & 3 == d >> 17 & 3,
{
}

/// Writing the vector field of a canonical raw value leaves it canonical:
/// the vector lies inside every kind's field mask and the enumerant fields
/// are untouched.
proof fn lemma_set_vector_wf(d: u32, v: u32, delivery: bool, pin: bool, timer: bool)
    by (bit_vector)
    requires
        v < 256,
        d & !field_mask_bits(delivery, pin, timer) == 0,
    ensures
        ((d & 0xFFFF_FF00) | v) & !field_mask_bits(delivery, pin, timer) == 0,
        (((d & 0xFFFF_FF00) | v) >> 8) & 7 == (d >> 8) & 7,
        (((d & 0xFFFF_FF00) | v) >> 17) & 3 == (d >> 17) & 3,
{
}

/// Writing the mask field of a canonical raw value leaves it canonical.
proof fn lemma_set_mask_wf(d: u32, m: u32, delivery: bool, pin: bool, timer: bool)
    by (bit_vector)
    requires
        m == 0 || m == 0x10000,
        d & !field_mask_bits(delivery, pin, timer) == 0,
    ensures
        ((d & 0xFFFE_FFFF) | m) & !field_mask_bits(delivery, pin, timer) == 0,
        (((d & 0xFFFE_FFFF) | m) >> 8) & 7 == (d >> 8) & 7,
        (((d & 0xFFFE_FFFF) | m) >> 17) & 3 == (d >> 17) & 3,
{
}

/// Writing the polarity field leaves a canonical raw value canonical when
/// the kind is an input pin, or when the bit is being cleared.
proof fn lemma_set_polarity_wf(d: u32, p: u32, delivery: bool, pin: bool, timer: bool)
    by (bit_vector)
    requires
        p == 0 || (p == 0x2000 && pin),
        d & !field_mask_bits(delivery, pin, timer) == 0,
    ensures
        ((d & 0xFFFF_DFFF) | p) & !field_mask_bits(delivery, pin, timer) == 0,
        (((d & 0xFFFF_DFFF) | p) >> 8) & 7 == (d >> 8) & 7,
        (((d & 0xFFFF_DFFF) | p) >> 17) & 3 == (d >> 17) & 3,
{
}

/// Writing the trigger-mode field of an input pin's canonical raw value
/// leaves it canonical.
proof fn lemma_set_trigger_wf(d: u32, t: u32, delivery: bool, timer: bool)
    by (bit_vector)
    requires
        t == 0 || t == 0x8000,
        d & !field_mask_bits(delivery, true, timer) == 0,
    ensures
        ((d & 0xFFFF_7FFF) | t) & !field_mask_bits(delivery, true, timer) == 0,
        (((d & 0xFFFF_7FFF) | t) >> 8) & 7 == (d >> 8) & 7,
        (((d & 0xFFFF_7FFF) | t) >> 17) & 3 == (d >> 17) & 3,
{
}

/// Writing a defined delivery mode into a canonical raw value of a kind
/// that carries the field leaves it canonical.
proof fn lemma_set_delivery_wf(d: u32, b: u32, pin: bool, timer: bool)
    by (bit_vector)
    requires
        b < 8,
        d & !field_mask_bits(true, pin, timer) == 0,
    ensures
        ((d & 0xFFFF_F8FF) | (b << 8)) & !field_mask_bits(true, pin, timer) == 0,
        (((d & 0xFFFF_F8FF) | (b << 8)) >> 8) & 7 == b,
        (((d & 0xFFFF_F8FF) | (b << 8)) >> 17) & 3 == (d >> 17) & 3,
{
}

/// Writing a defined timer mode into the timer kind's canonical raw value
/// leaves it canonical.
proof fn lemma_set_timer_wf(d: u32, t: u32, delivery: bool, pin: bool)
    by (bit_vector)
    requires
        t < 3,
        d & !field_mask_bits(delivery, pin, true) == 0,
    ensures
        ((d & 0xFFF9_FFFF) | (t << 17)) & !field_mask_bits(delivery, pin, true) == 0,
        (((d & 0xFFF9_FFFF) | (t << 17)) >> 8) & 7 == (d >> 8) & 7,
        (((d & 0xFFF9_FFFF) | (t << 17)) >> 17) & 3 == t,
{
}

/// What decoding a raw value yields: `None` when an enumerant field that the
/// kind supports holds a reserved encoding, otherwise the entry whose raw
/// value keeps exactly the supported field bits.
pub closed spec fn spec_decode(register: LVTRegister, data: u32) -> Option<LVT> {
    if decode_ok(register, data) {
        Some(LVT { register, data: data & field_mask(register) })
    } else {
        None
    }
}

/// Round trip: encoding is the identity on decoding's image.  Every
/// canonical entry — every kind together with any values of the fields that
/// kind supports — decodes from its own raw value back to itself.
pub proof fn lemma_decode_encode(e: LVT)
    requires
        e.wf(),
    ensures
        spec_decode(e.kind(), e.raw()) == Some(e),
{
    let d = e.data;
    let delivery = supports_delivery_mode(e.register);
    let pin = is_input_pin(e.register);
    let timer = e.register is Timer;
    assert(d & !field_mask_bits(delivery, pin, timer) == 0 ==> d & field_mask_bits(
        delivery,
        pin,
        timer,
    ) == d) by (bit_vector);
}

/// One Local Vector Table entry: a register kind and its raw 32-bit value.
#[derive(Debug, Clone, Copy, PartialEq, Eq, Structural)]
pub struct LVT {
    pub(crate) register: LVTRegister,
    pub(crate) data: u32,
}

impl LVT {
    /// Bit 16 set means the interrupt source is masked.
    pub const MASKED: u32 = 1 << 16;

    /// The raw 32-bit register value of this entry.
    pub closed spec fn raw(self) -> u32 {
        self.data
    }

    /// The register kind of this entry.
    pub closed spec fn kind(self) -> LVTRegister {
        self.register
    }

    /// A canonical entry: it carries only bits of fields its kind supports,
    /// and every enumerant field holds a defined value.  Entries built by
    /// [`LVT::new`] are canonical; entries read back from hardware need not
    /// be.
    pub closed spec fn wf(self) -> bool {
        &&& self.data & !field_mask(self.register) == 0
        &&& decode_ok(self.register, self.data)
    }

    /// The raw register value.
    pub fn data(&self) -> (r: u32)
        ensures
            r == self.raw(),
    {
        self.data
    }

    /// The register kind.
    pub fn register(&self) -> (r: LVTRegister)
        ensures
            r == self.kind(),
    {
        self.register
    }

    /// Builds an entry of kind `register` directly from a raw register
    /// value, as read back from hardware.
    pub(crate) fn from_parts(register: LVTRegister, data: u32) -> (r: LVT)
        ensures
            r.kind() == register,
            r.raw() == data,
    {
        LVT { register, data }
    }

    /// Replaces the vector field, bits 0 to 7; every kind supports it.
    pub fn set_vector(&mut self, vector: u8)
        ensures
            final(self).kind() == old(self).kind(),
            final(self).raw() == (old(self).raw() & 0xFFFF_FF00) | (vector as u32),
            old(self).wf() ==> final(self).wf(),
    {
        self.data = (self.data & 0xFFFF_FF00) | (vector as u32);
        proof {
            if old(self).wf() {
                lemma_set_vector_wf(
                    old(self).data,
                    vector as u32,
                    supports_delivery_mode(self.register),
                    is_input_pin(self.register),
                    self.register is Timer,
                );
            }
        }
    }

    /// The vector field, bits 0 to 7.
    pub fn vector(&self) -> (r: u8)
        ensures
            r as u32 == self.raw() & 0xFF,
    {
        proof {
            let d = self.data;
            assert(d & 0xFF < 256 && (d & 0xFF) as u8 as u32 == d & 0xFF) by (bit_vector);
        }
        (self.data & 0xFF) as u8
    }

    /// Replaces the delivery-mode field, bits 8 to 10.
    ///
    /// The timer and error kinds do not carry this field; for them the call
    /// fails with an invalid-argument error and changes nothing.
    pub fn set_delivery_mode(&mut self, mode: DeliveryMode) -> (r: Result<(), SystemError>)
        ensures
            r is Ok <==> supports_delivery_mode(old(self).kind()),
            final(self).kind() == old(self).kind(),
            supports_delivery_mode(old(self).kind()) ==> final(self).raw() == (old(self).raw()
                & 0xFFFF_F8FF) | (delivery_mode_bits(mode) << 8),
            !supports_delivery_mode(old(self).kind()) ==> r == Err::<(), SystemError>(
                SystemError::EINVAL,
            ) && *final(self) == *old(self),
            old(self).wf() ==> final(self).wf(),
    {
        match self.register {
            LVTRegister::Timer | LVTRegister::ErrorReg => {
                return Err(SystemError::EINVAL);
            },
            _ => {},
        }
        self.data = (self.data & 0xFFFF_F8FF) | ((mode.bits() & 0x7) << 8);
        proof {
            let b = delivery_mode_bits(mode);
            assert(b < 8 ==> (b & 0x7) << 8 == b << 8) by (bit_vector);
            if old(self).wf() {
                lemma_set_delivery_wf(
                    old(self).data,
                    b,
                    is_input_pin(self.register),
                    self.register is Timer,
                );
            }
        }
        Ok(())
    }

    /// The delivery-mode field, or `None` when the kind does not carry it or
    /// the field holds a reserved encoding.
    pub fn delivery_mode(&self) -> (r: Option<DeliveryMode>)
        ensures
            r is Some <==> supports_delivery_mode(self.kind()) && valid_delivery_bits(
                self.raw() >> 8 & 7,
            ),
            r matches Some(m) ==> delivery_mode_bits(m) == self.raw() >> 8 & 7,
    {
        if let LVTRegister::Timer | LVTRegister::ErrorReg = self.register {
            return None;
        }
        proof {
            let d = self.data;
            assert(d >> 8 & 7 < 256 && ((d >> 8 & 7) as u8) as u32 == d >> 8 & 7) by (bit_vector);
        }
        DeliveryMode::try_from((self.data >> 8 & 7) as u8).ok()
    }

    /// The delivery-status field, bit 12, reported by the hardware.
    pub fn delivery_status(&self) -> (r: DeliveryStatus)
        ensures
            r is SendPending <==> self.raw() & 0x1000 != 0,
            r is Idle <==> self.raw() & 0x1000 == 0,
    {
        DeliveryStatus::from(self.data)
    }

    /// Replaces the input-pin polarity field, bit 13; `high` selects
    /// active-high signalling, recorded as a clear bit.
    pub fn set_interrupt_input_pin_polarity(&mut self, high: bool)
        ensures
            final(self).kind() == old(self).kind(),
            final(self).raw() == (old(self).raw() & 0xFFFF_DFFF) | (if high {
                0u32
            } else {
                0x2000u32
            }),
            old(self).wf() && (is_input_pin(old(self).kind()) || high) ==> final(self).wf(),
    {
        self.data = self.data & 0xFFFF_DFFF;
        if !high {
            self.data = self.data | 0x2000;
        }
        proof {
            lemma_or_zero();
            if old(self).wf() && (is_input_pin(self.register) || high) {
                lemma_set_polarity_wf(
                    old(self).data,
                    if high {
                        0u32
                    } else {
                        0x2000u32
                    },
                    supports_delivery_mode(self.register),
                    is_input_pin(self.register),
                    self.register is Timer,
                );
            }
        }
    }

    /// The input-pin polarity field: `true` means active-high.
    pub fn interrupt_input_pin_polarity(&self) -> (r: bool)
        ensures
            r <==> self.raw() & 0x2000 == 0,
    {
        self.data & 0x2000 == 0
    }

    /// Replaces the trigger-mode field, bit 15.
    ///
    /// Only the two input-pin kinds carry this field; for every other kind
    /// the call fails with an invalid-argument error and changes nothing.
    pub fn set_trigger_mode(&mut self, trigger_mode: TriggerMode) -> (r: Result<(), SystemError>)
        ensures
            r is Ok <==> is_input_pin(old(self).kind()),
            final(self).kind() == old(self).kind(),
            is_input_pin(old(self).kind()) ==> final(self).raw() == (old(self).raw() & 0xFFFF_7FFF)
                | (if trigger_mode is Level {
                0x8000u32
            } else {
                0u32
            }),
            !is_input_pin(old(self).kind()) ==> r == Err::<(), SystemError>(SystemError::EINVAL)
                && *final(self) == *old(self),
            old(self).wf() ==> final(self).wf(),
    {
        match self.register {
            LVTRegister::LINT0 | LVTRegister::LINT1 => {
                self.data = self.data & 0xFFFF_7FFF;
                if trigger_mode == TriggerMode::Level {
                    self.data = self.data | 0x8000;
                }
                proof {
                    lemma_or_zero();
                    if old(self).wf() {
                        lemma_set_trigger_wf(
                            old(self).data,
                            if trigger_mode is Level {
                                0x8000u32
                            } else {
                                0u32
                            },
                            supports_delivery_mode(self.register),
                            self.register is Timer,
                        );
                    }
                }
                Ok(())
            },
            _ => Err(SystemError::EINVAL),
        }
    }

    /// The trigger-mode field, or `None` when the kind does not carry it.
    pub fn trigger_mode(&self) -> (r: Option<TriggerMode>)
        ensures
            r is Some <==> is_input_pin(self.kind()),
            r matches Some(m) ==> (m is Level <==> self.raw() & 0x8000 != 0),
    {
        match self.register {
            LVTRegister::LINT0 | LVTRegister::LINT1 => {
                if self.data & 0x8000 != 0 {
                    Some(TriggerMode::Level)
                } else {
                    Some(TriggerMode::Edge)
                }
            },
            _ => None,
        }
    }

    /// Replaces the mask field, bit 16; every kind supports it.  `true`
    /// masks the interrupt source.
    pub fn set_mask(&mut self, mask: bool)
        ensures
            final(self).kind() == old(self).kind(),
            final(self).raw() == (old(self).raw() & 0xFFFE_FFFF) | (if mask {
                0x10000u32
            } else {
                0u32
            }),
            old(self).wf() ==> final(self).wf(),
    {
        self.data = self.data & 0xFFFE_FFFF;
        if mask {
            self.data = self.data | 0x10000;
        }
        proof {
            lemma_or_zero();
            if old(self).wf() {
                lemma_set_mask_wf(
                    old(self).data,
                    if mask {
                        0x10000u32
                    } else {
                        0u32
                    },
                    supports_delivery_mode(self.register),
                    is_input_pin(self.register),
                    self.register is Timer,
                );
            }
        }
    }

    /// The mask field: `true` means the interrupt source is masked.
    pub fn mask(&self) -> (r: bool)
        ensures
            r <==> self.raw() & 0x10000 != 0,
    {
        self.data & 0x10000 != 0
    }

    /// Replaces the timer-mode field, bits 17 and 18.
    ///
    /// Only the timer kind carries this field; for every other kind the call
    /// fails with an invalid-argument error and changes nothing.
    pub fn set_timer_mode(&mut self, mode: ApicTimerMode) -> (r: Result<(), SystemError>)
        ensures
            r is Ok <==> old(self).kind() is Timer,
            final(self).kind() == old(self).kind(),
            old(self).kind() is Timer ==> final(self).raw() == (old(self).raw() & 0xFFF9_FFFF) | (
            timer_mode_bits(mode) << 17),
            !(old(self).kind() is Timer) ==> r == Err::<(), SystemError>(SystemError::EINVAL)
                && *final(self) == *old(self),
            old(self).wf() ==> final(self).wf(),
    {
        match self.register {
            LVTRegister::Timer => {
                self.data = self.data & 0xFFF9_FFFF;
                match mode {
                    ApicTimerMode::OneShot => {},
                    ApicTimerMode::Periodic => {
                        self.data = self.data | 0x20000;
                    },
                    ApicTimerMode::TSCDeadline => {
                        self.data = self.data | 0x40000;
                    },
                }
                proof {
                    lemma_or_zero();
                    assert(0u32 << 17 == 0u32 && 1u32 << 17 == 0x20000u32 && 2u32 << 17
                        == 0x40000u32) by (bit_vector);
                    if old(self).wf() {
                        lemma_set_timer_wf(
                            old(self).data,
                            timer_mode_bits(mode),
                            supports_delivery_mode(self.register),
                            is_input_pin(self.register),
                        );
                    }
                }
                Ok(())
            },
            _ => Err(SystemError::EINVAL),
        }
    }

    /// Decodes a raw 32-bit register value into an entry of kind `register`.
    ///
    /// Decoding keeps exactly the fields the kind supports and drops every
    /// other bit, so the result is canonical.  It fails when an enumerant
    /// field that the kind supports holds a reserved encoding, rather than
    /// silently truncating it.
    pub fn new(register: LVTRegister, data: u32) -> (r: Option<LVT>)
        ensures
            r == spec_decode(register, data),
            r is Some <==> decode_ok(register, data),
            r matches Some(e) ==> e.kind() == register && e.raw() == (data & field_mask(register))
                && e.wf(),
    {
        proof {
            let d = data;
            assert((d & 0xFF) as u8 as u32 == d & 0xFF && ((d >> 8 & 7) as u8) as u32 == d >> 8
                & 7 && ((d >> 17 & 3) as u8) as u32 == d >> 17 & 3 && d & 0xFF < 256 && d >> 8 & 7
                < 256 && d >> 17 & 3 < 4) by (bit_vector);
        }
        let mut result = LVT { register, data: 0 };
        result.set_vector((data & 0xFF) as u8);
        match result.register {
            LVTRegister::Timer | LVTRegister::ErrorReg => {},
            _ => {
                match DeliveryMode::try_from((data >> 8 & 7) as u8) {
                    Ok(mode) => {
                        if result.set_delivery_mode(mode).is_err() {
                            return None;
                        }
                    },
                    Err(_) => {
                        return None;
                    },
                }
            },
        }
        if let LVTRegister::LINT0 | LVTRegister::LINT1 = result.register {
            result.set_interrupt_input_pin_polarity(data & 0x2000 == 0);
            if data & 0x8000 != 0 {
                if result.set_trigger_mode(TriggerMode::Level).is_err() {
                    return None;
                }
            } else {
                if result.set_trigger_mode(TriggerMode::Edge).is_err() {
                    return None;
                }
            }
        }
        result.set_mask(data & 0x10000 != 0);
        if let LVTRegister::Timer = result.register {
            match ApicTimerMode::try_from((data >> 17 & 3) as u8) {
                Ok(mode) => {
                    if result.set_timer_mode(mode).is_err() {
                        return None;
                    }
                },
                Err(_) => {
                    return None;
                },
            }
        }
        proof {
            lemma_field_mask_values();
            lemma_decode_composition(data);
            lemma_canonical_fields(data);
        }
        Some(result)
    }

    /// The timer-mode field, or `None` when the kind is not the timer or the
    /// field holds the reserved encoding.
    pub fn timer_mode(&self) -> (r: Option<ApicTimerMode>)
        ensures
            r is Some <==> self.kind() is Timer && self.raw() >> 17 & 3 != 3,
            r matches Some(m) ==> timer_mode_bits(m) == self.raw() >> 17 & 3,
    {
        if let LVTRegister::Timer = self.register {
            let mode = self.data >> 17 & 3;
            proof {
                let d = self.data;
                assert(d >> 17 & 3 < 4) by (bit_vector);
            }
            match mode {
                0 => Some(ApicTimerMode::OneShot),
                1 => Some(ApicTimerMode::Periodic),
                2 => Some(ApicTimerMode::TSCDeadline),
                _ => None,
            }
        } else {
            None
        }
    }
}

} // verus!
