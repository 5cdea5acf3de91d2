//! Power management.
//!
//! [`Pwr`] is an image of the power controller's registers. The functions
//! below decide what is written and change the image. After a call, whoever
//! owns the hardware writes the fields that the call has set, and no other:
//! the voltage scaling, the low-power run bit, or the low-power mode, and
//! for standby and shutdown control register 3 and the status clear register
//! before the mode. It reads the status register into the image before the
//! wake-up reason is asked for.

use vstd::prelude::*;
use fugit::RateExtU32;

verus! {

/// The highest system clock frequency at which the low-power voltage range
/// may be selected, in megahertz.
pub const LOW_POWER_RANGE_MAX_MHZ: u32 = 26;

/// The highest system clock frequency at which low-power run mode may be
/// entered, in megahertz.
pub const LOW_POWER_RUN_MAX_MHZ: u32 = 2;

/// PWR error
#[non_exhaustive]
#[derive(Clone, Copy, Debug, PartialEq, Eq, Structural)]
pub enum Error {
    /// The regulator cannot be switched to the low-power voltage range: the
    /// system clock is faster than 26 MHz.
    SysClkTooHighVos,
    /// The system cannot be switched to low-power run mode: the system clock
    /// is faster than 2 MHz.
    SysClkTooHighLpr,
}

/// The range of the dynamic voltage regulator.
#[derive(Clone, Copy, Debug, PartialEq, Eq, Structural)]
pub enum VosRange {
    /// High-performance range, 1.2 V, up to 80 MHz.
    HighPerformance,
    /// Low-power range, 1.0 V, up to 26 MHz.
    LowPower,
}

impl VosRange {
    /// The value of the voltage scaling field.
    pub open spec fn vos_bits(self) -> u8 {
        match self {
            VosRange::HighPerformance => 0b01,
            VosRange::LowPower => 0b10,
        }
    }

    /// The value of the voltage scaling field.
    pub fn bits(self) -> (bits: u8)
        ensures
            bits == self.vos_bits(),
    {
        match self {
            VosRange::HighPerformance => 0b01,
            VosRange::LowPower => 0b10,
        }
    }
}

/// The low-power modes that are entered by a wait instruction.
#[derive(Clone, Copy, Debug, PartialEq, Eq, Structural)]
pub enum LowPowerMode {
    Stop0,
    Stop1,
    Stop2,
    Standby,
    Shutdown,
}

impl LowPowerMode {
    /// The value of the low-power mode selection field.
    pub open spec fn lpms_bits(self) -> u8 {
        match self {
            LowPowerMode::Stop0 => 0b000,
            LowPowerMode::Stop1 => 0b001,
            LowPowerMode::Stop2 => 0b010,
            LowPowerMode::Standby => 0b011,
            LowPowerMode::Shutdown => 0b100,
        }
    }

    /// The value of the low-power mode selection field.
    pub fn bits(self) -> (bits: u8)
        ensures
            bits == self.lpms_bits(),
    {
        match self {
            LowPowerMode::Stop0 => 0b000,
            LowPowerMode::Stop1 => 0b001,
            LowPowerMode::Stop2 => 0b010,
            LowPowerMode::Standby => 0b011,
            LowPowerMode::Shutdown => 0b100,
        }
    }
}

/// Bit `bit` of `bits`.
pub open spec fn bit_of(bits: u16, bit: u16) -> bool {
    bits & (1u16 << bit) != 0
}

/// `bits` with bit `bit` set to `value`.
pub open spec fn with_bit(bits: u16, bit: u16, value: bool) -> u16 {
    if value {
        bits | (1u16 << bit)
    } else {
        bits & !(1u16 << bit)
    }
}

/// Writing a bit gives that bit the value and leaves every other bit as it
/// was.
pub proof fn lemma_with_bit(bits: u16, bit: u16, value: bool, other: u16)
    requires
        bit < 16,
        other < 16,
    ensures
        bit_of(with_bit(bits, bit, value), bit) == value,
        other != bit ==> bit_of(with_bit(bits, bit, value), other) == bit_of(bits, other),
{
    assert(bit < 16 ==> ((bits | (1u16 << bit)) & (1u16 << bit) != 0)) by (bit_vector);
    assert(bit < 16 ==> ((bits & !(1u16 << bit)) & (1u16 << bit) == 0)) by (bit_vector);
    assert(bit < 16 && other < 16 && other != bit ==> ((bits | (1u16 << bit)) & (1u16 << other))
        == (bits & (1u16 << other))) by (bit_vector);
    assert(bit < 16 && other < 16 && other != bit ==> ((bits & !(1u16 << bit)) & (1u16 << other))
        == (bits & (1u16 << other))) by (bit_vector);
}

/// Whether `after` is `before` but for bit `bit`.
pub open spec fn same_but(before: u16, after: u16, bit: u16) -> bool {
    forall|other: u16| other < 16 && other != bit ==> bit_of(after, other) == bit_of(before, other)
}

/// The sources that can wake the system up from standby or shutdown, one bit
/// each: the five wake-up pins in bits 0 to 4 and the internal wake-up line
/// in bit 15.
#[derive(Clone, Copy, Debug, PartialEq, Eq, Structural)]
pub struct WakeUpSource(pub u16);

impl WakeUpSource {
    /// Reads bit `bit`.
    fn bit(&self, bit: u16) -> (set: bool)
        requires
            bit < 16,
        ensures
            set == bit_of(self.0, bit),
    {
        self.0 & (1u16 << bit) != 0
    }

    /// Writes bit `bit`.
    fn set_bit(&mut self, bit: u16, value: bool)
        requires
            bit < 16,
        ensures
            final(self).0 == with_bit(old(self).0, bit, value),
            bit_of(final(self).0, bit) == value,
            same_but(old(self).0, final(self).0, bit),
    {
        if value {
            self.0 = self.0 | (1u16 << bit);
        } else {
            self.0 = self.0 & !(1u16 << bit);
        }
        proof {
            lemma_with_bit(old(self).0, bit, value, bit);
            assert forall|other: u16| other < 16 && other != bit implies bit_of(self.0, other)
                == bit_of(old(self).0, other) by {
                lemma_with_bit(old(self).0, bit, value, other);
            }
        }
    }

    /// Wake-up pin 1.
    pub fn wkup1(&self) -> (set: bool)
        ensures
            set == bit_of(self.0, 0),
    {
        self.bit(0)
    }

    /// Wake-up pin 2.
    pub fn wkup2(&self) -> (set: bool)
        ensures
            set == bit_of(self.0, 1),
    {
        self.bit(1)
    }

    /// Wake-up pin 3.
    pub fn wkup3(&self) -> (set: bool)
        ensures
            set == bit_of(self.0, 2),
    {
        self.bit(2)
    }

    /// Wake-up pin 4.
    pub fn wkup4(&self) -> (set: bool)
        ensures
            set == bit_of(self.0, 3),
    {
        self.bit(3)
    }

    /// Wake-up pin 5.
    pub fn wkup5(&self) -> (set: bool)
        ensures
            set == bit_of(self.0, 4),
    {
        self.bit(4)
    }

    /// The internal wake-up line.
    pub fn internal_wkup(&self) -> (set: bool)
        ensures
            set == bit_of(self.0, 15),
    {
        self.bit(15)
    }

    /// Sets or clears wake-up pin 1.
    pub fn set_wkup1(&mut self, value: bool)
        ensures
            final(self).0 == with_bit(old(self).0, 0, value),
            bit_of(final(self).0, 0) == value,
            same_but(old(self).0, final(self).0, 0),
    {
        self.set_bit(0, value);
    }

    /// Sets or clears wake-up pin 2.
    pub fn set_wkup2(&mut self, value: bool)
        ensures
            final(self).0 == with_bit(old(self).0, 1, value),
            bit_of(final(self).0, 1) == value,
            same_but(old(self).0, final(self).0, 1),
    {
        self.set_bit(1, value);
    }

    /// Sets or clears wake-up pin 3.
    pub fn set_wkup3(&mut self, value: bool)
        ensures
            final(self).0 == with_bit(old(self).0, 2, value),
            bit_of(final(self).0, 2) == value,
            same_but(old(self).0, final(self).0, 2),
    {
        self.set_bit(2, value);
    }

    /// Sets or clears wake-up pin 4.
    pub fn set_wkup4(&mut self, value: bool)
        ensures
            final(self).0 == with_bit(old(self).0, 3, value),
            bit_of(final(self).0, 3) == value,
            same_but(old(self).0, final(self).0, 3),
    {
        self.set_bit(3, value);
    }

    /// Sets or clears wake-up pin 5.
    pub fn set_wkup5(&mut self, value: bool)
        ensures
            final(self).0 == with_bit(old(self).0, 4, value),
            bit_of(final(self).0, 4) == value,
            same_but(old(self).0, final(self).0, 4),
    {
        self.set_bit(4, value);
    }

    /// Sets or clears the internal wake-up line.
    pub fn set_internal_wkup(&mut self, value: bool)
        ensures
            final(self).0 == with_bit(old(self).0, 15, value),
            bit_of(final(self).0, 15) == value,
            same_but(old(self).0, final(self).0, 15),
    {
        self.set_bit(15, value);
    }
}

/// Bits `lsb` to `msb` of `bits`, moved down to bit 0.
pub open spec fn bits_of(bits: u16, msb: usize, lsb: usize) -> u32 {
    ((bits as u32) >> (lsb as u32)) & (((1u32 << ((msb - lsb + 1) as u32)) - 1) as u32)
}

/// Calls `bitfield::BitRange::<u32>::bit_range` on a 16-bit value, which
/// returns the bits from `lsb` up to `msb` as a number. It is not called
/// with `msb` below `lsb` or beyond bit 15, where its shifts overflow.
#[verifier::external_body]
fn bit_range(bits: u16, msb: usize, lsb: usize) -> (field: u32)
    requires
        lsb <= msb < 16,
    ensures
        field == bits_of(bits, msb, lsb),
{
    bitfield::BitRange::<u32>::bit_range(&bits, msb, lsb)
}

/// Calls `fugit`'s comparison of two rates in hertz, the second made by
/// `fugit::RateExtU32::MHz`: whether `sysclk_hz` hertz is more than
/// `limit_mhz` megahertz. The limit stays below the 4295 MHz from which the
/// conversion to hertz overflows.
#[verifier::external_body]
fn sysclk_exceeds(sysclk_hz: u32, limit_mhz: u32) -> (over: bool)
    requires
        limit_mhz <= 4294,
    ensures
        over == (sysclk_hz > limit_mhz * 1_000_000),
{
    fugit::HertzU32::from_raw(sysclk_hz) > limit_mhz.MHz::<1, 1>()
}

/// Proof that a low-power mode has been selected. It is to be handed to the
/// wait instruction that enters the mode: without one the mode is not
/// entered.
#[must_use]
#[derive(Debug, PartialEq, Eq)]
pub struct LowPowerModeGuard {
    mode: LowPowerMode,
}

impl LowPowerModeGuard {
    /// The mode that was selected.
    pub closed spec fn selected(&self) -> LowPowerMode {
        self.mode
    }

    /// The mode that was selected.
    pub fn mode(&self) -> (mode: LowPowerMode)
        ensures
            mode == self.selected(),
    {
        self.mode
    }
}

/// Image of control register 1.
#[derive(Clone, Copy, Debug, PartialEq, Eq, Structural)]
pub struct CR1 {
    /// Voltage scaling range.
    pub vos: u8,
    /// Low-power run.
    pub lpr: bool,
    /// Low-power mode selection.
    pub lpms: u8,
}

/// Image of control register 2.
#[derive(Clone, Copy, Debug, PartialEq, Eq, Structural)]
pub struct CR2 {
    pub bits: u32,
}

/// Image of control register 3. The register is written as a whole with
/// `bits`; after that the internal wake-up line is enabled if `ewf` is set.
#[derive(Clone, Copy, Debug, PartialEq, Eq, Structural)]
pub struct CR3 {
    pub bits: u32,
    /// Enable the internal wake-up line.
    pub ewf: bool,
}

/// Image of control register 4.
#[derive(Clone, Copy, Debug, PartialEq, Eq, Structural)]
pub struct CR4 {
    pub bits: u32,
}

/// Image of the status clear register. A flag that is set clears the wake-up
/// flag of that pin, or the standby flag.
#[derive(Clone, Copy, Debug, PartialEq, Eq, Structural)]
pub struct SCR {
    pub wuf1: bool,
    pub wuf2: bool,
    pub wuf3: bool,
    pub wuf4: bool,
    pub wuf5: bool,
    pub sbf: bool,
}

impl SCR {
    /// Every flag is set.
    pub open spec fn all() -> SCR {
        SCR { wuf1: true, wuf2: true, wuf3: true, wuf4: true, wuf5: true, sbf: true }
    }
}

/// Image of status register 1.
#[derive(Clone, Copy, Debug, PartialEq, Eq, Structural)]
pub struct SR1 {
    pub bits: u32,
}

/// Image of the power controller's registers.
#[derive(Clone, Copy, Debug, PartialEq, Eq, Structural)]
pub struct Pwr {
    pub cr1: CR1,
    pub cr2: CR2,
    pub cr3: CR3,
    pub cr4: CR4,
    pub scr: SCR,
    pub sr1: SR1,
}

/// Extension trait that constrains the power controller peripheral.
pub trait PwrExt {
    /// Takes the peripheral and gives the image of its registers.
    fn constrain(self) -> Pwr;
}

impl Pwr {
    /// The image after `mode` was selected.
    pub open spec fn selecting(self, mode: LowPowerMode) -> Pwr {
        Pwr { cr1: CR1 { lpms: mode.lpms_bits(), ..self.cr1 }, ..self }
    }

    /// The image after the wake-up sources of `wkup` were armed and `mode`
    /// was selected: the low eight bits of `wkup` are written to control
    /// register 3, the internal wake-up line follows bit 15, and all wake-up
    /// flags and the standby flag are cleared.
    pub open spec fn arming(self, mode: LowPowerMode, wkup: WakeUpSource) -> Pwr {
        Pwr {
            cr3: CR3 { bits: (wkup.0 & 0xFF) as u32, ewf: bit_of(wkup.0, 15) },
            scr: SCR::all(),
            ..self
        }.selecting(mode)
    }

    /// Configures the range of the dynamic voltage regulator for a system
    /// clock of `sysclk_hz` hertz. The low-power range is refused above
    /// 26 MHz.
    pub fn set_power_range(&mut self, range: VosRange, sysclk_hz: u32) -> (r: Result<(), Error>)
        ensures
            r is Err <==> range is LowPower && sysclk_hz > LOW_POWER_RANGE_MAX_MHZ * 1_000_000,
            r is Err ==> r == Err::<(), Error>(Error::SysClkTooHighVos) && *final(self) == *old(
                self,
            ),
            r is Ok ==> *final(self) == (Pwr {
                cr1: CR1 { vos: range.vos_bits(), ..old(self).cr1 },
                ..*old(self)
            }),
    {
        match range {
            VosRange::HighPerformance => {
                self.cr1.vos = VosRange::HighPerformance.bits();
                Ok(())
            },
            VosRange::LowPower => {
                if sysclk_exceeds(sysclk_hz, LOW_POWER_RANGE_MAX_MHZ) {
                    Err(Error::SysClkTooHighVos)
                } else {
                    self.cr1.vos = VosRange::LowPower.bits();
                    Ok(())
                }
            },
        }
    }

    /// Switches the system into low-power run mode, on a system clock of
    /// `sysclk_hz` hertz. The mode is refused above 2 MHz.
    pub fn low_power_run(&mut self, sysclk_hz: u32) -> (r: Result<(), Error>)
        ensures
            r is Err <==> sysclk_hz > LOW_POWER_RUN_MAX_MHZ * 1_000_000,
            r is Err ==> r == Err::<(), Error>(Error::SysClkTooHighLpr) && *final(self) == *old(
                self,
            ),
            r is Ok ==> *final(self) == (Pwr {
                cr1: CR1 { lpr: true, ..old(self).cr1 },
                ..*old(self)
            }),
    {
        if sysclk_exceeds(sysclk_hz, LOW_POWER_RUN_MAX_MHZ) {
            Err(Error::SysClkTooHighLpr)
        } else {
            self.cr1.lpr = true;
            Ok(())
        }
    }

    /// Selects a low-power mode.
    fn enter_low_power_mode(&mut self, mode: LowPowerMode) -> (guard: LowPowerModeGuard)
        ensures
            *final(self) == old(self).selecting(mode),
            guard.selected() == mode,
    {
        self.cr1.lpms = mode.bits();
        LowPowerModeGuard { mode }
    }

    /// Enter “Stop 0” low power mode.
    pub fn stop0(&mut self) -> (guard: LowPowerModeGuard)
        ensures
            *final(self) == old(self).selecting(LowPowerMode::Stop0),
            guard.selected() == LowPowerMode::Stop0,
    {
        self.enter_low_power_mode(LowPowerMode::Stop0)
    }

    /// Enter “Stop 1” low power mode.
    pub fn stop1(&mut self) -> (guard: LowPowerModeGuard)
        ensures
            *final(self) == old(self).selecting(LowPowerMode::Stop1),
            guard.selected() == LowPowerMode::Stop1,
    {
        self.enter_low_power_mode(LowPowerMode::Stop1)
    }

    /// Enter “Stop 2” low power mode.
    pub fn stop2(&mut self) -> (guard: LowPowerModeGuard)
        ensures
            *final(self) == old(self).selecting(LowPowerMode::Stop2),
            guard.selected() == LowPowerMode::Stop2,
    {
        self.enter_low_power_mode(LowPowerMode::Stop2)
    }

    /// Arms the wake-up sources and selects standby or shutdown.
    fn enter_shutdown_or_standby(&mut self, mode: LowPowerMode, wkup: &WakeUpSource) -> (guard:
        LowPowerModeGuard)
        ensures
            *final(self) == old(self).arming(mode, *wkup),
            guard.selected() == mode,
    {
        let bits = bit_range(wkup.0, 7, 0);
        assert(bits == (wkup.0 & 0xFF) as u32) by {
            let w = wkup.0;
            assert((((w as u32) >> 0u32) & (((1u32 << 8u32) - 1) as u32)) == (w & 0xFF) as u32)
                by (bit_vector);
        }
        self.cr3.bits = bits;
        self.cr3.ewf = wkup.internal_wkup();
        self.scr = SCR { wuf1: true, wuf2: true, wuf3: true, wuf4: true, wuf5: true, sbf: true };
        self.enter_low_power_mode(mode)
    }

    /// Enters “Standby” low power mode.
    pub fn standby(&mut self, wkup: &WakeUpSource) -> (guard: LowPowerModeGuard)
        ensures
            *final(self) == old(self).arming(LowPowerMode::Standby, *wkup),
            guard.selected() == LowPowerMode::Standby,
    {
        self.enter_shutdown_or_standby(LowPowerMode::Standby, wkup)
    }

    /// Enters “Shutdown” low power mode.
    pub fn shutdown(&mut self, wkup: &WakeUpSource) -> (guard: LowPowerModeGuard)
        ensures
            *final(self) == old(self).arming(LowPowerMode::Shutdown, *wkup),
            guard.selected() == LowPowerMode::Shutdown,
    {
        self.enter_shutdown_or_standby(LowPowerMode::Shutdown, wkup)
    }

    /// Returns the reason why the system woke up from shutdown: the low 16
    /// bits of status register 1, one flag for each source. More than one
    /// flag can be set.
    pub fn read_wakeup_reason(&mut self) -> (reason: WakeUpSource)
        ensures
            reason.0 == (old(self).sr1.bits & 0xFFFF) as u16,
            *final(self) == *old(self),
    {
        WakeUpSource((self.sr1.bits & 0xFFFF) as u16)
    }
}

} // verus!
