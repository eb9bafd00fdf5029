//! Acquisition timing: the values a caller may choose, their register codes,
//! and the control word that carries them.

use vstd::prelude::*;

use crate::registers::{
    CR_CTPH_SHIFT, CR_CTPL_SHIFT, CR_IODEF, CR_MCV_SHIFT, CR_PGPSC_SHIFT, CR_SSD_SHIFT, CR_SSE,
    CR_START, CR_TSCE, SPREAD_SPECTRUM_DEVIATION,
};

verus! {

/// The divider between the bus clock and the pulse generator.
#[derive(Clone, Copy, Debug, PartialEq, Eq)]
pub enum ClockPrescaler {
    Hclk,
    HclkDiv2,
    HclkDiv4,
    HclkDiv8,
    HclkDiv16,
    HclkDiv32,
    HclkDiv64,
    HclkDiv128,
}

impl ClockPrescaler {
    /// By how much the bus clock is divided.
    pub open spec fn divisor(self) -> nat {
        match self {
            ClockPrescaler::Hclk => 1,
            ClockPrescaler::HclkDiv2 => 2,
            ClockPrescaler::HclkDiv4 => 4,
            ClockPrescaler::HclkDiv8 => 8,
            ClockPrescaler::HclkDiv16 => 16,
            ClockPrescaler::HclkDiv32 => 32,
            ClockPrescaler::HclkDiv64 => 64,
            ClockPrescaler::HclkDiv128 => 128,
        }
    }

    /// The three-bit code of the prescaler field.
    pub open spec fn code(self) -> u8 {
        match self {
            ClockPrescaler::Hclk => 0,
            ClockPrescaler::HclkDiv2 => 1,
            ClockPrescaler::HclkDiv4 => 2,
            ClockPrescaler::HclkDiv8 => 3,
            ClockPrescaler::HclkDiv16 => 4,
            ClockPrescaler::HclkDiv32 => 5,
            ClockPrescaler::HclkDiv64 => 6,
            ClockPrescaler::HclkDiv128 => 7,
        }
    }

    /// The code of the prescaler field is the binary logarithm of the
    /// divisor.
    pub proof fn lemma_code_is_log_of_divisor(self)
        ensures
            self.code() < 8,
            1u32 << self.code() == self.divisor(),
    {
        assert(1u32 << 0u8 == 1 && 1u32 << 1u8 == 2 && 1u32 << 2u8 == 4 && 1u32 << 3u8 == 8 && 1u32
            << 4u8 == 16 && 1u32 << 5u8 == 32 && 1u32 << 6u8 == 64 && 1u32 << 7u8 == 128)
            by (bit_vector);
    }

    /// The value of the prescaler field for this divider.
    pub fn bits(&self) -> (b: u8)
        ensures
            b == self.code(),
    {
        match self {
            ClockPrescaler::Hclk => 0b000,
            ClockPrescaler::HclkDiv2 => 0b001,
            ClockPrescaler::HclkDiv4 => 0b010,
            ClockPrescaler::HclkDiv8 => 0b011,
            ClockPrescaler::HclkDiv16 => 0b100,
            ClockPrescaler::HclkDiv32 => 0b101,
            ClockPrescaler::HclkDiv64 => 0b110,
            ClockPrescaler::HclkDiv128 => 0b111,
        }
    }
}

/// The ceiling on charge-transfer cycles: a group counter that reaches it
/// ends the acquisition with a max-count error.
#[derive(Clone, Copy, Debug, PartialEq, Eq)]
pub enum MaxCount {
    /// 255
    U255,
    /// 511
    U511,
    /// 1023
    U1023,
    /// 2047
    U2047,
    /// 4095
    U4095,
    /// 8191
    U8191,
    /// 16383
    U16383,
}

impl MaxCount {
    /// The highest count that an acquisition may reach.
    pub open spec fn ceiling(self) -> nat {
        match self {
            MaxCount::U255 => 255,
            MaxCount::U511 => 511,
            MaxCount::U1023 => 1023,
            MaxCount::U2047 => 2047,
            MaxCount::U4095 => 4095,
            MaxCount::U8191 => 8191,
            MaxCount::U16383 => 16383,
        }
    }

    /// The three-bit code of the max-count field.
    pub open spec fn code(self) -> u8 {
        match self {
            MaxCount::U255 => 0,
            MaxCount::U511 => 1,
            MaxCount::U1023 => 2,
            MaxCount::U2047 => 3,
            MaxCount::U4095 => 4,
            MaxCount::U8191 => 5,
            MaxCount::U16383 => 6,
        }
    }

    /// Each step of the code doubles the range of the counter, starting from
    /// eight bits.
    pub proof fn lemma_code_doubles_ceiling(self)
        ensures
            self.code() < 7,
            256u32 << self.code() == self.ceiling() + 1,
    {
        assert(256u32 << 0u8 == 256 && 256u32 << 1u8 == 512 && 256u32 << 2u8 == 1024 && 256u32
            << 3u8 == 2048 && 256u32 << 4u8 == 4096 && 256u32 << 5u8 == 8192 && 256u32 << 6u8
            == 16384) by (bit_vector);
    }

    /// The value of the max-count field for this ceiling.
    pub fn bits(&self) -> (b: u8)
        ensures
            b == self.code(),
    {
        match self {
            MaxCount::U255 => 0b000,
            MaxCount::U511 => 0b001,
            MaxCount::U1023 => 0b010,
            MaxCount::U2047 => 0b011,
            MaxCount::U4095 => 0b100,
            MaxCount::U8191 => 0b101,
            MaxCount::U16383 => 0b110,
        }
    }
}

/// How many pulse-generator cycles are spent charging, or discharging, in
/// each charge-transfer step.
#[derive(Clone, Copy, Debug, PartialEq, Eq)]
pub enum ChargeDischargeTime {
    C1,
    C2,
    C3,
    C4,
    C5,
    C6,
    C7,
    C8,
    C9,
    C10,
    C11,
    C12,
    C13,
    C14,
    C15,
    C16,
}

impl ChargeDischargeTime {
    /// The number of cycles.
    pub open spec fn cycles(self) -> nat {
        match self {
            ChargeDischargeTime::C1 => 1,
            ChargeDischargeTime::C2 => 2,
            ChargeDischargeTime::C3 => 3,
            ChargeDischargeTime::C4 => 4,
            ChargeDischargeTime::C5 => 5,
            ChargeDischargeTime::C6 => 6,
            ChargeDischargeTime::C7 => 7,
            ChargeDischargeTime::C8 => 8,
            ChargeDischargeTime::C9 => 9,
            ChargeDischargeTime::C10 => 10,
            ChargeDischargeTime::C11 => 11,
            ChargeDischargeTime::C12 => 12,
            ChargeDischargeTime::C13 => 13,
            ChargeDischargeTime::C14 => 14,
            ChargeDischargeTime::C15 => 15,
            ChargeDischargeTime::C16 => 16,
        }
    }

    /// The four-bit code of a charge-transfer field: one less than the number
    /// of cycles.
    pub open spec fn code(self) -> u8 {
        (self.cycles() - 1) as u8
    }

    /// The value of a charge-transfer field for this duration.
    pub fn bits(&self) -> (b: u8)
        ensures
            b == self.code(),
            b < 16,
    {
        match self {
            ChargeDischargeTime::C1 => 0b0000,
            ChargeDischargeTime::C2 => 0b0001,
            ChargeDischargeTime::C3 => 0b0010,
            ChargeDischargeTime::C4 => 0b0011,
            ChargeDischargeTime::C5 => 0b0100,
            ChargeDischargeTime::C6 => 0b0101,
            ChargeDischargeTime::C7 => 0b0110,
            ChargeDischargeTime::C8 => 0b0111,
            ChargeDischargeTime::C9 => 0b1000,
            ChargeDischargeTime::C10 => 0b1001,
            ChargeDischargeTime::C11 => 0b1010,
            ChargeDischargeTime::C12 => 0b1011,
            ChargeDischargeTime::C13 => 0b1100,
            ChargeDischargeTime::C14 => 0b1101,
            ChargeDischargeTime::C15 => 0b1110,
            ChargeDischargeTime::C16 => 0b1111,
        }
    }
}

/// The timing of an acquisition. A field left at `None` takes its default.
#[derive(Clone, Copy, Debug, PartialEq, Eq)]
pub struct Config {
    pub clock_prescale: Option<ClockPrescaler>,
    pub max_count: Option<MaxCount>,
    pub charge_transfer_high: Option<ChargeDischargeTime>,
    pub charge_transfer_low: Option<ChargeDischargeTime>,
}

impl Config {
    /// The configuration that leaves every choice to the defaults.
    pub open spec fn unset() -> Config {
        Config {
            clock_prescale: None,
            max_count: None,
            charge_transfer_high: None,
            charge_transfer_low: None,
        }
    }

    /// The prescaler in effect: divide by 16 unless chosen otherwise.
    pub open spec fn prescaler(self) -> ClockPrescaler {
        match self.clock_prescale {
            Some(p) => p,
            None => ClockPrescaler::HclkDiv16,
        }
    }

    /// The count ceiling in effect: 8191 unless chosen otherwise.
    pub open spec fn ceiling(self) -> MaxCount {
        match self.max_count {
            Some(m) => m,
            None => MaxCount::U8191,
        }
    }

    /// The charge duration in effect: two cycles unless chosen otherwise.
    pub open spec fn charge_high(self) -> ChargeDischargeTime {
        match self.charge_transfer_high {
            Some(t) => t,
            None => ChargeDischargeTime::C2,
        }
    }

    /// The discharge duration in effect: two cycles unless chosen otherwise.
    pub open spec fn charge_low(self) -> ChargeDischargeTime {
        match self.charge_transfer_low {
            Some(t) => t,
            None => ChargeDischargeTime::C2,
        }
    }

    /// The control word for this configuration: the four timing fields, the
    /// fixed spread-spectrum deviation with spread spectrum switched on, and
    /// the enable bit. Every other bit is clear.
    pub open spec fn word(self) -> u32 {
        (self.charge_high().code() as u32) << CR_CTPH_SHIFT | (self.charge_low().code() as u32)
            << CR_CTPL_SHIFT | SPREAD_SPECTRUM_DEVIATION << CR_SSD_SHIFT | CR_SSE | (
        self.prescaler().code() as u32) << CR_PGPSC_SHIFT | (self.ceiling().code() as u32)
            << CR_MCV_SHIFT | CR_TSCE
    }

    /// Computes the control word that programs this configuration.
    pub fn control_word(&self) -> (word: u32)
        ensures
            word == self.word(),
    {
        let high: u8 = match self.charge_transfer_high {
            Some(t) => t.bits(),
            None => ChargeDischargeTime::C2.bits(),
        };
        let low: u8 = match self.charge_transfer_low {
            Some(t) => t.bits(),
            None => ChargeDischargeTime::C2.bits(),
        };
        let prescaler: u8 = match self.clock_prescale {
            Some(p) => p.bits(),
            None => ClockPrescaler::HclkDiv16.bits(),
        };
        let ceiling: u8 = match self.max_count {
            Some(m) => m.bits(),
            None => MaxCount::U8191.bits(),
        };
        (high as u32) << CR_CTPH_SHIFT | (low as u32) << CR_CTPL_SHIFT | SPREAD_SPECTRUM_DEVIATION
            << CR_SSD_SHIFT | CR_SSE | (prescaler as u32) << CR_PGPSC_SHIFT | (ceiling as u32)
            << CR_MCV_SHIFT | CR_TSCE
    }

    /// Every field of the control word reads back as configured; the unit is
    /// enabled, and neither the start bit nor the I/O default bit is set.
    pub proof fn lemma_word_fields(self)
        ensures
            (self.word() >> CR_CTPH_SHIFT) & 0xf == self.charge_high().code(),
            (self.word() >> CR_CTPL_SHIFT) & 0xf == self.charge_low().code(),
            (self.word() >> CR_SSD_SHIFT) & 0x7f == SPREAD_SPECTRUM_DEVIATION,
            self.word() & CR_SSE != 0,
            (self.word() >> CR_PGPSC_SHIFT) & 0x7 == self.prescaler().code(),
            (self.word() >> CR_MCV_SHIFT) & 0x7 == self.ceiling().code(),
            self.word() & CR_TSCE != 0,
            self.word() & CR_START == 0,
            self.word() & CR_IODEF == 0,
    {
        let h = self.charge_high().code() as u32;
        let l = self.charge_low().code() as u32;
        let p = self.prescaler().code() as u32;
        let m = self.ceiling().code() as u32;
        let w = h << 28u32 | l << 24u32 | 16u32 << 17u32 | 0x1_0000u32 | p << 12u32 | m << 5u32
            | 1u32;
        assert(self.word() == w);
        assert((w >> 28u32) & 0xf == h && (w >> 24u32) & 0xf == l && (w >> 17u32) & 0x7f == 16 && w
            & 0x1_0000u32 != 0 && (w >> 12u32) & 0x7 == p && (w >> 5u32) & 0x7 == m && w & 1u32 != 0
            && w & 2u32 == 0 && w & 0x10u32 == 0) by (bit_vector)
            requires
                h < 16,
                l < 16,
                p < 8,
                m < 8,
                w == h << 28u32 | l << 24u32 | 16u32 << 17u32 | 0x1_0000u32 | p << 12u32 | m
                    << 5u32 | 1u32,
        ;
    }

    /// With nothing chosen the control word programs two cycles of charge and
    /// of discharge, the bus clock divided by 16 and a ceiling of 8191.
    pub proof fn lemma_default_word()
        ensures
            Config::unset().word() == 0x1121_40a1u32,
            Config::unset().charge_high().cycles() == 2,
            Config::unset().charge_low().cycles() == 2,
            Config::unset().prescaler().divisor() == 16,
            Config::unset().ceiling().ceiling() == 8191,
    {
        assert((1u32 << 28u32 | 1u32 << 24u32 | 16u32 << 17u32 | 0x1_0000u32 | 4u32 << 12u32 | 5u32
            << 5u32 | 1u32) == 0x1121_40a1u32) by (bit_vector);
    }
}

/// The control word that construction programs: that of `cfg`, or of the
/// defaults where no configuration is given.
pub open spec fn control_word_of(cfg: Option<Config>) -> u32 {
    match cfg {
        Some(c) => c.word(),
        None => Config::unset().word(),
    }
}

} // verus!
