use stm32l0_tsc::config::{ChargeDischargeTime, ClockPrescaler, Config, MaxCount};

fn unset() -> Config {
    Config {
        clock_prescale: None,
        max_count: None,
        charge_transfer_high: None,
        charge_transfer_low: None,
    }
}

#[test]
fn prescaler_codes() {
    assert_eq!(ClockPrescaler::Hclk.bits(), 0b000);
    assert_eq!(ClockPrescaler::HclkDiv2.bits(), 0b001);
    assert_eq!(ClockPrescaler::HclkDiv4.bits(), 0b010);
    assert_eq!(ClockPrescaler::HclkDiv8.bits(), 0b011);
    assert_eq!(ClockPrescaler::HclkDiv16.bits(), 0b100);
    assert_eq!(ClockPrescaler::HclkDiv32.bits(), 0b101);
    assert_eq!(ClockPrescaler::HclkDiv64.bits(), 0b110);
    assert_eq!(ClockPrescaler::HclkDiv128.bits(), 0b111);
}

#[test]
fn max_count_codes() {
    assert_eq!(MaxCount::U255.bits(), 0b000);
    assert_eq!(MaxCount::U511.bits(), 0b001);
    assert_eq!(MaxCount::U1023.bits(), 0b010);
    assert_eq!(MaxCount::U2047.bits(), 0b011);
    assert_eq!(MaxCount::U4095.bits(), 0b100);
    assert_eq!(MaxCount::U8191.bits(), 0b101);
    assert_eq!(MaxCount::U16383.bits(), 0b110);
}

#[test]
fn charge_discharge_codes() {
    let all = [
        ChargeDischargeTime::C1,
        ChargeDischargeTime::C2,
        ChargeDischargeTime::C3,
        ChargeDischargeTime::C4,
        ChargeDischargeTime::C5,
        ChargeDischargeTime::C6,
        ChargeDischargeTime::C7,
        ChargeDischargeTime::C8,
        ChargeDischargeTime::C9,
        ChargeDischargeTime::C10,
        ChargeDischargeTime::C11,
        ChargeDischargeTime::C12,
        ChargeDischargeTime::C13,
        ChargeDischargeTime::C14,
        ChargeDischargeTime::C15,
        ChargeDischargeTime::C16,
    ];
    for (index, time) in all.iter().enumerate() {
        assert_eq!(time.bits() as usize, index);
    }
    assert_eq!(ChargeDischargeTime::C2.bits(), 0b0001);
    assert_eq!(ChargeDischargeTime::C16.bits(), 0b1111);
}

#[test]
fn default_control_word() {
    let word = unset().control_word();
    assert_eq!(word, 0x1121_40a1);
    assert_eq!(word >> 28, ChargeDischargeTime::C2.bits() as u32);
    assert_eq!((word >> 24) & 0xf, ChargeDischargeTime::C2.bits() as u32);
    assert_eq!((word >> 17) & 0x7f, 16);
    assert_eq!((word >> 16) & 1, 1);
    assert_eq!((word >> 12) & 0x7, ClockPrescaler::HclkDiv16.bits() as u32);
    assert_eq!((word >> 5) & 0x7, MaxCount::U8191.bits() as u32);
    assert_eq!(word & 1, 1);
}

#[test]
fn explicit_defaults_give_the_default_word() {
    let explicit = Config {
        clock_prescale: Some(ClockPrescaler::HclkDiv16),
        max_count: Some(MaxCount::U8191),
        charge_transfer_high: Some(ChargeDischargeTime::C2),
        charge_transfer_low: Some(ChargeDischargeTime::C2),
    };
    assert_eq!(explicit.control_word(), unset().control_word());
}

#[test]
fn chosen_fields_land_in_their_places() {
    let config = Config {
        clock_prescale: Some(ClockPrescaler::HclkDiv128),
        max_count: Some(MaxCount::U16383),
        charge_transfer_high: Some(ChargeDischargeTime::C16),
        charge_transfer_low: Some(ChargeDischargeTime::C9),
    };
    // 0xf << 28 | 0x8 << 24 | 16 << 17 | 1 << 16 | 7 << 12 | 6 << 5 | 1
    assert_eq!(config.control_word(), 0xf821_70c1);
}

#[test]
fn smallest_fields() {
    let config = Config {
        clock_prescale: Some(ClockPrescaler::Hclk),
        max_count: Some(MaxCount::U255),
        charge_transfer_high: Some(ChargeDischargeTime::C1),
        charge_transfer_low: Some(ChargeDischargeTime::C1),
    };
    assert_eq!(config.control_word(), 0x0021_0001);
}

#[test]
fn each_field_defaults_on_its_own() {
    let config = Config {
        clock_prescale: Some(ClockPrescaler::HclkDiv2),
        max_count: None,
        charge_transfer_high: None,
        charge_transfer_low: Some(ChargeDischargeTime::C4),
    };
    // 1 << 28 | 3 << 24 | 16 << 17 | 1 << 16 | 1 << 12 | 5 << 5 | 1
    assert_eq!(config.control_word(), 0x1321_10a1);
}

#[test]
fn control_word_never_starts_or_holds_the_ios() {
    let config = Config {
        clock_prescale: Some(ClockPrescaler::HclkDiv128),
        max_count: Some(MaxCount::U16383),
        charge_transfer_high: Some(ChargeDischargeTime::C16),
        charge_transfer_low: Some(ChargeDischargeTime::C16),
    };
    let word = config.control_word();
    assert_eq!(word & 0x2, 0);
    assert_eq!(word & 0x10, 0);
    assert_eq!(word & 0x0000_8f0c, 0);
}
