//! A touch-sensing unit and its clock domain in memory.
//!
//! [`SimulatedTsc`] keeps the registers of the unit in plain fields and plays
//! the part of the silicon: an acquisition that is started ends after a
//! chosen number of looks at the status register, with a chosen outcome and
//! chosen counts. It is the unit that the driver's tests run against, and the
//! proof that the contract of [`RegisterBlock`] can be met.

use vstd::prelude::*;

use crate::registers::{
    ClockDomain, Outcome, RegisterBlock, TscState, CR_START, CR_TSCE, FLAG_BOTH, FLAG_EOA,
    FLAG_MCE, HYSTERESIS_RESET,
};

verus! {

/// The bit of the touch-sensing unit in the AHB clock-enable register and in
/// the AHB reset register.
pub const AHB_TOUCH: u32 = 0x0001_0000;

/// A touch-sensing unit in memory.
pub struct SimulatedTsc {
    control: u32,
    interrupt_enable: u32,
    status: u32,
    hysteresis: u32,
    sampling: u32,
    channels: u32,
    groups: u32,
    counters: [u32; 8],
    latency: u32,
    outcome: Outcome,
    results: [u32; 8],
}

impl SimulatedTsc {
    /// The counter values that the unit latches when its acquisition ends.
    pub closed spec fn results(&self) -> Seq<u32> {
        self.results@
    }

    /// The unit as it comes out of reset, with an acquisition ahead of it that
    /// settles at the first look.
    pub open spec fn power_on() -> TscState {
        TscState {
            control: 0,
            interrupt_enable: 0,
            status: 0,
            hysteresis: HYSTERESIS_RESET,
            sampling: 0,
            channels: 0,
            groups: 0,
            counters: Seq::new(8, |i: int| 0u32),
            lag: 0,
            outcome: Outcome::Settled,
        }
    }

    /// A unit fresh from reset.
    pub fn new() -> (unit: Self)
        ensures
            unit@ == Self::power_on(),
            unit.results() == Seq::new(8, |i: int| 0u32),
    {
        let unit = SimulatedTsc {
            control: 0,
            interrupt_enable: 0,
            status: 0,
            hysteresis: HYSTERESIS_RESET,
            sampling: 0,
            channels: 0,
            groups: 0,
            counters: [0, 0, 0, 0, 0, 0, 0, 0],
            latency: 0,
            outcome: Outcome::Settled,
            results: [0, 0, 0, 0, 0, 0, 0, 0],
        };
        assert(unit.counters@ =~= Seq::new(8, |i: int| 0u32));
        assert(unit.results@ =~= Seq::new(8, |i: int| 0u32));
        unit
    }

    /// Decides how the acquisition ahead goes: `latency` looks at the status
    /// register find it unfinished, the next one finds `outcome` raised and
    /// `counts` in the group counters.
    pub fn schedule(&mut self, latency: u32, outcome: Outcome, counts: [u32; 8])
        ensures
            final(self)@ == (TscState { lag: latency as nat, outcome: outcome, ..old(self)@ }),
            final(self).results() == counts@,
    {
        self.latency = latency;
        self.outcome = outcome;
        self.results = counts;
    }

    /// Puts every register back to its reset value. What was scheduled stays.
    pub fn reset(&mut self)
        ensures
            final(self)@ == old(self)@.after_reset(),
            final(self).results() == old(self).results(),
    {
        self.control = 0;
        self.interrupt_enable = 0;
        self.status = 0;
        self.hysteresis = HYSTERESIS_RESET;
        self.sampling = 0;
        self.channels = 0;
        self.groups = 0;
        self.counters = [0, 0, 0, 0, 0, 0, 0, 0];
        assert(self.counters@ =~= Seq::new(8, |i: int| 0u32));
    }
}

impl RegisterBlock for SimulatedTsc {
    closed spec fn view(&self) -> TscState {
        TscState {
            control: self.control,
            interrupt_enable: self.interrupt_enable,
            status: self.status,
            hysteresis: self.hysteresis,
            sampling: self.sampling,
            channels: self.channels,
            groups: self.groups,
            counters: self.counters@,
            lag: self.latency as nat,
            outcome: self.outcome,
        }
    }

    fn read_control(&self) -> (value: u32) {
        self.control
    }

    fn write_control(&mut self, value: u32)
        ensures
            final(self).results() == old(self).results(),
    {
        self.control = value;
    }

    fn read_interrupt_enable(&self) -> (value: u32) {
        self.interrupt_enable
    }

    fn write_interrupt_enable(&mut self, value: u32)
        ensures
            final(self).results() == old(self).results(),
    {
        self.interrupt_enable = value;
    }

    fn write_interrupt_clear(&mut self, value: u32)
        ensures
            final(self).results() == old(self).results(),
    {
        self.status = self.status & !value;
    }

    /// Besides what every register block promises: the acquisition that ends
    /// at this read leaves the scheduled counts in the group counters.
    fn read_status(&mut self) -> (value: u32)
        ensures
            final(self).results() == old(self).results(),
            old(self)@.running() && old(self)@.lag == 0 ==> final(self)@.counters == old(
                self,
            ).results(),
    {
        if self.control & CR_START != 0 && self.control & CR_TSCE != 0 {
            if self.latency == 0 {
                self.control = self.control & !CR_START;
                self.status = self.status | match self.outcome {
                    Outcome::Settled => FLAG_EOA,
                    Outcome::Overrun => FLAG_MCE,
                    Outcome::OverrunAndSettled => FLAG_BOTH,
                };
                self.counters = self.results;
            } else {
                self.latency = self.latency - 1;
            }
        }
        self.status
    }

    fn read_hysteresis(&self) -> (value: u32) {
        self.hysteresis
    }

    fn write_hysteresis(&mut self, value: u32)
        ensures
            final(self).results() == old(self).results(),
    {
        self.hysteresis = value;
    }

    fn read_sampling(&self) -> (value: u32) {
        self.sampling
    }

    fn write_sampling(&mut self, value: u32)
        ensures
            final(self).results() == old(self).results(),
    {
        self.sampling = value;
    }

    fn read_channels(&self) -> (value: u32) {
        self.channels
    }

    fn write_channels(&mut self, value: u32)
        ensures
            final(self).results() == old(self).results(),
    {
        self.channels = value;
    }

    fn read_groups(&self) -> (value: u32) {
        self.groups
    }

    fn write_groups(&mut self, value: u32)
        ensures
            final(self).results() == old(self).results(),
    {
        self.groups = value;
    }

    fn read_counter(&self, group: u8) -> (value: u32) {
        self.counters[(group - 1) as usize]
    }
}

/// The clock domain of a [`SimulatedTsc`]: the two AHB registers through
/// which the unit is clocked and reset.
pub struct SimulatedRcc {
    ahbenr: u32,
    ahbrstr: u32,
}

impl SimulatedRcc {
    /// The contents of the AHB clock-enable register.
    pub closed spec fn enables(&self) -> u32 {
        self.ahbenr
    }

    /// The contents of the AHB reset register.
    pub closed spec fn resets(&self) -> u32 {
        self.ahbrstr
    }

    /// A clock domain with every clock off and no reset asserted.
    pub fn new() -> (rcc: Self)
        ensures
            rcc.enables() == 0,
            rcc.resets() == 0,
    {
        SimulatedRcc { ahbenr: 0, ahbrstr: 0 }
    }

    /// Reads the AHB clock-enable register.
    pub fn ahbenr(&self) -> (value: u32)
        ensures
            value == self.enables(),
    {
        self.ahbenr
    }

    /// Reads the AHB reset register.
    pub fn ahbrstr(&self) -> (value: u32)
        ensures
            value == self.resets(),
    {
        self.ahbrstr
    }
}

impl ClockDomain<SimulatedTsc> for SimulatedRcc {
    open spec fn clock_enabled(&self) -> bool {
        self.enables() & AHB_TOUCH != 0
    }

    open spec fn reset_asserted(&self) -> bool {
        self.resets() & AHB_TOUCH != 0
    }

    fn enable_clock(&mut self)
        ensures
            final(self).enables() == old(self).enables() | AHB_TOUCH,
            final(self).resets() == old(self).resets(),
    {
        let enables = self.ahbenr;
        assert((enables | 0x0001_0000u32) & 0x0001_0000u32 != 0) by (bit_vector);
        self.ahbenr = enables | AHB_TOUCH;
    }

    fn assert_reset(&mut self, unit: &mut SimulatedTsc)
        ensures
            final(self).resets() == old(self).resets() | AHB_TOUCH,
            final(self).enables() == old(self).enables(),
            final(unit).results() == old(unit).results(),
    {
        let resets = self.ahbrstr;
        assert((resets | 0x0001_0000u32) & 0x0001_0000u32 != 0) by (bit_vector);
        self.ahbrstr = resets | AHB_TOUCH;
        unit.reset();
    }

    fn release_reset(&mut self)
        ensures
            final(self).resets() == old(self).resets() & !AHB_TOUCH,
            final(self).enables() == old(self).enables(),
    {
        let resets = self.ahbrstr;
        assert((resets & !0x0001_0000u32) & 0x0001_0000u32 == 0) by (bit_vector);
        self.ahbrstr = resets & !AHB_TOUCH;
    }
}

} // verus!
