//! The register-level model of the touch-sensing unit and the two interfaces
//! through which the driver reaches hardware.
//!
//! The driver never touches memory itself. It reads and writes the unit's
//! registers through [`RegisterBlock`] and switches the unit's clock and reset
//! line through [`ClockDomain`]. Both traits are specified over [`TscState`],
//! a mathematical picture of the registers together with the fate of the
//! acquisition that is running or will run next.

use vstd::prelude::*;

verus! {

/// Control register: the unit is enabled.
pub const CR_TSCE: u32 = 0x0000_0001;

/// Control register: an acquisition has been started and has not ended yet.
pub const CR_START: u32 = 0x0000_0002;

/// Control register: the level that idle I/Os are forced to between
/// acquisitions. Clear, the I/Os are released and the capacitors can charge.
pub const CR_IODEF: u32 = 0x0000_0010;

/// Control register: spread-spectrum mode is on.
pub const CR_SSE: u32 = 0x0001_0000;

/// The spread-spectrum deviation that the driver always programs.
pub const SPREAD_SPECTRUM_DEVIATION: u32 = 16;

/// Position of the max-count field in the control register.
pub const CR_MCV_SHIFT: u32 = 5;

/// Position of the pulse-generator prescaler field in the control register.
pub const CR_PGPSC_SHIFT: u32 = 12;

/// Position of the spread-spectrum deviation field in the control register.
pub const CR_SSD_SHIFT: u32 = 17;

/// Position of the charge-transfer-low field in the control register.
pub const CR_CTPL_SHIFT: u32 = 24;

/// Position of the charge-transfer-high field in the control register.
pub const CR_CTPH_SHIFT: u32 = 28;

/// The end-of-acquisition bit, at the same place in the interrupt-enable,
/// interrupt-clear and interrupt-status registers.
pub const FLAG_EOA: u32 = 0x0000_0001;

/// The max-count-error bit, at the same place in the interrupt-enable,
/// interrupt-clear and interrupt-status registers.
pub const FLAG_MCE: u32 = 0x0000_0002;

/// Both event bits.
pub const FLAG_BOTH: u32 = 0x0000_0003;

/// The group-enable bits of the group control/status register. The bits above
/// them are status bits that the unit sets by itself.
pub const GROUP_ENABLE_MASK: u32 = 0x0000_00ff;

/// The counter field of a group counter register.
pub const COUNTER_MASK: u32 = 0x0000_3fff;

/// What the I/O hysteresis register holds after a reset; every other register
/// of the unit resets to zero.
pub const HYSTERESIS_RESET: u32 = 0xffff_ffff;

/// The word with only bit `pos` set.
pub open spec fn bit(pos: u8) -> u32 {
    1u32 << pos
}

/// How an acquisition ends: which of the two event flags the unit raises.
#[derive(Clone, Copy, Debug, PartialEq, Eq)]
pub enum Outcome {
    /// Every enabled group settled: end-of-acquisition alone.
    Settled,
    /// A group counter hit the ceiling: max-count-error alone.
    Overrun,
    /// The unit raises both flags at once.
    OverrunAndSettled,
}

impl Outcome {
    /// The status bits that the unit raises for this outcome.
    pub open spec fn flags(self) -> u32 {
        match self {
            Outcome::Settled => FLAG_EOA,
            Outcome::Overrun => FLAG_MCE,
            Outcome::OverrunAndSettled => FLAG_BOTH,
        }
    }
}

/// The unit as the driver can know it: the contents of its registers, and how
/// the acquisition that is running, or that will run next, is going to end.
///
/// `lag` and `outcome` look ahead. Hardware does not show them; they say that
/// an acquisition, once started on an enabled unit, ends after finitely many
/// looks at the status register, and with which flags.
pub struct TscState {
    /// Control register.
    pub control: u32,
    /// Interrupt-enable register.
    pub interrupt_enable: u32,
    /// Interrupt-status register.
    pub status: u32,
    /// I/O hysteresis-control register.
    pub hysteresis: u32,
    /// I/O sampling-select register.
    pub sampling: u32,
    /// I/O channel-control register.
    pub channels: u32,
    /// I/O group control/status register.
    pub groups: u32,
    /// The eight group counter registers, group 1 first.
    pub counters: Seq<u32>,
    /// How many reads of the status register still find a running acquisition
    /// unfinished.
    pub lag: nat,
    /// How that acquisition ends.
    pub outcome: Outcome,
}

impl TscState {
    /// An acquisition is under way: the unit is enabled and the start bit is
    /// still set.
    pub open spec fn running(self) -> bool {
        self.control & CR_START != 0 && self.control & CR_TSCE != 0
    }

    /// The unit after its reset line was asserted: every register at its
    /// reset value. What lies ahead of the unit is not a register and stays.
    pub open spec fn after_reset(self) -> TscState {
        TscState {
            control: 0,
            interrupt_enable: 0,
            status: 0,
            hysteresis: HYSTERESIS_RESET,
            sampling: 0,
            channels: 0,
            groups: 0,
            counters: Seq::new(8, |i: int| 0u32),
            lag: self.lag,
            outcome: self.outcome,
        }
    }

    /// What one read of the status register may find changed.
    ///
    /// The unit moves on its own, and the model lets it move exactly here,
    /// where the driver looks. An idle unit stays as it is. A running one is
    /// either still busy, and one read closer to its end, or has just ended:
    /// the start bit is gone and the flags of its outcome are raised on top of
    /// those already pending. The registers that software owns keep their
    /// contents throughout; counters and group status bits are the unit's to
    /// change while it runs.
    pub open spec fn observed(self, post: TscState) -> bool {
        if !self.running() {
            post == self
        } else {
            &&& post.interrupt_enable == self.interrupt_enable
            &&& post.hysteresis == self.hysteresis
            &&& post.sampling == self.sampling
            &&& post.channels == self.channels
            &&& post.groups & GROUP_ENABLE_MASK == self.groups & GROUP_ENABLE_MASK
            &&& if self.lag == 0 {
                &&& post.control == self.control & !CR_START
                &&& post.status == self.status | self.outcome.flags()
            } else {
                &&& post.control == self.control
                &&& post.status == self.status
                &&& post.lag == self.lag - 1
                &&& post.outcome == self.outcome
            }
        }
    }

    /// The channel at `bit_pos` is armed.
    pub open spec fn armed(self, bit_pos: u8) -> bool {
        self.channels & bit(bit_pos) != 0
    }

    /// The acquisition result of `group`: the counter field of its counter
    /// register, and zero for a group that does not exist.
    pub open spec fn count(self, group: u8) -> u16 {
        if 1 <= group <= 8 {
            (self.counters[group - 1] & COUNTER_MASK) as u16
        } else {
            0
        }
    }
}

/// The registers of one touch-sensing unit.
///
/// An implementation stands for a unit that it owns alone: nothing else writes
/// these registers. Reads of the registers that software owns return what was
/// last written. A write to the interrupt-clear register takes the written
/// flags out of the status register. The status register is where the unit's
/// own progress shows, as [`TscState::observed`] describes; an implementation
/// over real hardware answers for that description of the silicon.
pub trait RegisterBlock: Sized {
    /// The state of the unit behind this block.
    spec fn view(&self) -> TscState;

    /// Reads the control register.
    fn read_control(&self) -> (value: u32)
        ensures
            value == self@.control,
    ;

    /// Writes the control register.
    fn write_control(&mut self, value: u32)
        ensures
            final(self)@ == (TscState { control: value, ..old(self)@ }),
    ;

    /// Reads the interrupt-enable register.
    fn read_interrupt_enable(&self) -> (value: u32)
        ensures
            value == self@.interrupt_enable,
    ;

    /// Writes the interrupt-enable register.
    fn write_interrupt_enable(&mut self, value: u32)
        ensures
            final(self)@ == (TscState { interrupt_enable: value, ..old(self)@ }),
    ;

    /// Writes the interrupt-clear register: every flag set in `value` is taken
    /// out of the status register.
    fn write_interrupt_clear(&mut self, value: u32)
        ensures
            final(self)@ == (TscState { status: old(self)@.status & !value, ..old(self)@ }),
    ;

    /// Reads the interrupt-status register, and with it learns how far the
    /// unit has come.
    fn read_status(&mut self) -> (value: u32)
        ensures
            value == final(self)@.status,
            old(self)@.observed(final(self)@),
    ;

    /// Reads the I/O hysteresis-control register.
    fn read_hysteresis(&self) -> (value: u32)
        ensures
            value == self@.hysteresis,
    ;

    /// Writes the I/O hysteresis-control register.
    fn write_hysteresis(&mut self, value: u32)
        ensures
            final(self)@ == (TscState { hysteresis: value, ..old(self)@ }),
    ;

    /// Reads the I/O sampling-select register.
    fn read_sampling(&self) -> (value: u32)
        ensures
            value == self@.sampling,
    ;

    /// Writes the I/O sampling-select register.
    fn write_sampling(&mut self, value: u32)
        ensures
            final(self)@ == (TscState { sampling: value, ..old(self)@ }),
    ;

    /// Reads the I/O channel-control register.
    fn read_channels(&self) -> (value: u32)
        ensures
            value == self@.channels,
    ;

    /// Writes the I/O channel-control register.
    fn write_channels(&mut self, value: u32)
        ensures
            final(self)@ == (TscState { channels: value, ..old(self)@ }),
    ;

    /// Reads the I/O group control/status register.
    fn read_groups(&self) -> (value: u32)
        ensures
            value == self@.groups,
    ;

    /// Writes the I/O group control/status register.
    fn write_groups(&mut self, value: u32)
        ensures
            final(self)@ == (TscState { groups: value, ..old(self)@ }),
    ;

    /// Reads the counter register of `group`.
    fn read_counter(&self, group: u8) -> (value: u32)
        requires
            1 <= group <= 8,
        ensures
            value == self@.counters[group - 1],
    ;
}

/// The clock domain that feeds a touch-sensing unit of type `R` and holds its
/// reset line.
pub trait ClockDomain<R: RegisterBlock> {
    /// The unit's clock is switched on.
    spec fn clock_enabled(&self) -> bool;

    /// The unit is held in reset.
    spec fn reset_asserted(&self) -> bool;

    /// Switches the unit's clock on.
    fn enable_clock(&mut self)
        ensures
            final(self).clock_enabled(),
            final(self).reset_asserted() == old(self).reset_asserted(),
    ;

    /// Asserts the unit's reset line. The registers of `unit` fall back to
    /// their reset values.
    fn assert_reset(&mut self, unit: &mut R)
        ensures
            final(self).reset_asserted(),
            final(self).clock_enabled() == old(self).clock_enabled(),
            final(unit)@ == old(unit)@.after_reset(),
    ;

    /// Releases the unit's reset line.
    fn release_reset(&mut self)
        ensures
            !final(self).reset_asserted(),
            final(self).clock_enabled() == old(self).clock_enabled(),
    ;
}

} // verus!
