//! The touch-sensing controller.

use vstd::prelude::*;

use crate::config::{control_word_of, ChargeDischargeTime, ClockPrescaler, Config, MaxCount};
use crate::pin::{pin_bit, pin_group_bit, TscPin};
use crate::registers::{
    bit, ClockDomain, Outcome, RegisterBlock, TscState, COUNTER_MASK, CR_IODEF, CR_START, CR_TSCE,
    FLAG_BOTH, FLAG_EOA, FLAG_MCE, GROUP_ENABLE_MASK,
};

verus! {

/// What the unit reports at the end of an acquisition.
#[derive(Clone, Copy, Debug, PartialEq, Eq)]
pub enum Event {
    /// Max count error
    MaxCountError,
    /// End of acquisition
    EndOfAcquisition,
}

/// Why an operation of the driver failed.
#[derive(Clone, Copy, Debug, PartialEq, Eq)]
pub enum Error {
    /// Max count error
    MaxCountError,
    /// Wrong GPIO for reading
    InvalidPin,
}

impl Event {
    /// The bit of this event in the interrupt-enable, interrupt-clear and
    /// interrupt-status registers.
    pub open spec fn flag(self) -> u32 {
        match self {
            Event::MaxCountError => FLAG_MCE,
            Event::EndOfAcquisition => FLAG_EOA,
        }
    }

    /// The bit of this event in the interrupt registers.
    pub fn mask(&self) -> (m: u32)
        ensures
            m == self.flag(),
    {
        match self {
            Event::MaxCountError => FLAG_MCE,
            Event::EndOfAcquisition => FLAG_EOA,
        }
    }
}

/// The event that a status word reports. End of acquisition is looked for
/// first, so it wins where both flags are pending.
pub open spec fn pending_event(status: u32) -> Option<Event> {
    if status & FLAG_EOA != 0 {
        Some(Event::EndOfAcquisition)
    } else if status & FLAG_MCE != 0 {
        Some(Event::MaxCountError)
    } else {
        None
    }
}

/// How a blocking acquisition ends once `event` has been seen.
pub open spec fn acquisition_result(event: Event) -> Result<(), Error> {
    match event {
        Event::EndOfAcquisition => Ok(()),
        Event::MaxCountError => Err(Error::MaxCountError),
    }
}

impl Outcome {
    /// The event that the driver sees when an acquisition ends this way.
    pub open spec fn reported(self) -> Event {
        match self {
            Outcome::Settled => Event::EndOfAcquisition,
            Outcome::Overrun => Event::MaxCountError,
            Outcome::OverrunAndSettled => Event::EndOfAcquisition,
        }
    }
}

impl TscState {
    /// The unit as construction leaves it: fresh from reset, the control
    /// word of `cfg` programmed, no event pending.
    pub open spec fn configured(self, cfg: Option<Config>) -> TscState {
        TscState { control: control_word_of(cfg), status: 0, ..self.after_reset() }
    }

    /// The unit with the pin at `bit_pos` registered as the sampling pin of
    /// the group at `group_pos`: its hysteresis bit and its sampling bit set,
    /// the group enabled.
    pub open spec fn with_sample_group(self, bit_pos: u8, group_pos: u8) -> TscState {
        TscState {
            hysteresis: self.hysteresis | bit(bit_pos),
            sampling: self.sampling | bit(bit_pos),
            groups: self.groups | bit(group_pos),
            ..self
        }
    }

    /// The unit with the channel at `bit_pos` armed.
    pub open spec fn with_channel(self, bit_pos: u8) -> TscState {
        TscState { channels: self.channels | bit(bit_pos), ..self }
    }

    /// The unit with the channel at `bit_pos` disarmed.
    pub open spec fn without_channel(self, bit_pos: u8) -> TscState {
        TscState { channels: self.channels & !bit(bit_pos), ..self }
    }

    /// The unit with `event` acknowledged.
    pub open spec fn cleared(self, event: Event) -> TscState {
        TscState { status: self.status & !event.flag(), ..self }
    }

    /// The unit with an acquisition started: both events acknowledged, the
    /// I/Os released from their default level, the start bit set.
    pub open spec fn started(self) -> TscState {
        TscState {
            control: (self.control & !CR_IODEF) | CR_START,
            status: self.status & !FLAG_EOA & !FLAG_MCE,
            ..self
        }
    }

    /// The unit with the interrupt of `event` enabled.
    pub open spec fn listening(self, event: Event) -> TscState {
        TscState { interrupt_enable: self.interrupt_enable | event.flag(), ..self }
    }

    /// The unit with the interrupt of `event` disabled.
    pub open spec fn not_listening(self, event: Event) -> TscState {
        TscState { interrupt_enable: self.interrupt_enable & !event.flag(), ..self }
    }

    /// What reading the pin at `bit_pos` of `group` gives: the count of the
    /// group if the channel is armed, and `InvalidPin` if it is not.
    pub open spec fn reading(self, bit_pos: u8, group: u8) -> Result<u16, Error> {
        if self.armed(bit_pos) {
            Ok(self.count(group))
        } else {
            Err(Error::InvalidPin)
        }
    }

    /// What a blocking acquisition leaves behind. The acquisition has ended:
    /// the start bit is clear again, the I/Os are released. Of the two event
    /// flags only what the unit raised and the driver did not report is still
    /// pending. The registers that software owns are as they were.
    pub open spec fn acquired(self, post: TscState) -> bool {
        &&& post.control == self.control & !CR_IODEF & !CR_START
        &&& post.status == (self.status & !FLAG_BOTH) | (self.outcome.flags()
            & !self.outcome.reported().flag())
        &&& post.interrupt_enable == self.interrupt_enable
        &&& post.hysteresis == self.hysteresis
        &&& post.sampling == self.sampling
        &&& post.channels == self.channels
        &&& post.groups & GROUP_ENABLE_MASK == self.groups & GROUP_ENABLE_MASK
    }
}

/// Tells which event a word read from the status register reports.
pub fn decode_event(status: u32) -> (event: Option<Event>)
    ensures
        event == pending_event(status),
{
    if status & FLAG_EOA != 0 {
        Some(Event::EndOfAcquisition)
    } else if status & FLAG_MCE != 0 {
        Some(Event::MaxCountError)
    } else {
        None
    }
}

/// The touch-sensing controller, in sole possession of its register block.
///
/// The driver keeps nothing of its own: every operation reads and writes the
/// registers, and the view of the driver is the state of the unit.
pub struct Tsc<R: RegisterBlock> {
    tsc: R,
}

impl<R: RegisterBlock> Tsc<R> {
    /// The state of the unit.
    pub closed spec fn view(&self) -> TscState {
        self.tsc@
    }

    /// The unit is enabled. Construction enables it, and no operation of the
    /// driver disables it again.
    pub open spec fn enabled(&self) -> bool {
        self@.control & CR_TSCE != 0
    }

    /// Tells whether the unit is enabled, by a look at the control register.
    pub fn is_enabled(&self) -> (enabled: bool)
        ensures
            enabled == self.enabled(),
    {
        self.tsc.read_control() & CR_TSCE != 0
    }

    /// Initialise the touch controller peripheral
    ///
    /// Switches the unit's clock on and pulses its reset line, so that nothing
    /// of an earlier configuration is left; then programs the control word of
    /// `cfg` and acknowledges both events.
    pub fn tsc<C: ClockDomain<R>>(tsc: R, rcc: &mut C, cfg: Option<Config>) -> (driver: Self)
        ensures
            driver@ == tsc@.configured(cfg),
            driver.enabled(),
            final(rcc).clock_enabled(),
            !final(rcc).reset_asserted(),
    {
        let mut tsc = tsc;
        rcc.enable_clock();
        rcc.assert_reset(&mut tsc);
        rcc.release_reset();

        let config = match cfg {
            Some(c) => c,
            None => Config {
                clock_prescale: None,
                max_count: None,
                charge_transfer_high: None,
                charge_transfer_low: None,
            },
        };
        let word = config.control_word();
        tsc.write_control(word);

        // clear interrupt & flags
        tsc.write_interrupt_clear(FLAG_EOA | FLAG_MCE);

        proof {
            config.lemma_word_fields();
            assert(0u32 & !(FLAG_EOA | FLAG_MCE) == 0) by (bit_vector);
        }
        Tsc { tsc }
    }

    /// Set up sample group
    ///
    /// Switches `p` over to the unit and registers it as the sampling pin of
    /// its group. What earlier calls registered stays registered.
    pub fn setup_sample_group<P>(&mut self, p: &mut P) where P: TscPin
        ensures
            final(p).is_setup(),
            final(self)@ == old(self)@.with_sample_group(pin_bit::<P>(), pin_group_bit::<P>()),
    {
        p.setup();
        let bit_pos = p.bit_pos();
        let group_pos = p.group_pos();

        // Schmitt trigger hysteresis on sample IOs
        let hysteresis = self.tsc.read_hysteresis();
        self.tsc.write_hysteresis(hysteresis | 1u32 << bit_pos);

        // Set the sampling pin
        let sampling = self.tsc.read_sampling();
        self.tsc.write_sampling(sampling | 1u32 << bit_pos);

        // Set the acquisition group based on the channel pins
        let groups = self.tsc.read_groups();
        self.tsc.write_groups(groups | 1u32 << group_pos);
    }

    /// Add a GPIO for use as a channel
    pub fn enable_channel<P>(&mut self, channel: &mut P) where P: TscPin
        ensures
            final(channel).is_setup(),
            final(self)@ == old(self)@.with_channel(pin_bit::<P>()),
    {
        channel.setup();
        let bit_pos = channel.bit_pos();

        // Set a channel pin
        let channels = self.tsc.read_channels();
        self.tsc.write_channels(channels | 1u32 << bit_pos);
    }

    /// Remove a GPIO from use as a channel
    pub fn disable_channel<P>(&mut self, channel: &mut P) where P: TscPin
        ensures
            *final(channel) == *old(channel),
            final(self)@ == old(self)@.without_channel(pin_bit::<P>()),
    {
        let bit_pos = channel.bit_pos();

        // Remove a channel pin
        let channels = self.tsc.read_channels();
        self.tsc.write_channels(channels & !(1u32 << bit_pos));
    }

    /// Clear interrupt & flags
    pub fn clear(&mut self, event: Event)
        ensures
            final(self)@ == old(self)@.cleared(event),
    {
        match event {
            Event::EndOfAcquisition => {
                self.tsc.write_interrupt_clear(FLAG_EOA);
            },
            Event::MaxCountError => {
                self.tsc.write_interrupt_clear(FLAG_MCE);
            },
        }
    }

    /// Starts a charge acquisition
    pub fn start(&mut self)
        ensures
            final(self)@ == old(self)@.started(),
            final(self).enabled() == old(self).enabled(),
    {
        self.clear(Event::EndOfAcquisition);
        self.clear(Event::MaxCountError);

        // Discharge the caps ready for a new reading
        let control = self.tsc.read_control();
        proof {
            lemma_control_keeps_enable(control);
        }
        self.tsc.write_control(control & !CR_IODEF);
        let control = self.tsc.read_control();
        self.tsc.write_control(control | CR_START);
    }

    /// Check for events on the TSC
    ///
    /// Reads the status register once. End of acquisition is looked for
    /// first: where both flags are pending, it is the one reported.
    pub fn check_event(&mut self) -> (event: Option<Event>)
        ensures
            event == pending_event(final(self)@.status),
            old(self)@.observed(final(self)@),
            old(self)@.status & FLAG_EOA != 0 ==> event == Some(Event::EndOfAcquisition),
            final(self).enabled() == old(self).enabled(),
    {
        proof {
            lemma_control_keeps_enable(self.tsc@.control);
            lemma_flags_stay(self.tsc@.status, self.tsc@.outcome);
        }
        let isr = self.tsc.read_status();
        decode_event(isr)
    }

    /// Blocks waiting for a acquisition to complete or for a Max Count Error
    ///
    /// Starts an acquisition and polls the status register until the unit
    /// reports an event. The event is acknowledged; a max count error is
    /// handed on as the error of that name.
    ///
    /// The unit has to be enabled, as it is from construction on: a disabled
    /// unit never answers.
    pub fn acquire(&mut self) -> (result: Result<(), Error>)
        requires
            old(self).enabled(),
        ensures
            result == acquisition_result(old(self)@.outcome.reported()),
            old(self)@.acquired(final(self)@),
            final(self).enabled(),
    {
        let ghost pre = self@;
        proof {
            lemma_control_keeps_enable(pre.control);
            lemma_flag_algebra(pre.status);
        }

        // Start the acquisition
        self.start();

        loop
            invariant
                pre == old(self)@,
                self@.running(),
                self@.control == (pre.control & !CR_IODEF) | CR_START,
                self@.status == pre.status & !FLAG_EOA & !FLAG_MCE,
                self@.interrupt_enable == pre.interrupt_enable,
                self@.hysteresis == pre.hysteresis,
                self@.sampling == pre.sampling,
                self@.channels == pre.channels,
                self@.groups & GROUP_ENABLE_MASK == pre.groups & GROUP_ENABLE_MASK,
                self@.outcome == pre.outcome,
            decreases self@.lag,
        {
            proof {
                lemma_control_keeps_enable(pre.control);
                lemma_flag_algebra(pre.status);
            }
            match self.check_event() {
                Some(Event::MaxCountError) => {
                    self.clear(Event::MaxCountError);
                    return Err(Error::MaxCountError);
                },
                Some(Event::EndOfAcquisition) => {
                    self.clear(Event::EndOfAcquisition);
                    return Ok(());
                },
                None => {},
            }
        }
    }

    /// Reads the tsc group count register
    ///
    /// A group outside 1 to 8 has no register: its count is zero, and nothing
    /// is read.
    pub fn read_unchecked(&self, group: u8) -> (count: u16)
        ensures
            count == self@.count(group),
    {
        if 1 <= group && group <= 8 {
            let raw = self.tsc.read_counter(group);
            assert(raw & COUNTER_MASK <= 0x3fff) by (bit_vector);
            (raw & COUNTER_MASK) as u16
        } else {
            0
        }
    }

    /// Reads the group count register
    ///
    /// The count is handed out only for a pin whose channel is armed.
    pub fn read<PIN>(&self, input: &mut PIN) -> (result: Result<u16, Error>) where PIN: TscPin
        ensures
            result == self@.reading(pin_bit::<PIN>(), PIN::GROUP),
            *final(input) == *old(input),
    {
        let bit_pos = input.bit_pos();

        // Read the current channel config
        let channel = self.tsc.read_channels();

        // Check whether one of the enabled pins was supplied
        if channel & (1u32 << bit_pos) != 0 {
            Ok(self.read_unchecked(input.group()))
        } else {
            Err(Error::InvalidPin)
        }
    }

    /// Enables an interrupt event
    pub fn listen(&mut self, event: Event)
        ensures
            final(self)@ == old(self)@.listening(event),
    {
        let enabled = self.tsc.read_interrupt_enable();
        match event {
            Event::EndOfAcquisition => {
                self.tsc.write_interrupt_enable(enabled | FLAG_EOA);
            },
            Event::MaxCountError => {
                self.tsc.write_interrupt_enable(enabled | FLAG_MCE);
            },
        }
    }

    /// Disables an interrupt event
    pub fn unlisten(&mut self, event: Event)
        ensures
            final(self)@ == old(self)@.not_listening(event),
    {
        let enabled = self.tsc.read_interrupt_enable();
        match event {
            Event::EndOfAcquisition => {
                self.tsc.write_interrupt_enable(enabled & !FLAG_EOA);
            },
            Event::MaxCountError => {
                self.tsc.write_interrupt_enable(enabled & !FLAG_MCE);
            },
        }
    }

    /// Releases the TSC peripheral
    ///
    /// The registers are handed back as they are.
    pub fn free(self) -> (tsc: R)
        ensures
            tsc@ == self@,
    {
        self.tsc
    }
}

/// A channel that has just been armed is read without `InvalidPin`:
/// reading it gives the count of its group.
pub proof fn lemma_enabled_channel_reads<P: TscPin>(state: TscState)
    ensures
        state.with_channel(pin_bit::<P>()).reading(pin_bit::<P>(), P::GROUP) == Ok::<u16, Error>(
            state.count(P::GROUP),
        ),
{
    P::lemma_mapping();
    lemma_bits(state.channels, pin_bit::<P>(), pin_bit::<P>());
}

/// A channel that has just been disarmed is refused: reading it gives
/// `InvalidPin`.
pub proof fn lemma_disabled_channel_is_invalid<P: TscPin>(state: TscState)
    ensures
        state.without_channel(pin_bit::<P>()).reading(pin_bit::<P>(), P::GROUP) == Err::<
            u16,
            Error,
        >(Error::InvalidPin),
{
    P::lemma_mapping();
    lemma_bits(state.channels, pin_bit::<P>(), pin_bit::<P>());
}

/// Arming and disarming one channel leaves every other channel as it was.
pub proof fn lemma_other_channels_stay(state: TscState, bit_pos: u8, other: u8)
    requires
        bit_pos < 32,
        other < 32,
        bit_pos != other,
    ensures
        state.with_channel(bit_pos).armed(other) == state.armed(other),
        state.without_channel(bit_pos).armed(other) == state.armed(other),
{
    let channels = state.channels;
    assert((channels | (1u32 << bit_pos)) & (1u32 << other) == channels & (1u32 << other) && (
    channels & !(1u32 << bit_pos)) & (1u32 << other) == channels & (1u32 << other)) by (bit_vector)
        requires
            bit_pos < 32,
            other < 32,
            bit_pos != other,
    ;
}

/// Where both flags are pending, end of acquisition is the event reported,
/// never the max count error.
pub proof fn lemma_end_of_acquisition_wins(status: u32)
    requires
        status & FLAG_EOA != 0,
        status & FLAG_MCE != 0,
    ensures
        pending_event(status) == Some(Event::EndOfAcquisition),
{
}

/// An acquisition that the unit ends with a max count error alone fails with
/// `MaxCountError`, and neither flag is pending afterwards.
pub proof fn lemma_overrun_fails_acknowledged(pre: TscState, post: TscState)
    requires
        pre.outcome == Outcome::Overrun,
        pre.acquired(post),
    ensures
        acquisition_result(pre.outcome.reported()) == Err::<(), Error>(Error::MaxCountError),
        post.status & FLAG_MCE == 0,
        post.status & FLAG_EOA == 0,
{
    lemma_flag_algebra(pre.status);
    let idle = pre.status & !FLAG_BOTH;
    assert((idle | (2u32 & !2u32)) == idle) by (bit_vector);
}

/// An acquisition that the unit ends with end of acquisition alone succeeds,
/// and neither flag is pending afterwards.
pub proof fn lemma_settled_succeeds_acknowledged(pre: TscState, post: TscState)
    requires
        pre.outcome == Outcome::Settled,
        pre.acquired(post),
    ensures
        acquisition_result(pre.outcome.reported()) == Ok::<(), Error>(()),
        post.status & FLAG_MCE == 0,
        post.status & FLAG_EOA == 0,
{
    lemma_flag_algebra(pre.status);
    let idle = pre.status & !FLAG_BOTH;
    assert((idle | (1u32 & !1u32)) == idle) by (bit_vector);
}

/// Registering a sampling pin never takes a registration away, and after two
/// registrations in a row the bits of both pins and of both groups are set.
pub proof fn lemma_sample_groups_add_up<A: TscPin, B: TscPin>(state: TscState)
    ensures
        ({
            let one = state.with_sample_group(pin_bit::<A>(), pin_group_bit::<A>());
            let two = one.with_sample_group(pin_bit::<B>(), pin_group_bit::<B>());
            &&& two.hysteresis & bit(pin_bit::<A>()) != 0
            &&& two.hysteresis & bit(pin_bit::<B>()) != 0
            &&& two.sampling & bit(pin_bit::<A>()) != 0
            &&& two.sampling & bit(pin_bit::<B>()) != 0
            &&& two.groups & bit(pin_group_bit::<A>()) != 0
            &&& two.groups & bit(pin_group_bit::<B>()) != 0
            &&& state.hysteresis & !two.hysteresis == 0
            &&& state.sampling & !two.sampling == 0
            &&& state.groups & !two.groups == 0
        }),
{
    A::lemma_mapping();
    B::lemma_mapping();
    lemma_bits(state.hysteresis, pin_bit::<A>(), pin_bit::<B>());
    lemma_bits(state.sampling, pin_bit::<A>(), pin_bit::<B>());
    lemma_bits(state.groups, pin_group_bit::<A>(), pin_group_bit::<B>());
}

/// Arming a channel never disarms one, and after two channels were armed in a
/// row both are armed.
pub proof fn lemma_channels_add_up<A: TscPin, B: TscPin>(state: TscState)
    ensures
        ({
            let two = state.with_channel(pin_bit::<A>()).with_channel(pin_bit::<B>());
            &&& two.armed(pin_bit::<A>())
            &&& two.armed(pin_bit::<B>())
            &&& state.channels & !two.channels == 0
        }),
{
    A::lemma_mapping();
    B::lemma_mapping();
    lemma_bits(state.channels, pin_bit::<A>(), pin_bit::<B>());
}

/// Construction without a configuration leaves the default timing in the
/// control register: two cycles of charge and of discharge, the bus clock
/// divided by 16, a ceiling of 8191.
pub proof fn lemma_default_construction(state: TscState)
    ensures
        state.configured(None).control == 0x1121_40a1u32,
        state.configured(None).control == state.configured(Some(Config::unset())).control,
        state.configured(None).control == (Config {
            clock_prescale: Some(ClockPrescaler::HclkDiv16),
            max_count: Some(MaxCount::U8191),
            charge_transfer_high: Some(ChargeDischargeTime::C2),
            charge_transfer_low: Some(ChargeDischargeTime::C2),
        }).word(),
{
    Config::lemma_default_word();
}

/// Setting and clearing single bits of a register.
proof fn lemma_bits(register: u32, a: u8, b: u8)
    requires
        a < 32,
        b < 32,
    ensures
        (register | bit(a)) & bit(a) != 0,
        (register & !bit(a)) & bit(a) == 0,
        ((register | bit(a)) | bit(b)) & bit(a) != 0,
        ((register | bit(a)) | bit(b)) & bit(b) != 0,
        register & !((register | bit(a)) | bit(b)) == 0,
{
    assert((register | (1u32 << a)) & (1u32 << a) != 0 && (register & !(1u32 << a)) & (1u32 << a)
        == 0 && ((register | (1u32 << a)) | (1u32 << b)) & (1u32 << a) != 0 && ((register | (1u32
        << a)) | (1u32 << b)) & (1u32 << b) != 0 && register & !((register | (1u32 << a)) | (1u32
        << b)) == 0) by (bit_vector)
        requires
            a < 32,
            b < 32,
    ;
}

/// Releasing the I/Os, starting and the end of an acquisition all leave the
/// enable bit alone.
proof fn lemma_control_keeps_enable(control: u32)
    ensures
        ((control & !CR_IODEF) | CR_START) & CR_TSCE == control & CR_TSCE,
        ((control & !CR_IODEF) | CR_START) & CR_START != 0,
        (control & !CR_START) & CR_TSCE == control & CR_TSCE,
        (control & !CR_IODEF & !CR_START) & CR_TSCE == control & CR_TSCE,
        ((control & !CR_IODEF) | CR_START) & !CR_START == control & !CR_IODEF & !CR_START,
{
    assert(((control & !0x10u32) | 2u32) & 1u32 == control & 1u32 && ((control & !0x10u32) | 2u32)
        & 2u32 != 0 && (control & !2u32) & 1u32 == control & 1u32 && (control & !0x10u32 & !2u32)
        & 1u32 == control & 1u32 && ((control & !0x10u32) | 2u32) & !2u32 == control & !0x10u32
        & !2u32) by (bit_vector);
}

/// A pending end of acquisition stays pending whatever the unit raises on
/// top of it.
proof fn lemma_flags_stay(status: u32, outcome: Outcome)
    ensures
        status & FLAG_EOA != 0 ==> (status | outcome.flags()) & FLAG_EOA != 0,
{
    assert(status & 1u32 != 0 ==> (status | 1u32) & 1u32 != 0 && (status | 2u32) & 1u32 != 0 && (
    status | 3u32) & 1u32 != 0) by (bit_vector);
}

/// How the two event flags behave once both have been acknowledged: each
/// outcome shows as its event, and acknowledging that event leaves only what
/// was not reported.
proof fn lemma_flag_algebra(status: u32)
    ensures
        ({
            let idle = status & !FLAG_EOA & !FLAG_MCE;
            &&& idle == status & !FLAG_BOTH
            &&& idle & FLAG_EOA == 0
            &&& idle & FLAG_MCE == 0
            &&& (idle | FLAG_EOA) & FLAG_EOA != 0
            &&& (idle | FLAG_EOA) & !FLAG_EOA == idle | (FLAG_EOA & !FLAG_EOA)
            &&& (idle | FLAG_MCE) & FLAG_EOA == 0
            &&& (idle | FLAG_MCE) & FLAG_MCE != 0
            &&& (idle | FLAG_MCE) & !FLAG_MCE == idle | (FLAG_MCE & !FLAG_MCE)
            &&& (idle | FLAG_BOTH) & FLAG_EOA != 0
            &&& (idle | FLAG_BOTH) & !FLAG_EOA == idle | (FLAG_BOTH & !FLAG_EOA)
        }),
{
    let idle = status & !1u32 & !2u32;
    assert(idle == status & !3u32 && idle & 1u32 == 0 && idle & 2u32 == 0 && (idle | 1u32) & 1u32
        != 0 && (idle | 1u32) & !1u32 == idle | (1u32 & !1u32) && (idle | 2u32) & 1u32 == 0 && (idle
        | 2u32) & 2u32 != 0 && (idle | 2u32) & !2u32 == idle | (2u32 & !2u32) && (idle | 3u32)
        & 1u32 != 0 && (idle | 3u32) & !1u32 == idle | (3u32 & !1u32)) by (bit_vector)
        requires
            idle == status & !1u32 & !2u32,
    ;
}

} // verus!
