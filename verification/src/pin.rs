//! Pins and their place in the touch-sensing unit.
//!
//! Every pin that the unit can use belongs to one of eight acquisition groups
//! and has one of four places in it. The pair is fixed in silicon, so a pin
//! type carries it as constants.

use vstd::prelude::*;

verus! {

/// The alternate function that routes a pin to the touch-sensing unit.
pub const TSC_ALTERNATE_FUNCTION: u8 = 3;

/// `group` and `offset` name a place that the unit has.
pub open spec fn is_mapping(group: u8, offset: u8) -> bool {
    1 <= group <= 8 && 1 <= offset <= 4
}

/// The index of a place in the per-I/O registers: four bits for each group,
/// lowest group first.
pub open spec fn bit_position(group: u8, offset: u8) -> int {
    offset - 1 + 4 * (group - 1)
}

/// Every place has a bit of a 32-bit register.
pub proof fn lemma_bit_position_in_range(group: u8, offset: u8)
    requires
        is_mapping(group, offset),
    ensures
        0 <= bit_position(group, offset) <= 31,
{
}

/// No two places share a bit.
pub proof fn lemma_bit_position_unique(group_a: u8, offset_a: u8, group_b: u8, offset_b: u8)
    requires
        is_mapping(group_a, offset_a),
        is_mapping(group_b, offset_b),
        bit_position(group_a, offset_a) == bit_position(group_b, offset_b),
    ensures
        group_a == group_b,
        offset_a == offset_b,
{
}

/// The bit of pin type `P` in the per-I/O registers.
pub open spec fn pin_bit<P: TscPin>() -> u8 {
    bit_position(P::GROUP, P::OFFSET) as u8
}

/// The bit of the group of pin type `P` in the per-group registers.
pub open spec fn pin_group_bit<P: TscPin>() -> u8 {
    (P::GROUP - 1) as u8
}

/// A pin that the touch-sensing unit can use, as a sampling-capacitor pin or
/// as a channel.
///
/// An implementation answers for its constants: `lemma_mapping` is the proof
/// that they name a place of the unit.
pub trait TscPin: Sized {
    /// The acquisition group of the pin, 1 to 8.
    const GROUP: u8;

    /// The place of the pin in its group, 1 to 4.
    const OFFSET: u8;

    /// The pin is less sensitive than its neighbours. Informational.
    const REDUCED_SENSITIVITY: bool;

    /// The pin has been switched over to the touch-sensing unit.
    spec fn is_setup(&self) -> bool;

    /// The constants name a place of the unit.
    proof fn lemma_mapping()
        ensures
            is_mapping(Self::GROUP, Self::OFFSET),
    ;

    /// The acquisition group of the pin.
    fn group(&self) -> (g: u8)
        ensures
            g == Self::GROUP,
            1 <= g <= 8,
    {
        proof {
            Self::lemma_mapping();
        }
        Self::GROUP
    }

    /// The index of the pin in the per-I/O registers.
    fn bit_pos(&self) -> (b: u8)
        ensures
            b == bit_position(Self::GROUP, Self::OFFSET),
            b <= 31,
    {
        proof {
            Self::lemma_mapping();
        }
        Self::OFFSET - 1 + (4 * (Self::GROUP - 1))
    }

    /// The index of the pin's group in the per-group registers.
    fn group_pos(&self) -> (p: u8)
        ensures
            p == Self::GROUP - 1,
            p <= 7,
    {
        proof {
            Self::lemma_mapping();
        }
        Self::GROUP - 1
    }

    /// Switches the pin over to the touch-sensing unit. Doing so again
    /// changes nothing.
    fn setup(&mut self)
        ensures
            final(self).is_setup(),
            old(self).is_setup() ==> *final(self) == *old(self),
    ;
}

/// Pin PB13 as an open-drain output: place 3 of group 6, where the sampling
/// capacitor of that group usually sits.
///
/// The type describes the pin and records where it is routed; switching the
/// pad itself is left to the layer that owns the hardware.
#[derive(Clone, Copy, Debug, PartialEq, Eq)]
pub struct PB13 {
    alternate_function: Option<u8>,
}

impl PB13 {
    /// The alternate function that the pin is switched to, if any.
    pub closed spec fn selected(&self) -> Option<u8> {
        self.alternate_function
    }

    /// The pin as a plain output, not yet routed anywhere.
    pub fn new() -> (pin: Self)
        ensures
            pin.selected() == None::<u8>,
            !pin.is_setup(),
    {
        PB13 { alternate_function: None }
    }

    /// The alternate function that the pin is switched to, if any.
    pub fn alternate_function(&self) -> (af: Option<u8>)
        ensures
            af == self.selected(),
    {
        self.alternate_function
    }

    /// The place of the pin in the unit.
    pub proof fn lemma_place()
        ensures
            Self::GROUP == 6,
            Self::OFFSET == 3,
            !Self::REDUCED_SENSITIVITY,
            pin_bit::<Self>() == 22,
            pin_group_bit::<Self>() == 5,
    {
    }
}

impl TscPin for PB13 {
    const GROUP: u8 = 6;

    const OFFSET: u8 = 3;

    const REDUCED_SENSITIVITY: bool = false;

    open spec fn is_setup(&self) -> bool {
        self.selected() == Some(TSC_ALTERNATE_FUNCTION)
    }

    proof fn lemma_mapping() {
        assert(Self::GROUP == 6);
        assert(Self::OFFSET == 3);
    }

    fn setup(&mut self)
        ensures
            final(self).selected() == Some(TSC_ALTERNATE_FUNCTION),
    {
        self.alternate_function = Some(TSC_ALTERNATE_FUNCTION);
    }
}

/// Pin PB14 as a push-pull output: place 4 of group 6, a channel.
///
/// The type describes the pin and records where it is routed; switching the
/// pad itself is left to the layer that owns the hardware.
#[derive(Clone, Copy, Debug, PartialEq, Eq)]
pub struct PB14 {
    alternate_function: Option<u8>,
}

impl PB14 {
    /// The alternate function that the pin is switched to, if any.
    pub closed spec fn selected(&self) -> Option<u8> {
        self.alternate_function
    }

    /// The pin as a plain output, not yet routed anywhere.
    pub fn new() -> (pin: Self)
        ensures
            pin.selected() == None::<u8>,
            !pin.is_setup(),
    {
        PB14 { alternate_function: None }
    }

    /// The alternate function that the pin is switched to, if any.
    pub fn alternate_function(&self) -> (af: Option<u8>)
        ensures
            af == self.selected(),
    {
        self.alternate_function
    }

    /// The place of the pin in the unit.
    pub proof fn lemma_place()
        ensures
            Self::GROUP == 6,
            Self::OFFSET == 4,
            !Self::REDUCED_SENSITIVITY,
            pin_bit::<Self>() == 23,
            pin_group_bit::<Self>() == 5,
    {
    }
}

impl TscPin for PB14 {
    const GROUP: u8 = 6;

    const OFFSET: u8 = 4;

    const REDUCED_SENSITIVITY: bool = false;

    open spec fn is_setup(&self) -> bool {
        self.selected() == Some(TSC_ALTERNATE_FUNCTION)
    }

    proof fn lemma_mapping() {
        assert(Self::GROUP == 6);
        assert(Self::OFFSET == 4);
    }

    fn setup(&mut self)
        ensures
            final(self).selected() == Some(TSC_ALTERNATE_FUNCTION),
    {
        self.alternate_function = Some(TSC_ALTERNATE_FUNCTION);
    }
}

} // verus!
