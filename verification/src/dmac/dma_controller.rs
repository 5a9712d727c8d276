//! Values that a transfer hands to a DMA channel: the arbitration priority,
//! the event that triggers it, and how much it moves for each trigger.

use vstd::prelude::*;

verus! {

/// Highest channel id the controller's per-channel status words have a bit
/// for, plus one.
pub const MAX_CHANNELS: u8 = 32;

/// Arbitration priority of a channel. A higher level wins arbitration.
#[allow(non_camel_case_types)]
#[derive(Clone, Copy, Debug, PartialEq, Eq, Structural)]
pub enum PriorityLevel {
    LVL0,
    LVL1,
    LVL2,
    LVL3,
}

impl PriorityLevel {
    /// The value of the priority field that selects this level.
    pub open spec fn spec_bits(self) -> u8 {
        match self {
            PriorityLevel::LVL0 => 0,
            PriorityLevel::LVL1 => 1,
            PriorityLevel::LVL2 => 2,
            PriorityLevel::LVL3 => 3,
        }
    }

    /// The value of the priority field that selects this level.
    #[verifier::when_used_as_spec(spec_bits)]
    pub fn bits(self) -> (b: u8)
        ensures
            b == self.spec_bits(),
            b < 4,
    {
        match self {
            PriorityLevel::LVL0 => 0,
            PriorityLevel::LVL1 => 1,
            PriorityLevel::LVL2 => 2,
            PriorityLevel::LVL3 => 3,
        }
    }
}

/// The peripheral event that triggers a channel. `DISABLE` selects none: such
/// a channel moves data on software triggers only.
#[allow(non_camel_case_types)]
#[derive(Clone, Copy, Debug, PartialEq, Eq, Structural)]
pub enum TriggerSource {
    DISABLE,
    SERCOM0_RX,
    SERCOM0_TX,
    SERCOM1_RX,
    SERCOM1_TX,
    SERCOM2_RX,
    SERCOM2_TX,
    SERCOM3_RX,
    SERCOM3_TX,
    SERCOM4_RX,
    SERCOM4_TX,
    SERCOM5_RX,
    SERCOM5_TX,
}

impl TriggerSource {
    /// The value of the trigger-source field that selects this event.
    pub open spec fn spec_bits(self) -> u8 {
        match self {
            TriggerSource::DISABLE => 0,
            TriggerSource::SERCOM0_RX => 1,
            TriggerSource::SERCOM0_TX => 2,
            TriggerSource::SERCOM1_RX => 3,
            TriggerSource::SERCOM1_TX => 4,
            TriggerSource::SERCOM2_RX => 5,
            TriggerSource::SERCOM2_TX => 6,
            TriggerSource::SERCOM3_RX => 7,
            TriggerSource::SERCOM3_TX => 8,
            TriggerSource::SERCOM4_RX => 9,
            TriggerSource::SERCOM4_TX => 10,
            TriggerSource::SERCOM5_RX => 11,
            TriggerSource::SERCOM5_TX => 12,
        }
    }

    /// The value of the trigger-source field that selects this event.
    #[verifier::when_used_as_spec(spec_bits)]
    pub fn bits(self) -> (b: u8)
        ensures
            b == self.spec_bits(),
            (b == 0) == (self == TriggerSource::DISABLE),
    {
        match self {
            TriggerSource::DISABLE => 0,
            TriggerSource::SERCOM0_RX => 1,
            TriggerSource::SERCOM0_TX => 2,
            TriggerSource::SERCOM1_RX => 3,
            TriggerSource::SERCOM1_TX => 4,
            TriggerSource::SERCOM2_RX => 5,
            TriggerSource::SERCOM2_TX => 6,
            TriggerSource::SERCOM3_RX => 7,
            TriggerSource::SERCOM3_TX => 8,
            TriggerSource::SERCOM4_RX => 9,
            TriggerSource::SERCOM4_TX => 10,
            TriggerSource::SERCOM5_RX => 11,
            TriggerSource::SERCOM5_TX => 12,
        }
    }
}

/// How much a channel moves for each trigger it receives.
#[allow(non_camel_case_types)]
#[derive(Clone, Copy, Debug, PartialEq, Eq, Structural)]
pub enum TriggerAction {
    /// One trigger for each block.
    BLOCK,
    /// One trigger for each burst (for each beat, where bursts are not
    /// configurable).
    BURST,
    /// One trigger for the whole transaction.
    TRANSACTION,
}

impl TriggerAction {
    /// The value of the trigger-action field that selects this action.
    pub open spec fn spec_bits(self) -> u8 {
        match self {
            TriggerAction::BLOCK => 0,
            TriggerAction::BURST => 2,
            TriggerAction::TRANSACTION => 3,
        }
    }

    /// The value of the trigger-action field that selects this action.
    #[verifier::when_used_as_spec(spec_bits)]
    pub fn bits(self) -> (b: u8)
        ensures
            b == self.spec_bits(),
    {
        match self {
            TriggerAction::BLOCK => 0,
            TriggerAction::BURST => 2,
            TriggerAction::TRANSACTION => 3,
        }
    }
}

/// Number of beats a channel collects before it starts a burst.
#[allow(non_camel_case_types)]
#[derive(Clone, Copy, Debug, PartialEq, Eq, Structural)]
pub enum FifoThreshold {
    BEATS1,
    BEATS2,
    BEATS4,
    BEATS8,
}

impl FifoThreshold {
    /// The value of the threshold field that selects this threshold.
    pub open spec fn spec_bits(self) -> u8 {
        match self {
            FifoThreshold::BEATS1 => 0,
            FifoThreshold::BEATS2 => 1,
            FifoThreshold::BEATS4 => 2,
            FifoThreshold::BEATS8 => 3,
        }
    }

    /// The value of the threshold field that selects this threshold.
    #[verifier::when_used_as_spec(spec_bits)]
    pub fn bits(self) -> (b: u8)
        ensures
            b == self.spec_bits(),
    {
        match self {
            FifoThreshold::BEATS1 => 0,
            FifoThreshold::BEATS2 => 1,
            FifoThreshold::BEATS4 => 2,
            FifoThreshold::BEATS8 => 3,
        }
    }
}

/// Length of a burst, in beats: from one to sixteen.
#[derive(Clone, Copy, Debug, PartialEq, Eq, Structural)]
pub struct BurstLength {
    beats: u8,
}

impl BurstLength {
    /// The number of beats in a burst.
    pub closed spec fn beats(self) -> int {
        self.beats as int
    }

    /// Whether the length is one that the hardware offers.
    pub open spec fn wf(self) -> bool {
        1 <= self.beats() <= 16
    }

    /// A burst of `beats` beats, where the hardware offers that length.
    pub fn new(beats: u8) -> (r: Option<BurstLength>)
        ensures
            r.is_some() == (1 <= beats <= 16),
            r.is_some() ==> r.unwrap().wf() && r.unwrap().beats() == beats,
    {
        if 1 <= beats && beats <= 16 {
            Some(BurstLength { beats })
        } else {
            None
        }
    }

    /// The value of the burst-length field that selects this length: one less
    /// than the number of beats.
    pub fn bits(self) -> (b: u8)
        requires
            self.wf(),
        ensures
            b == self.beats() - 1,
    {
        self.beats - 1
    }
}

} // verus!
