use vstd::prelude::*;

use crate::{clamped, DecodeError};

verus! {

/// Number of rate/level segments of an envelope.
pub const SEGMENT_COUNT: usize = 4;

/// Highest rate or level of an envelope segment.
pub const MAX_SEGMENT_VALUE: u8 = 99;

/// A four stage rate/level envelope.
#[derive(Clone, Copy, Debug, Eq, Hash, PartialEq)]
pub struct Envelope {
    pub rates: [u8; SEGMENT_COUNT],
    pub levels: [u8; SEGMENT_COUNT],
}

impl Envelope {
    /// The envelope with every rate and level clamped to the valid range.
    pub open spec fn normalized(self) -> Envelope {
        Envelope {
            rates: [
                clamped(self.rates[0], MAX_SEGMENT_VALUE),
                clamped(self.rates[1], MAX_SEGMENT_VALUE),
                clamped(self.rates[2], MAX_SEGMENT_VALUE),
                clamped(self.rates[3], MAX_SEGMENT_VALUE),
            ],
            levels: [
                clamped(self.levels[0], MAX_SEGMENT_VALUE),
                clamped(self.levels[1], MAX_SEGMENT_VALUE),
                clamped(self.levels[2], MAX_SEGMENT_VALUE),
                clamped(self.levels[3], MAX_SEGMENT_VALUE),
            ],
        }
    }

    /// Every segment has the same rate and the same level.
    pub fn from_rate_and_level(rate: u8, level: u8) -> (r: Self)
        ensures
            r.rates@ == seq![rate, rate, rate, rate],
            r.levels@ == seq![level, level, level, level],
    {
        let r = Envelope { rates: [rate, rate, rate, rate], levels: [level, level, level, level] };
        assert(r.rates@ =~= seq![rate, rate, rate, rate]);
        assert(r.levels@ =~= seq![level, level, level, level]);
        r
    }

    pub fn from_rates_and_levels(rates: [u8; 4], levels: [u8; 4]) -> (r: Self)
        ensures
            r.rates == rates,
            r.levels == levels,
    {
        Envelope { rates, levels }
    }

    /// Builds an envelope from rate and level sequences, each of which must
    /// hold exactly one value per segment.
    pub fn try_from_rates_and_levels(rates: &[u8], levels: &[u8]) -> (r: Result<Self, DecodeError>)
        ensures
            rates@.len() == SEGMENT_COUNT && levels@.len() == SEGMENT_COUNT ==> (r matches Ok(
                e,
            ) && e.rates@ == rates@ && e.levels@ == levels@),
            !(rates@.len() == SEGMENT_COUNT && levels@.len() == SEGMENT_COUNT) ==> r
                == Err::<Self, DecodeError>(DecodeError::LengthMismatch),
    {
        if rates.len() != SEGMENT_COUNT || levels.len() != SEGMENT_COUNT {
            return Err(DecodeError::LengthMismatch);
        }
        let fixed_rates: [u8; 4] = [rates[0], rates[1], rates[2], rates[3]];
        let fixed_levels: [u8; 4] = [levels[0], levels[1], levels[2], levels[3]];
        let e = Self::from_rates_and_levels(fixed_rates, fixed_levels);
        assert(e.rates@ =~= rates@);
        assert(e.levels@ =~= levels@);
        Ok(e)
    }

    /// Clamps all rates and levels to valid ranges.
    pub fn normalize(&self) -> (r: Self)
        ensures
            r == self.normalized(),
    {
        let mut rates: [u8; 4] = self.rates;
        let mut levels: [u8; 4] = self.levels;
        let mut i: usize = 0;
        while i < SEGMENT_COUNT
            invariant
                i <= SEGMENT_COUNT,
                forall|j: int| 0 <= j < i ==> rates[j] == clamped(self.rates[j], MAX_SEGMENT_VALUE),
                forall|j: int| 0 <= j < i ==> levels[j] == clamped(self.levels[j], MAX_SEGMENT_VALUE),
                forall|j: int| i <= j < 4 ==> rates[j] == self.rates[j] && levels[j] == self.levels[j],
            decreases SEGMENT_COUNT - i,
        {
            if rates[i] > MAX_SEGMENT_VALUE {
                rates.set(i, MAX_SEGMENT_VALUE);
            }
            if levels[i] > MAX_SEGMENT_VALUE {
                levels.set(i, MAX_SEGMENT_VALUE);
            }
            i += 1;
        }
        let r = Envelope { rates, levels };
        assert(r.rates =~= self.normalized().rates);
        assert(r.levels =~= self.normalized().levels);
        r
    }
}

impl Default for Envelope {
    fn default() -> (r: Self)
        ensures
            r.rates@ == seq![99u8, 99, 99, 99],
            r.levels@ == seq![99u8, 99, 99, 99],
    {
        Self::from_rate_and_level(99, 99)
    }
}

} // verus!
