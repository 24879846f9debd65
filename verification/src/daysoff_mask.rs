//! A per-day-of-month bitmask of non-working days.

use vstd::prelude::*;

use crate::weekday::Weekday;

verus! {

/// A 32-bit set of days off: bit `i` (0-indexed) set means day `i + 1`
/// of the month is off. Only the low `days_in_month` bits are meaningful;
/// `truncate` clears the rest before a mask is attached to a month.
#[derive(Debug, Clone, Copy, PartialEq, Eq, Structural)]
pub struct DaysOffMask(pub u32);

/// A raw mask cut down to its low `days` bits.
pub open spec fn spec_truncate(m: u32, days: u32) -> u32
    recommends
        days < 32,
{
    m & (((1u32 << days) - 1) as u32)
}

impl DaysOffMask {
    /// Whether the bit for 0-indexed day `day` is set.
    pub open spec fn spec_is_off(self, day: u32) -> bool {
        (self.0 >> day) & 1u32 == 1u32
    }

    /// Wrap an externally supplied raw mask, untouched. The caller
    /// truncates before attaching it to a specific month.
    pub fn new(val: u32) -> (r: Self)
        ensures
            r.0 == val,
    {
        DaysOffMask(val)
    }

    /// Clear every bit at position `days` and above, keeping the bits
    /// below `days` as they were.
    pub fn truncate(self, days: u8) -> (r: Self)
        requires
            days <= 31,
        ensures
            r.0 == spec_truncate(self.0, days as u32),
            forall|i: u32| i < 32 ==> (r.spec_is_off(i) == (i < days && self.spec_is_off(i))),
    {
        let d: u32 = days as u32;
        proof {
            assert(1u32 << d >= 1) by (bit_vector)
                requires
                    d <= 31,
            ;
        }
        let r = DaysOffMask(self.0 & ((1u32 << d) - 1));
        proof {
            assert forall|i: u32| i < 32 implies (r.spec_is_off(i) == (i < days
                && self.spec_is_off(i))) by {
                Self::lemma_truncate_bit(self.0, days as u32, i);
            }
        }
        r
    }

    /// One bit of a mask cut down to its low `d` bits.
    proof fn lemma_truncate_bit(m: u32, d: u32, i: u32)
        by (bit_vector)
        requires
            d <= 31,
            i < 32,
        ensures
            (((m & (((1u32 << d) - 1) as u32)) >> i) & 1u32 == 1u32) == (i < d && (m >> i) & 1u32
                == 1u32),
    {
    }

    /// The mask that marks every Saturday and Sunday off across a 35-day
    /// tiling of a month whose first day falls on `starts_on`: a 7-bit
    /// weekend pattern anchored at that weekday, replicated at offsets
    /// 0, 7, 14, 21 and 28. Day `i` is marked exactly when `i` plus the
    /// offset of `starts_on` from Monday lands on Saturday or Sunday.
    pub fn default_days_off(starts_on: Weekday) -> (r: Self)
        ensures
            forall|i: u32| i < 32 ==> (r.spec_is_off(i) == ((i + starts_on.spec_offset()) % 7
                >= 5)),
    {
        let offset: u32 = starts_on.offset_from_monday() as u32;
        let init_mask: u32 = if offset == 6 {
            0b1000001u32
        } else {
            0b1100000u32 >> offset
        };
        let m: u32 = init_mask | (init_mask << 7) | (init_mask << 14) | (init_mask << 21) | (
        init_mask << 28);
        proof {
            let o = offset;
            let im = init_mask;
            assert(forall|i: u32|
                i < 32 ==> ((((im | (im << 7) | (im << 14) | (im << 21) | (im << 28)) >> i)
                    & 1u32 == 1u32) == ((i + o) % 7 >= 5))) by (bit_vector)
                requires
                    o < 7,
                    im == (if o == 6 {
                        0b1000001u32
                    } else {
                        0b1100000u32 >> o
                    }),
            ;
        }
        DaysOffMask(m)
    }

    /// Query by 0-indexed day number.
    pub fn is_day0_off(self, day: u8) -> (r: bool)
        requires
            day < 32,
        ensures
            r == self.spec_is_off(day as u32),
    {
        ((self.0 >> (day as u32)) & 1) == 1
    }

    /// Query by 1-indexed day number.
    pub fn is_day1_off(self, day: u8) -> (r: bool)
        requires
            1 <= day <= 32,
        ensures
            r == self.spec_is_off((day - 1) as u32),
    {
        self.is_day0_off(day - 1)
    }
}

} // verus!
