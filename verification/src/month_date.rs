//! A compact (year, month) value with carry-aware month arithmetic.

use vstd::prelude::*;

verus! {

/// Largest representable year: the year field is 12 bits wide.
pub const MAX_YEAR: u16 = 4095;

/// A Common-Era (year, month) pair packed as `year * 16 + month`, with
/// `month` in `1..=12` and `year` in `0..=4095`.
///
/// Because the month never exceeds 15, the ordering of the raw packed
/// integer coincides with the lexicographic ordering on (year, month);
/// `lemma_order_matches_lexicographic` states this.
#[derive(Debug, Clone, Copy, PartialEq, Eq, Structural)]
pub struct MonthDate(pub u16);

impl MonthDate {
    /// The raw packed integer.
    pub open spec fn spec_raw(self) -> int {
        self.0 as int
    }

    /// The Common-Era year encoded in the high bits.
    pub open spec fn spec_year(self) -> int {
        self.0 as int / 16
    }

    /// The month number encoded in the low four bits, `1..=12` when valid.
    pub open spec fn spec_month(self) -> int {
        self.0 as int % 16
    }

    /// The encoding invariant: month in range, year in range.
    pub open spec fn valid(self) -> bool {
        1 <= self.spec_month() <= 12 && self.spec_year() <= MAX_YEAR
    }

    /// Position of this month on the linear month axis:
    /// the number of whole months since year 0, January.
    pub open spec fn total_months(self) -> int {
        self.spec_year() * 12 + (self.spec_month() - 1)
    }

    /// The unique valid value at position `t` of the linear month axis.
    pub open spec fn from_total(t: int) -> MonthDate {
        MonthDate((t / 12 * 16 + t % 12 + 1) as u16)
    }

    /// Result of moving `n` months forward.
    pub open spec fn spec_add_months(self, n: int) -> MonthDate {
        Self::from_total(self.total_months() + n)
    }

    /// Result of moving `n` months backward.
    pub open spec fn spec_sub_months(self, n: int) -> MonthDate {
        Self::from_total(self.total_months() - n)
    }

    pub fn new(year: u16, month: u8) -> (r: Self)
        requires
            year <= MAX_YEAR,
            1 <= month <= 12,
        ensures
            r.spec_year() == year,
            r.spec_month() == month,
            r.valid(),
    {
        MonthDate(year * 16 + month as u16)
    }

    pub fn year(self) -> (r: u16)
        ensures
            r == self.spec_year(),
    {
        self.0 / 16
    }

    /// The month number, `1..=12` for a valid value.
    pub fn month(self) -> (r: u8)
        requires
            self.valid(),
        ensures
            r == self.spec_month(),
    {
        (self.0 % 16) as u8
    }

    /// Whether `self` comes strictly before `other` on the month axis.
    pub fn is_before(self, other: Self) -> (r: bool)
        ensures
            r == (self.spec_raw() < other.spec_raw()),
    {
        self.0 < other.0
    }

    /// Move `n` months forward, carrying into the year.
    ///
    /// The caller keeps the result within the representable year range;
    /// arithmetic past year 4095 is outside the interface.
    pub fn add_months(self, n: u16) -> (r: Self)
        requires
            self.valid(),
            n <= 4000,
            self.total_months() + n <= MAX_YEAR * 12 + 11,
        ensures
            r == self.spec_add_months(n as int),
            r.valid(),
            r.total_months() == self.total_months() + n,
    {
        proof {
            self.lemma_field_bounds();
        }
        let month0: u32 = (self.0 % 16) as u32 - 1;
        let sum: u32 = month0 + n as u32;
        let carry: u32 = sum / 12;
        let new_month0: u32 = sum % 12;
        let year: u32 = (self.0 / 16) as u32;
        let r = MonthDate(((year + carry) * 16 + new_month0 + 1) as u16);
        proof {
            let t = self.total_months() + n;
            assert((year + carry) == t / 12 && new_month0 == t % 12) by (nonlinear_arith)
                requires
                    year == self.spec_year(),
                    month0 == self.spec_month() - 1,
                    sum == month0 + n,
                    carry == sum / 12,
                    new_month0 == sum % 12,
                    t == year * 12 + month0 + n,
                    0 <= month0 < 12,
                    0 <= n <= 4000,
            ;
            Self::lemma_from_total_fields(t);
        }
        r
    }

    /// Move `n` months backward, borrowing from the year.
    ///
    /// The caller stays on or after year 0, January.
    pub fn sub_months(self, n: u16) -> (r: Self)
        requires
            self.valid(),
            n <= 4000,
            n <= self.total_months(),
        ensures
            r == self.spec_sub_months(n as int),
            r.valid(),
            r.total_months() == self.total_months() - n,
    {
        proof {
            self.lemma_field_bounds();
        }
        let month0: u32 = (self.0 % 16) as u32 - 1;
        let year: u32 = (self.0 / 16) as u32;
        let n: u32 = n as u32;
        let t = Ghost(self.total_months() - n);
        let (new_year, new_month0): (u32, u32) = if n > month0 {
            // Borrow whole years: the smallest count of years that
            // reaches back to the target month.
            let borrow: u32 = (n - month0 + 11) / 12;
            proof {
                let d = n - month0;
                assert(borrow * 12 >= d && borrow * 12 - d < 12 && borrow <= year)
                    by (nonlinear_arith)
                    requires
                        1 <= d,
                        borrow == (d + 11) / 12,
                        d <= year * 12,
                ;
            }
            (year - borrow, month0 + borrow * 12 - n)
        } else {
            (year, month0 - n)
        };
        let r = MonthDate(((new_year * 16) + new_month0 + 1) as u16);
        proof {
            assert(new_year == t@ / 12 && new_month0 == t@ % 12) by (nonlinear_arith)
                requires
                    t@ == new_year * 12 + new_month0,
                    0 <= new_month0 < 12,
                    0 <= new_year,
            ;
            Self::lemma_from_total_fields(t@);
        }
        r
    }

    /// The packed fields of a valid value are in range.
    proof fn lemma_field_bounds(self)
        requires
            self.valid(),
        ensures
            0 <= self.spec_month() - 1 < 12,
            0 <= self.spec_year() <= MAX_YEAR,
            self.0 == self.spec_year() * 16 + self.spec_month(),
    {
    }

    /// Fields of the value encoding position `t` of the month axis.
    pub proof fn lemma_from_total_fields(t: int)
        requires
            0 <= t <= MAX_YEAR * 12 + 11,
        ensures
            Self::from_total(t).spec_year() == t / 12,
            Self::from_total(t).spec_month() == t % 12 + 1,
            Self::from_total(t).valid(),
            Self::from_total(t).total_months() == t,
    {
        let raw = t / 12 * 16 + t % 12 + 1;
        assert(0 <= raw <= 0xffff && raw / 16 == t / 12 && raw % 16 == t % 12 + 1
            && (t / 12) * 12 + t % 12 == t) by (nonlinear_arith)
            requires
                0 <= t <= MAX_YEAR * 12 + 11,
                raw == t / 12 * 16 + t % 12 + 1,
        ;
    }

    /// Each position on the month axis names exactly one valid value.
    pub proof fn lemma_total_injective(a: MonthDate, b: MonthDate)
        requires
            a.valid(),
            b.valid(),
            a.total_months() == b.total_months(),
        ensures
            a == b,
    {
        assert(a.0 == b.0) by (nonlinear_arith)
            requires
                a.spec_year() * 12 + a.spec_month() == b.spec_year() * 12 + b.spec_month(),
                1 <= a.spec_month() <= 12,
                1 <= b.spec_month() <= 12,
                a.0 == a.spec_year() * 16 + a.spec_month(),
                b.0 == b.spec_year() * 16 + b.spec_month(),
        ;
    }

    /// Distinct positions on the month axis have distinct raw encodings.
    pub proof fn lemma_total_injective_contrapositive(a: MonthDate, b: MonthDate)
        requires
            a.valid(),
            b.valid(),
            a.total_months() != b.total_months(),
        ensures
            a.0 != b.0,
    {
        if a.0 == b.0 {
            assert(a == b);
        }
    }

    /// Moving `n` months forward and then `n` months backward returns to
    /// the starting month, for every valid start and every `n` that keeps
    /// the intermediate value representable.
    pub proof fn lemma_add_sub_months_roundtrip(d: MonthDate, n: u16)
        requires
            d.valid(),
            n <= 4000,
            d.total_months() + n <= MAX_YEAR * 12 + 11,
        ensures
            d.spec_add_months(n as int).spec_sub_months(n as int) == d,
    {
        let a = d.spec_add_months(n as int);
        Self::lemma_from_total_fields(d.total_months() + n);
        Self::lemma_from_total_fields(a.total_months() - n);
        Self::lemma_total_injective(a.spec_sub_months(n as int), d);
    }

    /// The order of the raw packed integers is exactly the lexicographic
    /// order on (year, month), for every pair of valid values.
    pub proof fn lemma_order_matches_lexicographic(a: MonthDate, b: MonthDate)
        requires
            a.valid(),
            b.valid(),
        ensures
            a.spec_raw() < b.spec_raw() <==> (a.spec_year() < b.spec_year()
                || (a.spec_year() == b.spec_year() && a.spec_month() < b.spec_month())),
    {
        assert((a.spec_year() * 16 + a.spec_month() < b.spec_year() * 16 + b.spec_month())
            <==> (a.spec_year() < b.spec_year()
                || (a.spec_year() == b.spec_year() && a.spec_month() < b.spec_month())))
            by (nonlinear_arith)
            requires
                1 <= a.spec_month() <= 12,
                1 <= b.spec_month() <= 12,
        ;
    }
}

impl PartialOrd for MonthDate {
    /// The natural total order on the packed integer, which
    /// `lemma_order_matches_lexicographic` ties to (year, month).
    fn partial_cmp(&self, other: &Self) -> (r: Option<core::cmp::Ordering>) {
        if self.0 < other.0 {
            Some(core::cmp::Ordering::Less)
        } else if self.0 == other.0 {
            Some(core::cmp::Ordering::Equal)
        } else {
            Some(core::cmp::Ordering::Greater)
        }
    }
}

impl vstd::std_specs::cmp::PartialOrdSpecImpl for MonthDate {
    open spec fn obeys_partial_cmp_spec() -> bool {
        true
    }

    open spec fn partial_cmp_spec(&self, other: &Self) -> Option<core::cmp::Ordering> {
        if self.0 < other.0 {
            Some(core::cmp::Ordering::Less)
        } else if self.0 == other.0 {
            Some(core::cmp::Ordering::Equal)
        } else {
            Some(core::cmp::Ordering::Greater)
        }
    }
}

} // verus!
