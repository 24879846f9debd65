//! A bounded cache of fetched day-off masks, keyed by month.
//!
//! The cache holds at most three entries — conceptually the previous,
//! current and next month — in a fixed-capacity map. An insert over
//! capacity is rejected, never silently evicting; `rotate` evicts the
//! stale month itself before inserting the new one.

use vstd::prelude::*;
use vstd::set::axiom_set_insert_len;
use vstd::set::axiom_set_remove_len;

use crate::daysoff_mask::DaysOffMask;
use crate::month_date::MonthDate;

verus! {

#[verifier::external_type_specification]
#[verifier::external_body]
#[verifier::reject_recursive_types(K)]
#[verifier::reject_recursive_types(V)]
pub struct ExLinearMap<K, V, const N: usize>(heapless::LinearMap<K, V, N>);

/// What the fixed-capacity map holds: packed month keys to raw masks.
pub uninterp spec fn cache_entries(m: heapless::LinearMap<u16, u32, 3>) -> Map<u16, u32>;

/// The contents of a cache with nothing resident.
pub open spec fn no_entries() -> Map<u16, u32> {
    Map::empty()
}

/// Relies on heapless::LinearMap::new: a freshly created map is empty.
#[verifier::external_body]
fn lm_new() -> (r: heapless::LinearMap<u16, u32, 3>)
    ensures
        cache_entries(r) == no_entries(),
{
    heapless::LinearMap::new()
}

/// Relies on heapless::LinearMap::insert: an existing key is updated in
/// place; a new key is appended while the map is below its capacity of
/// 3 and rejected at capacity, leaving the map unchanged.
#[verifier::external_body]
fn lm_insert(m: &mut heapless::LinearMap<u16, u32, 3>, key: u16, value: u32) -> (r: Result<
    Option<u32>,
    (),
>)
    ensures
        match r {
            Ok(prev) => cache_entries(*final(m)) == cache_entries(*old(m)).insert(key, value)
                && match prev {
                Some(v) => cache_entries(*old(m)).dom().contains(key) && cache_entries(*old(m))[key]
                    == v,
                None => !cache_entries(*old(m)).dom().contains(key) && cache_entries(*old(m)).dom().len() < 3,
            },
            Err(_) => cache_entries(*final(m)) == cache_entries(*old(m)) && !cache_entries(*old(m)).dom().contains(key) && cache_entries(*old(m)).dom().len() >= 3,
        },
        cache_entries(*final(m)).dom().finite() == cache_entries(*old(m)).dom().finite(),
{
    match m.insert(key, value) {
        Ok(prev) => Ok(prev),
        Err(_) => Err(()),
    }
}

/// Relies on heapless::LinearMap::remove: removes the key if present
/// and returns its value.
#[verifier::external_body]
fn lm_remove(m: &mut heapless::LinearMap<u16, u32, 3>, key: u16) -> (r: Option<u32>)
    ensures
        cache_entries(*final(m)) == cache_entries(*old(m)).remove(key),
        r == (if cache_entries(*old(m)).dom().contains(key) {
            Some(cache_entries(*old(m))[key])
        } else {
            Option::<u32>::None
        }),
        cache_entries(*final(m)).dom().finite() == cache_entries(*old(m)).dom().finite(),
{
    m.remove(&key)
}

/// Relies on heapless::LinearMap::get: looks the key up.
#[verifier::external_body]
fn lm_get(m: &heapless::LinearMap<u16, u32, 3>, key: u16) -> (r: Option<u32>)
    ensures
        r == (if cache_entries(*m).dom().contains(key) {
            Some(cache_entries(*m)[key])
        } else {
            Option::<u32>::None
        }),
{
    m.get(&key).copied()
}

/// Relies on heapless::LinearMap::clear: removes every entry.
#[verifier::external_body]
fn lm_clear(m: &mut heapless::LinearMap<u16, u32, 3>)
    ensures
        cache_entries(*final(m)) == no_entries(),
{
    m.clear()
}

/// Relies on heapless::LinearMap::len: how many entries are resident.
#[verifier::external_body]
fn lm_len(m: &heapless::LinearMap<u16, u32, 3>) -> (r: usize)
    ensures
        r == cache_entries(*m).dom().len(),
        r <= 3,
{
    m.len()
}

/// An insert as the bounded map performs it: an existing key is
/// updated, a new key is added only below capacity.
pub open spec fn spec_insert_bounded(m: Map<u16, u32>, k: u16, v: u32) -> Map<u16, u32> {
    if m.dom().contains(k) || m.dom().len() < 3 {
        m.insert(k, v)
    } else {
        m
    }
}

/// A fetched mask is inserted; a lookup that yielded no mask changes
/// nothing.
pub open spec fn spec_maybe_insert(m: Map<u16, u32>, k: u16, v: Option<u32>) -> Map<u16, u32> {
    match v {
        Some(x) => spec_insert_bounded(m, k, x),
        None => m,
    }
}

/// What `populate_triplet` leaves in the cache: the three masks for
/// the previous, current and next month, each inserted when its lookup
/// produced one.
pub open spec fn spec_populate(m: Map<u16, u32>, current: MonthDate, masks: Seq<Option<u32>>) -> Map<
    u16,
    u32,
> {
    spec_maybe_insert(
        spec_maybe_insert(
            spec_maybe_insert(m, current.spec_sub_months(1).0, masks[0]),
            current.0,
            masks[1],
        ),
        current.spec_add_months(1).0,
        masks[2],
    )
}

/// What `rotate` leaves in the cache: the month two steps behind is
/// evicted, the month one step ahead inserted when its lookup produced
/// a mask.
pub open spec fn spec_rotate(m: Map<u16, u32>, current: MonthDate, next_mask: Option<u32>) -> Map<
    u16,
    u32,
> {
    spec_maybe_insert(
        m.remove(current.spec_sub_months(2).0),
        current.spec_add_months(1).0,
        next_mask,
    )
}

/// The in-memory cache of day-off masks, at most three months resident.
pub struct OffDayCache {
    inner: heapless::LinearMap<u16, u32, 3>,
}

impl OffDayCache {
    /// The resident entries: packed month value to raw mask.
    pub closed spec fn spec_entries(self) -> Map<u16, u32> {
        cache_entries(self.inner)
    }

    /// The cache never holds more than three entries.
    pub open spec fn inv(self) -> bool {
        self.spec_entries().dom().finite() && self.spec_entries().dom().len() <= 3
    }

    pub fn new() -> (r: Self)
        ensures
            r.inv(),
            r.spec_entries() == no_entries(),
    {
        OffDayCache { inner: lm_new() }
    }

    /// Insert a fetched mask for a month. Over capacity the insert is
    /// rejected and `false` returned; the caller evicts first.
    pub fn insert(&mut self, month: MonthDate, mask: DaysOffMask) -> (r: bool)
        requires
            old(self).inv(),
        ensures
            final(self).inv(),
            final(self).spec_entries() == spec_insert_bounded(
                old(self).spec_entries(),
                month.0,
                mask.0,
            ),
            r == (old(self).spec_entries().dom().contains(month.0) || old(
                self,
            ).spec_entries().dom().len() < 3),
    {
        proof {
            axiom_set_insert_len(self.spec_entries().dom(), month.0);
        }
        match lm_insert(&mut self.inner, month.0, mask.0) {
            Ok(_) => true,
            Err(_) => false,
        }
    }

    /// Drop the entry for a month, if one is resident.
    pub fn remove(&mut self, month: MonthDate)
        requires
            old(self).inv(),
        ensures
            final(self).inv(),
            final(self).spec_entries() == old(self).spec_entries().remove(month.0),
    {
        proof {
            axiom_set_remove_len(self.spec_entries().dom(), month.0);
        }
        let _ = lm_remove(&mut self.inner, month.0);
    }

    /// The resident mask for a month, if any.
    pub fn get(&self, month: MonthDate) -> (r: Option<DaysOffMask>)
        ensures
            r == (if self.spec_entries().dom().contains(month.0) {
                Some(DaysOffMask(self.spec_entries()[month.0]))
            } else {
                Option::<DaysOffMask>::None
            }),
    {
        match lm_get(&self.inner, month.0) {
            Some(v) => Some(DaysOffMask::new(v)),
            None => None,
        }
    }

    /// Empty the cache unconditionally.
    pub fn clear(&mut self)
        ensures
            final(self).inv(),
            final(self).spec_entries() == no_entries(),
    {
        lm_clear(&mut self.inner);
    }

    /// How many months are resident.
    pub fn len(&self) -> (r: usize)
        ensures
            r == self.spec_entries().dom().len(),
            r <= 3,
    {
        lm_len(&self.inner)
    }

    /// Store the lookup results for the previous, current and next
    /// month; a lookup that yielded no mask leaves that month on its
    /// default weekend mask.
    pub fn populate_triplet(&mut self, current: MonthDate, masks: [Option<u32>; 3])
        requires
            old(self).inv(),
            current.valid(),
            1 <= current.total_months(),
            current.total_months() + 1 <= 4095 * 12 + 11,
        ensures
            final(self).inv(),
            final(self).spec_entries() == spec_populate(
                old(self).spec_entries(),
                current,
                masks@,
            ),
    {
        let months = months_triplet(current);
        if let Some(v) = masks[0] {
            self.insert(months[0], DaysOffMask::new(v));
        }
        if let Some(v) = masks[1] {
            self.insert(months[1], DaysOffMask::new(v));
        }
        if let Some(v) = masks[2] {
            self.insert(months[2], DaysOffMask::new(v));
        }
    }

    /// Advance the sliding window one month: evict the month two steps
    /// behind `current`, and insert the month ahead of it when its
    /// lookup produced a mask.
    pub fn rotate(&mut self, current: MonthDate, next_mask: Option<u32>)
        requires
            old(self).inv(),
            current.valid(),
            2 <= current.total_months(),
            current.total_months() + 1 <= 4095 * 12 + 11,
        ensures
            final(self).inv(),
            final(self).spec_entries() == spec_rotate(
                old(self).spec_entries(),
                current,
                next_mask,
            ),
            !final(self).spec_entries().dom().contains(current.spec_sub_months(2).0),
            final(self).spec_entries().dom().len() <= 3,
    {
        let stale = current.sub_months(2);
        let next = current.add_months(1);
        proof {
            MonthDate::lemma_total_injective_contrapositive(stale, next);
        }
        self.remove(stale);
        if let Some(v) = next_mask {
            self.insert(next, DaysOffMask::new(v));
        }
    }
}

/// The months the cache keeps warm around `current`: one behind,
/// `current` itself, one ahead.
pub fn months_triplet(current: MonthDate) -> (r: [MonthDate; 3])
    requires
        current.valid(),
        1 <= current.total_months(),
        current.total_months() + 1 <= 4095 * 12 + 11,
    ensures
        r[0] == current.spec_sub_months(1),
        r[1] == current,
        r[2] == current.spec_add_months(1),
        r[0].valid() && r[1].valid() && r[2].valid(),
{
    [current.sub_months(1), current, current.add_months(1)]
}

/// A triplet fill followed by one rotation leaves at most three months
/// resident, and the month two steps behind `current` is gone.
pub proof fn lemma_populate_then_rotate_bounded(
    m: Map<u16, u32>,
    current: MonthDate,
    masks: Seq<Option<u32>>,
    next_mask: Option<u32>,
)
    requires
        m.dom().finite(),
        m.dom().len() <= 3,
        current.valid(),
        2 <= current.total_months(),
        current.total_months() + 1 <= 4095 * 12 + 11,
    ensures
        ({
            let after = spec_rotate(spec_populate(m, current, masks), current, next_mask);
            after.dom().finite() && after.dom().len() <= 3 && !after.dom().contains(
                current.spec_sub_months(2).0,
            )
        }),
{
    let filled = spec_populate(m, current, masks);
    lemma_maybe_insert_bounded(m, current.spec_sub_months(1).0, masks[0]);
    lemma_maybe_insert_bounded(
        spec_maybe_insert(m, current.spec_sub_months(1).0, masks[0]),
        current.0,
        masks[1],
    );
    lemma_maybe_insert_bounded(
        spec_maybe_insert(
            spec_maybe_insert(m, current.spec_sub_months(1).0, masks[0]),
            current.0,
            masks[1],
        ),
        current.spec_add_months(1).0,
        masks[2],
    );
    let stale = current.spec_sub_months(2);
    let next = current.spec_add_months(1);
    let evicted = filled.remove(stale.0);
    axiom_set_remove_len(filled.dom(), stale.0);
    lemma_maybe_insert_bounded(evicted, next.0, next_mask);
    MonthDate::lemma_from_total_fields(current.total_months() - 2);
    MonthDate::lemma_from_total_fields(current.total_months() + 1);
    MonthDate::lemma_total_injective_contrapositive(stale, next);
}

/// A bounded insert keeps the entry count at three or below.
proof fn lemma_maybe_insert_bounded(m: Map<u16, u32>, k: u16, v: Option<u32>)
    requires
        m.dom().finite(),
        m.dom().len() <= 3,
    ensures
        spec_maybe_insert(m, k, v).dom().finite(),
        spec_maybe_insert(m, k, v).dom().len() <= 3,
        forall|k2: u16|
            #[trigger] spec_maybe_insert(m, k, v).dom().contains(k2) ==> (m.dom().contains(k2)
                || k2 == k),
{
    match v {
        Some(_) => {
            axiom_set_insert_len(m.dom(), k);
        },
        None => {},
    }
}

} // verus!
