//! Network-time reconciliation: the decisions of one synchronization
//! session, separated from the sockets that carry it out.
//!
//! A session walks a prioritized hostname pool until one resolves to at
//! least one address, then tries a time exchange against each address
//! in turn. The first success yields the instant to write back to the
//! RTC; exhausting everything yields nothing, and the RTC keeps its
//! value. The driver performs DNS queries and exchanges and feeds each
//! outcome back as a `SyncEvent`.

use vstd::prelude::*;

use crate::clock::UtcTime;

verus! {

/// Where a synchronization session stands.
#[derive(Debug, Clone, Copy)]
pub enum SyncPhase {
    /// Resolving hostname `host_idx` of the pool.
    Resolving { host_idx: usize },
    /// A hostname resolved to `n_addrs` addresses; exchanging with
    /// address `addr_idx` of that list.
    Exchanging { n_addrs: usize, addr_idx: usize },
    /// The session is over: the instant to write back, or nothing.
    Done { result: Option<UtcTime> },
}

/// What the driver observed for the step it was asked to perform.
#[derive(Debug, Clone, Copy)]
pub enum SyncEvent {
    /// The hostname resolved to this many addresses.
    DnsResolved { n_addrs: usize },
    /// The DNS query failed.
    DnsFailed,
    /// A time exchange succeeded, carrying the protocol's seconds and
    /// 32-bit second fraction.
    ExchangeSucceeded { sec: u32, frac: u32 },
    /// The time exchange failed or timed out.
    ExchangeFailed,
}

/// What the driver is to do next.
#[derive(Debug, Clone, Copy)]
pub enum SyncAction {
    /// Resolve hostname `host_idx` of the pool.
    QueryDns { host_idx: usize },
    /// Run a time exchange against address `addr_idx` of the resolved
    /// list, seeding the request's origin timestamp from the RTC.
    Exchange { addr_idx: usize },
    /// Write this instant back to the RTC.
    WriteRtc { time: UtcTime },
    /// Skip this cycle; the RTC keeps its value.
    SkipCycle,
}

impl SyncPhase {
    /// Indices stay inside the pool and the resolved list.
    pub open spec fn wf(self, n_hosts: int) -> bool {
        match self {
            SyncPhase::Resolving { host_idx } => host_idx < n_hosts,
            SyncPhase::Exchanging { n_addrs, addr_idx } => addr_idx < n_addrs,
            SyncPhase::Done { .. } => true,
        }
    }

    /// Whether the session already holds an instant to write back.
    pub open spec fn has_result(self) -> bool {
        match self {
            SyncPhase::Done { result } => result is Some,
            _ => false,
        }
    }
}

/// The transition the session makes on one observed event. An event
/// that does not answer the pending action leaves the session where it
/// was.
pub open spec fn spec_sync_step(phase: SyncPhase, event: SyncEvent, n_hosts: int) -> SyncPhase {
    match phase {
        SyncPhase::Resolving { host_idx } => match event {
            SyncEvent::DnsResolved { n_addrs } => if n_addrs > 0 {
                SyncPhase::Exchanging { n_addrs, addr_idx: 0 }
            } else if host_idx + 1 < n_hosts {
                SyncPhase::Resolving { host_idx: (host_idx + 1) as usize }
            } else {
                SyncPhase::Done { result: None }
            },
            SyncEvent::DnsFailed => if host_idx + 1 < n_hosts {
                SyncPhase::Resolving { host_idx: (host_idx + 1) as usize }
            } else {
                SyncPhase::Done { result: None }
            },
            _ => phase,
        },
        SyncPhase::Exchanging { n_addrs, addr_idx } => match event {
            SyncEvent::ExchangeSucceeded { sec, frac } => SyncPhase::Done {
                result: Some(spec_ntp_instant(sec, frac)),
            },
            SyncEvent::ExchangeFailed => if addr_idx + 1 < n_addrs {
                SyncPhase::Exchanging { n_addrs, addr_idx: (addr_idx + 1) as usize }
            } else {
                SyncPhase::Done { result: None }
            },
            _ => phase,
        },
        SyncPhase::Done { .. } => phase,
    }
}

/// Advance a session by one observed event.
pub fn sync_step(phase: SyncPhase, event: SyncEvent, n_hosts: usize) -> (r: SyncPhase)
    requires
        phase.wf(n_hosts as int),
    ensures
        r == spec_sync_step(phase, event, n_hosts as int),
        r.wf(n_hosts as int),
{
    match phase {
        SyncPhase::Resolving { host_idx } => match event {
            SyncEvent::DnsResolved { n_addrs } => {
                if n_addrs > 0 {
                    SyncPhase::Exchanging { n_addrs, addr_idx: 0 }
                } else if host_idx + 1 < n_hosts {
                    SyncPhase::Resolving { host_idx: host_idx + 1 }
                } else {
                    SyncPhase::Done { result: None }
                }
            },
            SyncEvent::DnsFailed => {
                if host_idx + 1 < n_hosts {
                    SyncPhase::Resolving { host_idx: host_idx + 1 }
                } else {
                    SyncPhase::Done { result: None }
                }
            },
            _ => phase,
        },
        SyncPhase::Exchanging { n_addrs, addr_idx } => match event {
            SyncEvent::ExchangeSucceeded { sec, frac } => SyncPhase::Done {
                result: Some(ntp_instant(sec, frac)),
            },
            SyncEvent::ExchangeFailed => {
                if addr_idx + 1 < n_addrs {
                    SyncPhase::Exchanging { n_addrs, addr_idx: addr_idx + 1 }
                } else {
                    SyncPhase::Done { result: None }
                }
            },
            _ => phase,
        },
        SyncPhase::Done { .. } => phase,
    }
}

/// What the driver is to do in a given session state.
pub fn next_action(phase: &SyncPhase) -> (r: SyncAction)
    ensures
        r == (match *phase {
            SyncPhase::Resolving { host_idx } => SyncAction::QueryDns { host_idx },
            SyncPhase::Exchanging { addr_idx, .. } => SyncAction::Exchange { addr_idx },
            SyncPhase::Done { result: Some(time) } => SyncAction::WriteRtc { time },
            SyncPhase::Done { result: None } => SyncAction::SkipCycle,
        }),
{
    match *phase {
        SyncPhase::Resolving { host_idx } => SyncAction::QueryDns { host_idx },
        SyncPhase::Exchanging { addr_idx, .. } => SyncAction::Exchange { addr_idx },
        SyncPhase::Done { result: Some(time) } => SyncAction::WriteRtc { time },
        SyncPhase::Done { result: None } => SyncAction::SkipCycle,
    }
}

/// Nanoseconds denoted by a 32-bit binary second fraction of the time
/// protocol.
pub open spec fn spec_fraction_nanos(frac: int) -> int {
    frac * 1_000_000_000 / 0x1_0000_0000
}

/// The instant a successful exchange denotes: the protocol's whole
/// seconds, with its second fraction brought to microseconds.
pub open spec fn spec_ntp_instant(sec: u32, frac: u32) -> UtcTime {
    UtcTime { secs: sec as u64, micros: (spec_fraction_nanos(frac as int) / 1000) as u32 }
}

/// Bring a 32-bit second fraction to microseconds.
pub fn fraction_to_micros(frac: u32) -> (r: u32)
    ensures
        r == spec_fraction_nanos(frac as int) / 1000,
        r < 1_000_000,
{
    let nanos: u64 = ((frac as u64) * 1_000_000_000) >> 32u64;
    proof {
        let p: u64 = ((frac as u64) * 1_000_000_000) as u64;
        assert(p >> 32u64 == p / 0x1_0000_0000) by (bit_vector);
        assert(p / 0x1_0000_0000 < 1_000_000_000) by (nonlinear_arith)
            requires
                p == frac * 1_000_000_000,
                frac < 0x1_0000_0000,
        ;
    }
    (nanos / 1000) as u32
}

/// Build the instant a successful exchange denotes.
pub fn ntp_instant(sec: u32, frac: u32) -> (r: UtcTime)
    ensures
        r == spec_ntp_instant(sec, frac),
        r.valid(),
{
    UtcTime { secs: sec as u64, micros: fraction_to_micros(frac) }
}

/// The value the RTC holds once the session's outcome is applied: the
/// synchronized instant on success, the pre-sync value untouched
/// otherwise.
pub open spec fn spec_apply_sync(current: UtcTime, result: Option<UtcTime>) -> UtcTime {
    match result {
        Some(t) => t,
        None => current,
    }
}

pub fn apply_sync_result(current: UtcTime, result: Option<UtcTime>) -> (r: UtcTime)
    ensures
        r == spec_apply_sync(current, result),
{
    match result {
        Some(t) => t,
        None => current,
    }
}

/// Where a session started in `phase` ends after observing `events`,
/// one after the other, stopping early once it is done.
pub open spec fn spec_sync_run(phase: SyncPhase, events: Seq<SyncEvent>, n_hosts: int) -> SyncPhase
    decreases events.len(),
{
    if events.len() == 0 {
        phase
    } else {
        spec_sync_run(spec_sync_step(phase, events[0], n_hosts), events.drop_first(), n_hosts)
    }
}

/// A session in which no exchange ever succeeds ends without a result,
/// so the RTC keeps its pre-sync value unchanged.
pub proof fn lemma_sync_without_success_keeps_clock(
    phase: SyncPhase,
    events: Seq<SyncEvent>,
    n_hosts: int,
    current: UtcTime,
)
    requires
        !phase.has_result(),
        forall|i: int|
            0 <= i < events.len() ==> !(#[trigger] events[i] matches SyncEvent::ExchangeSucceeded {
                ..
            }),
    ensures
        !spec_sync_run(phase, events, n_hosts).has_result(),
        spec_apply_sync(
            current,
            match spec_sync_run(phase, events, n_hosts) {
                SyncPhase::Done { result } => result,
                _ => None,
            },
        ) == current,
    decreases events.len(),
{
    if events.len() > 0 {
        lemma_sync_without_success_keeps_clock(
            spec_sync_step(phase, events[0], n_hosts),
            events.drop_first(),
            n_hosts,
            current,
        );
    }
}

} // verus!
