use vstd::prelude::*;

verus! {

/// How long, after it asked for the next track, the monitor waits before it may ask again.
pub const COOLDOWN_MS: u64 = 5000;

/// A track this close to its end, in seconds, counts as finished.
pub const NEAR_END_SECS: u32 = 2;

pub open spec fn remaining(current: nat, total: nat) -> nat {
    if current >= total {
        0
    } else {
        (total - current) as nat
    }
}

/// Seconds left in the track, zero once the position has passed the end.
pub fn remaining_secs(current: u32, total: u32) -> (r: u32)
    ensures
        r as nat == remaining(current as nat, total as nat),
{
    total.saturating_sub(current)
}

pub open spec fn deadline_after(now: u64) -> u64 {
    if now as int + COOLDOWN_MS as int > u64::MAX as int {
        u64::MAX
    } else {
        (now + COOLDOWN_MS) as u64
    }
}

/// Decides, once per poll, whether to ask for the next track. After asking it stays quiet
/// until the request is confirmed and at least `COOLDOWN_MS` have passed.
#[derive(Debug, Clone, Copy, PartialEq, Eq)]
pub struct PositionMonitor {
    /// The earliest time (ms) at which the next request may go out.
    pub cooldown_until_ms: u64,
    /// A request went out and is not confirmed yet.
    pub awaiting_confirmation: bool,
}

/// The total to count against: the cached duration of the item where there is one, else the
/// renderer's.
pub open spec fn effective_total(reported_total: u32, cached_total: Option<u32>) -> u32 {
    match cached_total {
        Some(t) => t,
        None => reported_total,
    }
}

/// Whether a poll at `now` with this progress asks for the next track.
pub open spec fn fires(m: PositionMonitor, now: u64, current: u32, reported_total: u32, cached_total: Option<u32>) -> bool {
    let total = effective_total(reported_total, cached_total);
    &&& total > 0
    &&& remaining(current as nat, total as nat) <= NEAR_END_SECS
    &&& !m.awaiting_confirmation
    &&& now >= m.cooldown_until_ms
}

pub open spec fn after_tick(m: PositionMonitor, now: u64, current: u32, reported_total: u32, cached_total: Option<u32>) -> PositionMonitor {
    if fires(m, now, current, reported_total, cached_total) {
        PositionMonitor { cooldown_until_ms: deadline_after(now), awaiting_confirmation: true }
    } else {
        m
    }
}

pub open spec fn after_confirm(m: PositionMonitor, now: u64) -> PositionMonitor {
    let d = deadline_after(now);
    PositionMonitor {
        cooldown_until_ms: if d > m.cooldown_until_ms { d } else { m.cooldown_until_ms },
        awaiting_confirmation: false,
    }
}

impl PositionMonitor {
    pub fn new() -> (r: PositionMonitor)
        ensures
            r.cooldown_until_ms == 0,
            !r.awaiting_confirmation,
    {
        PositionMonitor { cooldown_until_ms: 0, awaiting_confirmation: false }
    }

    /// One poll at time `now_ms` (ms) with the renderer's progress; `cached_total` is a
    /// better-known duration of the item, when there is one. Returns true when the next
    /// track is to be requested now.
    pub fn on_tick(&mut self, now_ms: u64, current: u32, reported_total: u32, cached_total: Option<u32>) -> (r: bool)
        ensures
            r == fires(*old(self), now_ms, current, reported_total, cached_total),
            *final(self) == after_tick(*old(self), now_ms, current, reported_total, cached_total),
    {
        let total = match cached_total {
            Some(t) => t,
            None => reported_total,
        };
        let rem = remaining_secs(current, total);
        if total > 0 && rem <= NEAR_END_SECS && !self.awaiting_confirmation && now_ms >= self.cooldown_until_ms {
            self.cooldown_until_ms = now_ms.saturating_add(COOLDOWN_MS);
            self.awaiting_confirmation = true;
            true
        } else {
            false
        }
    }

    /// The next-track request went through at time `now_ms`.
    pub fn on_next_confirmed(&mut self, now_ms: u64)
        ensures
            *final(self) == after_confirm(*old(self), now_ms),
    {
        let d = now_ms.saturating_add(COOLDOWN_MS);
        if d > self.cooldown_until_ms {
            self.cooldown_until_ms = d;
        }
        self.awaiting_confirmation = false;
    }
}

/// When the monitor asks for the next track at time `t`, it holds off until
/// `t + COOLDOWN_MS` at the earliest.
pub proof fn lemma_firing_starts_cooldown(
    m: PositionMonitor,
    t: u64,
    current: u32,
    reported_total: u32,
    cached_total: Option<u32>,
)
    requires
        t as int + COOLDOWN_MS as int <= u64::MAX as int,
        fires(m, t, current, reported_total, cached_total),
    ensures
        after_tick(m, t, current, reported_total, cached_total).cooldown_until_ms == t + COOLDOWN_MS,
{
}

/// Until the held-off moment `until` has come, no poll fires, whatever progress it sees; polls
/// leave the monitor as it is and a confirmation never brings that moment forward. So a
/// request is followed by no other for at least `COOLDOWN_MS`, over any run of polls and
/// confirmations.
pub proof fn lemma_cooldown_holds(
    m: PositionMonitor,
    until: u64,
    now: u64,
    current: u32,
    reported_total: u32,
    cached_total: Option<u32>,
    confirm_at: u64,
)
    requires
        m.cooldown_until_ms >= until,
        now < until,
    ensures
        !fires(m, now, current, reported_total, cached_total),
        after_tick(m, now, current, reported_total, cached_total) == m,
        after_confirm(m, confirm_at).cooldown_until_ms >= until,
{
}

} // verus!
