//! Allocation profiling counters.
//!
//! The counters record how many bytes are live, the highest live value seen,
//! the running totals of allocated and released bytes, and how many calls of
//! each kind were made. The process-wide allocator that feeds them lives with
//! the executable; this module holds the bookkeeping that it performs.

use vstd::prelude::*;
use crate::text::str_eq;

verus! {

/// A copy of every counter, taken at one instant.
#[derive(Clone, Copy, Debug, Default)]
pub struct AllocProfileSnapshot {
    pub live_bytes: usize,
    pub peak_live_bytes: usize,
    pub total_alloc_bytes: u64,
    pub total_dealloc_bytes: u64,
    pub alloc_calls: u64,
    pub dealloc_calls: u64,
    pub realloc_calls: u64,
}

/// The difference of the byte totals, each read as a two's-complement `i64`.
pub open spec fn spec_net_bytes(s: AllocProfileSnapshot) -> int {
    (s.total_alloc_bytes as i64) - (s.total_dealloc_bytes as i64)
}

impl AllocProfileSnapshot {
    /// Bytes allocated minus bytes released over the profiled span.
    pub fn net_bytes(self) -> (net: i64)
        requires
            i64::MIN <= spec_net_bytes(self) <= i64::MAX,
        ensures
            net == spec_net_bytes(self),
    {
        self.total_alloc_bytes as i64 - self.total_dealloc_bytes as i64
    }
}

/// The live state of the profiler: whether it is recording, and its counters.
#[derive(Clone, Copy, Debug, Default)]
pub struct AllocCounters {
    pub enabled: bool,
    pub live_bytes: usize,
    pub peak_bytes: usize,
    pub total_alloc_bytes: u64,
    pub total_dealloc_bytes: u64,
    pub alloc_calls: u64,
    pub dealloc_calls: u64,
    pub realloc_calls: u64,
}

/// Addition modulo 2^64, as an atomic counter adds.
pub open spec fn add_u64(a: u64, b: int) -> u64 {
    ((a + b) % 0x1_0000_0000_0000_0000int) as u64
}

/// Addition modulo the width of `usize`, as an atomic counter adds.
pub open spec fn add_usize(a: usize, b: int) -> usize {
    ((a + b) % (usize::MAX + 1)) as usize
}

/// Subtraction modulo the width of `usize`, as an atomic counter subtracts.
pub open spec fn sub_usize(a: usize, b: int) -> usize {
    ((a - b) % (usize::MAX + 1)) as usize
}

/// The accounting that holds while no counter has wrapped: what is live is
/// what was allocated and not yet released, and the peak is never below it.
pub open spec fn accounting_holds(c: AllocCounters) -> bool {
    &&& c.total_alloc_bytes - c.total_dealloc_bytes == c.live_bytes
    &&& c.live_bytes <= c.peak_bytes
}

proof fn lemma_mod_small(x: int, m: int) by (nonlinear_arith)
    requires
        0 <= x < m,
    ensures
        x % m == x,
{
}

proof fn lemma_mod_wrap(x: int, m: int) by (nonlinear_arith)
    requires
        m <= x < 2 * m,
    ensures
        x % m == x - m,
{
}

proof fn lemma_mod_neg(x: int, m: int) by (nonlinear_arith)
    requires
        -m <= x < 0,
    ensures
        x % m == x + m,
{
}

fn wrapping_add_u64(a: u64, b: u64) -> (r: u64)
    ensures
        r == add_u64(a, b as int),
{
    proof {
        if a + b < 0x1_0000_0000_0000_0000int {
            lemma_mod_small(a + b, 0x1_0000_0000_0000_0000int);
        } else {
            lemma_mod_wrap(a + b, 0x1_0000_0000_0000_0000int);
        }
    }
    a.wrapping_add(b)
}

fn wrapping_add_usize(a: usize, b: usize) -> (r: usize)
    ensures
        r == add_usize(a, b as int),
{
    proof {
        if a + b <= usize::MAX {
            lemma_mod_small(a + b, usize::MAX + 1);
        } else {
            lemma_mod_wrap(a + b, usize::MAX + 1);
        }
    }
    a.wrapping_add(b)
}

fn wrapping_sub_usize(a: usize, b: usize) -> (r: usize)
    ensures
        r == sub_usize(a, b as int),
{
    proof {
        if a - b >= 0 {
            lemma_mod_small(a - b, usize::MAX + 1);
        } else {
            lemma_mod_neg(a - b, usize::MAX + 1);
        }
    }
    a.wrapping_sub(b)
}

/// The counters after one allocation of `size` bytes has been counted.
pub open spec fn alloc_step(c: AllocCounters, size: usize) -> AllocCounters {
    let live = (c.live_bytes + size) as usize;
    AllocCounters {
        total_alloc_bytes: add_u64(c.total_alloc_bytes, size as int),
        alloc_calls: add_u64(c.alloc_calls, 1),
        live_bytes: live,
        peak_bytes: if live > c.peak_bytes { live } else { c.peak_bytes },
        ..c
    }
}

/// The counters after one release of `size` bytes has been counted.
pub open spec fn dealloc_step(c: AllocCounters, size: usize) -> AllocCounters {
    AllocCounters {
        total_dealloc_bytes: add_u64(c.total_dealloc_bytes, size as int),
        dealloc_calls: add_u64(c.dealloc_calls, 1),
        live_bytes: sub_usize(c.live_bytes, size as int),
        ..c
    }
}

/// The counters after a block of `old_size` bytes was resized to `new_size`:
/// growth counts as allocated bytes, shrinkage as released bytes.
pub open spec fn realloc_step(c: AllocCounters, old_size: usize, new_size: usize) -> AllocCounters {
    let c1 = AllocCounters { realloc_calls: add_u64(c.realloc_calls, 1), ..c };
    if new_size >= old_size {
        let live = (c1.live_bytes + (new_size - old_size)) as usize;
        AllocCounters {
            total_alloc_bytes: add_u64(c1.total_alloc_bytes, new_size - old_size),
            live_bytes: live,
            peak_bytes: if live > c1.peak_bytes { live } else { c1.peak_bytes },
            ..c1
        }
    } else {
        AllocCounters {
            total_dealloc_bytes: add_u64(c1.total_dealloc_bytes, old_size - new_size),
            live_bytes: sub_usize(c1.live_bytes, old_size - new_size),
            ..c1
        }
    }
}

/// Whether counting one allocation of `size` bytes stays within `usize`.
pub open spec fn alloc_fits(c: AllocCounters, size: usize) -> bool {
    c.live_bytes + size <= usize::MAX
}

/// Whether counting a resize from `old_size` to `new_size` stays within `usize`.
pub open spec fn realloc_fits(c: AllocCounters, old_size: usize, new_size: usize) -> bool {
    new_size >= old_size ==> c.live_bytes + (new_size - old_size) <= usize::MAX
}

/// The counters with every count set back to zero; recording stays as it was.
pub open spec fn reset_state(c: AllocCounters) -> AllocCounters {
    AllocCounters {
        enabled: c.enabled,
        live_bytes: 0,
        peak_bytes: 0,
        total_alloc_bytes: 0,
        total_dealloc_bytes: 0,
        alloc_calls: 0,
        dealloc_calls: 0,
        realloc_calls: 0,
    }
}

/// The snapshot that reads every counter of `c`.
pub open spec fn snapshot_of(c: AllocCounters) -> AllocProfileSnapshot {
    AllocProfileSnapshot {
        live_bytes: c.live_bytes,
        peak_live_bytes: c.peak_bytes,
        total_alloc_bytes: c.total_alloc_bytes,
        total_dealloc_bytes: c.total_dealloc_bytes,
        alloc_calls: c.alloc_calls,
        dealloc_calls: c.dealloc_calls,
        realloc_calls: c.realloc_calls,
    }
}

impl AllocCounters {
    /// Counters that are all zero, with recording switched on or off.
    pub fn new(enabled: bool) -> (c: AllocCounters)
        ensures
            c.enabled == enabled,
            c.live_bytes == 0,
            c.peak_bytes == 0,
            c.total_alloc_bytes == 0,
            c.total_dealloc_bytes == 0,
            c.alloc_calls == 0,
            c.dealloc_calls == 0,
            c.realloc_calls == 0,
    {
        AllocCounters {
            enabled,
            live_bytes: 0,
            peak_bytes: 0,
            total_alloc_bytes: 0,
            total_dealloc_bytes: 0,
            alloc_calls: 0,
            dealloc_calls: 0,
            realloc_calls: 0,
        }
    }

    /// Raises the recorded peak to `new_live` when it is higher.
    pub fn update_peak(&mut self, new_live: usize)
        ensures
            final(self).peak_bytes == (if new_live > old(self).peak_bytes {
                new_live
            } else {
                old(self).peak_bytes
            }),
            *final(self) == (AllocCounters { peak_bytes: final(self).peak_bytes, ..*old(self) }),
    {
        if new_live > self.peak_bytes {
            self.peak_bytes = new_live;
        }
    }

    /// Counts one allocation of `size` bytes.
    pub fn on_alloc(&mut self, size: usize)
        requires
            alloc_fits(*old(self), size),
        ensures
            *final(self) == alloc_step(*old(self), size),
    {
        self.total_alloc_bytes = wrapping_add_u64(self.total_alloc_bytes, size as u64);
        self.alloc_calls = wrapping_add_u64(self.alloc_calls, 1);
        let old_live = self.live_bytes;
        self.live_bytes = wrapping_add_usize(self.live_bytes, size);
        proof {
            lemma_mod_small(old_live + size, usize::MAX + 1);
        }
        let new_live = old_live + size;
        self.update_peak(new_live);
    }

    /// Counts one release of `size` bytes.
    pub fn on_dealloc(&mut self, size: usize)
        ensures
            *final(self) == dealloc_step(*old(self), size),
    {
        self.total_dealloc_bytes = wrapping_add_u64(self.total_dealloc_bytes, size as u64);
        self.dealloc_calls = wrapping_add_u64(self.dealloc_calls, 1);
        self.live_bytes = wrapping_sub_usize(self.live_bytes, size);
    }

    /// Counts one resize of a block from `old_size` to `new_size` bytes.
    pub fn on_realloc(&mut self, old_size: usize, new_size: usize)
        requires
            realloc_fits(*old(self), old_size, new_size),
        ensures
            *final(self) == realloc_step(*old(self), old_size, new_size),
    {
        self.realloc_calls = wrapping_add_u64(self.realloc_calls, 1);
        if new_size >= old_size {
            let delta = new_size - old_size;
            self.total_alloc_bytes = wrapping_add_u64(self.total_alloc_bytes, delta as u64);
            let old_live = self.live_bytes;
            self.live_bytes = wrapping_add_usize(self.live_bytes, delta);
            proof {
                lemma_mod_small(old_live + delta, usize::MAX + 1);
            }
            let new_live = old_live + delta;
            self.update_peak(new_live);
        } else {
            let delta = old_size - new_size;
            self.total_dealloc_bytes = wrapping_add_u64(self.total_dealloc_bytes, delta as u64);
            self.live_bytes = wrapping_sub_usize(self.live_bytes, delta);
        }
    }

    /// What the allocator does after asking the system for `size` bytes:
    /// the allocation is counted when recording is on and it succeeded.
    pub fn record_alloc(&mut self, size: usize, succeeded: bool)
        requires
            old(self).enabled && succeeded ==> alloc_fits(*old(self), size),
        ensures
            *final(self) == (if old(self).enabled && succeeded {
                alloc_step(*old(self), size)
            } else {
                *old(self)
            }),
    {
        if self.enabled && succeeded {
            self.on_alloc(size);
        }
    }

    /// What the allocator does when a block of `size` bytes is released:
    /// the release is counted when recording is on.
    pub fn record_dealloc(&mut self, size: usize)
        ensures
            *final(self) == (if old(self).enabled {
                dealloc_step(*old(self), size)
            } else {
                *old(self)
            }),
    {
        if self.enabled {
            self.on_dealloc(size);
        }
    }

    /// What the allocator does after asking the system to resize a block:
    /// the resize is counted when recording is on and it succeeded.
    pub fn record_realloc(&mut self, old_size: usize, new_size: usize, succeeded: bool)
        requires
            old(self).enabled && succeeded ==> realloc_fits(*old(self), old_size, new_size),
        ensures
            *final(self) == (if old(self).enabled && succeeded {
                realloc_step(*old(self), old_size, new_size)
            } else {
                *old(self)
            }),
    {
        if self.enabled && succeeded {
            self.on_realloc(old_size, new_size);
        }
    }
}

/// Whether a value of the profiling switch variable turns recording on:
/// one of `1`, `true`, `TRUE`, `yes`, `YES`.
pub open spec fn switch_value_on(value: Option<Seq<char>>) -> bool {
    match value {
        Some(v) => v == "1"@ || v == "true"@ || v == "TRUE"@ || v == "yes"@ || v == "YES"@,
        None => false,
    }
}

/// Turns recording on or off from the value of the profiling switch variable
/// (`None` when it is unset or unreadable).
pub fn init_from_env_value(counters: &mut AllocCounters, value: Option<&str>)
    ensures
        *final(counters) == (AllocCounters {
            enabled: switch_value_on(
                match value {
                    Some(v) => Some(v@),
                    None => None,
                },
            ),
            ..*old(counters)
        }),
{
    let enabled = match value {
        Some(v) => str_eq(v, "1") || str_eq(v, "true") || str_eq(v, "TRUE") || str_eq(v, "yes") || str_eq(
            v,
            "YES",
        ),
        None => false,
    };
    counters.enabled = enabled;
}

/// Whether allocations are being recorded.
pub fn is_enabled(counters: &AllocCounters) -> (enabled: bool)
    ensures
        enabled == counters.enabled,
{
    counters.enabled
}

/// Sets every count back to zero, leaving recording on or off as it was.
pub fn reset_counters(counters: &mut AllocCounters)
    ensures
        *final(counters) == reset_state(*old(counters)),
{
    counters.live_bytes = 0;
    counters.peak_bytes = 0;
    counters.total_alloc_bytes = 0;
    counters.total_dealloc_bytes = 0;
    counters.alloc_calls = 0;
    counters.dealloc_calls = 0;
    counters.realloc_calls = 0;
}

/// Reads every counter at once.
pub fn snapshot(counters: &AllocCounters) -> (snap: AllocProfileSnapshot)
    ensures
        snap == snapshot_of(*counters),
{
    AllocProfileSnapshot {
        live_bytes: counters.live_bytes,
        peak_live_bytes: counters.peak_bytes,
        total_alloc_bytes: counters.total_alloc_bytes,
        total_dealloc_bytes: counters.total_dealloc_bytes,
        alloc_calls: counters.alloc_calls,
        dealloc_calls: counters.dealloc_calls,
        realloc_calls: counters.realloc_calls,
    }
}

} // verus!

verus! {

/// Counting an allocation keeps the accounting, as long as the byte total
/// does not wrap: live bytes grow by the size and stay at or under the peak.
pub proof fn lemma_alloc_keeps_accounting(c: AllocCounters, size: usize)
    requires
        accounting_holds(c),
        alloc_fits(c, size),
        c.total_alloc_bytes + size <= u64::MAX,
    ensures
        accounting_holds(alloc_step(c, size)),
        alloc_step(c, size).live_bytes == c.live_bytes + size,
{
    lemma_mod_small(c.total_alloc_bytes + size, 0x1_0000_0000_0000_0000int);
}

/// Counting a release keeps the accounting, as long as no more is released
/// than is live: live bytes shrink by the size.
pub proof fn lemma_dealloc_keeps_accounting(c: AllocCounters, size: usize)
    requires
        accounting_holds(c),
        size <= c.live_bytes,
    ensures
        accounting_holds(dealloc_step(c, size)),
        dealloc_step(c, size).live_bytes == c.live_bytes - size,
{
    lemma_mod_small(c.total_dealloc_bytes + size, 0x1_0000_0000_0000_0000int);
    lemma_mod_small(c.live_bytes - size, usize::MAX + 1);
}

/// Counting a resize keeps the accounting, as long as no total wraps and a
/// shrink releases no more than is live: live bytes move to the new size.
pub proof fn lemma_realloc_keeps_accounting(c: AllocCounters, old_size: usize, new_size: usize)
    requires
        accounting_holds(c),
        realloc_fits(c, old_size, new_size),
        new_size >= old_size ==> c.total_alloc_bytes + (new_size - old_size) <= u64::MAX,
        new_size < old_size ==> old_size - new_size <= c.live_bytes,
    ensures
        accounting_holds(realloc_step(c, old_size, new_size)),
        realloc_step(c, old_size, new_size).live_bytes == c.live_bytes + new_size - old_size,
{
    if new_size >= old_size {
        lemma_mod_small(c.total_alloc_bytes + (new_size - old_size), 0x1_0000_0000_0000_0000int);
    } else {
        lemma_mod_small(c.total_dealloc_bytes + (old_size - new_size), 0x1_0000_0000_0000_0000int);
        lemma_mod_small(c.live_bytes - (old_size - new_size), usize::MAX + 1);
    }
}

/// After a reset every counter reads zero and the accounting holds again.
pub proof fn lemma_reset_reads_zero(c: AllocCounters)
    ensures
        snapshot_of(reset_state(c)) == (AllocProfileSnapshot {
            live_bytes: 0,
            peak_live_bytes: 0,
            total_alloc_bytes: 0,
            total_dealloc_bytes: 0,
            alloc_calls: 0,
            dealloc_calls: 0,
            realloc_calls: 0,
        }),
        accounting_holds(reset_state(c)),
        reset_state(c).enabled == c.enabled,
{
}

/// While the accounting holds and the totals fit in `i64`, the net bytes of a
/// snapshot are the live bytes.
pub proof fn lemma_net_bytes_is_live(c: AllocCounters)
    requires
        accounting_holds(c),
        c.total_alloc_bytes <= i64::MAX,
    ensures
        spec_net_bytes(snapshot_of(c)) == c.live_bytes,
{
}

proof fn lemma_u64_as_i64(a: u64)
    ensures
        a <= i64::MAX ==> (a as i64) == a,
        a > i64::MAX ==> (a as i64) == a - 0x1_0000_0000_0000_0000int,
{
    assert(a <= 0x7fff_ffff_ffff_ffffu64 ==> (a as i64) as int == a as int) by (bit_vector);
    assert(a > 0x7fff_ffff_ffff_ffffu64 ==> (a as i64) as int == a as int - 0x1_0000_0000_0000_0000int)
        by (bit_vector);
}

proof fn lemma_usize_as_i64(a: usize)
    ensures
        a <= i64::MAX ==> (a as i64) == a,
        a > i64::MAX ==> (a as i64) == a - 0x1_0000_0000_0000_0000int,
{
    assert(a as int <= 0x7fff_ffff_ffff_ffffint ==> (a as i64) as int == a as int) by (bit_vector);
    assert(a as int > 0x7fff_ffff_ffff_ffffint ==> (a as i64) as int == a as int - 0x1_0000_0000_0000_0000int)
        by (bit_vector);
}

/// While the accounting holds, the net bytes of a snapshot, whenever their
/// difference does not overflow `i64`, are the live bytes read as an `i64`,
/// however large the totals have grown.
pub proof fn lemma_net_bytes_reads_live(c: AllocCounters)
    requires
        accounting_holds(c),
        i64::MIN <= spec_net_bytes(snapshot_of(c)) <= i64::MAX,
    ensures
        spec_net_bytes(snapshot_of(c)) == c.live_bytes as i64,
{
    lemma_u64_as_i64(c.total_alloc_bytes);
    lemma_u64_as_i64(c.total_dealloc_bytes);
    lemma_usize_as_i64(c.live_bytes);
}

/// Each counted call adds one to its own call counter (modulo 2^64) and
/// leaves the other two call counters and the recording switch alone; an
/// allocation that fits adds its size to the live bytes and lifts the peak to
/// them when they pass it; a release that is live takes its size off the live
/// bytes and leaves the peak.
pub proof fn lemma_steps_count_calls(c: AllocCounters, size: usize, old_size: usize, new_size: usize)
    ensures
        alloc_step(c, size).alloc_calls == (c.alloc_calls + 1) % 0x1_0000_0000_0000_0000int,
        alloc_step(c, size).dealloc_calls == c.dealloc_calls && alloc_step(c, size).realloc_calls
            == c.realloc_calls,
        dealloc_step(c, size).dealloc_calls == (c.dealloc_calls + 1) % 0x1_0000_0000_0000_0000int,
        dealloc_step(c, size).alloc_calls == c.alloc_calls && dealloc_step(c, size).realloc_calls
            == c.realloc_calls,
        realloc_step(c, old_size, new_size).realloc_calls == (c.realloc_calls + 1) % 0x1_0000_0000_0000_0000int,
        realloc_step(c, old_size, new_size).alloc_calls == c.alloc_calls,
        realloc_step(c, old_size, new_size).dealloc_calls == c.dealloc_calls,
        alloc_step(c, size).enabled == c.enabled && dealloc_step(c, size).enabled == c.enabled
            && realloc_step(c, old_size, new_size).enabled == c.enabled,
        c.live_bytes + size <= usize::MAX ==> alloc_step(c, size).live_bytes == c.live_bytes + size
            && alloc_step(c, size).peak_bytes == (if c.live_bytes + size > c.peak_bytes {
            c.live_bytes + size
        } else {
            c.peak_bytes as int
        }),
        size <= c.live_bytes ==> dealloc_step(c, size).live_bytes == c.live_bytes - size && dealloc_step(
            c,
            size,
        ).peak_bytes == c.peak_bytes,
{
    if size <= c.live_bytes {
        lemma_mod_small(c.live_bytes - size, usize::MAX + 1);
    }
}

/// One counted allocator call.
#[derive(Clone, Copy, Debug, PartialEq, Eq, Structural)]
pub enum AllocEvent {
    Alloc(usize),
    Dealloc(usize),
    /// A block resized from the first size to the second.
    Realloc(usize, usize),
}

/// The counters after `event` has been counted.
pub open spec fn event_step(c: AllocCounters, event: AllocEvent) -> AllocCounters {
    match event {
        AllocEvent::Alloc(size) => alloc_step(c, size),
        AllocEvent::Dealloc(size) => dealloc_step(c, size),
        AllocEvent::Realloc(old_size, new_size) => realloc_step(c, old_size, new_size),
    }
}

/// The counters after every event of `events` has been counted, in order.
pub open spec fn replay(c: AllocCounters, events: Seq<AllocEvent>) -> AllocCounters
    decreases events.len(),
{
    if events.len() == 0 {
        c
    } else {
        event_step(replay(c, events.drop_last()), events.last())
    }
}

/// Whether counting `event` wraps no counter of bytes and releases no more
/// than is live.
pub open spec fn event_in_bounds(c: AllocCounters, event: AllocEvent) -> bool {
    match event {
        AllocEvent::Alloc(size) => alloc_fits(c, size) && c.total_alloc_bytes + size <= u64::MAX,
        AllocEvent::Dealloc(size) => size <= c.live_bytes,
        AllocEvent::Realloc(old_size, new_size) => {
            &&& realloc_fits(c, old_size, new_size)
            &&& new_size >= old_size ==> c.total_alloc_bytes + (new_size - old_size) <= u64::MAX
            &&& new_size < old_size ==> old_size - new_size <= c.live_bytes
        },
    }
}

/// Whether every event of `events` is in bounds when it is counted.
pub open spec fn replay_in_bounds(c: AllocCounters, events: Seq<AllocEvent>) -> bool
    decreases events.len(),
{
    events.len() == 0 || (replay_in_bounds(c, events.drop_last()) && event_in_bounds(
        replay(c, events.drop_last()),
        events.last(),
    ))
}

/// Counting any sequence of allocator calls keeps the accounting, as long as
/// no byte counter wraps and nothing is released that is not live: what is
/// live is what was allocated and not released, and the peak is never below
/// it.
pub proof fn lemma_replay_keeps_accounting(c: AllocCounters, events: Seq<AllocEvent>)
    requires
        accounting_holds(c),
        replay_in_bounds(c, events),
    ensures
        accounting_holds(replay(c, events)),
    decreases events.len(),
{
    if events.len() > 0 {
        lemma_replay_keeps_accounting(c, events.drop_last());
        let before = replay(c, events.drop_last());
        match events.last() {
            AllocEvent::Alloc(size) => lemma_alloc_keeps_accounting(before, size),
            AllocEvent::Dealloc(size) => lemma_dealloc_keeps_accounting(before, size),
            AllocEvent::Realloc(old_size, new_size) => lemma_realloc_keeps_accounting(before, old_size, new_size),
        }
    }
}

/// After a reset and any sequence of counted calls that wraps no byte counter
/// and releases nothing that is not live, a snapshot's totals differ by the
/// live bytes, its net bytes (wherever `net_bytes` can be taken, however large
/// the totals) are the live bytes read as an `i64`, and its peak is at least
/// the live bytes.
pub proof fn lemma_snapshot_after_reset(c: AllocCounters, events: Seq<AllocEvent>)
    requires
        replay_in_bounds(reset_state(c), events),
    ensures
        ({
            let s = snapshot_of(replay(reset_state(c), events));
            &&& s.total_alloc_bytes - s.total_dealloc_bytes == s.live_bytes
            &&& s.peak_live_bytes >= s.live_bytes
            &&& i64::MIN <= spec_net_bytes(s) <= i64::MAX ==> spec_net_bytes(s) == s.live_bytes as i64
        }),
{
    lemma_reset_reads_zero(c);
    lemma_replay_keeps_accounting(reset_state(c), events);
    let r = replay(reset_state(c), events);
    if i64::MIN <= spec_net_bytes(snapshot_of(r)) <= i64::MAX {
        lemma_net_bytes_reads_live(r);
    }
}

} // verus!
