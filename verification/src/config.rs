//! Polling of the physics configuration file for hot reload.
//!
//! Every half second the file's modification time is read; a time newer than
//! the last one seen means the file is read and parsed again. File access and
//! parsing happen in the caller; these functions decide when.

use vstd::prelude::*;

verus! {

/// Interval between two looks at the configuration file.
pub const HOT_RELOAD_POLL_MS: u32 = 500;

/// The hot-reload watermark and poll timer. Modification times are
/// nanoseconds since the Unix epoch.
#[derive(Clone, Copy, Debug)]
pub struct PhysicsConfigHotReloadState {
    pub last_seen_modified: Option<u128>,
    pub poll_timer_ms: u32,
}

impl Default for PhysicsConfigHotReloadState {
    /// No modification time seen yet; the poll timer at zero.
    fn default() -> (s: Self)
        ensures
            s.last_seen_modified is None,
            s.poll_timer_ms == 0,
    {
        PhysicsConfigHotReloadState { last_seen_modified: None, poll_timer_ms: 0 }
    }
}

/// Records the file's modification time seen at startup.
pub fn init_physics_hot_reload_state(state: &mut PhysicsConfigHotReloadState, modified: Option<u128>)
    ensures
        *final(state) == (PhysicsConfigHotReloadState { last_seen_modified: modified, ..*old(state) }),
{
    state.last_seen_modified = modified;
}

/// Advances the poll timer by `dt_ms`; when half a second has gathered, the
/// timer restarts and the file is due to be looked at.
pub fn hot_reload_poll(state: &mut PhysicsConfigHotReloadState, dt_ms: u32) -> (due: bool)
    ensures
        due == (old(state).poll_timer_ms + dt_ms >= HOT_RELOAD_POLL_MS),
        final(state).poll_timer_ms == (if due { 0 } else { old(state).poll_timer_ms + dt_ms }),
        final(state).last_seen_modified == old(state).last_seen_modified,
{
    state.poll_timer_ms = state.poll_timer_ms.saturating_add(dt_ms);
    if state.poll_timer_ms < HOT_RELOAD_POLL_MS {
        return false;
    }
    state.poll_timer_ms = 0;
    true
}

/// Whether the file must be reloaded, given the modification time just read
/// (`None` when it could not be read).
pub open spec fn reload_due(last: Option<u128>, modified: Option<u128>) -> bool {
    match (last, modified) {
        (Some(p), Some(m)) => m > p,
        _ => false,
    }
}

/// The watermark after looking at the file: the time just read when the file
/// changed or no time was known, none when the file could not be read.
pub open spec fn watermark_after(last: Option<u128>, modified: Option<u128>) -> Option<u128> {
    match modified {
        None => None,
        Some(m) => match last {
            Some(p) => if m > p { Some(m) } else { last },
            None => Some(m),
        },
    }
}

/// Looks at the file's modification time: decides whether to reload, and
/// moves the watermark so that a time is acted on once, whether or not the
/// reload then parses.
pub fn hot_reload_observe(state: &mut PhysicsConfigHotReloadState, modified: Option<u128>) -> (reload: bool)
    ensures
        reload == reload_due(old(state).last_seen_modified, modified),
        final(state).last_seen_modified == watermark_after(old(state).last_seen_modified, modified),
        final(state).poll_timer_ms == old(state).poll_timer_ms,
{
    let m = match modified {
        None => {
            state.last_seen_modified = None;
            return false;
        },
        Some(m) => m,
    };
    let changed = match state.last_seen_modified {
        Some(previous) => m > previous,
        None => {
            state.last_seen_modified = Some(m);
            false
        },
    };
    if !changed {
        return false;
    }
    state.last_seen_modified = Some(m);
    true
}

/// A modification time triggers at most one reload: looking again at the
/// same time does not reload.
pub proof fn lemma_reload_once_per_change(last: Option<u128>, modified: Option<u128>)
    ensures
        !reload_due(watermark_after(last, modified), modified),
{
}

/// A reload is only ever triggered by a time newer than every time seen
/// before: the watermark never moves back while the file stays readable.
pub proof fn lemma_watermark_monotone(last: Option<u128>, m: u128)
    ensures
        last matches Some(p) ==> watermark_after(last, Some(m))->0 >= p,
        reload_due(last, Some(m)) ==> watermark_after(last, Some(m)) == Some(m),
{
}

} // verus!
