//! Text shared by several menus.

use vstd::prelude::*;
use crate::text::{decimal, push_decimal, push_str};

verus! {

/// The save-time caption of a slot saved at `unix_secs` (0 meaning unknown).
pub open spec fn saved_at_caption(unix_secs: u64) -> Seq<char> {
    if unix_secs == 0 {
        "saved: unknown"@
    } else {
        "saved: unix "@ + decimal(unix_secs as nat)
    }
}

/// The save-time caption of a slot saved at `unix_secs` (0 meaning unknown).
pub fn format_saved_at(unix_secs: u64) -> (caption: Vec<char>)
    ensures
        caption@ == saved_at_caption(unix_secs),
{
    let mut out: Vec<char> = Vec::new();
    if unix_secs == 0 {
        push_str(&mut out, "saved: unknown");
    } else {
        push_str(&mut out, "saved: unix ");
        push_decimal(&mut out, unix_secs);
    }
    out
}

} // verus!
