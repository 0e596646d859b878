//! The windows of the history that the two queries read: the latest entries,
//! and a page at an offset.

use vstd::prelude::*;

verus! {

/// First position of the window that holds the `limit` newest of `total`
/// entries: `total - limit`, or zero when there are fewer than `limit`.
pub open spec fn latest_start(total: nat, limit: nat) -> nat {
    if total > limit {
        (total - limit) as nat
    } else {
        0
    }
}

/// First position of the page at offset `from_index`: the offset itself, or
/// `total` when the offset lies past the end.
pub open spec fn page_start(total: nat, from_index: nat) -> nat {
    if from_index < total {
        from_index
    } else {
        total
    }
}

/// Position after the last entry of the page of `limit` entries at offset
/// `from_index`: `from_index + limit`, or `total` when the page would reach
/// past the end.
pub open spec fn page_end(total: nat, from_index: nat, limit: nat) -> nat {
    if from_index + limit < total {
        from_index + limit
    } else {
        total
    }
}

/// The window `[start, end)` of the `limit` newest among `total` entries.
pub fn latest_window(total: u64, limit: u64) -> (window: (u64, u64))
    ensures
        window.0 == latest_start(total as nat, limit as nat),
        window.1 == total,
{
    let start: u64 = if total > limit {
        total - limit
    } else {
        0
    };
    (start, total)
}

/// The window `[start, end)` of the page of `limit` entries at offset
/// `from_index` among `total` entries. The sum `from_index + limit` is taken
/// in the integers: it cannot wrap.
pub fn page_window(total: u64, from_index: u64, limit: u64) -> (window: (u64, u64))
    ensures
        window.0 == page_start(total as nat, from_index as nat),
        window.1 == page_end(total as nat, from_index as nat, limit as nat),
        window.0 <= window.1 <= total,
{
    let start: u64 = if from_index < total {
        from_index
    } else {
        total
    };
    let end: u64 = if limit < total - start {
        start + limit
    } else {
        total
    };
    (start, end)
}

} // verus!
