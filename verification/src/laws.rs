//! Laws of snapshots.
//!
//! Each law is stated over what the operations promise: a derived snapshot
//! is one whose pairs are `derived` from those of its source, a fresh one has
//! `no_entries`, and a read through a handle returns `read_flag` and leaves
//! `slot_after_read` in the output slot.

use vstd::prelude::*;
use crate::{read_flag, slot_after_read, State};
use crate::engine::{derived, no_entries};

verus! {

/// Read-your-write: a snapshot derived by setting `key` to `value` reads
/// `value` for `key`.
pub proof fn lemma_read_your_write(base: State, next: State, key: u64, value: u64, before: u64)
    requires
        next@ == derived(base@, key, value),
    ensures
        read_flag(Some(&next), key, true) == 1,
        slot_after_read(Some(&next), key, before) == value,
{
}

/// Overwrite: setting `key` twice in one lineage leaves the second value.
pub proof fn lemma_overwrite(base: State, first: State, second: State, key: u64, v1: u64, v2: u64, before: u64)
    requires
        first@ == derived(base@, key, v1),
        second@ == derived(first@, key, v2),
    ensures
        read_flag(Some(&second), key, true) == 1,
        slot_after_read(Some(&second), key, before) == v2,
        second@ == derived(base@, key, v2),
{
    assert(derived(derived(base@, key, v1), key, v2) =~= derived(base@, key, v2));
}

/// Empty baseline: a fresh snapshot reads nothing for any key, and a read of
/// it leaves the output slot as it was.
pub proof fn lemma_empty_baseline(fresh: State, key: u64, has_slot: bool, before: u64)
    requires
        fresh@ == no_entries(),
    ensures
        read_flag(Some(&fresh), key, has_slot) == 0,
        slot_after_read(Some(&fresh), key, before) == before,
{
}

/// Independent branching: where `second` is derived from `first`, itself
/// derived from `base`, both by setting `key`, `first` still reads its own
/// value for `key`, and `second` reads the later one.
pub proof fn lemma_independent_branching(base: State, first: State, second: State, key: u64, v1: u64, v2: u64, before: u64)
    requires
        first@ == derived(base@, key, v1),
        second@ == derived(first@, key, v2),
    ensures
        read_flag(Some(&first), key, true) == 1,
        slot_after_read(Some(&first), key, before) == v1,
        read_flag(Some(&second), key, true) == 1,
        slot_after_read(Some(&second), key, before) == v2,
{
}

/// Persistence of the other keys: a snapshot derived from `base` by setting
/// `written` reads every other key as `base` does.
pub proof fn lemma_other_keys_persist(base: State, next: State, written: u64, value: u64, other: u64, has_slot: bool, before: u64)
    requires
        next@ == derived(base@, written, value),
        written != other,
    ensures
        read_flag(Some(&next), other, has_slot) == read_flag(Some(&base), other, has_slot),
        slot_after_read(Some(&next), other, before) == slot_after_read(Some(&base), other, before),
{
}

/// Survival: what a read through a handle returns and writes is fixed by the
/// pairs of that snapshot, the key and the slot. No other snapshot enters
/// into it, whether it is live or released, an ancestor or derived.
pub proof fn lemma_reads_follow_pairs(one: State, other: State, key: u64, has_slot: bool, before: u64)
    requires
        one@ == other@,
    ensures
        read_flag(Some(&one), key, has_slot) == read_flag(Some(&other), key, has_slot),
        slot_after_read(Some(&one), key, before) == slot_after_read(Some(&other), key, before),
{
}

} // verus!
