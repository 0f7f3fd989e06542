//! Versioned, immutable key-value state.
//!
//! A [`State`] is one snapshot of a map from 64-bit keys to 64-bit values.
//! Setting a value never changes a snapshot: it yields a new one, which
//! shares the untouched part of its structure with the old. A handle that a
//! caller owns is a `Box<State>`, one that it lends is a `&State`, and one
//! that may be null is an `Option` of either.

use vstd::prelude::*;

pub mod engine;
pub mod laws;

use crate::engine::{derived, lookup, no_entries};

verus! {

/// One snapshot of the map.
pub struct State {
    data: im::HashMap<u64, u64>,
}

impl View for State {
    type V = Map<u64, u64>;

    /// The key/value pairs of the snapshot.
    closed spec fn view(&self) -> Map<u64, u64> {
        engine::entries(self.data)
    }
}

/// What a read of `key` gives through a handle that may be null.
pub open spec fn handle_lookup(state: Option<&State>, key: u64) -> Option<u64> {
    match state {
        Some(snapshot) => lookup(snapshot@, key),
        None => None,
    }
}

/// The flag that a read returns: 1 where the handle and the output slot are
/// both there and the snapshot holds the key, else 0.
pub open spec fn read_flag(state: Option<&State>, key: u64, has_slot: bool) -> i32 {
    if has_slot && handle_lookup(state, key) is Some {
        1i32
    } else {
        0i32
    }
}

/// What the output slot holds after a read, where it held `before`: the
/// value found, or `before` where nothing was found.
pub open spec fn slot_after_read(state: Option<&State>, key: u64, before: u64) -> u64 {
    match handle_lookup(state, key) {
        Some(value) => value,
        None => before,
    }
}

/// Global set-up of the runtime. There is none yet.
pub fn march_runtime_init() {
}

/// Creates a snapshot that holds no pair.
pub fn march_state_create() -> (state: Box<State>)
    ensures
        state@ == no_entries(),
        forall|key: u64| lookup(state@, key) is None,
{
    Box::new(State { data: engine::empty() })
}

/// Reads `key` from a snapshot into `out_value`.
///
/// Returns 1 and writes the value where the handle and the slot are both
/// there and the snapshot holds the key. Otherwise returns 0 and leaves the
/// slot as it was. The snapshot stays valid and unchanged.
pub fn march_state_get(state: Option<&State>, key: u64, out_value: Option<&mut u64>) -> (found: i32)
    ensures
        found == read_flag(state, key, out_value is Some),
        out_value matches Some(slot) ==> *final(slot) == slot_after_read(state, key, *slot),
{
    match (state, out_value) {
        (Some(snapshot), Some(slot)) => {
            match engine::get(&snapshot.data, key) {
                Some(value) => {
                    *slot = value;
                    1
                },
                None => 0,
            }
        },
        _ => 0,
    }
}

/// Derives a new snapshot in which `key` maps to `value`.
///
/// Returns a null handle for a null handle. Otherwise the new snapshot holds
/// the pairs of the given one with `key` set to `value`; the given snapshot is
/// only borrowed, stays valid and keeps its pairs.
pub fn march_state_set(state: Option<&State>, key: u64, value: u64) -> (new_state: Option<Box<State>>)
    ensures
        new_state is Some <==> state is Some,
        state matches Some(snapshot) ==> new_state.unwrap()@ == derived(snapshot@, key, value),
{
    match state {
        Some(snapshot) => {
            let new_data = engine::update(&snapshot.data, key, value);
            Some(Box::new(State { data: new_data }))
        },
        None => None,
    }
}

/// Releases a snapshot that the caller owns. A null handle is ignored.
///
/// The handle is consumed, so it cannot be used or released again. The
/// storage that only this snapshot referred to goes back to the allocator;
/// what it shares with other snapshots stays with them.
pub fn march_state_free(state: Option<Box<State>>) {
    match state {
        Some(owned) => {
            let _released: Box<State> = owned;
        },
        None => {},
    }
}

} // verus!
