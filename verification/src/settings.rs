//! The settings store and the two service operations over it.
//!
//! One logical `SettingsStore` exists per running process; it holds a single
//! boolean flag that defaults to on. The service operations `load_settings`
//! and `change_settings` are the only readers and writers of the store.

use vstd::prelude::*;

verus! {

/// The one configuration value the application keeps in memory.
#[derive(Debug, Clone, Copy, PartialEq, Eq, Structural)]
pub struct Settings {
    pub on_or_off: bool,
}

/// The in-memory holder of the current `Settings` value.
///
/// A running process owns exactly one logical instance, created at process
/// start with the default flag value and never destroyed.
#[derive(Debug, Clone, Copy, PartialEq, Eq, Structural)]
pub struct SettingsStore {
    pub on_or_off: bool,
}

/// The store a process starts with: the flag defaults to on.
pub open spec fn spec_default_store() -> SettingsStore {
    SettingsStore { on_or_off: true }
}

/// What loading returns: the current store value, wrapped as `Settings`.
pub open spec fn spec_load_settings(store: SettingsStore) -> Settings {
    Settings { on_or_off: store.on_or_off }
}

/// What a change leaves behind: the store holds the written value,
/// whatever it held before.
pub open spec fn spec_change_settings(store: SettingsStore, on_or_off: bool) -> SettingsStore {
    SettingsStore { on_or_off: on_or_off }
}

impl SettingsStore {
    /// Create the store in its initial state.
    pub fn new() -> (r: SettingsStore)
        ensures
            r == spec_default_store(),
    {
        SettingsStore { on_or_off: true }
    }
}

/// Read the current settings out of the store. Never fails.
pub fn load_settings(store: &SettingsStore) -> (r: Settings)
    ensures
        r == spec_load_settings(*store),
{
    Settings { on_or_off: store.on_or_off }
}

/// Overwrite the stored flag unconditionally. No validation, no failure.
pub fn change_settings(store: &mut SettingsStore, on_or_off: bool)
    ensures
        *final(store) == spec_change_settings(*old(store), on_or_off),
{
    store.on_or_off = on_or_off;
}

/// Loading immediately after a change returns exactly the value written,
/// whatever the store held before.
pub proof fn lemma_change_then_load(store: SettingsStore, v: bool)
    ensures
        spec_load_settings(spec_change_settings(store, v)) == (Settings { on_or_off: v }),
{
}

/// Writing the same value twice in a row leaves the store exactly as one
/// write does.
pub proof fn lemma_change_idempotent(store: SettingsStore, v: bool)
    ensures
        spec_change_settings(spec_change_settings(store, v), v) == spec_change_settings(store, v),
{
}

/// The store after a sequence of atomic writes, applied in order.
pub open spec fn spec_apply_changes(store: SettingsStore, writes: Seq<bool>) -> SettingsStore
    decreases writes.len(),
{
    if writes.len() == 0 {
        store
    } else {
        spec_apply_changes(spec_change_settings(store, writes[0]), writes.subrange(1, writes.len() as int))
    }
}

/// Last write wins: after any nonempty sequence of writes, the store holds
/// the value of the last one.
pub proof fn lemma_last_write_wins(store: SettingsStore, writes: Seq<bool>)
    requires
        writes.len() > 0,
    ensures
        spec_apply_changes(store, writes) == spec_change_settings(store, writes.last()),
    decreases writes.len(),
{
    let rest = writes.subrange(1, writes.len() as int);
    if writes.len() == 1 {
        assert(rest.len() == 0);
        assert(spec_apply_changes(spec_change_settings(store, writes[0]), rest)
            == spec_change_settings(store, writes[0]));
    } else {
        lemma_last_write_wins(spec_change_settings(store, writes[0]), rest);
        assert(rest.last() == writes.last());
    }
}

/// Racing writes cannot corrupt the store: however the writes interleave,
/// the final flag is one of the written values, never anything else.
pub proof fn lemma_race_outcome(store: SettingsStore, writes: Seq<bool>)
    requires
        writes.len() > 0,
    ensures
        writes.contains(spec_apply_changes(store, writes).on_or_off),
{
    lemma_last_write_wins(store, writes);
    assert(writes[writes.len() - 1] == writes.last());
}

} // verus!
