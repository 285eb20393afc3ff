use vstd::prelude::*;
use crate::error::StoreError;
use crate::item::ItemTrait;
use crate::model::{ItemView, LoadSource, StoreView};
use crate::notify::{notification_of, persist_of, EffectsView};

verus! {

/// Round trip: for every type that the store takes and every value of it,
/// decoding the encoding of the value gives the value back.
pub proof fn round_trip<T: ItemTrait>(value: T::V)
    ensures
        T::spec_encode(value) matches Some(text) ==> T::spec_decode(text) == Some(value),
{
    T::lemma_round_trip(value);
}

/// What was set is what is read: after a `set` that was accepted, `snapshot`
/// of the same key at the same type returns the value that was set.
pub proof fn set_then_snapshot<T: ItemTrait>(store: StoreView, key: Seq<char>, value: T::V)
    requires
        store.set::<T>(key, value).result is Ok,
    ensures
        store.set::<T>(key, value).store.snapshot::<T>(key) == Ok::<T::V, StoreError>(value),
{
    T::lemma_round_trip(value);
}

/// Type safety: after a `set` at type `T` that was accepted, `get` of the
/// same key at a type `U` with another tag reports `TypeMismatch`, and so
/// hands out no handle; reading the key at `U` hands out no value either.
pub proof fn set_then_get_at_other_type<T: ItemTrait, U: ItemTrait>(
    store: StoreView,
    key: Seq<char>,
    value: T::V,
)
    requires
        T::spec_type_tag() != U::spec_type_tag(),
        store.set::<T>(key, value).result is Ok,
    ensures
        store.set::<T>(key, value).store.get::<U>(key) == Err::<ItemView, StoreError>(
            StoreError::TypeMismatch,
        ),
        store.set::<T>(key, value).store.snapshot::<U>(key) == Err::<U::V, StoreError>(
            StoreError::TypeMismatch,
        ),
{
}

/// Notify once: for every state of the store in which the key of a handle
/// allows a typed access, the release of the handle is accepted and leaves
/// exactly one notification, of the value that the entry holds at that time,
/// however often the value was written while the handle was held. Taking the
/// handle, reading through it and writing through it leave none: `get` and
/// `lock` return no effects and do not change the store, and `write` returns
/// none.
pub proof fn release_notifies_once<T: ItemTrait>(store: StoreView, item: ItemView)
    requires
        store.access::<T>(item.key) is Ok,
    ensures
        store.release::<T>(item) == Ok::<EffectsView, StoreError>(
            EffectsView {
                notify: Some(notification_of(item.key, store.entries[item.key].text)),
                persist: if store.sync_to_disk {
                    Some(persist_of(item.key, store.entries[item.key].text))
                } else {
                    None
                },
            },
        ),
{
}

/// The notification of a release carries what was written last: after a
/// write through a handle that was accepted, the release of any handle for
/// the same key publishes a text that decodes to the value written.
pub proof fn release_publishes_last_write<T: ItemTrait>(
    store: StoreView,
    item: ItemView,
    value: T::V,
)
    requires
        store.write::<T>(item, value).result is Ok,
    ensures
        ({
            let after = store.write::<T>(item, value).store;
            &&& after.release::<T>(item) is Ok
            &&& after.release::<T>(item)->Ok_0.notify matches Some(n)
            &&& n.event == notification_of(item.key, n.payload.value).event
            &&& n.payload.name == item.key
            &&& T::spec_decode(n.payload.value) == Some(value)
        }),
{
    T::lemma_round_trip(value);
}

/// Clones share the entry: a handle and its clone are for the same key, so
/// what is written through one is read through the other, and both read the
/// same at any time.
pub proof fn clones_share<T: ItemTrait>(
    store: StoreView,
    item: ItemView,
    copy: ItemView,
    value: T::V,
)
    requires
        copy == item,
    ensures
        store.lock::<T>(copy) == store.lock::<T>(item),
        store.write::<T>(copy, value).result is Ok ==> store.write::<T>(copy, value).store.lock::<T>(
            item,
        ) == Ok::<T::V, StoreError>(value),
{
    T::lemma_round_trip(value);
}

/// Persistence fallback: where the backend holds nothing for the key, a
/// `load` that is accepted returns the default value, and `snapshot` of the
/// key returns it from then on. `load` is accepted unless the key already
/// holds a value of another type or the default value has no encoding.
pub proof fn load_falls_back<T: ItemTrait>(store: StoreView, key: Seq<char>, fallback: T::V)
    requires
        !(store.holds(key) && store.entries[key].type_tag != T::spec_type_tag()),
        T::spec_encode(fallback) is Some,
    ensures
        ({
            let step = store.load::<T>(key, None, fallback);
            &&& step.result is Ok
            &&& step.result->Ok_0.value == fallback
            &&& step.result->Ok_0.source != LoadSource::Backend
            &&& step.store.snapshot::<T>(key) == Ok::<T::V, StoreError>(fallback)
        }),
{
    T::lemma_round_trip(fallback);
}

/// Whether every key of `before` is a key of `after` and holds a value of
/// the same type there.
pub open spec fn keeps_entries(before: StoreView, after: StoreView) -> bool {
    forall|key: Seq<char>| #[trigger]
        before.holds(key) ==> after.holds(key) && after.entries[key].type_tag
            == before.entries[key].type_tag
}

/// No operation removes an entry or changes the type of one.
pub proof fn entries_stay<T: ItemTrait>(
    store: StoreView,
    key: Seq<char>,
    value: T::V,
    text: Seq<char>,
    emit: bool,
    stored: Option<Seq<char>>,
)
    ensures
        keeps_entries(store, store.set::<T>(key, value).store),
        keeps_entries(store, store.update::<T>(key, value, emit).store),
        keeps_entries(store, store.update_typed_string::<T>(key, text, emit).store),
        keeps_entries(store, store.write::<T>(ItemView { key }, value).store),
        keeps_entries(store, store.load::<T>(key, stored, value).store),
        keeps_entries(store, store.poison(key).store),
{
}

/// A failure changes nothing: an operation that reports an error leaves the
/// store as it was. So a text that does not decode leaves the value that was
/// there.
pub proof fn failure_changes_nothing<T: ItemTrait>(
    store: StoreView,
    key: Seq<char>,
    value: T::V,
    text: Seq<char>,
    emit: bool,
    stored: Option<Seq<char>>,
)
    ensures
        store.set::<T>(key, value).result is Err ==> store.set::<T>(key, value).store == store,
        store.update::<T>(key, value, emit).result is Err ==> store.update::<T>(
            key,
            value,
            emit,
        ).store == store,
        store.update_typed_string::<T>(key, text, emit).result is Err
            ==> store.update_typed_string::<T>(key, text, emit).store == store,
        T::spec_decode(text) is None ==> store.update_typed_string::<T>(key, text, emit)
            == store.fail::<EffectsView>(StoreError::DecodeError),
        store.write::<T>(ItemView { key }, value).result is Err ==> store.write::<T>(
            ItemView { key },
            value,
        ).store == store,
        store.load::<T>(key, stored, value).result is Err ==> store.load::<T>(
            key,
            stored,
            value,
        ).store == store,
        store.poison(key).result is Err ==> store.poison(key).store == store,
{
}

/// A poisoned lock is the fault of one key: after `poison`, every typed
/// access to the key reports `LockPoisoned` where it went through before,
/// and every access to another key goes as before.
pub proof fn poison_is_local<T: ItemTrait>(store: StoreView, key: Seq<char>, other: Seq<char>)
    requires
        store.holds(key),
        other != key,
    ensures
        store.access::<T>(key) is Ok ==> store.poison(key).store.access::<T>(key) == Err::<
            Seq<char>,
            StoreError,
        >(StoreError::LockPoisoned),
        store.poison(key).store.access::<T>(other) == store.access::<T>(other),
{
}

/// Whether `key` has the same entry, or none, in both stores.
pub open spec fn same_entry(before: StoreView, after: StoreView, key: Seq<char>) -> bool {
    &&& before.holds(key) == after.holds(key)
    &&& before.holds(key) ==> before.entries[key] == after.entries[key]
}

/// Keys are independent: an operation on one key neither reads nor changes
/// the entry of another. Whatever is done to `key`, the entry of `other` is
/// afterwards what it was.
pub proof fn other_keys_untouched<T: ItemTrait>(
    store: StoreView,
    key: Seq<char>,
    other: Seq<char>,
    value: T::V,
    text: Seq<char>,
    emit: bool,
    stored: Option<Seq<char>>,
)
    requires
        other != key,
    ensures
        same_entry(store, store.set::<T>(key, value).store, other),
        same_entry(store, store.update::<T>(key, value, emit).store, other),
        same_entry(store, store.update_typed_string::<T>(key, text, emit).store, other),
        same_entry(store, store.write::<T>(ItemView { key }, value).store, other),
        same_entry(store, store.load::<T>(key, stored, value).store, other),
        same_entry(store, store.poison(key).store, other),
{
}

} // verus!
