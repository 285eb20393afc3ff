use vstd::prelude::*;
use vstd::hash_map::StringHashMap;
use vstd::string::StringExecFns;
use crate::config::StateSyncerConfig;
use crate::error::StoreError;
use crate::item::{Item, ItemTrait};
use crate::model::{EntryView, ItemView, LoadSource, LoadedView, StoreView};
use crate::notify::{
    Effects, EffectsView, Notification, NotificationView, PersistRequest, PersistView,
};

verus! {

/// One entry of the store: the tag of the type it was set with, the text
/// encoding of its current value, and whether its lock is poisoned.
struct Entry {
    type_tag: String,
    text: String,
    poisoned: bool,
}

impl View for Entry {
    type V = EntryView;

    closed spec fn view(&self) -> EntryView {
        EntryView { type_tag: self.type_tag@, text: self.text@, poisoned: self.poisoned }
    }
}

/// The store: a registry of typed values by key. Every value is kept as its
/// text encoding beside the tag of its type, and every typed access checks
/// the tag. The operations change the registry and return what is left to do
/// outside: the notification to publish and the value to persist.
pub struct StateSyncer {
    cfg: StateSyncerConfig,
    entries: StringHashMap<Entry>,
}

impl View for StateSyncer {
    type V = StoreView;

    closed spec fn view(&self) -> StoreView {
        StoreView {
            sync_to_disk: self.cfg.sync_to_disk,
            filename: self.cfg.filename@,
            entries: self.entries@.map_values(|e: Entry| e@),
        }
    }
}

impl StateSyncer {
    /// An empty store with the given configuration.
    pub fn new(cfg: StateSyncerConfig) -> (store: Self)
        ensures
            store@ == (StoreView {
                sync_to_disk: cfg.sync_to_disk,
                filename: cfg.filename@,
                entries: Map::empty(),
            }),
    {
        let store = StateSyncer { cfg, entries: StringHashMap::new() };
        assert(store.entries@.map_values(|e: Entry| e@) =~= Map::empty());
        store
    }

    /// The configuration that the store was made with.
    pub fn config(&self) -> (cfg: &StateSyncerConfig)
        ensures
            cfg.sync_to_disk == self@.sync_to_disk,
            cfg.filename@ == self@.filename,
    {
        &self.cfg
    }

    /// The entry of `key`, if it has one.
    fn find(&self, key: &str) -> (found: Option<&Entry>)
        ensures
            found is Some <==> self@.holds(key@),
            found matches Some(entry) ==> self@.entries[key@] == entry@,
    {
        self.entries.get(key)
    }

    /// Puts `entry` under `key`, in place of the one that is there, if any.
    fn put(&mut self, key: String, entry: Entry)
        ensures
            final(self)@ == (StoreView {
                entries: old(self)@.entries.insert(key@, entry@),
                ..old(self)@
            }),
    {
        let ghost before = self.entries@;
        self.entries.insert(key, entry);
        assert(before.insert(key@, entry).map_values(|e: Entry| e@) =~= before.map_values(
            |e: Entry| e@,
        ).insert(key@, entry@));
    }

    /// An access to `key` at the type with tag `type_tag`: its entry, or the
    /// reason why the entry cannot be had at that type.
    fn access_tagged(&self, key: &str, type_tag: &str) -> (r: Result<&Entry, StoreError>)
        ensures
            match r {
                Ok(entry) => self@.access_tagged(key@, type_tag@) == Ok::<Seq<char>, StoreError>(
                    entry.text@,
                ),
                Err(error) => self@.access_tagged(key@, type_tag@) == Err::<Seq<char>, StoreError>(
                    error,
                ),
            },
    {
        match self.find(key) {
            None => Err(StoreError::KeyNotFound),
            Some(entry) => {
                let tag = String::from_str(type_tag);
                if !(entry.type_tag == tag) {
                    Err(StoreError::TypeMismatch)
                } else if entry.poisoned {
                    Err(StoreError::LockPoisoned)
                } else {
                    Ok(entry)
                }
            },
        }
    }

    /// A typed access to `key`: its entry, or the reason why the entry
    /// cannot be had as a `T`.
    fn access<T: ItemTrait>(&self, key: &str) -> (r: Result<&Entry, StoreError>)
        ensures
            match r {
                Ok(entry) => self@.access::<T>(key@) == Ok::<Seq<char>, StoreError>(entry.text@),
                Err(error) => self@.access::<T>(key@) == Err::<Seq<char>, StoreError>(error),
            },
    {
        self.access_tagged(key, T::type_tag().as_str())
    }

    /// Establishes the entry of `key` with the text that the encoder of the
    /// type with tag `type_tag` gave for a value, handed over as `encoded`:
    /// nothing where the value has no encoding. A key that holds a value of
    /// another type is refused with `TypeMismatch`, a value without an
    /// encoding with `EncodeError`. This is what `set` does once it has asked
    /// the encoder.
    pub fn set_encoded(&mut self, key: &str, type_tag: &str, encoded: Option<String>) -> (r: Result<
        Effects,
        StoreError,
    >)
        ensures
            final(self)@ == old(self)@.set_encoded(key@, type_tag@, stored_text(encoded)).store,
            match r {
                Ok(effects) => old(self)@.set_encoded(key@, type_tag@, stored_text(encoded)).result
                    == Ok::<EffectsView, StoreError>(effects@),
                Err(error) => old(self)@.set_encoded(key@, type_tag@, stored_text(encoded)).result
                    == Err::<EffectsView, StoreError>(error),
            },
    {
        let tag = String::from_str(type_tag);
        if let Some(entry) = self.find(key) {
            if !(entry.type_tag == tag) {
                return Err(StoreError::TypeMismatch);
            }
        }
        match encoded {
            None => Err(StoreError::EncodeError),
            Some(text) => {
                let effects = Effects::new(key, text.as_str(), false, self.cfg.sync_to_disk);
                self.put(String::from_str(key), Entry { type_tag: tag, text, poisoned: false });
                Ok(effects)
            },
        }
    }

    /// Replaces the value of `key` by the text that the encoder of the type
    /// with tag `type_tag` gave, handed over as `encoded`. On a key that was
    /// never set this is `set_encoded`. This is what `update` does once it
    /// has asked the encoder.
    pub fn update_encoded(
        &mut self,
        key: &str,
        type_tag: &str,
        encoded: Option<String>,
        emit: bool,
    ) -> (r: Result<Effects, StoreError>)
        ensures
            final(self)@ == old(self)@.update_encoded(
                key@,
                type_tag@,
                stored_text(encoded),
                emit,
            ).store,
            match r {
                Ok(effects) => old(self)@.update_encoded(
                    key@,
                    type_tag@,
                    stored_text(encoded),
                    emit,
                ).result == Ok::<EffectsView, StoreError>(effects@),
                Err(error) => old(self)@.update_encoded(
                    key@,
                    type_tag@,
                    stored_text(encoded),
                    emit,
                ).result == Err::<EffectsView, StoreError>(error),
            },
    {
        if self.find(key).is_none() {
            return self.set_encoded(key, type_tag, encoded);
        }
        if let Err(error) = self.access_tagged(key, type_tag) {
            return Err(error);
        }
        match encoded {
            None => Err(StoreError::EncodeError),
            Some(text) => {
                let effects = Effects::new(key, text.as_str(), emit, self.cfg.sync_to_disk);
                self.put(
                    String::from_str(key),
                    Entry { type_tag: String::from_str(type_tag), text, poisoned: false },
                );
                Ok(effects)
            },
        }
    }

    /// Replaces the value of `key` by the text that the encoder of the type
    /// with tag `type_tag` gave, handed over as `encoded`, and leaves nothing
    /// to do outside. This is what a write through a handle does once it has
    /// asked the encoder.
    pub fn write_encoded(&mut self, key: &str, type_tag: &str, encoded: Option<String>) -> (r:
        Result<(), StoreError>)
        ensures
            final(self)@ == old(self)@.write_encoded(key@, type_tag@, stored_text(encoded)).store,
            r == old(self)@.write_encoded(key@, type_tag@, stored_text(encoded)).result,
    {
        if let Err(error) = self.access_tagged(key, type_tag) {
            return Err(error);
        }
        match encoded {
            None => Err(StoreError::EncodeError),
            Some(text) => {
                self.put(
                    String::from_str(key),
                    Entry { type_tag: String::from_str(type_tag), text, poisoned: false },
                );
                Ok(())
            },
        }
    }

    /// `set` with the value behind a reference.
    fn store<T: ItemTrait>(&mut self, key: &str, value: &T) -> (r: Result<Effects, StoreError>)
        ensures
            final(self)@ == old(self)@.set::<T>(key@, value@).store,
            match r {
                Ok(effects) => old(self)@.set::<T>(key@, value@).result == Ok::<
                    EffectsView,
                    StoreError,
                >(effects@),
                Err(error) => old(self)@.set::<T>(key@, value@).result == Err::<
                    EffectsView,
                    StoreError,
                >(error),
            },
    {
        let encoded = value.encode();
        self.set_encoded(key, T::type_tag().as_str(), encoded)
    }

    /// Establishes the entry of `key` with `value`, or replaces it by a fresh
    /// one of the same type. A key that holds a value of another type is
    /// refused with `TypeMismatch`, a value without an encoding with
    /// `EncodeError`; the store is then as it was. The value is to be
    /// persisted where the store persists; nothing is to be published.
    pub fn set<T: ItemTrait>(&mut self, key: &str, value: T) -> (r: Result<Effects, StoreError>)
        ensures
            final(self)@ == old(self)@.set::<T>(key@, value@).store,
            match r {
                Ok(effects) => old(self)@.set::<T>(key@, value@).result == Ok::<
                    EffectsView,
                    StoreError,
                >(effects@),
                Err(error) => old(self)@.set::<T>(key@, value@).result == Err::<
                    EffectsView,
                    StoreError,
                >(error),
            },
    {
        self.store::<T>(key, &value)
    }

    /// Replaces the value of `key` by `new_value`. On a key that was never
    /// set this is `set`. Otherwise the key must hold a `T` behind a sound
    /// lock, and the value must encode; the new value is to be persisted
    /// where the store persists, and to be published where `emit` is set.
    pub fn update<T: ItemTrait>(&mut self, key: &str, new_value: T, emit: bool) -> (r: Result<
        Effects,
        StoreError,
    >)
        ensures
            final(self)@ == old(self)@.update::<T>(key@, new_value@, emit).store,
            match r {
                Ok(effects) => old(self)@.update::<T>(key@, new_value@, emit).result == Ok::<
                    EffectsView,
                    StoreError,
                >(effects@),
                Err(error) => old(self)@.update::<T>(key@, new_value@, emit).result == Err::<
                    EffectsView,
                    StoreError,
                >(error),
            },
    {
        let encoded = new_value.encode();
        self.update_encoded(key, T::type_tag().as_str(), encoded, emit)
    }

    /// Decodes `value` as a `T` and updates `key` with what it encodes. A
    /// text that does not decode is refused with `DecodeError` and changes
    /// nothing.
    pub fn update_typed_string<T: ItemTrait>(&mut self, key: &str, value: &str, emit: bool) -> (r:
        Result<Effects, StoreError>)
        ensures
            final(self)@ == old(self)@.update_typed_string::<T>(key@, value@, emit).store,
            match r {
                Ok(effects) => old(self)@.update_typed_string::<T>(key@, value@, emit).result
                    == Ok::<EffectsView, StoreError>(effects@),
                Err(error) => old(self)@.update_typed_string::<T>(key@, value@, emit).result
                    == Err::<EffectsView, StoreError>(error),
            },
    {
        match T::decode(value) {
            None => Err(StoreError::DecodeError),
            Some(new_value) => self.update::<T>(key, new_value, emit),
        }
    }

    /// The current value of `key`, read as a `T`. Nothing is changed and
    /// nothing is to be published.
    pub fn snapshot<T: ItemTrait>(&self, key: &str) -> (r: Result<T, StoreError>)
        ensures
            match r {
                Ok(value) => self@.snapshot::<T>(key@) == Ok::<T::V, StoreError>(value@),
                Err(error) => self@.snapshot::<T>(key@) == Err::<T::V, StoreError>(error),
            },
    {
        match self.access::<T>(key) {
            Err(error) => Err(error),
            Ok(entry) => match T::decode(entry.text.as_str()) {
                None => Err(StoreError::DecodeError),
                Some(value) => Ok(value),
            },
        }
    }

    /// A handle on `key`, where the key holds a `T` behind a sound lock.
    /// Nothing is changed and nothing is to be published.
    pub fn get<T: ItemTrait>(&self, key: &str) -> (r: Result<Item<T>, StoreError>)
        ensures
            match r {
                Ok(item) => self@.get::<T>(key@) == Ok::<ItemView, StoreError>(item@),
                Err(error) => self@.get::<T>(key@) == Err::<ItemView, StoreError>(error),
            },
    {
        match self.access::<T>(key) {
            Err(error) => Err(error),
            Ok(_) => Ok(Item::new(String::from_str(key))),
        }
    }

    /// Takes a handle back. The key of the handle must hold a `T` behind a
    /// sound lock. The value that the entry holds is to be published, once,
    /// and to be persisted where the store persists. The store stays as it
    /// is: what was written through the handle is in it already.
    pub fn release<T: ItemTrait>(&self, item: Item<T>) -> (r: Result<Effects, StoreError>)
        ensures
            match r {
                Ok(effects) => self@.release::<T>(item@) == Ok::<EffectsView, StoreError>(
                    effects@,
                ),
                Err(error) => self@.release::<T>(item@) == Err::<EffectsView, StoreError>(error),
            },
    {
        match self.access::<T>(item.key()) {
            Err(error) => Err(error),
            Ok(entry) => Ok(
                Effects::new(item.key(), entry.text.as_str(), true, self.cfg.sync_to_disk),
            ),
        }
    }

    /// The notification of the current value of `name`, to be published
    /// though nothing changed.
    pub fn emit<T: ItemTrait>(&self, name: &str) -> (r: Result<Notification, StoreError>)
        ensures
            match r {
                Ok(notification) => self@.emit::<T>(name@) == Ok::<NotificationView, StoreError>(
                    notification@,
                ),
                Err(error) => self@.emit::<T>(name@) == Err::<NotificationView, StoreError>(error),
            },
    {
        match self.access::<T>(name) {
            Err(error) => Err(error),
            Ok(entry) => Ok(Notification::new(name, entry.text.as_str())),
        }
    }

    /// The request to persist the current value of `key`. A store that does
    /// not persist refuses with `PersistenceUnavailable`.
    pub fn save<T: ItemTrait>(&self, key: &str) -> (r: Result<PersistRequest, StoreError>)
        ensures
            match r {
                Ok(request) => self@.save::<T>(key@) == Ok::<PersistView, StoreError>(request@),
                Err(error) => self@.save::<T>(key@) == Err::<PersistView, StoreError>(error),
            },
    {
        if !self.cfg.sync_to_disk {
            return Err(StoreError::PersistenceUnavailable);
        }
        match self.access::<T>(key) {
            Err(error) => Err(error),
            Ok(entry) => Ok(PersistRequest::new(key, entry.text.as_str())),
        }
    }

    /// Brings `key` into the store from what the persistence backend holds
    /// for it, handed over as `stored`, and returns the value. Where the
    /// store persists and the text decodes as a `T`, that is the value.
    /// Where the store does not persist, or the backend holds nothing for the
    /// key, or the text does not decode, the value is the default value of
    /// `T`; `source` says which of these it was. Either way the value is
    /// `set` under `key`, with the effects and the errors of `set`.
    pub fn load<T: ItemTrait + Default>(&mut self, key: &str, stored: Option<&str>) -> (r: Result<
        Loaded<T>,
        StoreError,
    >)
        ensures
            exists|fallback: T| #[trigger]
                call_ensures(T::default, (), fallback) && {
                    let step = old(self)@.load::<T>(key@, stored_text(stored), fallback@);
                    &&& final(self)@ == step.store
                    &&& match r {
                        Ok(loaded) => step.result == Ok::<LoadedView<T::V>, StoreError>(loaded@),
                        Err(error) => step.result == Err::<LoadedView<T::V>, StoreError>(error),
                    }
                },
    {
        let fallback = T::default();
        let mut value = fallback;
        let mut source = LoadSource::PersistenceDisabled;
        if self.cfg.sync_to_disk {
            match stored {
                None => {
                    source = LoadSource::Missing;
                },
                Some(text) => match T::decode(text) {
                    None => {
                        source = LoadSource::Corrupt;
                    },
                    Some(decoded) => {
                        source = LoadSource::Backend;
                        value = decoded;
                    },
                },
            }
        }
        match self.store::<T>(key, &value) {
            Err(error) => Err(error),
            Ok(effects) => Ok(Loaded { value, source, effects }),
        }
    }

    /// Records that a holder of `key` failed while it had the entry to
    /// itself. Every typed access to the key reports `LockPoisoned` from here
    /// on, until the key is `set` again; no other key is touched.
    pub fn poison(&mut self, key: &str) -> (r: Result<(), StoreError>)
        ensures
            final(self)@ == old(self)@.poison(key@).store,
            r == old(self)@.poison(key@).result,
    {
        let poisoned = match self.find(key) {
            None => {
                return Err(StoreError::KeyNotFound);
            },
            Some(entry) => Entry {
                type_tag: entry.type_tag.clone(),
                text: entry.text.clone(),
                poisoned: true,
            },
        };
        self.put(String::from_str(key), poisoned);
        Ok(())
    }
}

/// A text that may be missing, as plain values.
pub open spec fn stored_text<S: View<V = Seq<char>>>(stored: Option<S>) -> Option<Seq<char>> {
    match stored {
        Some(text) => Some(text@),
        None => None,
    }
}

/// What `load` returns: the value that the key now holds, where it came
/// from, and what `set` left to do.
pub struct Loaded<T> {
    pub value: T,
    pub source: LoadSource,
    pub effects: Effects,
}

impl<T: ItemTrait> View for Loaded<T> {
    type V = LoadedView<T::V>;

    open spec fn view(&self) -> LoadedView<T::V> {
        LoadedView { value: self.value@, source: self.source, effects: self.effects@ }
    }
}

} // verus!
