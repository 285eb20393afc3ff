use vstd::prelude::*;
use crate::error::StoreError;
use crate::item::ItemTrait;
use crate::notify::{effects_of, notification_of, persist_of, EffectsView, NotificationView, PersistView};

verus! {

/// One entry as plain values: the tag of the type it was set with, the text
/// encoding of its current value, and whether its lock is poisoned.
pub struct EntryView {
    pub type_tag: Seq<char>,
    pub text: Seq<char>,
    pub poisoned: bool,
}

/// A handle as plain values: the key of the entry it stands for. A handle
/// holds no value of its own, so two handles for one key stand for one and
/// the same entry.
pub struct ItemView {
    pub key: Seq<char>,
}

/// Where the value that `load` returned came from.
#[derive(Clone, Copy, Debug, PartialEq, Eq, Structural)]
pub enum LoadSource {
    /// The backend held a text for the key, and it decoded.
    Backend,
    /// The store does not persist: the default value was taken.
    PersistenceDisabled,
    /// The backend held nothing for the key: the default value was taken.
    Missing,
    /// The backend held a text that did not decode: the default value was
    /// taken.
    Corrupt,
}

/// What `load` returns, as plain values.
pub struct LoadedView<V> {
    pub value: V,
    pub source: LoadSource,
    pub effects: EffectsView,
}

/// The store as plain values: whether it persists, the name of the file
/// that backs it, and its entries by key.
#[verifier::ext_equal]
pub struct StoreView {
    pub sync_to_disk: bool,
    pub filename: Seq<char>,
    pub entries: Map<Seq<char>, EntryView>,
}

/// The store after an operation, and what the operation returned.
#[verifier::ext_equal]
pub struct Step<R> {
    pub store: StoreView,
    pub result: Result<R, StoreError>,
}

impl StoreView {
    /// Whether `key` was ever set.
    pub open spec fn holds(self, key: Seq<char>) -> bool {
        self.entries.dom().contains(key)
    }

    /// An operation that failed with `error`: the store is as it was.
    pub open spec fn fail<R>(self, error: StoreError) -> Step<R> {
        Step { store: self, result: Err(error) }
    }

    /// An access to `key` at the type with tag `type_tag`: the text of its
    /// entry, or the reason why the entry cannot be had at that type. A
    /// missing key is reported first, then a type that differs from the
    /// entry's, then a poisoned lock.
    pub open spec fn access_tagged(
        self,
        key: Seq<char>,
        type_tag: Seq<char>,
    ) -> Result<Seq<char>, StoreError> {
        if !self.holds(key) {
            Err(StoreError::KeyNotFound)
        } else if self.entries[key].type_tag != type_tag {
            Err(StoreError::TypeMismatch)
        } else if self.entries[key].poisoned {
            Err(StoreError::LockPoisoned)
        } else {
            Ok(self.entries[key].text)
        }
    }

    /// The store with a fresh entry under `key`, of the type with tag
    /// `type_tag`, holding `text`.
    pub open spec fn put_tagged(
        self,
        key: Seq<char>,
        type_tag: Seq<char>,
        text: Seq<char>,
    ) -> StoreView {
        StoreView {
            entries: self.entries.insert(key, EntryView { type_tag, text, poisoned: false }),
            ..self
        }
    }

    /// `set` of a value that the encoder of its type has been asked for:
    /// `encoded` is the text it gave, or nothing where the value has no
    /// encoding. A key that holds another type is refused, then a value
    /// without an encoding. Otherwise the key gets a fresh entry with the
    /// text, which is persisted where the store persists; nothing is
    /// published.
    pub open spec fn set_encoded(
        self,
        key: Seq<char>,
        type_tag: Seq<char>,
        encoded: Option<Seq<char>>,
    ) -> Step<EffectsView> {
        if self.holds(key) && self.entries[key].type_tag != type_tag {
            self.fail(StoreError::TypeMismatch)
        } else {
            match encoded {
                None => self.fail(StoreError::EncodeError),
                Some(text) => Step {
                    store: self.put_tagged(key, type_tag, text),
                    result: Ok(effects_of(key, text, false, self.sync_to_disk)),
                },
            }
        }
    }

    /// `update` of a value that the encoder of its type has been asked for.
    /// On a new key it is `set_encoded`. On a key that is there it needs an
    /// access at the type and a value that encodes, replaces the text,
    /// persists it where the store persists, and publishes it where `emit`
    /// is set.
    pub open spec fn update_encoded(
        self,
        key: Seq<char>,
        type_tag: Seq<char>,
        encoded: Option<Seq<char>>,
        emit: bool,
    ) -> Step<EffectsView> {
        if !self.holds(key) {
            self.set_encoded(key, type_tag, encoded)
        } else {
            match self.access_tagged(key, type_tag) {
                Err(error) => self.fail(error),
                Ok(_) => match encoded {
                    None => self.fail(StoreError::EncodeError),
                    Some(text) => Step {
                        store: self.put_tagged(key, type_tag, text),
                        result: Ok(effects_of(key, text, emit, self.sync_to_disk)),
                    },
                },
            }
        }
    }

    /// A write through a handle, of a value that the encoder of its type has
    /// been asked for. It needs an access at the type and a value that
    /// encodes, and replaces the text. Nothing is persisted or published:
    /// that is left to the release of the handle.
    pub open spec fn write_encoded(
        self,
        key: Seq<char>,
        type_tag: Seq<char>,
        encoded: Option<Seq<char>>,
    ) -> Step<()> {
        match self.access_tagged(key, type_tag) {
            Err(error) => self.fail(error),
            Ok(_) => match encoded {
                None => self.fail(StoreError::EncodeError),
                Some(text) => Step { store: self.put_tagged(key, type_tag, text), result: Ok(()) },
            },
        }
    }

    /// A typed access to `key`: the text of its entry, or the reason why the
    /// entry cannot be had as a `T`.
    pub open spec fn access<T: ItemTrait>(self, key: Seq<char>) -> Result<Seq<char>, StoreError> {
        self.access_tagged(key, T::spec_type_tag())
    }

    /// The store with a fresh entry of type `T` under `key`, holding `text`.
    pub open spec fn put<T: ItemTrait>(self, key: Seq<char>, text: Seq<char>) -> StoreView {
        self.put_tagged(key, T::spec_type_tag(), text)
    }

    /// `set`: establishes the entry of `key`, or replaces it by a fresh one of
    /// the same type. A key that holds another type is refused, and so is a
    /// value without an encoding. The value is persisted where the store
    /// persists; nothing is published.
    pub open spec fn set<T: ItemTrait>(self, key: Seq<char>, value: T::V) -> Step<EffectsView> {
        self.set_encoded(key, T::spec_type_tag(), T::spec_encode(value))
    }

    /// `update`: on a new key it is `set`. On a key that is there it needs a
    /// typed access and a value that encodes, replaces the value, persists
    /// it where the store persists, and publishes it where `emit` is set.
    pub open spec fn update<T: ItemTrait>(
        self,
        key: Seq<char>,
        value: T::V,
        emit: bool,
    ) -> Step<EffectsView> {
        self.update_encoded(key, T::spec_type_tag(), T::spec_encode(value), emit)
    }

    /// `update_typed_string`: a text that does not decode as a `T` is
    /// refused and changes nothing; one that does is an `update` with the
    /// value it encodes.
    pub open spec fn update_typed_string<T: ItemTrait>(
        self,
        key: Seq<char>,
        text: Seq<char>,
        emit: bool,
    ) -> Step<EffectsView> {
        match T::spec_decode(text) {
            None => self.fail(StoreError::DecodeError),
            Some(value) => self.update::<T>(key, value, emit),
        }
    }

    /// `snapshot`: the current value of `key`, read as a `T`.
    pub open spec fn snapshot<T: ItemTrait>(self, key: Seq<char>) -> Result<T::V, StoreError> {
        match self.access::<T>(key) {
            Err(error) => Err(error),
            Ok(text) => match T::spec_decode(text) {
                None => Err(StoreError::DecodeError),
                Some(value) => Ok(value),
            },
        }
    }

    /// `get`: a handle on `key`, where the key allows a typed access.
    pub open spec fn get<T: ItemTrait>(self, key: Seq<char>) -> Result<ItemView, StoreError> {
        match self.access::<T>(key) {
            Err(error) => Err(error),
            Ok(_) => Ok(ItemView { key }),
        }
    }

    /// `lock`: the current value of the entry that the handle stands for.
    pub open spec fn lock<T: ItemTrait>(self, item: ItemView) -> Result<T::V, StoreError> {
        self.snapshot::<T>(item.key)
    }

    /// `write`: replaces the value of the entry that the handle stands for.
    pub open spec fn write<T: ItemTrait>(self, item: ItemView, value: T::V) -> Step<()> {
        self.write_encoded(item.key, T::spec_type_tag(), T::spec_encode(value))
    }

    /// `release`: needs a typed access to the key of the handle. The value
    /// that the entry holds is published, once, and persisted where the
    /// store persists. The store stays as it is.
    pub open spec fn release<T: ItemTrait>(self, item: ItemView) -> Result<EffectsView, StoreError> {
        match self.access::<T>(item.key) {
            Err(error) => Err(error),
            Ok(text) => Ok(effects_of(item.key, text, true, self.sync_to_disk)),
        }
    }

    /// `emit`: the notification of the current value of `key`.
    pub open spec fn emit<T: ItemTrait>(self, key: Seq<char>) -> Result<NotificationView, StoreError> {
        match self.access::<T>(key) {
            Err(error) => Err(error),
            Ok(text) => Ok(notification_of(key, text)),
        }
    }

    /// `save`: the request to persist the current value of `key`. A store
    /// that does not persist refuses before it looks at the key.
    pub open spec fn save<T: ItemTrait>(self, key: Seq<char>) -> Result<PersistView, StoreError> {
        if !self.sync_to_disk {
            Err(StoreError::PersistenceUnavailable)
        } else {
            match self.access::<T>(key) {
                Err(error) => Err(error),
                Ok(text) => Ok(persist_of(key, text)),
            }
        }
    }

    /// Where `load` takes its value from, given what the backend holds for
    /// the key.
    pub open spec fn load_source<T: ItemTrait>(self, stored: Option<Seq<char>>) -> LoadSource {
        if !self.sync_to_disk {
            LoadSource::PersistenceDisabled
        } else {
            match stored {
                None => LoadSource::Missing,
                Some(text) => if T::spec_decode(text) is Some {
                    LoadSource::Backend
                } else {
                    LoadSource::Corrupt
                },
            }
        }
    }

    /// The value that `load` takes: what the backend's text encodes where
    /// that is the source, the fallback otherwise.
    pub open spec fn load_value<T: ItemTrait>(
        self,
        stored: Option<Seq<char>>,
        fallback: T::V,
    ) -> T::V {
        if self.load_source::<T>(stored) == LoadSource::Backend {
            T::spec_decode(stored->Some_0)->Some_0
        } else {
            fallback
        }
    }

    /// `load`: takes the value as `load_value` says, and is a `set` of it.
    pub open spec fn load<T: ItemTrait>(
        self,
        key: Seq<char>,
        stored: Option<Seq<char>>,
        fallback: T::V,
    ) -> Step<LoadedView<T::V>> {
        let value = self.load_value::<T>(stored, fallback);
        let step = self.set::<T>(key, value);
        match step.result {
            Err(error) => self.fail(error),
            Ok(effects) => Step {
                store: step.store,
                result: Ok(LoadedView { value, source: self.load_source::<T>(stored), effects }),
            },
        }
    }

    /// `poison`: marks the lock of `key` as poisoned.
    pub open spec fn poison(self, key: Seq<char>) -> Step<()> {
        if !self.holds(key) {
            self.fail(StoreError::KeyNotFound)
        } else {
            Step {
                store: StoreView {
                    entries: self.entries.insert(
                        key,
                        EntryView { poisoned: true, ..self.entries[key] },
                    ),
                    ..self
                },
                result: Ok(()),
            }
        }
    }
}

} // verus!
