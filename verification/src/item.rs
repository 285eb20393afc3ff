use vstd::prelude::*;
use vstd::std_specs::cmp::PartialEqSpec;
use core::marker::PhantomData;
use crate::error::StoreError;
use crate::model::ItemView;
use crate::syncer::StateSyncer;

verus! {

/// What a type must offer to be kept in the store: a tag that tells it from
/// the other types, and a text encoding that can be read back.
///
/// The store keeps every value as its text encoding beside the tag of its
/// type, so these functions are all it ever asks of a value.
pub trait ItemTrait: Sized + View {
    /// The tag that marks entries holding a value of this type. The store
    /// tells types apart by their tags and by nothing else: the types that
    /// one store is used with must have tags that differ from each other.
    spec fn spec_type_tag() -> Seq<char>;

    /// The text encoding of a value, where it has one.
    spec fn spec_encode(value: Self::V) -> Option<Seq<char>>;

    /// The value that a text encodes, where it encodes one.
    spec fn spec_decode(text: Seq<char>) -> Option<Self::V>;

    /// Decoding the encoding of a value gives the value back.
    proof fn lemma_round_trip(value: Self::V)
        ensures
            Self::spec_encode(value) matches Some(text) ==> Self::spec_decode(text) == Some(value),
    ;

    /// The tag of this type.
    fn type_tag() -> (tag: String)
        ensures
            tag@ == Self::spec_type_tag(),
    ;

    /// The text encoding of the value, or nothing where it has none.
    fn encode(&self) -> (text: Option<String>)
        ensures
            match text {
                Some(t) => Self::spec_encode(self@) == Some(t@),
                None => Self::spec_encode(self@) is None,
            },
    ;

    /// The value that the text encodes, or nothing where it encodes none.
    fn decode(text: &str) -> (value: Option<Self>)
        ensures
            match value {
                Some(v) => Self::spec_decode(text@) == Some(v@),
                None => Self::spec_decode(text@) is None,
            },
    ;
}

/// A handle on one entry of the store. It stands for the entry of its key
/// and holds no value of its own: reading and writing through it go to the
/// store, so what is written through one handle is read through every other
/// handle for the same key, its clones among them. The store takes a handle
/// back in `release`, which publishes the value of the entry exactly once.
pub struct Item<T: ItemTrait> {
    key: String,
    kind: PhantomData<T>,
}

impl<T: ItemTrait> View for Item<T> {
    type V = ItemView;

    closed spec fn view(&self) -> ItemView {
        ItemView { key: self.key@ }
    }
}

impl<T: ItemTrait> Item<T> {
    /// A handle for `key`.
    pub(crate) fn new(key: String) -> (item: Self)
        ensures
            item@ == (ItemView { key: key@ }),
    {
        Item { key, kind: PhantomData }
    }

    /// The key of the entry that the handle stands for.
    pub fn key(&self) -> (key: &str)
        ensures
            key@ == self@.key,
    {
        self.key.as_str()
    }

    /// The current value of the entry that the handle stands for, read from
    /// `store`.
    pub fn lock(&self, store: &StateSyncer) -> (r: Result<T, StoreError>)
        ensures
            match r {
                Ok(value) => store@.lock::<T>(self@) == Ok::<T::V, StoreError>(value@),
                Err(error) => store@.lock::<T>(self@) == Err::<T::V, StoreError>(error),
            },
    {
        store.snapshot::<T>(self.key.as_str())
    }

    /// Replaces the value of the entry that the handle stands for, in
    /// `store`. The entry must allow a typed access and the value must
    /// encode. Nothing is to be published or persisted before the handle is
    /// released.
    pub fn write(&self, store: &mut StateSyncer, value: T) -> (r: Result<(), StoreError>)
        ensures
            final(store)@ == old(store)@.write::<T>(self@, value@).store,
            r == old(store)@.write::<T>(self@, value@).result,
    {
        let encoded = value.encode();
        store.write_encoded(self.key.as_str(), T::type_tag().as_str(), encoded)
    }
}

impl<T: ItemTrait + PartialEq> Item<T> {
    /// What `eq` returns for two handles, given the values `mine` and
    /// `theirs` that were read through them: both are what the store holds
    /// for the handles, and the handles are equal where they are for the
    /// same key and the values are equal by the `==` of their type.
    pub open spec fn compared(
        store: crate::model::StoreView,
        first: ItemView,
        second: ItemView,
        mine: T,
        theirs: T,
        equal: bool,
    ) -> bool {
        &&& store.lock::<T>(first) == Ok::<T::V, StoreError>(mine@)
        &&& store.lock::<T>(second) == Ok::<T::V, StoreError>(theirs@)
        &&& T::obeys_eq_spec() ==> equal == (first.key == second.key && mine.eq_spec(&theirs))
    }

    /// Whether two handles are for the same key and the entries they stand
    /// for in `store` hold equal values, by the `==` of the values' type.
    /// Both entries are read; the first that cannot be read gives the error.
    pub fn eq(&self, other: &Self, store: &StateSyncer) -> (r: Result<bool, StoreError>)
        ensures
            r matches Ok(equal) ==> exists|mine: T, theirs: T| #[trigger]
                Self::compared(store@, self@, other@, mine, theirs, equal),
            r matches Err(error) ==> {
                ||| store@.lock::<T>(self@) == Err::<T::V, StoreError>(error)
                ||| store@.lock::<T>(self@) is Ok && store@.lock::<T>(other@) == Err::<
                    T::V,
                    StoreError,
                >(error)
            },
    {
        let mine = match self.lock(store) {
            Ok(value) => value,
            Err(error) => {
                return Err(error);
            },
        };
        let theirs = match other.lock(store) {
            Ok(value) => value,
            Err(error) => {
                return Err(error);
            },
        };
        let same_key = self.key == other.key;
        let same_value = mine == theirs;
        let same = same_key && same_value;
        let r = Ok(same);
        assert(Self::compared(store@, self@, other@, mine, theirs, r->Ok_0));
        r
    }
}

impl<T: ItemTrait> Clone for Item<T> {
    /// A second handle for the same key, and so for the same entry.
    fn clone(&self) -> (copy: Self)
        ensures
            copy@ == self@,
    {
        Item { key: self.key.clone(), kind: PhantomData }
    }
}

} // verus!
