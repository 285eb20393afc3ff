use synced_store::{
    Effects, Item, ItemTrait, LoadSource, Notification, StateSyncer, StateSyncerConfig, StateUpdate,
    StoreError,
};

fn plain() -> StateSyncer {
    StateSyncer::new(StateSyncerConfig::default())
}

fn persisting() -> StateSyncer {
    StateSyncer::new(StateSyncerConfig { sync_to_disk: true, filename: "state.json".to_owned() })
}

#[test]
fn default_config_does_not_persist() {
    let cfg = StateSyncerConfig::default();
    assert!(!cfg.sync_to_disk);
    assert_eq!(cfg.filename, "state.json");
}

#[test]
fn new_store_keeps_its_config() {
    let store = StateSyncer::new(StateSyncerConfig { sync_to_disk: true, filename: "s.json".to_owned() });
    assert!(store.config().sync_to_disk);
    assert_eq!(store.config().filename, "s.json");
}

#[test]
fn encode_and_decode_go_through_json() {
    assert_eq!(50i32.encode(), Some("50".to_owned()));
    assert_eq!((-7i32).encode(), Some("-7".to_owned()));
    assert_eq!(true.encode(), Some("true".to_owned()));
    assert_eq!(false.encode(), Some("false".to_owned()));
    assert_eq!("dark".to_owned().encode(), Some("\"dark\"".to_owned()));
    assert_eq!(<i32 as ItemTrait>::decode("50"), Some(50));
    assert_eq!(<i32 as ItemTrait>::decode(" 12 "), Some(12));
    assert_eq!(<i32 as ItemTrait>::decode("not-a-number"), None);
    assert_eq!(<i32 as ItemTrait>::decode("4294967296"), None);
    assert_eq!(<bool as ItemTrait>::decode("true"), Some(true));
    assert_eq!(<bool as ItemTrait>::decode("1"), None);
    assert_eq!(<String as ItemTrait>::decode("\"a\\nb\""), Some("a\nb".to_owned()));
    assert_eq!(<String as ItemTrait>::decode("dark"), None);
}

#[test]
fn type_tags_tell_the_types_apart() {
    assert_eq!(<i32 as ItemTrait>::type_tag(), "i32");
    assert_eq!(<bool as ItemTrait>::type_tag(), "bool");
    assert_eq!(<String as ItemTrait>::type_tag(), "String");
}

#[test]
fn round_trip_on_values() {
    for v in [0i32, 1, -1, 50, i32::MAX, i32::MIN] {
        let text = v.encode().unwrap();
        assert_eq!(<i32 as ItemTrait>::decode(&text), Some(v));
    }
    for v in [true, false] {
        let text = v.encode().unwrap();
        assert_eq!(<bool as ItemTrait>::decode(&text), Some(v));
    }
    for v in ["", "dark", "a \"quoted\" word", "line\nbreak", "\u{e9}\u{4e16}\u{1f600}"] {
        let text = v.to_owned().encode().unwrap();
        assert_eq!(<String as ItemTrait>::decode(&text), Some(v.to_owned()));
    }
}

#[test]
fn handle_yields_value_and_release_notifies() {
    let mut store = plain();
    store.set::<i32>("volume", 50).unwrap();
    let item: Item<i32> = store.get::<i32>("volume").unwrap();
    assert_eq!(item.lock(&store), Ok(50));
    assert_eq!(item.key(), "volume");
    let effects = store.release(item).unwrap();
    let notification = effects.notify.unwrap();
    assert_eq!(notification.event, "volume_update");
    assert_eq!(notification.payload.name, "volume");
    assert_eq!(notification.payload.value, "50");
    assert_eq!(notification.payload.version, None);
    assert!(effects.persist.is_none());
    assert_eq!(store.snapshot::<i32>("volume"), Ok(50));
}

#[test]
fn release_notifies_once_with_the_last_value() {
    let mut store = persisting();
    store.set::<i32>("volume", 50).unwrap();
    let item = store.get::<i32>("volume").unwrap();
    assert_eq!(item.write(&mut store, 51), Ok(()));
    let seen = item.lock(&store).unwrap();
    assert_eq!(item.write(&mut store, seen + 10), Ok(()));
    assert_eq!(item.write(&mut store, 7), Ok(()));
    assert_eq!(store.snapshot::<i32>("volume"), Ok(7));
    let effects = store.release(item).unwrap();
    let notification = effects.notify.unwrap();
    assert_eq!(notification.event, "volume_update");
    assert_eq!(notification.payload.value, "7");
    let persist = effects.persist.unwrap();
    assert_eq!(persist.key, "volume");
    assert_eq!(persist.value, "7");
    assert_eq!(store.snapshot::<i32>("volume"), Ok(7));
}

#[test]
fn release_publishes_the_value_at_release_time() {
    let mut store = plain();
    store.set::<i32>("volume", 50).unwrap();
    let item = store.get::<i32>("volume").unwrap();
    item.write(&mut store, 55).unwrap();
    store.update::<i32>("volume", 60, false).unwrap();
    let effects = store.release(item).unwrap();
    assert_eq!(effects.notify.unwrap().payload.value, "60");
    assert_eq!(store.snapshot::<i32>("volume"), Ok(60));
}

#[test]
fn malformed_text_is_refused_and_changes_nothing() {
    let mut store = plain();
    store.set::<i32>("volume", 50).unwrap();
    let r = store.update_typed_string::<i32>("volume", "not-a-number", true);
    assert_eq!(r.err(), Some(StoreError::DecodeError));
    assert_eq!(store.snapshot::<i32>("volume"), Ok(50));
}

#[test]
fn well_formed_text_updates_and_notifies() {
    let mut store = plain();
    store.set::<i32>("volume", 50).unwrap();
    let effects = store.update_typed_string::<i32>("volume", " 75 ", true).unwrap();
    let notification = effects.notify.unwrap();
    assert_eq!(notification.event, "volume_update");
    assert_eq!(notification.payload.value, "75");
    assert!(effects.persist.is_none());
    assert_eq!(store.snapshot::<i32>("volume"), Ok(75));
    let quiet = store.update_typed_string::<i32>("volume", "76", false).unwrap();
    assert!(quiet.notify.is_none());
    assert_eq!(store.snapshot::<i32>("volume"), Ok(76));
}

#[test]
fn set_then_save_hands_the_value_to_the_backend() {
    let mut store = persisting();
    let effects = store.set::<String>("theme", "dark".to_owned()).unwrap();
    assert!(effects.notify.is_none());
    let written = effects.persist.unwrap();
    assert_eq!(written.key, "theme");
    assert_eq!(written.value, "\"dark\"");
    let request = store.save::<String>("theme").unwrap();
    assert_eq!(request.key, "theme");
    assert_eq!(request.value, "\"dark\"");
}

#[test]
fn save_without_persistence_is_refused() {
    let mut store = plain();
    store.set::<String>("theme", "dark".to_owned()).unwrap();
    assert_eq!(store.save::<String>("theme").err(), Some(StoreError::PersistenceUnavailable));
    assert_eq!(store.save::<String>("absent").err(), Some(StoreError::PersistenceUnavailable));
}

#[test]
fn load_without_persistence_gives_the_default() {
    let mut store = plain();
    let loaded = store.load::<bool>("flag", None).unwrap();
    assert_eq!(loaded.value, false);
    assert_eq!(loaded.source, LoadSource::PersistenceDisabled);
    assert!(loaded.effects.persist.is_none());
    assert!(loaded.effects.notify.is_none());
    assert_eq!(store.snapshot::<bool>("flag"), Ok(false));
}

#[test]
fn load_without_persistence_does_not_look_at_the_backend() {
    let mut store = plain();
    let loaded = store.load::<bool>("flag", Some("true")).unwrap();
    assert_eq!(loaded.value, false);
    assert_eq!(loaded.source, LoadSource::PersistenceDisabled);
    assert_eq!(store.snapshot::<bool>("flag"), Ok(false));
}

#[test]
fn load_of_a_missing_key_gives_the_default() {
    let mut store = persisting();
    let loaded = store.load::<i32>("count", None).unwrap();
    assert_eq!(loaded.value, 0);
    assert_eq!(loaded.source, LoadSource::Missing);
    let written = loaded.effects.persist.unwrap();
    assert_eq!(written.key, "count");
    assert_eq!(written.value, "0");
    assert_eq!(store.snapshot::<i32>("count"), Ok(0));
}

#[test]
fn load_takes_what_the_backend_holds() {
    let mut store = persisting();
    let loaded = store.load::<String>("theme", Some("\"dark\"")).unwrap();
    assert_eq!(loaded.value, "dark");
    assert_eq!(loaded.source, LoadSource::Backend);
    assert_eq!(store.snapshot::<String>("theme"), Ok("dark".to_owned()));
}

#[test]
fn load_of_a_corrupt_text_gives_the_default_and_says_so() {
    let mut store = persisting();
    let loaded = store.load::<i32>("count", Some("\"seven\"")).unwrap();
    assert_eq!(loaded.value, 0);
    assert_eq!(loaded.source, LoadSource::Corrupt);
    assert_eq!(store.snapshot::<i32>("count"), Ok(0));
}

#[test]
fn load_over_another_type_is_refused() {
    let mut store = persisting();
    store.set::<i32>("flag", 1).unwrap();
    assert_eq!(store.load::<bool>("flag", None).err(), Some(StoreError::TypeMismatch));
    assert_eq!(store.snapshot::<i32>("flag"), Ok(1));
}

#[test]
fn missing_key_is_reported() {
    let store = plain();
    assert_eq!(store.get::<i32>("volume").err(), Some(StoreError::KeyNotFound));
    assert_eq!(store.snapshot::<i32>("volume").err(), Some(StoreError::KeyNotFound));
    assert_eq!(store.emit::<i32>("volume").err(), Some(StoreError::KeyNotFound));
}

#[test]
fn other_type_is_reported() {
    let mut store = plain();
    store.set::<i32>("volume", 50).unwrap();
    assert_eq!(store.get::<bool>("volume").err(), Some(StoreError::TypeMismatch));
    assert_eq!(store.get::<String>("volume").err(), Some(StoreError::TypeMismatch));
    assert_eq!(store.snapshot::<bool>("volume").err(), Some(StoreError::TypeMismatch));
    assert_eq!(store.emit::<bool>("volume").err(), Some(StoreError::TypeMismatch));
    assert_eq!(store.update::<bool>("volume", true, true).err(), Some(StoreError::TypeMismatch));
    assert_eq!(store.set::<bool>("volume", true).err(), Some(StoreError::TypeMismatch));
    assert_eq!(
        store.update_typed_string::<bool>("volume", "true", true).err(),
        Some(StoreError::TypeMismatch)
    );
    assert_eq!(store.snapshot::<i32>("volume"), Ok(50));
}

#[test]
fn update_of_a_new_key_is_a_set() {
    let mut store = persisting();
    let effects = store.update::<i32>("volume", 5, true).unwrap();
    assert!(effects.notify.is_none());
    assert_eq!(effects.persist.unwrap().value, "5");
    assert_eq!(store.snapshot::<i32>("volume"), Ok(5));
}

#[test]
fn update_replaces_and_notifies_on_request() {
    let mut store = persisting();
    store.set::<i32>("volume", 50).unwrap();
    let loud = store.update::<i32>("volume", 60, true).unwrap();
    let notification = loud.notify.unwrap();
    assert_eq!(notification.event, "volume_update");
    assert_eq!(notification.payload.name, "volume");
    assert_eq!(notification.payload.value, "60");
    assert_eq!(loud.persist.unwrap().value, "60");
    let quiet = store.update::<i32>("volume", 61, false).unwrap();
    assert!(quiet.notify.is_none());
    assert_eq!(quiet.persist.unwrap().value, "61");
    assert_eq!(store.snapshot::<i32>("volume"), Ok(61));
}

#[test]
fn emit_publishes_without_changing() {
    let mut store = persisting();
    store.set::<bool>("flag", true).unwrap();
    let notification: Notification = store.emit::<bool>("flag").unwrap();
    assert_eq!(notification.event, "flag_update");
    assert_eq!(notification.payload.name, "flag");
    assert_eq!(notification.payload.value, "true");
    assert_eq!(store.snapshot::<bool>("flag"), Ok(true));
}

#[test]
fn keys_do_not_touch_each_other() {
    let mut store = plain();
    store.set::<i32>("a", 1).unwrap();
    store.set::<i32>("b", 2).unwrap();
    store.set::<String>("c", "three".to_owned()).unwrap();
    store.update::<i32>("a", 10, false).unwrap();
    let item = store.get::<i32>("b").unwrap();
    item.write(&mut store, 20).unwrap();
    store.release(item).unwrap();
    assert_eq!(store.snapshot::<i32>("a"), Ok(10));
    assert_eq!(store.snapshot::<i32>("b"), Ok(20));
    assert_eq!(store.snapshot::<String>("c"), Ok("three".to_owned()));
}

#[test]
fn poisoned_key_is_reported_and_others_go_on() {
    let mut store = plain();
    store.set::<i32>("a", 1).unwrap();
    store.set::<i32>("b", 2).unwrap();
    let held = store.get::<i32>("a").unwrap();
    assert_eq!(store.poison("a"), Ok(()));
    assert_eq!(store.get::<i32>("a").err(), Some(StoreError::LockPoisoned));
    assert_eq!(store.snapshot::<i32>("a").err(), Some(StoreError::LockPoisoned));
    assert_eq!(store.emit::<i32>("a").err(), Some(StoreError::LockPoisoned));
    assert_eq!(store.update::<i32>("a", 3, true).err(), Some(StoreError::LockPoisoned));
    assert_eq!(held.lock(&store).err(), Some(StoreError::LockPoisoned));
    assert_eq!(held.write(&mut store, 3).err(), Some(StoreError::LockPoisoned));
    assert_eq!(store.release(held).err(), Some(StoreError::LockPoisoned));
    assert_eq!(store.get::<bool>("a").err(), Some(StoreError::TypeMismatch));
    assert_eq!(store.snapshot::<i32>("b"), Ok(2));
    assert_eq!(store.poison("absent"), Err(StoreError::KeyNotFound));
    store.set::<i32>("a", 4).unwrap();
    assert_eq!(store.snapshot::<i32>("a"), Ok(4));
}

#[test]
fn release_into_another_store_is_refused() {
    let mut first = plain();
    first.set::<i32>("volume", 50).unwrap();
    let item = first.get::<i32>("volume").unwrap();
    let mut second = plain();
    assert_eq!(item.lock(&second).err(), Some(StoreError::KeyNotFound));
    assert_eq!(item.write(&mut second, 1).err(), Some(StoreError::KeyNotFound));
    assert_eq!(second.release(item).err(), Some(StoreError::KeyNotFound));
    second.set::<bool>("volume", true).unwrap();
    let item = first.get::<i32>("volume").unwrap();
    assert_eq!(second.release(item).err(), Some(StoreError::TypeMismatch));
    assert_eq!(second.snapshot::<bool>("volume"), Ok(true));
}

#[test]
fn refused_notification_is_a_transport_failure() {
    let with = Effects::new("volume", "50", true, false);
    assert_eq!(with.settle(false), Err(StoreError::TransportFailure));
    assert_eq!(with.settle(true), Ok(()));
    let without = Effects::new("volume", "50", false, true);
    assert_eq!(without.settle(false), Ok(()));
    assert_eq!(without.settle(true), Ok(()));
}

/// A type of the caller's own: a temperature that is kept in tenths of a
/// degree and has no encoding above a thousand degrees. The functions that
/// only contracts speak of are never run.
#[derive(Clone, Debug, PartialEq)]
struct Tenths(i32);

impl vstd::view::View for Tenths {
    type V = Tenths;

    fn view(&self) -> Tenths {
        unreachable!()
    }
}

impl ItemTrait for Tenths {
    fn spec_type_tag() -> vstd::seq::Seq<char> {
        unreachable!()
    }

    fn spec_encode(_value: Tenths) -> Option<vstd::seq::Seq<char>> {
        unreachable!()
    }

    fn spec_decode(_text: vstd::seq::Seq<char>) -> Option<Tenths> {
        unreachable!()
    }

    fn lemma_round_trip(_value: Tenths) {
        unreachable!()
    }

    fn type_tag() -> String {
        "Tenths".to_owned()
    }

    fn encode(&self) -> Option<String> {
        if self.0.abs() > 10000 {
            None
        } else {
            Some(format!("{}", self.0))
        }
    }

    fn decode(text: &str) -> Option<Tenths> {
        match text.parse::<i32>() {
            Ok(n) if n.abs() <= 10000 => Some(Tenths(n)),
            _ => None,
        }
    }
}

#[test]
fn value_without_encoding_is_refused() {
    let mut store = plain();
    assert_eq!(store.set::<Tenths>("oven", Tenths(20000)).err(), Some(StoreError::EncodeError));
    assert_eq!(store.get::<Tenths>("oven").err(), Some(StoreError::KeyNotFound));
    store.set::<Tenths>("oven", Tenths(1800)).unwrap();
    assert_eq!(
        store.update::<Tenths>("oven", Tenths(-20000), true).err(),
        Some(StoreError::EncodeError)
    );
    let item = store.get::<Tenths>("oven").unwrap();
    assert_eq!(item.write(&mut store, Tenths(10001)).err(), Some(StoreError::EncodeError));
    assert_eq!(item.lock(&store), Ok(Tenths(1800)));
    assert_eq!(store.release(item).unwrap().notify.unwrap().payload.value, "1800");
    assert_eq!(store.snapshot::<Tenths>("oven"), Ok(Tenths(1800)));
    assert_eq!(store.emit::<Tenths>("oven").unwrap().payload.value, "1800");
}

#[test]
fn state_update_is_plain_data() {
    let update = StateUpdate { version: Some(3), name: "volume".to_owned(), value: "50".to_owned() };
    let copy = update.clone();
    assert_eq!(copy.version, Some(3));
    assert_eq!(copy.name, "volume");
    assert_eq!(copy.value, "50");
}

#[test]
fn handles_compare_by_key_and_value() {
    let mut store = plain();
    store.set::<i32>("a", 1).unwrap();
    store.set::<i32>("b", 1).unwrap();
    store.set::<i32>("c", 2).unwrap();
    let first = store.get::<i32>("a").unwrap();
    let second = store.get::<i32>("a").unwrap();
    let third = store.get::<i32>("b").unwrap();
    let fourth = store.get::<i32>("c").unwrap();
    assert_eq!(first.eq(&first, &store), Ok(true));
    assert_eq!(first.eq(&second, &store), Ok(true));
    assert_eq!(first.eq(&third, &store), Ok(false));
    assert_eq!(first.eq(&fourth, &store), Ok(false));
    first.write(&mut store, 5).unwrap();
    assert_eq!(first.eq(&second, &store), Ok(true));
    store.poison("b").unwrap();
    assert_eq!(first.eq(&third, &store), Err(StoreError::LockPoisoned));
    assert_eq!(third.eq(&first, &store), Err(StoreError::LockPoisoned));
}

#[test]
fn handles_on_two_keys_live_side_by_side() {
    let mut store = plain();
    store.set::<i32>("a", 1).unwrap();
    store.set::<i32>("b", 2).unwrap();
    let first = store.get::<i32>("a").unwrap();
    let second = store.get::<i32>("b").unwrap();
    first.write(&mut store, 10).unwrap();
    second.write(&mut store, 20).unwrap();
    let from_second = store.release(second).unwrap();
    let from_first = store.release(first).unwrap();
    assert_eq!(from_second.notify.unwrap().event, "b_update");
    assert_eq!(from_first.notify.unwrap().event, "a_update");
    assert_eq!(store.snapshot::<i32>("a"), Ok(10));
    assert_eq!(store.snapshot::<i32>("b"), Ok(20));
}

#[test]
fn clones_share_the_value() {
    let mut store = plain();
    store.set::<String>("theme", "dark".to_owned()).unwrap();
    let first = store.get::<String>("theme").unwrap();
    let second = first.clone();
    assert_eq!(second.key(), "theme");
    assert_eq!(second.lock(&store), Ok("dark".to_owned()));
    second.write(&mut store, "darker".to_owned()).unwrap();
    assert_eq!(first.lock(&store), Ok("darker".to_owned()));
    first.write(&mut store, "light".to_owned()).unwrap();
    assert_eq!(second.lock(&store), Ok("light".to_owned()));
    assert_eq!(first.eq(&second, &store), Ok(true));
    let from_first = store.release(first).unwrap();
    let from_second = store.release(second).unwrap();
    assert_eq!(from_first.notify.unwrap().payload.value, "\"light\"");
    assert_eq!(from_second.notify.unwrap().payload.value, "\"light\"");
}

#[test]
fn encoded_steps_work_on_given_texts() {
    let mut store = persisting();
    let fresh = store.set_encoded("volume", "i32", Some("50".to_owned())).unwrap();
    assert!(fresh.notify.is_none());
    assert_eq!(fresh.persist.unwrap().value, "50");
    assert_eq!(store.snapshot::<i32>("volume"), Ok(50));
    assert_eq!(
        store.set_encoded("volume", "bool", Some("true".to_owned())).err(),
        Some(StoreError::TypeMismatch)
    );
    assert_eq!(store.set_encoded("volume", "i32", None).err(), Some(StoreError::EncodeError));
    let loud = store.update_encoded("volume", "i32", Some("60".to_owned()), true).unwrap();
    assert_eq!(loud.notify.unwrap().payload.value, "60");
    assert_eq!(
        store.update_encoded("volume", "i32", None, true).err(),
        Some(StoreError::EncodeError)
    );
    assert_eq!(store.update_encoded("new", "i32", Some("1".to_owned()), true).unwrap().notify.is_none(), true);
    assert_eq!(store.write_encoded("volume", "i32", Some("61".to_owned())), Ok(()));
    assert_eq!(store.write_encoded("volume", "bool", Some("true".to_owned())), Err(StoreError::TypeMismatch));
    assert_eq!(store.write_encoded("absent", "i32", Some("1".to_owned())), Err(StoreError::KeyNotFound));
    assert_eq!(store.write_encoded("volume", "i32", None), Err(StoreError::EncodeError));
    assert_eq!(store.snapshot::<i32>("volume"), Ok(61));
}

#[test]
fn numbers_are_read_only_as_they_are_written() {
    for (text, value) in [("0", 0), ("7", 7), ("-7", -7), ("\t\n 12\r ", 12)] {
        assert_eq!(<i32 as ItemTrait>::decode(text), Some(value));
    }
    assert_eq!(<i32 as ItemTrait>::decode("2147483647"), Some(i32::MAX));
    assert_eq!(<i32 as ItemTrait>::decode("-2147483648"), Some(i32::MIN));
    for text in [
        "", " ", "-", "+5", "-0", "00", "007", "-07", "1.0", "1e2", "1E2", "0x10", "5 5", "- 5",
        "2147483648", "-2147483649", "99999999999999999999999", "\u{a0}5", "5\u{a0}", "null",
        "\"5\"", "[5]", "5,",
    ] {
        assert_eq!(<i32 as ItemTrait>::decode(text), None, "{:?}", text);
    }
    assert_eq!(i32::MAX.encode(), Some("2147483647".to_owned()));
    assert_eq!(i32::MIN.encode(), Some("-2147483648".to_owned()));
    assert_eq!(0i32.encode(), Some("0".to_owned()));
    assert_eq!(1000i32.encode(), Some("1000".to_owned()));
}

#[test]
fn truth_values_are_read_only_as_they_are_written() {
    for (text, value) in [("true", true), ("false", false), (" true", true), ("false\n", false), ("\r\t true \n", true)] {
        assert_eq!(<bool as ItemTrait>::decode(text), Some(value));
    }
    for text in ["", " ", "True", "TRUE", "tru", "truee", "true false", "truefalse", "t rue", "0", "1", "\"true\"", "\u{a0}true", "null"] {
        assert_eq!(<bool as ItemTrait>::decode(text), None, "{:?}", text);
    }
}
