use vstd::prelude::*;
use vstd::string::StringExecFns;
use crate::error::StoreError;

verus! {

/// The wire shape of a change: the key that changed and the text encoding of
/// its new value, with an optional version counter.
#[derive(Clone, Debug)]
pub struct StateUpdate {
    pub version: Option<u128>,
    pub name: String,
    pub value: String,
}

/// A `StateUpdate` as plain values.
pub struct StateUpdateView {
    pub version: Option<u128>,
    pub name: Seq<char>,
    pub value: Seq<char>,
}

impl View for StateUpdate {
    type V = StateUpdateView;

    open spec fn view(&self) -> StateUpdateView {
        StateUpdateView { version: self.version, name: self.name@, value: self.value@ }
    }
}

/// A change to publish: the name of the event and what it carries.
#[derive(Clone, Debug)]
pub struct Notification {
    pub event: String,
    pub payload: StateUpdate,
}

/// A `Notification` as plain values.
pub struct NotificationView {
    pub event: Seq<char>,
    pub payload: StateUpdateView,
}

impl View for Notification {
    type V = NotificationView;

    open spec fn view(&self) -> NotificationView {
        NotificationView { event: self.event@, payload: self.payload@ }
    }
}

/// A value to write to the persistence backend under a key.
#[derive(Clone, Debug)]
pub struct PersistRequest {
    pub key: String,
    pub value: String,
}

/// A `PersistRequest` as plain values.
pub struct PersistView {
    pub key: Seq<char>,
    pub value: Seq<char>,
}

impl View for PersistRequest {
    type V = PersistView;

    open spec fn view(&self) -> PersistView {
        PersistView { key: self.key@, value: self.value@ }
    }
}

/// What is left to do outside the store after an operation: at most one
/// notification to publish and at most one value to persist.
#[derive(Clone, Debug)]
pub struct Effects {
    pub notify: Option<Notification>,
    pub persist: Option<PersistRequest>,
}

/// `Effects` as plain values.
pub struct EffectsView {
    pub notify: Option<NotificationView>,
    pub persist: Option<PersistView>,
}

impl View for Effects {
    type V = EffectsView;

    open spec fn view(&self) -> EffectsView {
        EffectsView {
            notify: match self.notify {
                Some(n) => Some(n@),
                None => None,
            },
            persist: match self.persist {
                Some(p) => Some(p@),
                None => None,
            },
        }
    }
}

/// The name of the event that announces a change of `key`: the key followed
/// by `_update`.
pub open spec fn event_name(key: Seq<char>) -> Seq<char> {
    key + "_update"@
}

/// The notification that announces that `key` now holds the value encoded
/// as `text`.
pub open spec fn notification_of(key: Seq<char>, text: Seq<char>) -> NotificationView {
    NotificationView {
        event: event_name(key),
        payload: StateUpdateView { version: None, name: key, value: text },
    }
}

/// The request to persist the value encoded as `text` under `key`.
pub open spec fn persist_of(key: Seq<char>, text: Seq<char>) -> PersistView {
    PersistView { key, value: text }
}

/// What an operation leaves to do: a notification where `notify` is set, a
/// write to the backend where `persist` is set.
pub open spec fn effects_of(
    key: Seq<char>,
    text: Seq<char>,
    notify: bool,
    persist: bool,
) -> EffectsView {
    EffectsView {
        notify: if notify {
            Some(notification_of(key, text))
        } else {
            None
        },
        persist: if persist {
            Some(persist_of(key, text))
        } else {
            None
        },
    }
}

impl Notification {
    /// The notification that `key` now holds the value encoded as `text`.
    pub fn new(key: &str, text: &str) -> (n: Notification)
        ensures
            n@ == notification_of(key@, text@),
    {
        let mut event = String::from_str(key);
        event.append("_update");
        Notification {
            event,
            payload: StateUpdate {
                version: None,
                name: String::from_str(key),
                value: String::from_str(text),
            },
        }
    }
}

impl PersistRequest {
    /// The request to persist the value encoded as `text` under `key`.
    pub fn new(key: &str, text: &str) -> (p: PersistRequest)
        ensures
            p@ == persist_of(key@, text@),
    {
        PersistRequest { key: String::from_str(key), value: String::from_str(text) }
    }
}

impl Effects {
    /// The effects of an operation that left `key` with the value encoded as
    /// `text`.
    pub fn new(key: &str, text: &str, notify: bool, persist: bool) -> (fx: Effects)
        ensures
            fx@ == effects_of(key@, text@, notify, persist),
    {
        Effects {
            notify: if notify {
                Some(Notification::new(key, text))
            } else {
                None
            },
            persist: if persist {
                Some(PersistRequest::new(key, text))
            } else {
                None
            },
        }
    }

    /// The result to report once the effects were carried out, given whether
    /// the sink took the notification: a refused notification is a transport
    /// failure, and nothing else is.
    pub fn settle(&self, published: bool) -> (r: Result<(), StoreError>)
        ensures
            r == if self.notify is Some && !published {
                Err::<(), StoreError>(StoreError::TransportFailure)
            } else {
                Ok::<(), StoreError>(())
            },
    {
        if self.notify.is_some() && !published {
            Err(StoreError::TransportFailure)
        } else {
            Ok(())
        }
    }
}

} // verus!
