//! A typed, keyed state store that reports every change as a notification
//! and, when asked to, as a write to a persistence backend.
//!
//! The store keeps each value as its text encoding beside a tag of its type,
//! and checks the tag on every typed access. It does no input or output of
//! its own: each operation returns what is left to do outside, the
//! notification to publish and the value to persist.

pub mod config;
pub mod error;
pub mod item;
pub mod json;
pub mod laws;
pub mod model;
pub mod notify;
pub mod syncer;

pub use config::StateSyncerConfig;
pub use error::StoreError;
pub use item::{Item, ItemTrait};
pub use model::LoadSource;
pub use notify::{Effects, Notification, PersistRequest, StateUpdate};
pub use syncer::{Loaded, StateSyncer};
