//! Change notifications for cooperating policy engines over Redis pub/sub.
//!
//! Every instance that mutates the shared policy publishes a [`Message`] on a
//! channel; every other instance receives it and reconciles its local state.
//! This crate holds the protocol and the decisions of the watcher: the wire
//! form of a message, the configuration, the choice of the Redis node, the
//! retry rules of the two background workers and the life cycle of the
//! watcher itself. Connections, timers and tasks belong to the program that
//! drives these state machines.

pub mod error;
pub mod json;
pub mod message;
pub mod options;
pub mod publish;
pub mod queue;
pub mod subscribe;
pub mod transport;
pub mod watcher;
pub mod wire;

pub use error::WatcherError;
pub use json::JsonValue;
pub use message::{event_data_to_message, EventData, Message, MessageView, UpdateType};
pub use options::WatcherOptions;
pub use publish::{PublishAction, PublishPhase, PublishWorker};
pub use subscribe::{
    Inbound, StopReason, SubscribeAction, SubscribeEvent, SubscribePhase, SubscriptionWorker,
};
pub use transport::Transport;
pub use watcher::{RedisWatcher, WatcherState};
