//! An event notification broker core: the event model and its name
//! taxonomy, the retry policy shared by the channel adapters, the dispatcher's
//! bookkeeping of undelivered events, and the framing of the durable event log.
pub mod adapter;
pub mod bus;
pub mod channels;
pub mod clock;
pub mod config;
pub mod error;
pub mod event;
pub mod ident;
pub mod name;
pub mod store;
pub mod system;
pub mod text;

pub use adapter::{AdapterKind, AdapterSupport, RetryAction, RetryPolicy};
pub use bus::{BusPhase, EventBus};
pub use channels::ChannelList;
pub use clock::Timestamp;
pub use config::{AdapterConfig, KafkaConfig, MqttConfig, NotificationConfig, WebhookConfig};
pub use error::Error;
pub use event::{Bucket, Event, EventBuilder, Identity, Log, Metadata, Object, Source};
pub use name::Name;
pub use store::EventStore;
pub use system::{NotificationSystem, SendOutcome};
