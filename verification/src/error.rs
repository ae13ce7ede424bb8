//! The errors of the notification system.
use crate::event::Event;
use vstd::prelude::*;

verus! {

/// Everything that can go wrong in the notification system. Failures that
/// come from a transport or from the operating system carry their message.
#[derive(Debug)]
pub enum Error {
    /// A task could not be joined.
    JoinError(String),
    /// Reading or writing the event log failed.
    Io(String),
    /// An event could not be written as, or read from, JSON.
    Serde(String),
    /// The webhook transport failed.
    Http(String),
    /// The Kafka transport failed.
    Kafka(String),
    /// The MQTT transport failed.
    Mqtt(String),
    /// The inbound queue no longer has a consumer; the event comes back.
    ChannelSend(Box<Event>),
    /// An adapter kind that this build does not include.
    FeatureDisabled(&'static str),
    /// The event bus was started a second time.
    EventBusStarted,
    /// A required field was not set when an event was built.
    MissingField(&'static str),
    /// A field held a value that is not allowed.
    ValidationError(&'static str),
    /// Any other failure.
    Custom(String),
    /// The configuration is not usable.
    ConfigError(String),
    /// The configuration could not be loaded.
    Figment(String),
}

impl Error {
    /// A `Custom` error with the given message.
    pub fn custom(msg: &str) -> (r: Error)
        ensures
            r matches Error::Custom(m) && m@ == msg@,
    {
        Error::Custom(msg.to_owned())
    }

    /// True exactly for `MissingField` errors that name `field`.
    pub open spec fn is_missing(self, field: Seq<char>) -> bool {
        self matches Error::MissingField(f) && f@ == field
    }
}

} // verus!
