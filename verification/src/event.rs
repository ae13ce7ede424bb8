//! The event model: one notification about an object in a bucket, its
//! builder, and the batch record in which undelivered events are kept.
use crate::channels::ChannelList;
use crate::clock::{utc_now, utc_now_rfc3339, Timestamp};
use crate::error::Error;
use crate::ident::{fresh_id, hyphenated, id_text, is_random_id};
pub use crate::name::Name;
use std::collections::HashMap;
use vstd::prelude::*;

verus! {

/// Who caused an event or owns a bucket.
#[derive(Clone, Debug)]
pub struct Identity {
    pub principal_id: String,
}

/// The bucket an event is about.
#[derive(Clone, Debug)]
pub struct Bucket {
    pub name: String,
    pub owner_identity: Identity,
    pub arn: String,
}

/// The object an event is about.
#[derive(Clone, Debug)]
pub struct Object {
    pub key: String,
    pub size: Option<i64>,
    pub etag: Option<String>,
    pub content_type: Option<String>,
    pub user_metadata: Option<HashMap<String, String>>,
    pub version_id: Option<String>,
    pub sequencer: String,
}

/// The storage metadata of an event.
#[derive(Clone, Debug)]
pub struct Metadata {
    pub schema_version: String,
    pub configuration_id: String,
    pub bucket: Bucket,
    pub object: Object,
}

/// Where the request that caused an event came from.
#[derive(Clone, Debug)]
pub struct Source {
    pub host: String,
    pub port: String,
    pub user_agent: String,
}

/// One delivery unit.
#[derive(Clone, Debug)]
pub struct Event {
    pub event_version: String,
    pub event_source: String,
    pub aws_region: String,
    pub event_time: String,
    pub event_name: Name,
    pub user_identity: Identity,
    pub request_parameters: HashMap<String, String>,
    pub response_elements: HashMap<String, String>,
    pub s3: Metadata,
    pub source: Source,
    pub id: u128,
    pub timestamp: Timestamp,
    pub channels: ChannelList,
}

/// A batch of events that were not delivered.
#[derive(Clone, Debug)]
pub struct Log {
    pub event_name: Name,
    pub key: String,
    pub records: Vec<Event>,
}

/// Collects the fields of an event. A field that was never set is `None`.
#[derive(Clone)]
pub struct EventBuilder {
    pub event_version: Option<String>,
    pub event_source: Option<String>,
    pub aws_region: Option<String>,
    pub event_time: Option<String>,
    pub event_name: Option<Name>,
    pub user_identity: Option<Identity>,
    pub request_parameters: Option<HashMap<String, String>>,
    pub response_elements: Option<HashMap<String, String>>,
    pub s3: Option<Metadata>,
    pub source: Option<Source>,
    pub channels: Option<ChannelList>,
}

impl Default for EventBuilder {
    /// A builder in which no field is set.
    fn default() -> (r: EventBuilder)
        ensures
            r.event_version is None,
            r.event_source is None,
            r.aws_region is None,
            r.event_time is None,
            r.event_name is None,
            r.user_identity is None,
            r.request_parameters is None,
            r.response_elements is None,
            r.s3 is None,
            r.source is None,
            r.channels is None,
    {
        EventBuilder {
            event_version: None,
            event_source: None,
            aws_region: None,
            event_time: None,
            event_name: None,
            user_identity: None,
            request_parameters: None,
            response_elements: None,
            s3: None,
            source: None,
            channels: None,
        }
    }
}

impl EventBuilder {
    /// The builder's state right after `new`, but for the event time, which
    /// is read from the clock.
    pub open spec fn has_defaults(self) -> bool {
        &&& self.event_version is Some && self.event_version.unwrap()@ == "2.0"@
        &&& self.event_source is Some && self.event_source.unwrap()@ == "aws:s3"@
        &&& self.aws_region is Some && self.aws_region.unwrap()@ == "us-east-1"@
        &&& self.event_time is Some
        &&& self.event_name is None
        &&& self.user_identity is Some && self.user_identity.unwrap().principal_id@
            == "anonymous"@
        &&& self.request_parameters is Some && self.request_parameters.unwrap()@
            == Map::<String, String>::empty()
        &&& self.response_elements is Some && self.response_elements.unwrap()@
            == Map::<String, String>::empty()
        &&& self.s3 is None
        &&& self.source is None
        &&& self.channels is Some && self.channels.unwrap()@ == Seq::<Seq<char>>::empty()
    }

    /// The first required field that is not set, in the order in which `build`
    /// looks for them; `None` when all are set.
    pub open spec fn missing_field(self) -> Option<Seq<char>> {
        if self.event_version is None {
            Some("event_version"@)
        } else if self.event_source is None {
            Some("event_source"@)
        } else if self.aws_region is None {
            Some("aws_region"@)
        } else if self.event_time is None {
            Some("event_time"@)
        } else if self.event_name is None {
            Some("event_name"@)
        } else if self.user_identity is None {
            Some("user_identity"@)
        } else if self.s3 is None {
            Some("s3"@)
        } else if self.source is None {
            Some("source"@)
        } else {
            None
        }
    }

    /// True when `e` holds what the builder collected: each field that was
    /// set, and the empty value for each optional field that was not.
    pub open spec fn carried_by(self, e: Event) -> bool {
        &&& self.event_version == Some(e.event_version)
        &&& self.event_source == Some(e.event_source)
        &&& self.aws_region == Some(e.aws_region)
        &&& self.event_time == Some(e.event_time)
        &&& self.event_name == Some(e.event_name)
        &&& self.user_identity == Some(e.user_identity)
        &&& match self.request_parameters {
            Some(m) => e.request_parameters == m,
            None => e.request_parameters@ == Map::<String, String>::empty(),
        }
        &&& match self.response_elements {
            Some(m) => e.response_elements == m,
            None => e.response_elements@ == Map::<String, String>::empty(),
        }
        &&& self.s3 == Some(e.s3)
        &&& self.source == Some(e.source)
        &&& match self.channels {
            Some(c) => e.channels == c,
            None => e.channels@ == Seq::<Seq<char>>::empty(),
        }
    }

    /// A builder with the default fields and the given event time.
    pub fn with_event_time(event_time: String) -> (r: EventBuilder)
        ensures
            r.has_defaults(),
            r.event_time == Some(event_time),
    {
        EventBuilder {
            event_version: Some("2.0".to_owned()),
            event_source: Some("aws:s3".to_owned()),
            aws_region: Some("us-east-1".to_owned()),
            event_time: Some(event_time),
            event_name: None,
            user_identity: Some(Identity { principal_id: "anonymous".to_owned() }),
            request_parameters: Some(HashMap::new()),
            response_elements: Some(HashMap::new()),
            s3: None,
            source: None,
            channels: Some(ChannelList::empty()),
        }
    }

    /// A builder with the default fields; the event time is the current
    /// instant.
    pub fn new() -> (r: EventBuilder)
        ensures
            r.has_defaults(),
    {
        EventBuilder::with_event_time(utc_now_rfc3339())
    }

    /// Sets the event version, unless the given text is empty.
    pub fn event_version(self, event_version: &str) -> (r: EventBuilder)
        ensures
            event_version@.len() == 0 ==> r == self,
            event_version@.len() != 0 ==> r.event_version is Some && r.event_version.unwrap()@
                == event_version@ && r == (EventBuilder { event_version: r.event_version, ..self }),
    {
        let mut r = self;
        if !event_version.is_empty() {
            r.event_version = Some(event_version.to_owned());
        }
        r
    }

    /// Sets the event source, unless the given text is empty.
    pub fn event_source(self, event_source: &str) -> (r: EventBuilder)
        ensures
            event_source@.len() == 0 ==> r == self,
            event_source@.len() != 0 ==> r.event_source is Some && r.event_source.unwrap()@
                == event_source@ && r == (EventBuilder { event_source: r.event_source, ..self }),
    {
        let mut r = self;
        if !event_source.is_empty() {
            r.event_source = Some(event_source.to_owned());
        }
        r
    }

    /// Sets the region.
    pub fn aws_region(self, aws_region: &str) -> (r: EventBuilder)
        ensures
            r.aws_region is Some && r.aws_region.unwrap()@ == aws_region@,
            r == (EventBuilder { aws_region: r.aws_region, ..self }),
    {
        let mut r = self;
        r.aws_region = Some(aws_region.to_owned());
        r
    }

    /// Sets the time that the producer asserts for the event.
    pub fn event_time(self, event_time: &str) -> (r: EventBuilder)
        ensures
            r.event_time is Some && r.event_time.unwrap()@ == event_time@,
            r == (EventBuilder { event_time: r.event_time, ..self }),
    {
        let mut r = self;
        r.event_time = Some(event_time.to_owned());
        r
    }

    /// Sets the event name.
    pub fn event_name(self, event_name: Name) -> (r: EventBuilder)
        ensures
            r == (EventBuilder { event_name: Some(event_name), ..self }),
    {
        let mut r = self;
        r.event_name = Some(event_name);
        r
    }

    /// Sets the identity of the user.
    pub fn user_identity(self, user_identity: Identity) -> (r: EventBuilder)
        ensures
            r == (EventBuilder { user_identity: Some(user_identity), ..self }),
    {
        let mut r = self;
        r.user_identity = Some(user_identity);
        r
    }

    /// Sets the request parameters.
    pub fn request_parameters(self, request_parameters: HashMap<String, String>) -> (r:
        EventBuilder)
        ensures
            r == (EventBuilder { request_parameters: Some(request_parameters), ..self }),
    {
        let mut r = self;
        r.request_parameters = Some(request_parameters);
        r
    }

    /// Sets the response elements.
    pub fn response_elements(self, response_elements: HashMap<String, String>) -> (r:
        EventBuilder)
        ensures
            r == (EventBuilder { response_elements: Some(response_elements), ..self }),
    {
        let mut r = self;
        r.response_elements = Some(response_elements);
        r
    }

    /// Sets the storage metadata.
    pub fn s3(self, s3: Metadata) -> (r: EventBuilder)
        ensures
            r == (EventBuilder { s3: Some(s3), ..self }),
    {
        let mut r = self;
        r.s3 = Some(s3);
        r
    }

    /// Sets the origin of the request.
    pub fn source(self, source: Source) -> (r: EventBuilder)
        ensures
            r == (EventBuilder { source: Some(source), ..self }),
    {
        let mut r = self;
        r.source = Some(source);
        r
    }

    /// Sets the channels that the event targets.
    pub fn channels(self, channels: Vec<String>) -> (r: EventBuilder)
        ensures
            r.channels is Some && r.channels.unwrap()@ == crate::channels::texts(channels@),
            r == (EventBuilder { channels: r.channels, ..self }),
    {
        let mut r = self;
        r.channels = Some(ChannelList::from_names(channels));
        r
    }

    /// A builder with the defaults for an event about a created object.
    pub fn for_object_creation(s3: Metadata, source: Source) -> (r: EventBuilder)
        ensures
            (EventBuilder { event_name: None, s3: None, source: None, ..r }).has_defaults(),
            r.event_name == Some(Name::ObjectCreatedPut),
            r.s3 == Some(s3),
            r.source == Some(source),
    {
        EventBuilder::new().event_name(Name::ObjectCreatedPut).s3(s3).source(source)
    }

    /// A builder with the defaults for an event about a removed object.
    pub fn for_object_removal(s3: Metadata, source: Source) -> (r: EventBuilder)
        ensures
            (EventBuilder { event_name: None, s3: None, source: None, ..r }).has_defaults(),
            r.event_name == Some(Name::ObjectRemovedDelete),
            r.s3 == Some(s3),
            r.source == Some(source),
    {
        EventBuilder::new().event_name(Name::ObjectRemovedDelete).s3(s3).source(source)
    }

    /// Builds the event with the given identifier and creation instant, or
    /// names the first required field that is missing.
    pub fn build_with(self, id: u128, timestamp: Timestamp) -> (r: Result<Event, Error>)
        ensures
            match r {
                Ok(e) => self.missing_field() is None && self.carried_by(e) && e.id == id
                    && e.timestamp == timestamp,
                Err(err) => self.missing_field() is Some && err.is_missing(
                    self.missing_field().unwrap(),
                ),
            },
    {
        let event_version = match self.event_version {
            Some(v) => v,
            None => { return Err(Error::MissingField("event_version")); },
        };
        let event_source = match self.event_source {
            Some(v) => v,
            None => { return Err(Error::MissingField("event_source")); },
        };
        let aws_region = match self.aws_region {
            Some(v) => v,
            None => { return Err(Error::MissingField("aws_region")); },
        };
        let event_time = match self.event_time {
            Some(v) => v,
            None => { return Err(Error::MissingField("event_time")); },
        };
        let event_name = match self.event_name {
            Some(v) => v,
            None => { return Err(Error::MissingField("event_name")); },
        };
        let user_identity = match self.user_identity {
            Some(v) => v,
            None => { return Err(Error::MissingField("user_identity")); },
        };
        let request_parameters = match self.request_parameters {
            Some(v) => v,
            None => HashMap::new(),
        };
        let response_elements = match self.response_elements {
            Some(v) => v,
            None => HashMap::new(),
        };
        let s3 = match self.s3 {
            Some(v) => v,
            None => { return Err(Error::MissingField("s3")); },
        };
        let source = match self.source {
            Some(v) => v,
            None => { return Err(Error::MissingField("source")); },
        };
        let channels = match self.channels {
            Some(v) => v,
            None => ChannelList::empty(),
        };
        Ok(
            Event {
                event_version,
                event_source,
                aws_region,
                event_time,
                event_name,
                user_identity,
                request_parameters,
                response_elements,
                s3,
                source,
                id,
                timestamp,
                channels,
            },
        )
    }

    /// Builds the event with a fresh random identifier and the current
    /// instant as its timestamp, or names the first required field that is
    /// missing.
    pub fn build(self) -> (r: Result<Event, Error>)
        ensures
            match r {
                Ok(e) => self.missing_field() is None && self.carried_by(e) && is_random_id(e.id)
                    && e.timestamp.wf(),
                Err(err) => self.missing_field() is Some && err.is_missing(
                    self.missing_field().unwrap(),
                ),
            },
    {
        let id = fresh_id();
        let timestamp = utc_now();
        self.build_with(id, timestamp)
    }
}

/// Build completeness. A builder that started from the defaults lacks
/// nothing exactly when the event name, the storage metadata and the origin
/// were set; whatever is reported as missing is one of the required fields.
pub proof fn defaults_lack_three_fields(b: EventBuilder)
    requires
        (EventBuilder { event_name: None, s3: None, source: None, ..b }).has_defaults(),
    ensures
        b.missing_field() is None <==> b.event_name is Some && b.s3 is Some && b.source is Some,
        b.missing_field() is Some ==> b.missing_field().unwrap() == "event_name"@
            || b.missing_field().unwrap() == "s3"@ || b.missing_field().unwrap() == "source"@,
{
}

impl Event {
    /// A builder with the default fields.
    pub fn builder() -> (r: EventBuilder)
        ensures
            r.has_defaults(),
    {
        EventBuilder::new()
    }

    /// An event with the given name, metadata, origin and channels, and the
    /// defaults for everything else.
    pub fn create(event_name: Name, s3: Metadata, source: Source, channels: Vec<String>) -> (r:
        Event)
        ensures
            r.event_name == event_name,
            r.s3 == s3,
            r.source == source,
            r.channels@ == crate::channels::texts(channels@),
            r.event_version@ == "2.0"@,
            r.event_source@ == "aws:s3"@,
            r.aws_region@ == "us-east-1"@,
            r.user_identity.principal_id@ == "anonymous"@,
            r.request_parameters@ == Map::<String, String>::empty(),
            r.response_elements@ == Map::<String, String>::empty(),
            is_random_id(r.id),
            r.timestamp.wf(),
    {
        let builder = Event::builder().event_name(event_name).s3(s3).source(source).channels(
            channels,
        );
        match builder.build() {
            Ok(e) => e,
            Err(_) => vstd::pervasive::unreached(),
        }
    }

    /// A builder with the defaults for an event about a created object.
    pub fn for_object_creation(s3: Metadata, source: Source) -> (r: EventBuilder)
        ensures
            (EventBuilder { event_name: None, s3: None, source: None, ..r }).has_defaults(),
            r.event_name == Some(Name::ObjectCreatedPut),
            r.s3 == Some(s3),
            r.source == Some(source),
    {
        EventBuilder::for_object_creation(s3, source)
    }

    /// A builder with the defaults for an event about a removed object.
    pub fn for_object_removal(s3: Metadata, source: Source) -> (r: EventBuilder)
        ensures
            (EventBuilder { event_name: None, s3: None, source: None, ..r }).has_defaults(),
            r.event_name == Some(Name::ObjectRemovedDelete),
            r.s3 == Some(s3),
            r.source == Some(source),
    {
        EventBuilder::for_object_removal(s3, source)
    }

    /// The identifier of the event as text, as it is used for the key of a
    /// record.
    pub fn id_text(&self) -> (r: String)
        ensures
            r@ == id_text(self.id),
    {
        hyphenated(self.id)
    }

    /// True exactly when the mask of the event's name and the mask of
    /// `event_type` share a bit.
    pub fn is_type(&self, event_type: Name) -> (r: bool)
        ensures
            r == self.event_name.spec_matches(event_type),
    {
        let mask = event_type.mask();
        (self.event_name.mask() & mask) != 0
    }

    /// True exactly when `channel` is among the channels of the event.
    pub fn is_for_channel(&self, channel: &str) -> (r: bool)
        ensures
            r == self.channels@.contains(channel@),
    {
        self.channels.contains(channel)
    }
}

} // verus!
