use event_notification::error::Error;
use event_notification::event::{
    Bucket, Event, EventBuilder, Identity, Metadata, Object, Source,
};
use event_notification::ident::has_random_tag;
use event_notification::name::Name;
use event_notification::{ChannelList, Timestamp};
use std::collections::HashMap;
use std::time::{SystemTime, UNIX_EPOCH};

fn sample_metadata() -> Metadata {
    Metadata {
        schema_version: "1.0".to_string(),
        configuration_id: "test-config".to_string(),
        bucket: Bucket {
            name: "my-bucket".to_string(),
            owner_identity: Identity { principal_id: "owner123".to_string() },
            arn: "arn:aws:s3:::my-bucket".to_string(),
        },
        object: Object {
            key: "test.txt".to_string(),
            size: Some(1024),
            etag: Some("abc123".to_string()),
            content_type: Some("text/plain".to_string()),
            user_metadata: None,
            version_id: None,
            sequencer: "1234567890".to_string(),
        },
    }
}

fn sample_source() -> Source {
    Source {
        host: "localhost".to_string(),
        port: "80".to_string(),
        user_agent: "curl/7.68.0".to_string(),
    }
}

fn missing(result: Result<Event, Error>) -> &'static str {
    match result {
        Err(Error::MissingField(field)) => field,
        Err(other) => panic!("unexpected error {:?}", other),
        Ok(_) => panic!("the build should fail"),
    }
}

#[test]
fn build_without_required_fields_names_the_first_missing() {
    assert_eq!(missing(Event::builder().build()), "event_name");
    assert_eq!(
        missing(Event::builder().event_name(Name::ObjectCreatedPut).build()),
        "s3"
    );
    assert_eq!(
        missing(
            Event::builder()
                .event_name(Name::ObjectCreatedPut)
                .s3(sample_metadata())
                .build()
        ),
        "source"
    );
    assert_eq!(
        missing(Event::builder().source(sample_source()).s3(sample_metadata()).build()),
        "event_name"
    );
}

#[test]
fn build_of_an_unset_builder_names_each_field_in_order() {
    let b = EventBuilder::default();
    assert_eq!(missing(b.clone().build()), "event_version");
    let b = b.event_version("2.0");
    assert_eq!(missing(b.clone().build()), "event_source");
    let b = b.event_source("aws:s3");
    assert_eq!(missing(b.clone().build()), "aws_region");
    let b = b.aws_region("us-east-1");
    assert_eq!(missing(b.clone().build()), "event_time");
    let b = b.event_time("2023-10-01T12:00:00.000Z");
    assert_eq!(missing(b.clone().build()), "event_name");
    let b = b.event_name(Name::ObjectCreatedPut);
    assert_eq!(missing(b.clone().build()), "user_identity");
    let b = b.user_identity(Identity { principal_id: "user123".to_string() });
    assert_eq!(missing(b.clone().build()), "s3");
    let b = b.s3(sample_metadata());
    assert_eq!(missing(b.clone().build()), "source");
    let b = b.source(sample_source());
    let event = b.build().expect("all required fields are set");
    assert!(event.request_parameters.is_empty());
    assert!(event.response_elements.is_empty());
    assert_eq!(event.channels.len(), 0);
}

#[test]
fn build_with_all_required_fields_succeeds() {
    let before = SystemTime::now().duration_since(UNIX_EPOCH).unwrap().as_secs() as i64;
    let event = Event::builder()
        .event_name(Name::ObjectCreatedPut)
        .s3(sample_metadata())
        .source(sample_source())
        .build()
        .expect("all required fields are set");
    let after = SystemTime::now().duration_since(UNIX_EPOCH).unwrap().as_secs() as i64;
    assert_eq!(event.event_version, "2.0");
    assert_eq!(event.event_source, "aws:s3");
    assert_eq!(event.aws_region, "us-east-1");
    assert_eq!(event.user_identity.principal_id, "anonymous");
    assert_eq!(event.event_name, Name::ObjectCreatedPut);
    assert!(event.request_parameters.is_empty());
    assert!(event.response_elements.is_empty());
    assert_eq!(event.channels.len(), 0);
    assert_eq!(event.s3.bucket.name, "my-bucket");
    assert_eq!(event.s3.object.size, Some(1024));
    assert_eq!(event.source.user_agent, "curl/7.68.0");
    assert!(event.timestamp.secs >= before - 3 && event.timestamp.secs <= after + 3);
    assert!(event.timestamp.nanos < 2_000_000_000);
    assert!(has_random_tag(event.id));
    assert!(!event.event_time.is_empty());
    assert!(event.event_time.contains('T'));
}

#[test]
fn each_build_gets_a_fresh_id() {
    let a = Event::create(Name::ObjectCreatedPut, sample_metadata(), sample_source(), vec![]);
    let b = Event::create(Name::ObjectCreatedPut, sample_metadata(), sample_source(), vec![]);
    assert_ne!(a.id, b.id);
    assert!(has_random_tag(a.id));
    assert!(has_random_tag(b.id));
    assert_eq!((a.id >> 76) & 0xF, 4);
    assert_eq!((a.id >> 62) & 0x3, 2);
    assert!(!has_random_tag(0));
    assert!(!has_random_tag(u128::MAX));
}

#[test]
fn build_with_uses_the_given_id_and_timestamp() {
    let stamp = Timestamp { secs: 1_696_161_600, nanos: 5 };
    let event = Event::builder()
        .event_name(Name::ObjectRemovedDelete)
        .event_time("2023-10-01T12:00:00.000Z")
        .aws_region("eu-west-1")
        .s3(sample_metadata())
        .source(sample_source())
        .channels(vec!["webhook".to_string(), "kafka".to_string()])
        .build_with(42, stamp)
        .unwrap();
    assert_eq!(event.id, 42);
    assert_eq!(event.timestamp, stamp);
    assert_eq!(event.event_time, "2023-10-01T12:00:00.000Z");
    assert_eq!(event.aws_region, "eu-west-1");
    assert_eq!(event.event_name, Name::ObjectRemovedDelete);
    assert_eq!(
        event.channels.as_slice(),
        &["webhook".to_string(), "kafka".to_string()][..]
    );
    assert_eq!(
        missing(EventBuilder::default().build_with(42, stamp)),
        "event_version"
    );
}

#[test]
fn empty_version_and_source_are_ignored() {
    let event = Event::builder()
        .event_version("")
        .event_source("")
        .event_name(Name::ObjectCreatedPut)
        .s3(sample_metadata())
        .source(sample_source())
        .build()
        .unwrap();
    assert_eq!(event.event_version, "2.0");
    assert_eq!(event.event_source, "aws:s3");
    let b = EventBuilder::default().event_version("").event_source("");
    assert!(b.event_version.is_none());
    assert!(b.event_source.is_none());
}

#[test]
fn setters_overwrite() {
    let mut params = HashMap::new();
    params.insert("sourceIPAddress".to_string(), "10.0.0.1".to_string());
    let mut elements = HashMap::new();
    elements.insert("x-amz-request-id".to_string(), "r1".to_string());
    let event = Event::builder()
        .event_version("2.1")
        .event_version("2.2")
        .event_source("minio:s3")
        .aws_region("")
        .event_time("")
        .user_identity(Identity { principal_id: "user123".to_string() })
        .request_parameters(params.clone())
        .response_elements(elements.clone())
        .event_name(Name::ObjectCreatedPut)
        .event_name(Name::ObjectCreatedCopy)
        .s3(sample_metadata())
        .source(sample_source())
        .channels(vec!["mqtt".to_string()])
        .channels(vec!["webhook".to_string()])
        .build()
        .unwrap();
    assert_eq!(event.event_version, "2.2");
    assert_eq!(event.event_source, "minio:s3");
    assert_eq!(event.aws_region, "");
    assert_eq!(event.event_time, "");
    assert_eq!(event.user_identity.principal_id, "user123");
    assert_eq!(event.request_parameters, params);
    assert_eq!(event.response_elements, elements);
    assert_eq!(event.event_name, Name::ObjectCreatedCopy);
    assert_eq!(event.channels.as_slice(), &["webhook".to_string()][..]);
}

#[test]
fn convenience_builders_set_the_name() {
    let created = Event::for_object_creation(sample_metadata(), sample_source())
        .build()
        .unwrap();
    assert_eq!(created.event_name, Name::ObjectCreatedPut);
    assert_eq!(created.event_version, "2.0");
    let removed = Event::for_object_removal(sample_metadata(), sample_source())
        .build()
        .unwrap();
    assert_eq!(removed.event_name, Name::ObjectRemovedDelete);
    let created = EventBuilder::for_object_creation(sample_metadata(), sample_source())
        .build()
        .unwrap();
    assert_eq!(created.event_name, Name::ObjectCreatedPut);
    let removed = EventBuilder::for_object_removal(sample_metadata(), sample_source())
        .build()
        .unwrap();
    assert_eq!(removed.event_name, Name::ObjectRemovedDelete);
    assert_eq!(removed.s3.object.key, "test.txt");
    assert_eq!(removed.source.host, "localhost");
}

#[test]
fn group_membership() {
    let event = Event::create(
        Name::ObjectCreatedPut,
        sample_metadata(),
        sample_source(),
        vec!["webhook".to_string()],
    );
    assert!(event.is_type(Name::ObjectCreatedAll));
    assert!(!event.is_type(Name::ObjectRemovedAll));
    assert!(event.is_type(Name::Everything));
    assert!(event.is_type(Name::ObjectCreatedPut));
    assert!(!event.is_type(Name::ObjectCreatedCopy));
}

#[test]
fn is_for_channel_looks_for_the_name() {
    let event = Event::create(
        Name::ObjectCreatedPut,
        sample_metadata(),
        sample_source(),
        vec!["webhook".to_string(), "kafka".to_string(), "webhook".to_string()],
    );
    assert!(event.is_for_channel("webhook"));
    assert!(event.is_for_channel("kafka"));
    assert!(!event.is_for_channel("mqtt"));
    assert!(!event.is_for_channel("Webhook"));
    assert!(!event.is_for_channel(""));
    let none = Event::create(Name::ObjectCreatedPut, sample_metadata(), sample_source(), vec![]);
    assert!(!none.is_for_channel("webhook"));
}

#[test]
fn channel_list_keeps_order_and_duplicates() {
    let names = vec!["b".to_string(), "a".to_string(), "b".to_string()];
    let list = ChannelList::from_names(names.clone());
    assert_eq!(list.len(), 3);
    assert_eq!(list.as_slice(), &names[..]);
    assert!(list.contains("a"));
    assert!(list.contains("b"));
    assert!(!list.contains("c"));
    let copy = list.clone();
    assert_eq!(copy.as_slice(), &names[..]);
    let empty = ChannelList::empty();
    assert_eq!(empty.len(), 0);
    assert!(!empty.contains("a"));
}

#[test]
fn custom_error_carries_the_message() {
    match Error::custom("boom") {
        Error::Custom(message) => assert_eq!(message, "boom"),
        other => panic!("unexpected error {:?}", other),
    }
}

#[test]
fn id_text_is_hyphenated_lower_hex() {
    let mut event =
        Event::create(Name::ObjectCreatedPut, sample_metadata(), sample_source(), vec![]);
    event.id = 42;
    assert_eq!(event.id_text(), "00000000-0000-0000-0000-00000000002a");
    event.id = 0xa1a2a3a4b1b2c1c2d1d2d3d4d5d6d7d8;
    assert_eq!(event.id_text(), "a1a2a3a4-b1b2-c1c2-d1d2-d3d4d5d6d7d8");
    event.id = u128::MAX;
    assert_eq!(event.id_text(), "ffffffff-ffff-ffff-ffff-ffffffffffff");
    event.id = 0x0123456789abcdef0123456789abcdef;
    assert_eq!(event.id_text(), "01234567-89ab-cdef-0123-456789abcdef");
}
