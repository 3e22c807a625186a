//! Tests for the event-type and producer mappings and entry-header helpers.

use zeebe_log_reader::{EventType, LogEntry, Metadata, Producer, SbeHeader};

fn entry_with_source(source_event_position: u64) -> LogEntry {
    LogEntry {
        version: 1,
        position: 5,
        raft_term: 2,
        producer: 10,
        source_event_stream_partition: 1,
        source_event_position,
        key: 6,
        metadata_length: 39,
    }
}

#[test]
fn sentinel_source_position_is_absent() {
    assert_eq!(entry_with_source(u64::MAX).source_event_position(), None);
    assert_eq!(entry_with_source(0).source_event_position(), Some(0));
    assert_eq!(entry_with_source(42).source_event_position(), Some(42));
    assert_eq!(entry_with_source(u64::MAX - 1).source_event_position(), Some(u64::MAX - 1));
}

#[test]
fn expected_sub_header_signature() {
    let expected = Metadata::sbe_header();
    assert_eq!(
        expected,
        SbeHeader { block_length: 31, template_id: 200, schema_id: 0, version: 1 }
    );
}

#[test]
fn event_types_map_from_their_discriminants() {
    assert_eq!(EventType::from(0u8), EventType::Task);
    assert_eq!(EventType::from(1u8), EventType::Raft);
    assert_eq!(EventType::from(2u8), EventType::Subscription);
    assert_eq!(EventType::from(3u8), EventType::Subscriber);
    assert_eq!(EventType::from(4u8), EventType::Deployment);
    assert_eq!(EventType::from(5u8), EventType::WorkflowInstance);
    assert_eq!(EventType::from(6u8), EventType::Incident);
    assert_eq!(EventType::from(7u8), EventType::Workflow);
    assert_eq!(EventType::from(8u8), EventType::Noop);
    assert_eq!(EventType::from(9u8), EventType::Topic);
    assert_eq!(EventType::from(10u8), EventType::Partition);
    assert_eq!(EventType::from(11u8), EventType::Unknown(11));
    assert_eq!(EventType::from(255u8), EventType::Unknown(255));
}

#[test]
fn producers_map_from_their_identifiers() {
    assert_eq!(Producer::from(10u32), Producer::TaskQueue);
    assert_eq!(Producer::from(20u32), Producer::TaskLock);
    assert_eq!(Producer::from(30u32), Producer::TaskExpireLock);
    assert_eq!(Producer::from(40u32), Producer::TopicSubscriptionPush);
    assert_eq!(Producer::from(50u32), Producer::TopicSubscriptionManagement);
    assert_eq!(Producer::from(60u32), Producer::Deployment);
    assert_eq!(Producer::from(70u32), Producer::WorkflowInstance);
    assert_eq!(Producer::from(80u32), Producer::Incident);
    assert_eq!(Producer::from(1000u32), Producer::SystemCreateTopic);
    assert_eq!(Producer::from(1001u32), Producer::SystemCollectPartition);
    assert_eq!(Producer::from(u32::MAX), Producer::Absent);
    assert_eq!(Producer::from(5u32), Producer::Unknown(5));
}
