//! Tests for the event-body decoder and the binary envelope it reads.

use zeebe_log_reader::{
    decode_body, task_state_of, workflow_instance_state_of, BodyError, EventBody, TaskState,
    WorkflowInstanceState,
};

fn mp_map(out: &mut Vec<u8>, n: u8) {
    out.push(0x80 + n);
}

fn mp_str(out: &mut Vec<u8>, s: &str) {
    out.push(0xa0 + s.len() as u8);
    out.extend_from_slice(s.as_bytes());
}

fn mp_int(out: &mut Vec<u8>, v: i64) {
    out.push(0xd3);
    out.extend_from_slice(&v.to_be_bytes());
}

fn mp_bin(out: &mut Vec<u8>, b: &[u8]) {
    out.push(0xc4);
    out.push(b.len() as u8);
    out.extend_from_slice(b);
}

fn task_headers(out: &mut Vec<u8>) {
    mp_map(out, 6);
    mp_str(out, "workflowInstanceKey");
    mp_int(out, 11);
    mp_str(out, "bpmnProcessId");
    mp_str(out, "proc");
    mp_str(out, "workflowDefinitionVersion");
    mp_int(out, 2);
    mp_str(out, "workflowKey");
    mp_int(out, 12);
    mp_str(out, "activityId");
    mp_str(out, "act");
    mp_str(out, "activityInstanceKey");
    mp_int(out, 13);
}

fn task_payload(state: &str) -> Vec<u8> {
    let mut p = Vec::new();
    mp_map(&mut p, 7);
    mp_str(&mut p, "state");
    mp_str(&mut p, state);
    mp_str(&mut p, "lockTime");
    mp_int(&mut p, 1000);
    mp_str(&mut p, "retries");
    mp_int(&mut p, 3);
    mp_str(&mut p, "type");
    mp_str(&mut p, "work");
    mp_str(&mut p, "headers");
    task_headers(&mut p);
    mp_str(&mut p, "customHeaders");
    mp_map(&mut p, 2);
    mp_str(&mut p, "a");
    mp_str(&mut p, "1");
    mp_str(&mut p, "b");
    mp_str(&mut p, "2");
    mp_str(&mut p, "payload");
    mp_bin(&mut p, &[1, 2, 3]);
    p
}

fn workflow_payload() -> Vec<u8> {
    let mut p = Vec::new();
    mp_map(&mut p, 4);
    mp_str(&mut p, "bpmnProcessId");
    mp_str(&mut p, "order");
    mp_str(&mut p, "version");
    mp_int(&mut p, 4);
    mp_str(&mut p, "bpmnXml");
    mp_bin(&mut p, b"<xml/>");
    mp_str(&mut p, "deploymentKey");
    mp_int(&mut p, -5);
    p
}

fn workflow_instance_payload(activity_nil: bool) -> Vec<u8> {
    let mut p = Vec::new();
    mp_map(&mut p, 7);
    mp_str(&mut p, "state");
    mp_str(&mut p, "ACTIVITY_READY");
    mp_str(&mut p, "bpmnProcessId");
    mp_str(&mut p, "order");
    mp_str(&mut p, "version");
    mp_int(&mut p, 1);
    mp_str(&mut p, "workflowKey");
    mp_int(&mut p, 7);
    mp_str(&mut p, "workflowInstanceKey");
    mp_int(&mut p, 8);
    mp_str(&mut p, "activityId");
    if activity_nil {
        p.push(0xc0);
    } else {
        mp_str(&mut p, "step");
    }
    mp_str(&mut p, "payload");
    mp_bin(&mut p, &[9]);
    p
}

#[test]
fn task_body_decodes_every_field() {
    let body = decode_body(0, &task_payload("LOCK_EXPIRED")).unwrap();
    match body {
        EventBody::Task(task) => {
            assert_eq!(task.state, TaskState::LockExpired);
            assert_eq!(task.lock_time, 1000);
            assert_eq!(task.retries, 3);
            assert_eq!(task.task_type, b"work".to_vec());
            assert_eq!(task.headers.workflow_instance_key, 11);
            assert_eq!(task.headers.bpmn_process_id, b"proc".to_vec());
            assert_eq!(task.headers.workflow_definition_version, 2);
            assert_eq!(task.headers.workflow_key, 12);
            assert_eq!(task.headers.activity_id, b"act".to_vec());
            assert_eq!(task.headers.activity_instance_key, 13);
            assert_eq!(task.custom_headers.len(), 2);
            assert_eq!(task.custom_headers[0], (b"a".to_vec(), b"1".to_vec()));
            assert_eq!(task.custom_headers[1], (b"b".to_vec(), b"2".to_vec()));
            assert_eq!(task.payload, vec![1, 2, 3]);
        },
        other => panic!("expected a task body, got {:?}", other),
    }
}

#[test]
fn workflow_body_decodes_every_field() {
    let body = decode_body(7, &workflow_payload()).unwrap();
    match body {
        EventBody::Workflow(wf) => {
            assert_eq!(wf.bpmn_process_id, b"order".to_vec());
            assert_eq!(wf.version, 4);
            assert_eq!(wf.bpmn_xml, b"<xml/>".to_vec());
            assert_eq!(wf.deployment_key, -5);
        },
        other => panic!("expected a workflow body, got {:?}", other),
    }
}

#[test]
fn workflow_instance_body_decodes_with_and_without_activity() {
    let body = decode_body(5, &workflow_instance_payload(false)).unwrap();
    match body {
        EventBody::WorkflowInstance(wi) => {
            assert_eq!(wi.state, WorkflowInstanceState::ActivityReady);
            assert_eq!(wi.bpmn_process_id, b"order".to_vec());
            assert_eq!(wi.version, 1);
            assert_eq!(wi.workflow_key, 7);
            assert_eq!(wi.workflow_instance_key, 8);
            assert_eq!(wi.activity_id, Some(b"step".to_vec()));
            assert_eq!(wi.payload, vec![9]);
        },
        other => panic!("expected a workflow-instance body, got {:?}", other),
    }
    let body_nil = decode_body(5, &workflow_instance_payload(true)).unwrap();
    match body_nil {
        EventBody::WorkflowInstance(wi) => {
            assert_eq!(wi.activity_id, None);
        },
        other => panic!("expected a workflow-instance body, got {:?}", other),
    }
}

#[test]
fn unstructured_event_types_have_marker_bodies() {
    assert_eq!(decode_body(1, &[]).unwrap(), EventBody::Other);
    assert_eq!(decode_body(6, &[0xc1, 0xff]).unwrap(), EventBody::Other);
    assert_eq!(decode_body(200, &[]).unwrap(), EventBody::Other);
}

#[test]
fn unknown_state_name_is_rejected() {
    assert_eq!(decode_body(0, &task_payload("BOGUS")), Err(BodyError::UnknownStateLiteral));
}

#[test]
fn missing_field_is_rejected() {
    let mut p = Vec::new();
    mp_map(&mut p, 1);
    mp_str(&mut p, "state");
    mp_str(&mut p, "CREATED");
    assert_eq!(decode_body(0, &p), Err(BodyError::MissingField));
}

#[test]
fn duplicate_field_is_rejected() {
    let mut p = Vec::new();
    mp_map(&mut p, 2);
    mp_str(&mut p, "version");
    mp_int(&mut p, 1);
    mp_str(&mut p, "version");
    mp_int(&mut p, 2);
    assert_eq!(decode_body(7, &p), Err(BodyError::DuplicateField));
}

#[test]
fn out_of_range_integer_is_rejected() {
    let mut p = Vec::new();
    mp_map(&mut p, 1);
    mp_str(&mut p, "version");
    mp_int(&mut p, 1 << 40);
    assert_eq!(decode_body(7, &p), Err(BodyError::IntOutOfRange));
}

#[test]
fn truncated_payload_is_rejected() {
    let mut p = task_payload("CREATED");
    p.truncate(p.len() - 2);
    assert_eq!(decode_body(0, &p), Err(BodyError::Truncated));
    assert_eq!(decode_body(0, &[]), Err(BodyError::Truncated));
}

#[test]
fn wrong_value_shape_is_rejected() {
    let mut p = Vec::new();
    mp_map(&mut p, 1);
    mp_str(&mut p, "lockTime");
    mp_str(&mut p, "soon");
    assert_eq!(decode_body(0, &p), Err(BodyError::UnexpectedType));
}

#[test]
fn unknown_fields_are_skipped_whatever_their_shape() {
    let mut p = Vec::new();
    mp_map(&mut p, 5);
    mp_str(&mut p, "noise");
    p.push(0x92);
    mp_int(&mut p, 1);
    p.push(0xc3);
    mp_str(&mut p, "more");
    mp_map(&mut p, 1);
    mp_str(&mut p, "x");
    p.push(0xcb);
    p.extend_from_slice(&[0x3f, 0xf0, 0, 0, 0, 0, 0, 0]);
    mp_str(&mut p, "bpmnProcessId");
    mp_str(&mut p, "order");
    mp_str(&mut p, "version");
    p.push(0x04);
    mp_str(&mut p, "bpmnXml");
    mp_str(&mut p, "text-form");
    // deploymentKey is still missing.
    assert_eq!(decode_body(7, &p), Err(BodyError::MissingField));

    let mut q = Vec::new();
    mp_map(&mut q, 5);
    mp_str(&mut q, "noise");
    q.push(0x92);
    mp_int(&mut q, 1);
    q.push(0xc3);
    mp_str(&mut q, "bpmnProcessId");
    mp_str(&mut q, "order");
    mp_str(&mut q, "version");
    q.push(0x04);
    mp_str(&mut q, "bpmnXml");
    mp_str(&mut q, "text-form");
    mp_str(&mut q, "deploymentKey");
    q.push(0xe0);
    let body = decode_body(7, &q).unwrap();
    match body {
        EventBody::Workflow(wf) => {
            assert_eq!(wf.version, 4);
            assert_eq!(wf.bpmn_xml, b"text-form".to_vec());
            assert_eq!(wf.deployment_key, -32);
        },
        other => panic!("expected a workflow body, got {:?}", other),
    }
}

#[test]
fn integer_markers_of_every_width_decode() {
    let mut p = Vec::new();
    mp_map(&mut p, 4);
    mp_str(&mut p, "bpmnProcessId");
    mp_str(&mut p, "w");
    mp_str(&mut p, "version");
    p.push(0xcc);
    p.push(200);
    mp_str(&mut p, "bpmnXml");
    mp_bin(&mut p, &[]);
    mp_str(&mut p, "deploymentKey");
    p.push(0xcd);
    p.extend_from_slice(&[0x12, 0x34]);
    let body = decode_body(7, &p).unwrap();
    match body {
        EventBody::Workflow(wf) => {
            assert_eq!(wf.version, 200);
            assert_eq!(wf.deployment_key, 0x1234);
        },
        other => panic!("expected a workflow body, got {:?}", other),
    }

    let mut q = Vec::new();
    mp_map(&mut q, 4);
    mp_str(&mut q, "bpmnProcessId");
    mp_str(&mut q, "w");
    mp_str(&mut q, "version");
    q.push(0xd0);
    q.push(0xff);
    mp_str(&mut q, "bpmnXml");
    mp_bin(&mut q, &[]);
    mp_str(&mut q, "deploymentKey");
    q.push(0xd2);
    q.extend_from_slice(&[0xff, 0xff, 0xff, 0xfe]);
    let body2 = decode_body(7, &q).unwrap();
    match body2 {
        EventBody::Workflow(wf) => {
            assert_eq!(wf.version, -1);
            assert_eq!(wf.deployment_key, -2);
        },
        other => panic!("expected a workflow body, got {:?}", other),
    }
}

#[test]
fn unsigned_value_above_signed_range_is_rejected() {
    let mut p = Vec::new();
    mp_map(&mut p, 1);
    mp_str(&mut p, "deploymentKey");
    p.push(0xcf);
    p.extend_from_slice(&[0x80, 0, 0, 0, 0, 0, 0, 0]);
    assert_eq!(decode_body(7, &p), Err(BodyError::IntOutOfRange));
}

#[test]
fn sized_string_and_map_markers_decode() {
    let mut p = Vec::new();
    // map16 header instead of a fixmap.
    p.push(0xde);
    p.extend_from_slice(&[0x00, 0x04]);
    // str8 key and value.
    p.push(0xd9);
    p.push(13);
    p.extend_from_slice(b"bpmnProcessId");
    p.push(0xd9);
    p.push(5);
    p.extend_from_slice(b"order");
    mp_str(&mut p, "version");
    mp_int(&mut p, 4);
    mp_str(&mut p, "bpmnXml");
    // str16 value for the byte field.
    p.push(0xda);
    p.extend_from_slice(&[0x00, 0x03]);
    p.extend_from_slice(b"xml");
    mp_str(&mut p, "deploymentKey");
    mp_int(&mut p, 6);
    let body = decode_body(7, &p).unwrap();
    match body {
        EventBody::Workflow(wf) => {
            assert_eq!(wf.bpmn_process_id, b"order".to_vec());
            assert_eq!(wf.bpmn_xml, b"xml".to_vec());
        },
        other => panic!("expected a workflow body, got {:?}", other),
    }
}

#[test]
fn sized_binary_markers_decode() {
    let mut p = Vec::new();
    mp_map(&mut p, 4);
    mp_str(&mut p, "bpmnProcessId");
    mp_str(&mut p, "w");
    mp_str(&mut p, "version");
    mp_int(&mut p, 1);
    mp_str(&mut p, "bpmnXml");
    // bin16 instead of bin8.
    p.push(0xc5);
    p.extend_from_slice(&[0x00, 0x02]);
    p.extend_from_slice(&[0xaa, 0xbb]);
    mp_str(&mut p, "deploymentKey");
    mp_int(&mut p, 1);
    let body = decode_body(7, &p).unwrap();
    match body {
        EventBody::Workflow(wf) => {
            assert_eq!(wf.bpmn_xml, vec![0xaa, 0xbb]);
        },
        other => panic!("expected a workflow body, got {:?}", other),
    }
}

#[test]
fn every_task_state_name_maps_to_its_state() {
    let table: Vec<(&str, TaskState)> = vec![
        ("CREATE", TaskState::Create),
        ("CREATED", TaskState::Created),
        ("LOCK", TaskState::Lock),
        ("LOCKED", TaskState::Locked),
        ("LOCK_REJECTED", TaskState::LockRejected),
        ("COMPLETE", TaskState::Complete),
        ("COMPLETED", TaskState::Completed),
        ("COMPLETE_REJECTED", TaskState::CompleteRejected),
        ("EXPIRE_LOCK", TaskState::ExpireLock),
        ("LOCK_EXPIRED", TaskState::LockExpired),
        ("LOCK_EXPIRATION_REJECTED", TaskState::LockExpirationRejected),
        ("FAIL", TaskState::Fail),
        ("FAILED", TaskState::Failed),
        ("FAIL_REJECTED", TaskState::FailRejected),
        ("UPDATE_RETRIES", TaskState::UpdateRetries),
        ("RETRIES_UPDATED", TaskState::RetriesUpdated),
        ("UPDATE_RETRIES_REJECTED", TaskState::UpdateRetriesRejected),
        ("CANCEL", TaskState::Cancel),
        ("CANCELED", TaskState::Canceled),
        ("CANCEL_REJECTED", TaskState::CancelRejected),
    ];
    for (name, state) in table {
        assert_eq!(task_state_of(name.as_bytes()), Some(state));
    }
}

#[test]
fn every_workflow_instance_state_name_maps_to_its_state() {
    let table: Vec<(&str, WorkflowInstanceState)> = vec![
        ("CREATE_WORKFLOW_INSTANCE", WorkflowInstanceState::CreateWorkflowInstance),
        ("WORKFLOW_INSTANCE_CREATED", WorkflowInstanceState::WorkflowInstanceCreated),
        ("WORKFLOW_INSTANCE_REJECTED", WorkflowInstanceState::WorkflowInstanceRejected),
        ("START_EVENT_OCCURRED", WorkflowInstanceState::StartEventOccurred),
        ("END_EVENT_OCCURRED", WorkflowInstanceState::EndEventOccurred),
        ("SEQUENCE_FLOW_TAKEN", WorkflowInstanceState::SequenceFlowTaken),
        ("GATEWAY_ACTIVATED", WorkflowInstanceState::GatewayActivated),
        ("ACTIVITY_READY", WorkflowInstanceState::ActivityReady),
        ("ACTIVITY_ACTIVATED", WorkflowInstanceState::ActivityActivated),
        ("ACTIVITY_COMPLETING", WorkflowInstanceState::ActivityCompleting),
        ("ACTIVITY_COMPLETED", WorkflowInstanceState::ActivityCompleted),
        ("ACTIVITY_TERMINATED", WorkflowInstanceState::ActivityTerminated),
        ("WORKFLOW_INSTANCE_COMPLETED", WorkflowInstanceState::WorkflowInstanceCompleted),
        ("CANCEL_WORKFLOW_INSTANCE", WorkflowInstanceState::CancelWorkflowInstance),
        ("WORKFLOW_INSTANCE_CANCELED", WorkflowInstanceState::WorkflowInstanceCanceled),
        (
            "CANCEL_WORKFLOW_INSTANCE_REJECTED",
            WorkflowInstanceState::CancelWorkflowInstanceRejected,
        ),
        ("UPDATE_PAYLOAD", WorkflowInstanceState::UpdatePayload),
        ("PAYLOAD_UPDATED", WorkflowInstanceState::PayloadUpdated),
        ("UPDATE_PAYLOAD_REJECTED", WorkflowInstanceState::UpdatePayloadRejected),
    ];
    for (name, state) in table {
        assert_eq!(workflow_instance_state_of(name.as_bytes()), Some(state));
    }
}

#[test]
fn state_names_decode_exactly() {
    assert_eq!(task_state_of(b"CREATE"), Some(TaskState::Create));
    assert_eq!(task_state_of(b"CREATED"), Some(TaskState::Created));
    assert_eq!(task_state_of(b"LOCK_EXPIRATION_REJECTED"), Some(TaskState::LockExpirationRejected));
    assert_eq!(task_state_of(b"CANCEL_REJECTED"), Some(TaskState::CancelRejected));
    assert_eq!(task_state_of(b"CREATE_"), None);
    assert_eq!(task_state_of(b"created"), None);
    assert_eq!(task_state_of(b""), None);
    assert_eq!(
        workflow_instance_state_of(b"CREATE_WORKFLOW_INSTANCE"),
        Some(WorkflowInstanceState::CreateWorkflowInstance)
    );
    assert_eq!(
        workflow_instance_state_of(b"UPDATE_PAYLOAD_REJECTED"),
        Some(WorkflowInstanceState::UpdatePayloadRejected)
    );
    assert_eq!(workflow_instance_state_of(b"CREATED"), None);
}
