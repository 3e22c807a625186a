//! Typed event bodies and their decoding from message payloads.
//!
//! The event-type discriminant of a metadata record picks one of several
//! structured record shapes; the structured ones are maps in the compact
//! binary envelope, with camel-case string keys, whose state fields carry
//! symbolic names as strings. Decoding is specified value-for-value by the
//! `spec_*` functions here and in `msgpack`.

use vstd::prelude::*;

use crate::msgpack::{
    bytes_eq, parse_bin, parse_i32, parse_int, parse_map_len, parse_str, skip_value,
    spec_parse_bin, spec_parse_i32, spec_parse_int, spec_parse_map_len, spec_parse_str,
    spec_skip_value, BodyError,
};
use vstd::slice::slice_to_vec;

verus! {

/// The view of an optional borrowed byte field.
pub open spec fn opt_bytes_view(o: Option<&[u8]>) -> Option<Seq<u8>> {
    match o {
        Some(b) => Some(b@),
        None => None,
    }
}

/// The lifecycle state of a task event, decoded from its symbolic wire name.
#[derive(Clone, Copy, Debug, PartialEq, Eq, Hash, Structural)]
pub enum TaskState {
    Create,
    Created,
    Lock,
    Locked,
    LockRejected,
    Complete,
    Completed,
    CompleteRejected,
    ExpireLock,
    LockExpired,
    LockExpirationRejected,
    Fail,
    Failed,
    FailRejected,
    UpdateRetries,
    RetriesUpdated,
    UpdateRetriesRejected,
    Cancel,
    Canceled,
    CancelRejected,
}

/// The lifecycle state of a workflow-instance event, decoded from its symbolic wire name.
#[derive(Clone, Copy, Debug, PartialEq, Eq, Hash, Structural)]
pub enum WorkflowInstanceState {
    CreateWorkflowInstance,
    WorkflowInstanceCreated,
    WorkflowInstanceRejected,
    StartEventOccurred,
    EndEventOccurred,
    SequenceFlowTaken,
    GatewayActivated,
    ActivityReady,
    ActivityActivated,
    ActivityCompleting,
    ActivityCompleted,
    ActivityTerminated,
    WorkflowInstanceCompleted,
    CancelWorkflowInstance,
    WorkflowInstanceCanceled,
    CancelWorkflowInstanceRejected,
    UpdatePayload,
    PayloadUpdated,
    UpdatePayloadRejected,
}

/// The task state named by the bytes `b`, if any.
pub open spec fn spec_task_state_of(b: Seq<u8>) -> Option<TaskState> {
    if b == seq![67u8, 82u8, 69u8, 65u8, 84u8, 69u8] {
        Some(TaskState::Create)
    } else if b == seq![67u8, 82u8, 69u8, 65u8, 84u8, 69u8, 68u8] {
        Some(TaskState::Created)
    } else if b == seq![76u8, 79u8, 67u8, 75u8] {
        Some(TaskState::Lock)
    } else if b == seq![76u8, 79u8, 67u8, 75u8, 69u8, 68u8] {
        Some(TaskState::Locked)
    } else if b == seq![76u8, 79u8, 67u8, 75u8, 95u8, 82u8, 69u8, 74u8, 69u8, 67u8, 84u8, 69u8, 68u8] {
        Some(TaskState::LockRejected)
    } else if b == seq![67u8, 79u8, 77u8, 80u8, 76u8, 69u8, 84u8, 69u8] {
        Some(TaskState::Complete)
    } else if b == seq![67u8, 79u8, 77u8, 80u8, 76u8, 69u8, 84u8, 69u8, 68u8] {
        Some(TaskState::Completed)
    } else if b == seq![67u8, 79u8, 77u8, 80u8, 76u8, 69u8, 84u8, 69u8, 95u8, 82u8, 69u8, 74u8, 69u8, 67u8, 84u8, 69u8, 68u8] {
        Some(TaskState::CompleteRejected)
    } else if b == seq![69u8, 88u8, 80u8, 73u8, 82u8, 69u8, 95u8, 76u8, 79u8, 67u8, 75u8] {
        Some(TaskState::ExpireLock)
    } else if b == seq![76u8, 79u8, 67u8, 75u8, 95u8, 69u8, 88u8, 80u8, 73u8, 82u8, 69u8, 68u8] {
        Some(TaskState::LockExpired)
    } else if b == seq![76u8, 79u8, 67u8, 75u8, 95u8, 69u8, 88u8, 80u8, 73u8, 82u8, 65u8, 84u8, 73u8, 79u8, 78u8, 95u8, 82u8, 69u8, 74u8, 69u8, 67u8, 84u8, 69u8, 68u8] {
        Some(TaskState::LockExpirationRejected)
    } else if b == seq![70u8, 65u8, 73u8, 76u8] {
        Some(TaskState::Fail)
    } else if b == seq![70u8, 65u8, 73u8, 76u8, 69u8, 68u8] {
        Some(TaskState::Failed)
    } else if b == seq![70u8, 65u8, 73u8, 76u8, 95u8, 82u8, 69u8, 74u8, 69u8, 67u8, 84u8, 69u8, 68u8] {
        Some(TaskState::FailRejected)
    } else if b == seq![85u8, 80u8, 68u8, 65u8, 84u8, 69u8, 95u8, 82u8, 69u8, 84u8, 82u8, 73u8, 69u8, 83u8] {
        Some(TaskState::UpdateRetries)
    } else if b == seq![82u8, 69u8, 84u8, 82u8, 73u8, 69u8, 83u8, 95u8, 85u8, 80u8, 68u8, 65u8, 84u8, 69u8, 68u8] {
        Some(TaskState::RetriesUpdated)
    } else if b == seq![85u8, 80u8, 68u8, 65u8, 84u8, 69u8, 95u8, 82u8, 69u8, 84u8, 82u8, 73u8, 69u8, 83u8, 95u8, 82u8, 69u8, 74u8, 69u8, 67u8, 84u8, 69u8, 68u8] {
        Some(TaskState::UpdateRetriesRejected)
    } else if b == seq![67u8, 65u8, 78u8, 67u8, 69u8, 76u8] {
        Some(TaskState::Cancel)
    } else if b == seq![67u8, 65u8, 78u8, 67u8, 69u8, 76u8, 69u8, 68u8] {
        Some(TaskState::Canceled)
    } else if b == seq![67u8, 65u8, 78u8, 67u8, 69u8, 76u8, 95u8, 82u8, 69u8, 74u8, 69u8, 67u8, 84u8, 69u8, 68u8] {
        Some(TaskState::CancelRejected)
    } else {
        None
    }
}

/// The workflow-instance state named by the bytes `b`, if any.
pub open spec fn spec_workflow_instance_state_of(b: Seq<u8>) -> Option<WorkflowInstanceState> {
    if b == seq![67u8, 82u8, 69u8, 65u8, 84u8, 69u8, 95u8, 87u8, 79u8, 82u8, 75u8, 70u8, 76u8, 79u8, 87u8, 95u8, 73u8, 78u8, 83u8, 84u8, 65u8, 78u8, 67u8, 69u8] {
        Some(WorkflowInstanceState::CreateWorkflowInstance)
    } else if b == seq![87u8, 79u8, 82u8, 75u8, 70u8, 76u8, 79u8, 87u8, 95u8, 73u8, 78u8, 83u8, 84u8, 65u8, 78u8, 67u8, 69u8, 95u8, 67u8, 82u8, 69u8, 65u8, 84u8, 69u8, 68u8] {
        Some(WorkflowInstanceState::WorkflowInstanceCreated)
    } else if b == seq![87u8, 79u8, 82u8, 75u8, 70u8, 76u8, 79u8, 87u8, 95u8, 73u8, 78u8, 83u8, 84u8, 65u8, 78u8, 67u8, 69u8, 95u8, 82u8, 69u8, 74u8, 69u8, 67u8, 84u8, 69u8, 68u8] {
        Some(WorkflowInstanceState::WorkflowInstanceRejected)
    } else if b == seq![83u8, 84u8, 65u8, 82u8, 84u8, 95u8, 69u8, 86u8, 69u8, 78u8, 84u8, 95u8, 79u8, 67u8, 67u8, 85u8, 82u8, 82u8, 69u8, 68u8] {
        Some(WorkflowInstanceState::StartEventOccurred)
    } else if b == seq![69u8, 78u8, 68u8, 95u8, 69u8, 86u8, 69u8, 78u8, 84u8, 95u8, 79u8, 67u8, 67u8, 85u8, 82u8, 82u8, 69u8, 68u8] {
        Some(WorkflowInstanceState::EndEventOccurred)
    } else if b == seq![83u8, 69u8, 81u8, 85u8, 69u8, 78u8, 67u8, 69u8, 95u8, 70u8, 76u8, 79u8, 87u8, 95u8, 84u8, 65u8, 75u8, 69u8, 78u8] {
        Some(WorkflowInstanceState::SequenceFlowTaken)
    } else if b == seq![71u8, 65u8, 84u8, 69u8, 87u8, 65u8, 89u8, 95u8, 65u8, 67u8, 84u8, 73u8, 86u8, 65u8, 84u8, 69u8, 68u8] {
        Some(WorkflowInstanceState::GatewayActivated)
    } else if b == seq![65u8, 67u8, 84u8, 73u8, 86u8, 73u8, 84u8, 89u8, 95u8, 82u8, 69u8, 65u8, 68u8, 89u8] {
        Some(WorkflowInstanceState::ActivityReady)
    } else if b == seq![65u8, 67u8, 84u8, 73u8, 86u8, 73u8, 84u8, 89u8, 95u8, 65u8, 67u8, 84u8, 73u8, 86u8, 65u8, 84u8, 69u8, 68u8] {
        Some(WorkflowInstanceState::ActivityActivated)
    } else if b == seq![65u8, 67u8, 84u8, 73u8, 86u8, 73u8, 84u8, 89u8, 95u8, 67u8, 79u8, 77u8, 80u8, 76u8, 69u8, 84u8, 73u8, 78u8, 71u8] {
        Some(WorkflowInstanceState::ActivityCompleting)
    } else if b == seq![65u8, 67u8, 84u8, 73u8, 86u8, 73u8, 84u8, 89u8, 95u8, 67u8, 79u8, 77u8, 80u8, 76u8, 69u8, 84u8, 69u8, 68u8] {
        Some(WorkflowInstanceState::ActivityCompleted)
    } else if b == seq![65u8, 67u8, 84u8, 73u8, 86u8, 73u8, 84u8, 89u8, 95u8, 84u8, 69u8, 82u8, 77u8, 73u8, 78u8, 65u8, 84u8, 69u8, 68u8] {
        Some(WorkflowInstanceState::ActivityTerminated)
    } else if b == seq![87u8, 79u8, 82u8, 75u8, 70u8, 76u8, 79u8, 87u8, 95u8, 73u8, 78u8, 83u8, 84u8, 65u8, 78u8, 67u8, 69u8, 95u8, 67u8, 79u8, 77u8, 80u8, 76u8, 69u8, 84u8, 69u8, 68u8] {
        Some(WorkflowInstanceState::WorkflowInstanceCompleted)
    } else if b == seq![67u8, 65u8, 78u8, 67u8, 69u8, 76u8, 95u8, 87u8, 79u8, 82u8, 75u8, 70u8, 76u8, 79u8, 87u8, 95u8, 73u8, 78u8, 83u8, 84u8, 65u8, 78u8, 67u8, 69u8] {
        Some(WorkflowInstanceState::CancelWorkflowInstance)
    } else if b == seq![87u8, 79u8, 82u8, 75u8, 70u8, 76u8, 79u8, 87u8, 95u8, 73u8, 78u8, 83u8, 84u8, 65u8, 78u8, 67u8, 69u8, 95u8, 67u8, 65u8, 78u8, 67u8, 69u8, 76u8, 69u8, 68u8] {
        Some(WorkflowInstanceState::WorkflowInstanceCanceled)
    } else if b == seq![67u8, 65u8, 78u8, 67u8, 69u8, 76u8, 95u8, 87u8, 79u8, 82u8, 75u8, 70u8, 76u8, 79u8, 87u8, 95u8, 73u8, 78u8, 83u8, 84u8, 65u8, 78u8, 67u8, 69u8, 95u8, 82u8, 69u8, 74u8, 69u8, 67u8, 84u8, 69u8, 68u8] {
        Some(WorkflowInstanceState::CancelWorkflowInstanceRejected)
    } else if b == seq![85u8, 80u8, 68u8, 65u8, 84u8, 69u8, 95u8, 80u8, 65u8, 89u8, 76u8, 79u8, 65u8, 68u8] {
        Some(WorkflowInstanceState::UpdatePayload)
    } else if b == seq![80u8, 65u8, 89u8, 76u8, 79u8, 65u8, 68u8, 95u8, 85u8, 80u8, 68u8, 65u8, 84u8, 69u8, 68u8] {
        Some(WorkflowInstanceState::PayloadUpdated)
    } else if b == seq![85u8, 80u8, 68u8, 65u8, 84u8, 69u8, 95u8, 80u8, 65u8, 89u8, 76u8, 79u8, 65u8, 68u8, 95u8, 82u8, 69u8, 74u8, 69u8, 67u8, 84u8, 69u8, 68u8] {
        Some(WorkflowInstanceState::UpdatePayloadRejected)
    } else {
        None
    }
}

/// Decodes a task state from its wire name.
pub fn task_state_of(b: &[u8]) -> (r: Option<TaskState>)
    ensures
        r == spec_task_state_of(b@),
{
    let lit_0: [u8; 6] = [67, 82, 69, 65, 84, 69];
    proof {
        assert(lit_0@ =~= seq![67u8, 82u8, 69u8, 65u8, 84u8, 69u8]);
    }
    if bytes_eq(b, lit_0.as_slice()) {
        return Some(TaskState::Create);
    }
    let lit_1: [u8; 7] = [67, 82, 69, 65, 84, 69, 68];
    proof {
        assert(lit_1@ =~= seq![67u8, 82u8, 69u8, 65u8, 84u8, 69u8, 68u8]);
    }
    if bytes_eq(b, lit_1.as_slice()) {
        return Some(TaskState::Created);
    }
    let lit_2: [u8; 4] = [76, 79, 67, 75];
    proof {
        assert(lit_2@ =~= seq![76u8, 79u8, 67u8, 75u8]);
    }
    if bytes_eq(b, lit_2.as_slice()) {
        return Some(TaskState::Lock);
    }
    let lit_3: [u8; 6] = [76, 79, 67, 75, 69, 68];
    proof {
        assert(lit_3@ =~= seq![76u8, 79u8, 67u8, 75u8, 69u8, 68u8]);
    }
    if bytes_eq(b, lit_3.as_slice()) {
        return Some(TaskState::Locked);
    }
    let lit_4: [u8; 13] = [76, 79, 67, 75, 95, 82, 69, 74, 69, 67, 84, 69, 68];
    proof {
        assert(lit_4@ =~= seq![76u8, 79u8, 67u8, 75u8, 95u8, 82u8, 69u8, 74u8, 69u8, 67u8, 84u8, 69u8, 68u8]);
    }
    if bytes_eq(b, lit_4.as_slice()) {
        return Some(TaskState::LockRejected);
    }
    let lit_5: [u8; 8] = [67, 79, 77, 80, 76, 69, 84, 69];
    proof {
        assert(lit_5@ =~= seq![67u8, 79u8, 77u8, 80u8, 76u8, 69u8, 84u8, 69u8]);
    }
    if bytes_eq(b, lit_5.as_slice()) {
        return Some(TaskState::Complete);
    }
    let lit_6: [u8; 9] = [67, 79, 77, 80, 76, 69, 84, 69, 68];
    proof {
        assert(lit_6@ =~= seq![67u8, 79u8, 77u8, 80u8, 76u8, 69u8, 84u8, 69u8, 68u8]);
    }
    if bytes_eq(b, lit_6.as_slice()) {
        return Some(TaskState::Completed);
    }
    let lit_7: [u8; 17] = [67, 79, 77, 80, 76, 69, 84, 69, 95, 82, 69, 74, 69, 67, 84, 69, 68];
    proof {
        assert(lit_7@ =~= seq![67u8, 79u8, 77u8, 80u8, 76u8, 69u8, 84u8, 69u8, 95u8, 82u8, 69u8, 74u8, 69u8, 67u8, 84u8, 69u8, 68u8]);
    }
    if bytes_eq(b, lit_7.as_slice()) {
        return Some(TaskState::CompleteRejected);
    }
    let lit_8: [u8; 11] = [69, 88, 80, 73, 82, 69, 95, 76, 79, 67, 75];
    proof {
        assert(lit_8@ =~= seq![69u8, 88u8, 80u8, 73u8, 82u8, 69u8, 95u8, 76u8, 79u8, 67u8, 75u8]);
    }
    if bytes_eq(b, lit_8.as_slice()) {
        return Some(TaskState::ExpireLock);
    }
    let lit_9: [u8; 12] = [76, 79, 67, 75, 95, 69, 88, 80, 73, 82, 69, 68];
    proof {
        assert(lit_9@ =~= seq![76u8, 79u8, 67u8, 75u8, 95u8, 69u8, 88u8, 80u8, 73u8, 82u8, 69u8, 68u8]);
    }
    if bytes_eq(b, lit_9.as_slice()) {
        return Some(TaskState::LockExpired);
    }
    let lit_10: [u8; 24] = [76, 79, 67, 75, 95, 69, 88, 80, 73, 82, 65, 84, 73, 79, 78, 95, 82, 69, 74, 69, 67, 84, 69, 68];
    proof {
        assert(lit_10@ =~= seq![76u8, 79u8, 67u8, 75u8, 95u8, 69u8, 88u8, 80u8, 73u8, 82u8, 65u8, 84u8, 73u8, 79u8, 78u8, 95u8, 82u8, 69u8, 74u8, 69u8, 67u8, 84u8, 69u8, 68u8]);
    }
    if bytes_eq(b, lit_10.as_slice()) {
        return Some(TaskState::LockExpirationRejected);
    }
    let lit_11: [u8; 4] = [70, 65, 73, 76];
    proof {
        assert(lit_11@ =~= seq![70u8, 65u8, 73u8, 76u8]);
    }
    if bytes_eq(b, lit_11.as_slice()) {
        return Some(TaskState::Fail);
    }
    let lit_12: [u8; 6] = [70, 65, 73, 76, 69, 68];
    proof {
        assert(lit_12@ =~= seq![70u8, 65u8, 73u8, 76u8, 69u8, 68u8]);
    }
    if bytes_eq(b, lit_12.as_slice()) {
        return Some(TaskState::Failed);
    }
    let lit_13: [u8; 13] = [70, 65, 73, 76, 95, 82, 69, 74, 69, 67, 84, 69, 68];
    proof {
        assert(lit_13@ =~= seq![70u8, 65u8, 73u8, 76u8, 95u8, 82u8, 69u8, 74u8, 69u8, 67u8, 84u8, 69u8, 68u8]);
    }
    if bytes_eq(b, lit_13.as_slice()) {
        return Some(TaskState::FailRejected);
    }
    let lit_14: [u8; 14] = [85, 80, 68, 65, 84, 69, 95, 82, 69, 84, 82, 73, 69, 83];
    proof {
        assert(lit_14@ =~= seq![85u8, 80u8, 68u8, 65u8, 84u8, 69u8, 95u8, 82u8, 69u8, 84u8, 82u8, 73u8, 69u8, 83u8]);
    }
    if bytes_eq(b, lit_14.as_slice()) {
        return Some(TaskState::UpdateRetries);
    }
    let lit_15: [u8; 15] = [82, 69, 84, 82, 73, 69, 83, 95, 85, 80, 68, 65, 84, 69, 68];
    proof {
        assert(lit_15@ =~= seq![82u8, 69u8, 84u8, 82u8, 73u8, 69u8, 83u8, 95u8, 85u8, 80u8, 68u8, 65u8, 84u8, 69u8, 68u8]);
    }
    if bytes_eq(b, lit_15.as_slice()) {
        return Some(TaskState::RetriesUpdated);
    }
    let lit_16: [u8; 23] = [85, 80, 68, 65, 84, 69, 95, 82, 69, 84, 82, 73, 69, 83, 95, 82, 69, 74, 69, 67, 84, 69, 68];
    proof {
        assert(lit_16@ =~= seq![85u8, 80u8, 68u8, 65u8, 84u8, 69u8, 95u8, 82u8, 69u8, 84u8, 82u8, 73u8, 69u8, 83u8, 95u8, 82u8, 69u8, 74u8, 69u8, 67u8, 84u8, 69u8, 68u8]);
    }
    if bytes_eq(b, lit_16.as_slice()) {
        return Some(TaskState::UpdateRetriesRejected);
    }
    let lit_17: [u8; 6] = [67, 65, 78, 67, 69, 76];
    proof {
        assert(lit_17@ =~= seq![67u8, 65u8, 78u8, 67u8, 69u8, 76u8]);
    }
    if bytes_eq(b, lit_17.as_slice()) {
        return Some(TaskState::Cancel);
    }
    let lit_18: [u8; 8] = [67, 65, 78, 67, 69, 76, 69, 68];
    proof {
        assert(lit_18@ =~= seq![67u8, 65u8, 78u8, 67u8, 69u8, 76u8, 69u8, 68u8]);
    }
    if bytes_eq(b, lit_18.as_slice()) {
        return Some(TaskState::Canceled);
    }
    let lit_19: [u8; 15] = [67, 65, 78, 67, 69, 76, 95, 82, 69, 74, 69, 67, 84, 69, 68];
    proof {
        assert(lit_19@ =~= seq![67u8, 65u8, 78u8, 67u8, 69u8, 76u8, 95u8, 82u8, 69u8, 74u8, 69u8, 67u8, 84u8, 69u8, 68u8]);
    }
    if bytes_eq(b, lit_19.as_slice()) {
        return Some(TaskState::CancelRejected);
    }
    None
}

/// Decodes a workflow-instance state from its wire name.
pub fn workflow_instance_state_of(b: &[u8]) -> (r: Option<WorkflowInstanceState>)
    ensures
        r == spec_workflow_instance_state_of(b@),
{
    let lit_0: [u8; 24] = [67, 82, 69, 65, 84, 69, 95, 87, 79, 82, 75, 70, 76, 79, 87, 95, 73, 78, 83, 84, 65, 78, 67, 69];
    proof {
        assert(lit_0@ =~= seq![67u8, 82u8, 69u8, 65u8, 84u8, 69u8, 95u8, 87u8, 79u8, 82u8, 75u8, 70u8, 76u8, 79u8, 87u8, 95u8, 73u8, 78u8, 83u8, 84u8, 65u8, 78u8, 67u8, 69u8]);
    }
    if bytes_eq(b, lit_0.as_slice()) {
        return Some(WorkflowInstanceState::CreateWorkflowInstance);
    }
    let lit_1: [u8; 25] = [87, 79, 82, 75, 70, 76, 79, 87, 95, 73, 78, 83, 84, 65, 78, 67, 69, 95, 67, 82, 69, 65, 84, 69, 68];
    proof {
        assert(lit_1@ =~= seq![87u8, 79u8, 82u8, 75u8, 70u8, 76u8, 79u8, 87u8, 95u8, 73u8, 78u8, 83u8, 84u8, 65u8, 78u8, 67u8, 69u8, 95u8, 67u8, 82u8, 69u8, 65u8, 84u8, 69u8, 68u8]);
    }
    if bytes_eq(b, lit_1.as_slice()) {
        return Some(WorkflowInstanceState::WorkflowInstanceCreated);
    }
    let lit_2: [u8; 26] = [87, 79, 82, 75, 70, 76, 79, 87, 95, 73, 78, 83, 84, 65, 78, 67, 69, 95, 82, 69, 74, 69, 67, 84, 69, 68];
    proof {
        assert(lit_2@ =~= seq![87u8, 79u8, 82u8, 75u8, 70u8, 76u8, 79u8, 87u8, 95u8, 73u8, 78u8, 83u8, 84u8, 65u8, 78u8, 67u8, 69u8, 95u8, 82u8, 69u8, 74u8, 69u8, 67u8, 84u8, 69u8, 68u8]);
    }
    if bytes_eq(b, lit_2.as_slice()) {
        return Some(WorkflowInstanceState::WorkflowInstanceRejected);
    }
    let lit_3: [u8; 20] = [83, 84, 65, 82, 84, 95, 69, 86, 69, 78, 84, 95, 79, 67, 67, 85, 82, 82, 69, 68];
    proof {
        assert(lit_3@ =~= seq![83u8, 84u8, 65u8, 82u8, 84u8, 95u8, 69u8, 86u8, 69u8, 78u8, 84u8, 95u8, 79u8, 67u8, 67u8, 85u8, 82u8, 82u8, 69u8, 68u8]);
    }
    if bytes_eq(b, lit_3.as_slice()) {
        return Some(WorkflowInstanceState::StartEventOccurred);
    }
    let lit_4: [u8; 18] = [69, 78, 68, 95, 69, 86, 69, 78, 84, 95, 79, 67, 67, 85, 82, 82, 69, 68];
    proof {
        assert(lit_4@ =~= seq![69u8, 78u8, 68u8, 95u8, 69u8, 86u8, 69u8, 78u8, 84u8, 95u8, 79u8, 67u8, 67u8, 85u8, 82u8, 82u8, 69u8, 68u8]);
    }
    if bytes_eq(b, lit_4.as_slice()) {
        return Some(WorkflowInstanceState::EndEventOccurred);
    }
    let lit_5: [u8; 19] = [83, 69, 81, 85, 69, 78, 67, 69, 95, 70, 76, 79, 87, 95, 84, 65, 75, 69, 78];
    proof {
        assert(lit_5@ =~= seq![83u8, 69u8, 81u8, 85u8, 69u8, 78u8, 67u8, 69u8, 95u8, 70u8, 76u8, 79u8, 87u8, 95u8, 84u8, 65u8, 75u8, 69u8, 78u8]);
    }
    if bytes_eq(b, lit_5.as_slice()) {
        return Some(WorkflowInstanceState::SequenceFlowTaken);
    }
    let lit_6: [u8; 17] = [71, 65, 84, 69, 87, 65, 89, 95, 65, 67, 84, 73, 86, 65, 84, 69, 68];
    proof {
        assert(lit_6@ =~= seq![71u8, 65u8, 84u8, 69u8, 87u8, 65u8, 89u8, 95u8, 65u8, 67u8, 84u8, 73u8, 86u8, 65u8, 84u8, 69u8, 68u8]);
    }
    if bytes_eq(b, lit_6.as_slice()) {
        return Some(WorkflowInstanceState::GatewayActivated);
    }
    let lit_7: [u8; 14] = [65, 67, 84, 73, 86, 73, 84, 89, 95, 82, 69, 65, 68, 89];
    proof {
        assert(lit_7@ =~= seq![65u8, 67u8, 84u8, 73u8, 86u8, 73u8, 84u8, 89u8, 95u8, 82u8, 69u8, 65u8, 68u8, 89u8]);
    }
    if bytes_eq(b, lit_7.as_slice()) {
        return Some(WorkflowInstanceState::ActivityReady);
    }
    let lit_8: [u8; 18] = [65, 67, 84, 73, 86, 73, 84, 89, 95, 65, 67, 84, 73, 86, 65, 84, 69, 68];
    proof {
        assert(lit_8@ =~= seq![65u8, 67u8, 84u8, 73u8, 86u8, 73u8, 84u8, 89u8, 95u8, 65u8, 67u8, 84u8, 73u8, 86u8, 65u8, 84u8, 69u8, 68u8]);
    }
    if bytes_eq(b, lit_8.as_slice()) {
        return Some(WorkflowInstanceState::ActivityActivated);
    }
    let lit_9: [u8; 19] = [65, 67, 84, 73, 86, 73, 84, 89, 95, 67, 79, 77, 80, 76, 69, 84, 73, 78, 71];
    proof {
        assert(lit_9@ =~= seq![65u8, 67u8, 84u8, 73u8, 86u8, 73u8, 84u8, 89u8, 95u8, 67u8, 79u8, 77u8, 80u8, 76u8, 69u8, 84u8, 73u8, 78u8, 71u8]);
    }
    if bytes_eq(b, lit_9.as_slice()) {
        return Some(WorkflowInstanceState::ActivityCompleting);
    }
    let lit_10: [u8; 18] = [65, 67, 84, 73, 86, 73, 84, 89, 95, 67, 79, 77, 80, 76, 69, 84, 69, 68];
    proof {
        assert(lit_10@ =~= seq![65u8, 67u8, 84u8, 73u8, 86u8, 73u8, 84u8, 89u8, 95u8, 67u8, 79u8, 77u8, 80u8, 76u8, 69u8, 84u8, 69u8, 68u8]);
    }
    if bytes_eq(b, lit_10.as_slice()) {
        return Some(WorkflowInstanceState::ActivityCompleted);
    }
    let lit_11: [u8; 19] = [65, 67, 84, 73, 86, 73, 84, 89, 95, 84, 69, 82, 77, 73, 78, 65, 84, 69, 68];
    proof {
        assert(lit_11@ =~= seq![65u8, 67u8, 84u8, 73u8, 86u8, 73u8, 84u8, 89u8, 95u8, 84u8, 69u8, 82u8, 77u8, 73u8, 78u8, 65u8, 84u8, 69u8, 68u8]);
    }
    if bytes_eq(b, lit_11.as_slice()) {
        return Some(WorkflowInstanceState::ActivityTerminated);
    }
    let lit_12: [u8; 27] = [87, 79, 82, 75, 70, 76, 79, 87, 95, 73, 78, 83, 84, 65, 78, 67, 69, 95, 67, 79, 77, 80, 76, 69, 84, 69, 68];
    proof {
        assert(lit_12@ =~= seq![87u8, 79u8, 82u8, 75u8, 70u8, 76u8, 79u8, 87u8, 95u8, 73u8, 78u8, 83u8, 84u8, 65u8, 78u8, 67u8, 69u8, 95u8, 67u8, 79u8, 77u8, 80u8, 76u8, 69u8, 84u8, 69u8, 68u8]);
    }
    if bytes_eq(b, lit_12.as_slice()) {
        return Some(WorkflowInstanceState::WorkflowInstanceCompleted);
    }
    let lit_13: [u8; 24] = [67, 65, 78, 67, 69, 76, 95, 87, 79, 82, 75, 70, 76, 79, 87, 95, 73, 78, 83, 84, 65, 78, 67, 69];
    proof {
        assert(lit_13@ =~= seq![67u8, 65u8, 78u8, 67u8, 69u8, 76u8, 95u8, 87u8, 79u8, 82u8, 75u8, 70u8, 76u8, 79u8, 87u8, 95u8, 73u8, 78u8, 83u8, 84u8, 65u8, 78u8, 67u8, 69u8]);
    }
    if bytes_eq(b, lit_13.as_slice()) {
        return Some(WorkflowInstanceState::CancelWorkflowInstance);
    }
    let lit_14: [u8; 26] = [87, 79, 82, 75, 70, 76, 79, 87, 95, 73, 78, 83, 84, 65, 78, 67, 69, 95, 67, 65, 78, 67, 69, 76, 69, 68];
    proof {
        assert(lit_14@ =~= seq![87u8, 79u8, 82u8, 75u8, 70u8, 76u8, 79u8, 87u8, 95u8, 73u8, 78u8, 83u8, 84u8, 65u8, 78u8, 67u8, 69u8, 95u8, 67u8, 65u8, 78u8, 67u8, 69u8, 76u8, 69u8, 68u8]);
    }
    if bytes_eq(b, lit_14.as_slice()) {
        return Some(WorkflowInstanceState::WorkflowInstanceCanceled);
    }
    let lit_15: [u8; 33] = [67, 65, 78, 67, 69, 76, 95, 87, 79, 82, 75, 70, 76, 79, 87, 95, 73, 78, 83, 84, 65, 78, 67, 69, 95, 82, 69, 74, 69, 67, 84, 69, 68];
    proof {
        assert(lit_15@ =~= seq![67u8, 65u8, 78u8, 67u8, 69u8, 76u8, 95u8, 87u8, 79u8, 82u8, 75u8, 70u8, 76u8, 79u8, 87u8, 95u8, 73u8, 78u8, 83u8, 84u8, 65u8, 78u8, 67u8, 69u8, 95u8, 82u8, 69u8, 74u8, 69u8, 67u8, 84u8, 69u8, 68u8]);
    }
    if bytes_eq(b, lit_15.as_slice()) {
        return Some(WorkflowInstanceState::CancelWorkflowInstanceRejected);
    }
    let lit_16: [u8; 14] = [85, 80, 68, 65, 84, 69, 95, 80, 65, 89, 76, 79, 65, 68];
    proof {
        assert(lit_16@ =~= seq![85u8, 80u8, 68u8, 65u8, 84u8, 69u8, 95u8, 80u8, 65u8, 89u8, 76u8, 79u8, 65u8, 68u8]);
    }
    if bytes_eq(b, lit_16.as_slice()) {
        return Some(WorkflowInstanceState::UpdatePayload);
    }
    let lit_17: [u8; 15] = [80, 65, 89, 76, 79, 65, 68, 95, 85, 80, 68, 65, 84, 69, 68];
    proof {
        assert(lit_17@ =~= seq![80u8, 65u8, 89u8, 76u8, 79u8, 65u8, 68u8, 95u8, 85u8, 80u8, 68u8, 65u8, 84u8, 69u8, 68u8]);
    }
    if bytes_eq(b, lit_17.as_slice()) {
        return Some(WorkflowInstanceState::PayloadUpdated);
    }
    let lit_18: [u8; 23] = [85, 80, 68, 65, 84, 69, 95, 80, 65, 89, 76, 79, 65, 68, 95, 82, 69, 74, 69, 67, 84, 69, 68];
    proof {
        assert(lit_18@ =~= seq![85u8, 80u8, 68u8, 65u8, 84u8, 69u8, 95u8, 80u8, 65u8, 89u8, 76u8, 79u8, 65u8, 68u8, 95u8, 82u8, 69u8, 74u8, 69u8, 67u8, 84u8, 69u8, 68u8]);
    }
    if bytes_eq(b, lit_18.as_slice()) {
        return Some(WorkflowInstanceState::UpdatePayloadRejected);
    }
    None
}

/// The task routing headers nested inside a task event.
#[derive(Clone, Debug, PartialEq, Eq)]
pub struct TaskHeaders {
    pub workflow_instance_key: i64,
    pub bpmn_process_id: Vec<u8>,
    pub workflow_definition_version: i32,
    pub workflow_key: i64,
    pub activity_id: Vec<u8>,
    pub activity_instance_key: i64,
}

/// The mathematical value of a `TaskHeaders`.
pub struct TaskHeadersView {
    pub workflow_instance_key: i64,
    pub bpmn_process_id: Seq<u8>,
    pub workflow_definition_version: i32,
    pub workflow_key: i64,
    pub activity_id: Seq<u8>,
    pub activity_instance_key: i64,
}

impl View for TaskHeaders {
    type V = TaskHeadersView;

    open spec fn view(&self) -> TaskHeadersView {
        TaskHeadersView {
            workflow_instance_key: self.workflow_instance_key,
            bpmn_process_id: self.bpmn_process_id@,
            workflow_definition_version: self.workflow_definition_version,
            workflow_key: self.workflow_key,
            activity_id: self.activity_id@,
            activity_instance_key: self.activity_instance_key,
        }
    }
}

/// Accumulator for the fields of a task-headers record, in wire order of
/// arrival; `None` marks a field not seen yet.
pub struct TaskHeadersAcc {
    pub workflow_instance_key: Option<i64>,
    pub bpmn_process_id: Option<Seq<u8>>,
    pub workflow_definition_version: Option<i32>,
    pub workflow_key: Option<i64>,
    pub activity_id: Option<Seq<u8>>,
    pub activity_instance_key: Option<i64>,
}

/// The accumulator before any field has been seen.
pub open spec fn task_headers_acc_empty() -> TaskHeadersAcc {
    TaskHeadersAcc {
        workflow_instance_key: None,
        bpmn_process_id: None,
        workflow_definition_version: None,
        workflow_key: None,
        activity_id: None,
        activity_instance_key: None,
    }
}

/// Consumes one key-value entry of a task-headers record at position `q`
/// (just past the key), folding it into the accumulator: a known key sets
/// its field (twice is an error), an unknown key has its value skipped.
pub open spec fn spec_task_headers_entry(s: Seq<u8>, q: int, key: Seq<u8>, acc: TaskHeadersAcc) -> Result<
    (TaskHeadersAcc, int),
    BodyError,
> {
    if key == seq![119u8, 111u8, 114u8, 107u8, 102u8, 108u8, 111u8, 119u8, 73u8, 110u8, 115u8, 116u8, 97u8, 110u8, 99u8, 101u8, 75u8, 101u8, 121u8] {
        if acc.workflow_instance_key is Some {
            Err(BodyError::DuplicateField)
        } else {
            match spec_parse_int(s, q) {
                Err(e) => Err(e),
                Ok((v, q2)) => Ok((TaskHeadersAcc { workflow_instance_key: Some(v), ..acc }, q2)),
            }
        }
    } else if key == seq![98u8, 112u8, 109u8, 110u8, 80u8, 114u8, 111u8, 99u8, 101u8, 115u8, 115u8, 73u8, 100u8] {
        if acc.bpmn_process_id is Some {
            Err(BodyError::DuplicateField)
        } else {
            match spec_parse_str(s, q) {
                Err(e) => Err(e),
                Ok((v, q2)) => Ok((TaskHeadersAcc { bpmn_process_id: Some(v), ..acc }, q2)),
            }
        }
    } else if key == seq![119u8, 111u8, 114u8, 107u8, 102u8, 108u8, 111u8, 119u8, 68u8, 101u8, 102u8, 105u8, 110u8, 105u8, 116u8, 105u8, 111u8, 110u8, 86u8, 101u8, 114u8, 115u8, 105u8, 111u8, 110u8] {
        if acc.workflow_definition_version is Some {
            Err(BodyError::DuplicateField)
        } else {
            match spec_parse_i32(s, q) {
                Err(e) => Err(e),
                Ok((v, q2)) => Ok(
                    (TaskHeadersAcc { workflow_definition_version: Some(v), ..acc }, q2),
                ),
            }
        }
    } else if key == seq![119u8, 111u8, 114u8, 107u8, 102u8, 108u8, 111u8, 119u8, 75u8, 101u8, 121u8] {
        if acc.workflow_key is Some {
            Err(BodyError::DuplicateField)
        } else {
            match spec_parse_int(s, q) {
                Err(e) => Err(e),
                Ok((v, q2)) => Ok((TaskHeadersAcc { workflow_key: Some(v), ..acc }, q2)),
            }
        }
    } else if key == seq![97u8, 99u8, 116u8, 105u8, 118u8, 105u8, 116u8, 121u8, 73u8, 100u8] {
        if acc.activity_id is Some {
            Err(BodyError::DuplicateField)
        } else {
            match spec_parse_str(s, q) {
                Err(e) => Err(e),
                Ok((v, q2)) => Ok((TaskHeadersAcc { activity_id: Some(v), ..acc }, q2)),
            }
        }
    } else if key == seq![97u8, 99u8, 116u8, 105u8, 118u8, 105u8, 116u8, 121u8, 73u8, 110u8, 115u8, 116u8, 97u8, 110u8, 99u8, 101u8, 75u8, 101u8, 121u8] {
        if acc.activity_instance_key is Some {
            Err(BodyError::DuplicateField)
        } else {
            match spec_parse_int(s, q) {
                Err(e) => Err(e),
                Ok((v, q2)) => Ok((TaskHeadersAcc { activity_instance_key: Some(v), ..acc }, q2)),
            }
        }
    } else {
        match spec_skip_value(s, q) {
            Err(e) => Err(e),
            Ok(q2) => Ok((acc, q2)),
        }
    }
}

/// Consumes `n` key-value entries of a task-headers record starting at
/// position `p`.
pub open spec fn spec_task_headers_fields(s: Seq<u8>, p: int, n: int, acc: TaskHeadersAcc) -> Result<
    (TaskHeadersAcc, int),
    BodyError,
>
    decreases s.len() - p, n,
{
    if n <= 0 {
        Ok((acc, p))
    } else {
        let step = match spec_parse_str(s, p) {
            Err(e) => Err(e),
            Ok((key, q)) => spec_task_headers_entry(s, q, key, acc),
        };
        match step {
            Err(e) => Err(e),
            Ok((acc2, q2)) => if p < q2 <= s.len() {
                spec_task_headers_fields(s, q2, n - 1, acc2)
            } else {
                Err(BodyError::Truncated)
            },
        }
    }
}

/// A task-headers record at position `p` of `s`: a map whose known fields
/// are all required.
pub open spec fn spec_parse_task_headers(s: Seq<u8>, p: int) -> Result<(TaskHeadersView, int), BodyError> {
    match spec_parse_map_len(s, p) {
        Err(e) => Err(e),
        Ok((n, q)) => match spec_task_headers_fields(s, q, n, task_headers_acc_empty()) {
            Err(e) => Err(e),
            Ok((acc, end)) => if acc.workflow_instance_key is Some && acc.bpmn_process_id is Some
                && acc.workflow_definition_version is Some && acc.workflow_key is Some
                && acc.activity_id is Some && acc.activity_instance_key is Some {
                Ok(
                    (
                        TaskHeadersView {
                            workflow_instance_key: acc.workflow_instance_key->0,
                            bpmn_process_id: acc.bpmn_process_id->0,
                            workflow_definition_version: acc.workflow_definition_version->0,
                            workflow_key: acc.workflow_key->0,
                            activity_id: acc.activity_id->0,
                            activity_instance_key: acc.activity_instance_key->0,
                        },
                        end,
                    ),
                )
            } else {
                Err(BodyError::MissingField)
            },
        },
    }
}

/// Parses a task-headers record.
#[verifier::loop_isolation(false)]
#[verifier::rlimit(100)]
pub fn parse_task_headers(s: &[u8], p: usize) -> (r: Result<(TaskHeaders, usize), BodyError>)
    ensures
        spec_parse_task_headers(s@, p as int) matches Ok(t) ==> (r matches Ok(e) && e.0@ == t.0
            && e.1 == t.1),
        spec_parse_task_headers(s@, p as int) matches Err(er) ==> (r matches Err(e2) && e2 == er),
        r matches Ok(e) ==> p < e.1 <= s@.len(),
{
    let (n_fields, start) = match parse_map_len(s, p) {
        Ok(t) => t,
        Err(e) => return Err(e),
    };
    let mut cur = start;
    let mut wik: Option<i64> = None;
    let mut bpid: Option<&[u8]> = None;
    let mut wdv: Option<i32> = None;
    let mut wk: Option<i64> = None;
    let mut aid: Option<&[u8]> = None;
    let mut aik: Option<i64> = None;
    let mut i: usize = 0;
    while i < n_fields
        invariant
            0 <= i <= n_fields,
            p < cur <= s@.len(),
            spec_task_headers_fields(s@, start as int, n_fields as int, task_headers_acc_empty())
                == spec_task_headers_fields(
                s@,
                cur as int,
                n_fields - i,
                TaskHeadersAcc {
                    workflow_instance_key: wik,
                    bpmn_process_id: opt_bytes_view(bpid),
                    workflow_definition_version: wdv,
                    workflow_key: wk,
                    activity_id: opt_bytes_view(aid),
                    activity_instance_key: aik,
                },
            ),
        decreases n_fields - i,
    {
        let (key, q) = match parse_str(s, cur) {
            Ok(t) => t,
            Err(e) => return Err(e),
        };
        let k_wik: [u8; 19] = [119, 111, 114, 107, 102, 108, 111, 119, 73, 110, 115, 116, 97, 110, 99, 101, 75, 101, 121];
        let k_bpid: [u8; 13] = [98, 112, 109, 110, 80, 114, 111, 99, 101, 115, 115, 73, 100];
        let k_wdv: [u8; 25] = [119, 111, 114, 107, 102, 108, 111, 119, 68, 101, 102, 105, 110, 105, 116, 105, 111, 110, 86, 101, 114, 115, 105, 111, 110];
        let k_wk: [u8; 11] = [119, 111, 114, 107, 102, 108, 111, 119, 75, 101, 121];
        let k_aid: [u8; 10] = [97, 99, 116, 105, 118, 105, 116, 121, 73, 100];
        let k_aik: [u8; 19] = [97, 99, 116, 105, 118, 105, 116, 121, 73, 110, 115, 116, 97, 110, 99, 101, 75, 101, 121];
        proof {
            assert(k_wik@ =~= seq![119u8, 111u8, 114u8, 107u8, 102u8, 108u8, 111u8, 119u8, 73u8, 110u8, 115u8, 116u8, 97u8, 110u8, 99u8, 101u8, 75u8, 101u8, 121u8]);
            assert(k_bpid@ =~= seq![98u8, 112u8, 109u8, 110u8, 80u8, 114u8, 111u8, 99u8, 101u8, 115u8, 115u8, 73u8, 100u8]);
            assert(k_wdv@ =~= seq![119u8, 111u8, 114u8, 107u8, 102u8, 108u8, 111u8, 119u8, 68u8, 101u8, 102u8, 105u8, 110u8, 105u8, 116u8, 105u8, 111u8, 110u8, 86u8, 101u8, 114u8, 115u8, 105u8, 111u8, 110u8]);
            assert(k_wk@ =~= seq![119u8, 111u8, 114u8, 107u8, 102u8, 108u8, 111u8, 119u8, 75u8, 101u8, 121u8]);
            assert(k_aid@ =~= seq![97u8, 99u8, 116u8, 105u8, 118u8, 105u8, 116u8, 121u8, 73u8, 100u8]);
            assert(k_aik@ =~= seq![97u8, 99u8, 116u8, 105u8, 118u8, 105u8, 116u8, 121u8, 73u8, 110u8, 115u8, 116u8, 97u8, 110u8, 99u8, 101u8, 75u8, 101u8, 121u8]);
        }
        if bytes_eq(key, k_wik.as_slice()) {
            if wik.is_some() {
                return Err(BodyError::DuplicateField);
            }
            let (v, q2) = match parse_int(s, q) {
                Ok(t) => t,
                Err(e) => return Err(e),
            };
            wik = Some(v);
            cur = q2;
        } else if bytes_eq(key, k_bpid.as_slice()) {
            if bpid.is_some() {
                return Err(BodyError::DuplicateField);
            }
            let (v, q2) = match parse_str(s, q) {
                Ok(t) => t,
                Err(e) => return Err(e),
            };
            bpid = Some(v);
            cur = q2;
        } else if bytes_eq(key, k_wdv.as_slice()) {
            if wdv.is_some() {
                return Err(BodyError::DuplicateField);
            }
            let (v, q2) = match parse_i32(s, q) {
                Ok(t) => t,
                Err(e) => return Err(e),
            };
            wdv = Some(v);
            cur = q2;
        } else if bytes_eq(key, k_wk.as_slice()) {
            if wk.is_some() {
                return Err(BodyError::DuplicateField);
            }
            let (v, q2) = match parse_int(s, q) {
                Ok(t) => t,
                Err(e) => return Err(e),
            };
            wk = Some(v);
            cur = q2;
        } else if bytes_eq(key, k_aid.as_slice()) {
            if aid.is_some() {
                return Err(BodyError::DuplicateField);
            }
            let (v, q2) = match parse_str(s, q) {
                Ok(t) => t,
                Err(e) => return Err(e),
            };
            aid = Some(v);
            cur = q2;
        } else if bytes_eq(key, k_aik.as_slice()) {
            if aik.is_some() {
                return Err(BodyError::DuplicateField);
            }
            let (v, q2) = match parse_int(s, q) {
                Ok(t) => t,
                Err(e) => return Err(e),
            };
            aik = Some(v);
            cur = q2;
        } else {
            let q2 = match skip_value(s, q) {
                Ok(t) => t,
                Err(e) => return Err(e),
            };
            cur = q2;
        }
        i = i + 1;
    }
    let workflow_instance_key = match wik {
        Some(v) => v,
        None => return Err(BodyError::MissingField),
    };
    let bpmn_process_id = match bpid {
        Some(v) => slice_to_vec(v),
        None => return Err(BodyError::MissingField),
    };
    let workflow_definition_version = match wdv {
        Some(v) => v,
        None => return Err(BodyError::MissingField),
    };
    let workflow_key = match wk {
        Some(v) => v,
        None => return Err(BodyError::MissingField),
    };
    let activity_id = match aid {
        Some(v) => slice_to_vec(v),
        None => return Err(BodyError::MissingField),
    };
    let activity_instance_key = match aik {
        Some(v) => v,
        None => return Err(BodyError::MissingField),
    };
    Ok(
        (
            TaskHeaders {
                workflow_instance_key,
                bpmn_process_id,
                workflow_definition_version,
                workflow_key,
                activity_id,
                activity_instance_key,
            },
            cur,
        ),
    )
}

/// The view of a list of byte-string pairs.
pub open spec fn pairs_view(v: Seq<(Vec<u8>, Vec<u8>)>) -> Seq<(Seq<u8>, Seq<u8>)> {
    v.map_values(|pr: (Vec<u8>, Vec<u8>)| (pr.0@, pr.1@))
}

/// Consumes `n` key-value entries of a string-to-string map, keeping the
/// pairs in wire order.
pub open spec fn spec_parse_str_pairs(
    s: Seq<u8>,
    p: int,
    n: int,
    acc: Seq<(Seq<u8>, Seq<u8>)>,
) -> Result<(Seq<(Seq<u8>, Seq<u8>)>, int), BodyError>
    decreases s.len() - p, n,
{
    if n <= 0 {
        Ok((acc, p))
    } else {
        match spec_parse_str(s, p) {
            Err(e) => Err(e),
            Ok((k, q)) => match spec_parse_str(s, q) {
                Err(e) => Err(e),
                Ok((v, q2)) => if p < q2 <= s.len() {
                    spec_parse_str_pairs(s, q2, n - 1, acc.push((k, v)))
                } else {
                    Err(BodyError::Truncated)
                },
            },
        }
    }
}

/// A string-to-string map value at position `p` of `s`.
pub open spec fn spec_parse_str_map(s: Seq<u8>, p: int) -> Result<
    (Seq<(Seq<u8>, Seq<u8>)>, int),
    BodyError,
> {
    match spec_parse_map_len(s, p) {
        Err(e) => Err(e),
        Ok((n, q)) => spec_parse_str_pairs(s, q, n, Seq::empty()),
    }
}

/// Parses a string-to-string map value.
#[verifier::loop_isolation(false)]
fn parse_str_map(s: &[u8], p: usize) -> (r: Result<(Vec<(Vec<u8>, Vec<u8>)>, usize), BodyError>)
    ensures
        spec_parse_str_map(s@, p as int) matches Ok(t) ==> (r matches Ok(e) && pairs_view(e.0@)
            == t.0 && e.1 == t.1),
        spec_parse_str_map(s@, p as int) matches Err(er) ==> (r matches Err(e2) && e2 == er),
        r matches Ok(e) ==> p < e.1 <= s@.len(),
{
    let (n_pairs, start) = match parse_map_len(s, p) {
        Ok(t) => t,
        Err(e) => return Err(e),
    };
    let mut cur = start;
    let mut out: Vec<(Vec<u8>, Vec<u8>)> = Vec::new();
    proof {
        assert(pairs_view(out@) =~= Seq::<(Seq<u8>, Seq<u8>)>::empty());
    }
    let mut i: usize = 0;
    while i < n_pairs
        invariant
            0 <= i <= n_pairs,
            p < cur <= s@.len(),
            spec_parse_str_pairs(s@, start as int, n_pairs as int, Seq::empty())
                == spec_parse_str_pairs(s@, cur as int, n_pairs - i, pairs_view(out@)),
        decreases n_pairs - i,
    {
        let (k, q) = match parse_str(s, cur) {
            Ok(t) => t,
            Err(e) => return Err(e),
        };
        let (v, q2) = match parse_str(s, q) {
            Ok(t) => t,
            Err(e) => return Err(e),
        };
        let ghost acc_before = pairs_view(out@);
        out.push((slice_to_vec(k), slice_to_vec(v)));
        proof {
            assert(pairs_view(out@) =~= acc_before.push((k@, v@)));
        }
        cur = q2;
        i = i + 1;
    }
    Ok((out, cur))
}

/// A task lifecycle event body.
#[derive(Clone, Debug, PartialEq, Eq)]
pub struct TaskEvent {
    pub state: TaskState,
    pub lock_time: i64,
    pub retries: i32,
    pub task_type: Vec<u8>,
    pub headers: TaskHeaders,
    pub custom_headers: Vec<(Vec<u8>, Vec<u8>)>,
    pub payload: Vec<u8>,
}

/// The mathematical value of a `TaskEvent`.
pub struct TaskEventView {
    pub state: TaskState,
    pub lock_time: i64,
    pub retries: i32,
    pub task_type: Seq<u8>,
    pub headers: TaskHeadersView,
    pub custom_headers: Seq<(Seq<u8>, Seq<u8>)>,
    pub payload: Seq<u8>,
}

impl View for TaskEvent {
    type V = TaskEventView;

    open spec fn view(&self) -> TaskEventView {
        TaskEventView {
            state: self.state,
            lock_time: self.lock_time,
            retries: self.retries,
            task_type: self.task_type@,
            headers: self.headers@,
            custom_headers: pairs_view(self.custom_headers@),
            payload: self.payload@,
        }
    }
}

/// Accumulator for the fields of a task-event record.
pub struct TaskAcc {
    pub state: Option<TaskState>,
    pub lock_time: Option<i64>,
    pub retries: Option<i32>,
    pub task_type: Option<Seq<u8>>,
    pub headers: Option<TaskHeadersView>,
    pub custom_headers: Option<Seq<(Seq<u8>, Seq<u8>)>>,
    pub payload: Option<Seq<u8>>,
}

/// The accumulator before any field has been seen.
pub open spec fn task_acc_empty() -> TaskAcc {
    TaskAcc {
        state: None,
        lock_time: None,
        retries: None,
        task_type: None,
        headers: None,
        custom_headers: None,
        payload: None,
    }
}

/// Consumes one key-value entry of a task-event record at position `q`
/// (just past the key), folding it into the accumulator.
pub open spec fn spec_task_entry(s: Seq<u8>, q: int, key: Seq<u8>, acc: TaskAcc) -> Result<
    (TaskAcc, int),
    BodyError,
> {
    if key == seq![115u8, 116u8, 97u8, 116u8, 101u8] {
        if acc.state is Some {
            Err(BodyError::DuplicateField)
        } else {
            match spec_parse_str(s, q) {
                Err(e) => Err(e),
                Ok((sv, q2)) => match spec_task_state_of(sv) {
                    None => Err(BodyError::UnknownStateLiteral),
                    Some(st) => Ok((TaskAcc { state: Some(st), ..acc }, q2)),
                },
            }
        }
    } else if key == seq![108u8, 111u8, 99u8, 107u8, 84u8, 105u8, 109u8, 101u8] {
        if acc.lock_time is Some {
            Err(BodyError::DuplicateField)
        } else {
            match spec_parse_int(s, q) {
                Err(e) => Err(e),
                Ok((v, q2)) => Ok((TaskAcc { lock_time: Some(v), ..acc }, q2)),
            }
        }
    } else if key == seq![114u8, 101u8, 116u8, 114u8, 105u8, 101u8, 115u8] {
        if acc.retries is Some {
            Err(BodyError::DuplicateField)
        } else {
            match spec_parse_i32(s, q) {
                Err(e) => Err(e),
                Ok((v, q2)) => Ok((TaskAcc { retries: Some(v), ..acc }, q2)),
            }
        }
    } else if key == seq![116u8, 121u8, 112u8, 101u8] {
        if acc.task_type is Some {
            Err(BodyError::DuplicateField)
        } else {
            match spec_parse_str(s, q) {
                Err(e) => Err(e),
                Ok((v, q2)) => Ok((TaskAcc { task_type: Some(v), ..acc }, q2)),
            }
        }
    } else if key == seq![104u8, 101u8, 97u8, 100u8, 101u8, 114u8, 115u8] {
        if acc.headers is Some {
            Err(BodyError::DuplicateField)
        } else {
            match spec_parse_task_headers(s, q) {
                Err(e) => Err(e),
                Ok((v, q2)) => Ok((TaskAcc { headers: Some(v), ..acc }, q2)),
            }
        }
    } else if key == seq![99u8, 117u8, 115u8, 116u8, 111u8, 109u8, 72u8, 101u8, 97u8, 100u8, 101u8, 114u8, 115u8] {
        if acc.custom_headers is Some {
            Err(BodyError::DuplicateField)
        } else {
            match spec_parse_str_map(s, q) {
                Err(e) => Err(e),
                Ok((v, q2)) => Ok((TaskAcc { custom_headers: Some(v), ..acc }, q2)),
            }
        }
    } else if key == seq![112u8, 97u8, 121u8, 108u8, 111u8, 97u8, 100u8] {
        if acc.payload is Some {
            Err(BodyError::DuplicateField)
        } else {
            match spec_parse_bin(s, q) {
                Err(e) => Err(e),
                Ok((v, q2)) => Ok((TaskAcc { payload: Some(v), ..acc }, q2)),
            }
        }
    } else {
        match spec_skip_value(s, q) {
            Err(e) => Err(e),
            Ok(q2) => Ok((acc, q2)),
        }
    }
}

/// Consumes `n` key-value entries of a task-event record starting at
/// position `p`.
pub open spec fn spec_task_fields(s: Seq<u8>, p: int, n: int, acc: TaskAcc) -> Result<
    (TaskAcc, int),
    BodyError,
>
    decreases s.len() - p, n,
{
    if n <= 0 {
        Ok((acc, p))
    } else {
        let step = match spec_parse_str(s, p) {
            Err(e) => Err(e),
            Ok((key, q)) => spec_task_entry(s, q, key, acc),
        };
        match step {
            Err(e) => Err(e),
            Ok((acc2, q2)) => if p < q2 <= s.len() {
                spec_task_fields(s, q2, n - 1, acc2)
            } else {
                Err(BodyError::Truncated)
            },
        }
    }
}

/// A whole task-event record: a map whose fields are all required.
pub open spec fn spec_parse_task_event(s: Seq<u8>) -> Result<TaskEventView, BodyError> {
    match spec_parse_map_len(s, 0) {
        Err(e) => Err(e),
        Ok((n, q)) => match spec_task_fields(s, q, n, task_acc_empty()) {
            Err(e) => Err(e),
            Ok((acc, _end)) => if acc.state is Some && acc.lock_time is Some && acc.retries
                is Some && acc.task_type is Some && acc.headers is Some && acc.custom_headers
                is Some && acc.payload is Some {
                Ok(
                    TaskEventView {
                        state: acc.state->0,
                        lock_time: acc.lock_time->0,
                        retries: acc.retries->0,
                        task_type: acc.task_type->0,
                        headers: acc.headers->0,
                        custom_headers: acc.custom_headers->0,
                        payload: acc.payload->0,
                    },
                )
            } else {
                Err(BodyError::MissingField)
            },
        },
    }
}

/// In-progress fields of a task-event record, borrowed from the payload
/// where possible.
struct TaskPartial<'p> {
    state: Option<TaskState>,
    lock_time: Option<i64>,
    retries: Option<i32>,
    task_type: Option<&'p [u8]>,
    headers: Option<TaskHeaders>,
    custom_headers: Option<Vec<(Vec<u8>, Vec<u8>)>>,
    payload: Option<&'p [u8]>,
}

/// The view of in-progress task-event fields as an accumulator.
spec fn task_partial_view(a: TaskPartial<'_>) -> TaskAcc {
    TaskAcc {
        state: a.state,
        lock_time: a.lock_time,
        retries: a.retries,
        task_type: opt_bytes_view(a.task_type),
        headers: match a.headers {
            Some(h) => Some(h@),
            None => None,
        },
        custom_headers: match a.custom_headers {
            Some(v) => Some(pairs_view(v@)),
            None => None,
        },
        payload: opt_bytes_view(a.payload),
    }
}

/// Consumes one key-value entry of a task-event record.
#[verifier::rlimit(100)]
fn task_entry<'p>(s: &'p [u8], q: usize, key: &[u8], acc: TaskPartial<'p>) -> (r: Result<
    (TaskPartial<'p>, usize),
    BodyError,
>)
    ensures
        spec_task_entry(s@, q as int, key@, task_partial_view(acc)) matches Ok(t) ==> (r matches
            Ok(e) && task_partial_view(e.0) == t.0 && e.1 == t.1),
        spec_task_entry(s@, q as int, key@, task_partial_view(acc)) matches Err(er) ==> (r matches
            Err(e2) && e2 == er),
        r matches Ok(e) ==> q < e.1 <= s@.len(),
{
    let k_state: [u8; 5] = [115, 116, 97, 116, 101];
    let k_lock_time: [u8; 8] = [108, 111, 99, 107, 84, 105, 109, 101];
    let k_retries: [u8; 7] = [114, 101, 116, 114, 105, 101, 115];
    let k_type: [u8; 4] = [116, 121, 112, 101];
    let k_headers: [u8; 7] = [104, 101, 97, 100, 101, 114, 115];
    let k_custom: [u8; 13] = [99, 117, 115, 116, 111, 109, 72, 101, 97, 100, 101, 114, 115];
    let k_payload: [u8; 7] = [112, 97, 121, 108, 111, 97, 100];
    proof {
        assert(k_state@ =~= seq![115u8, 116u8, 97u8, 116u8, 101u8]);
        assert(k_lock_time@ =~= seq![108u8, 111u8, 99u8, 107u8, 84u8, 105u8, 109u8, 101u8]);
        assert(k_retries@ =~= seq![114u8, 101u8, 116u8, 114u8, 105u8, 101u8, 115u8]);
        assert(k_type@ =~= seq![116u8, 121u8, 112u8, 101u8]);
        assert(k_headers@ =~= seq![104u8, 101u8, 97u8, 100u8, 101u8, 114u8, 115u8]);
        assert(k_custom@ =~= seq![99u8, 117u8, 115u8, 116u8, 111u8, 109u8, 72u8, 101u8, 97u8, 100u8, 101u8, 114u8, 115u8]);
        assert(k_payload@ =~= seq![112u8, 97u8, 121u8, 108u8, 111u8, 97u8, 100u8]);
    }
    if bytes_eq(key, k_state.as_slice()) {
        if acc.state.is_some() {
            return Err(BodyError::DuplicateField);
        }
        let (sv, q2) = match parse_str(s, q) {
            Ok(t) => t,
            Err(e) => return Err(e),
        };
        match task_state_of(sv) {
            None => Err(BodyError::UnknownStateLiteral),
            Some(st) => Ok((TaskPartial { state: Some(st), ..acc }, q2)),
        }
    } else if bytes_eq(key, k_lock_time.as_slice()) {
        if acc.lock_time.is_some() {
            return Err(BodyError::DuplicateField);
        }
        match parse_int(s, q) {
            Ok((v, q2)) => Ok((TaskPartial { lock_time: Some(v), ..acc }, q2)),
            Err(e) => Err(e),
        }
    } else if bytes_eq(key, k_retries.as_slice()) {
        if acc.retries.is_some() {
            return Err(BodyError::DuplicateField);
        }
        match parse_i32(s, q) {
            Ok((v, q2)) => Ok((TaskPartial { retries: Some(v), ..acc }, q2)),
            Err(e) => Err(e),
        }
    } else if bytes_eq(key, k_type.as_slice()) {
        if acc.task_type.is_some() {
            return Err(BodyError::DuplicateField);
        }
        match parse_str(s, q) {
            Ok((v, q2)) => Ok((TaskPartial { task_type: Some(v), ..acc }, q2)),
            Err(e) => Err(e),
        }
    } else if bytes_eq(key, k_headers.as_slice()) {
        if acc.headers.is_some() {
            return Err(BodyError::DuplicateField);
        }
        match parse_task_headers(s, q) {
            Ok((v, q2)) => Ok((TaskPartial { headers: Some(v), ..acc }, q2)),
            Err(e) => Err(e),
        }
    } else if bytes_eq(key, k_custom.as_slice()) {
        if acc.custom_headers.is_some() {
            return Err(BodyError::DuplicateField);
        }
        match parse_str_map(s, q) {
            Ok((v, q2)) => Ok((TaskPartial { custom_headers: Some(v), ..acc }, q2)),
            Err(e) => Err(e),
        }
    } else if bytes_eq(key, k_payload.as_slice()) {
        if acc.payload.is_some() {
            return Err(BodyError::DuplicateField);
        }
        match parse_bin(s, q) {
            Ok((v, q2)) => Ok((TaskPartial { payload: Some(v), ..acc }, q2)),
            Err(e) => Err(e),
        }
    } else {
        match skip_value(s, q) {
            Ok(q2) => Ok((acc, q2)),
            Err(e) => Err(e),
        }
    }
}

/// Parses a whole task-event record from a payload.
#[verifier::loop_isolation(false)]
#[verifier::rlimit(60)]
pub fn parse_task_event(s: &[u8]) -> (r: Result<TaskEvent, BodyError>)
    ensures
        spec_parse_task_event(s@) matches Ok(v) ==> (r matches Ok(ev) && ev@ == v),
        spec_parse_task_event(s@) matches Err(er) ==> (r matches Err(e2) && e2 == er),
{
    let (n_fields, start) = match parse_map_len(s, 0) {
        Ok(t) => t,
        Err(e) => return Err(e),
    };
    let mut cur = start;
    let mut acc = TaskPartial {
        state: None,
        lock_time: None,
        retries: None,
        task_type: None,
        headers: None,
        custom_headers: None,
        payload: None,
    };
    let mut i: usize = 0;
    while i < n_fields
        invariant
            0 <= i <= n_fields,
            0 < cur <= s@.len(),
            spec_task_fields(s@, start as int, n_fields as int, task_acc_empty())
                == spec_task_fields(s@, cur as int, n_fields - i, task_partial_view(acc)),
        decreases n_fields - i,
    {
        let (key, q) = match parse_str(s, cur) {
            Ok(t) => t,
            Err(e) => return Err(e),
        };
        let (acc2, q2) = match task_entry(s, q, key, acc) {
            Ok(t) => t,
            Err(e) => return Err(e),
        };
        acc = acc2;
        cur = q2;
        i = i + 1;
    }
    let state = match acc.state {
        Some(v) => v,
        None => return Err(BodyError::MissingField),
    };
    let lock_time = match acc.lock_time {
        Some(v) => v,
        None => return Err(BodyError::MissingField),
    };
    let retries = match acc.retries {
        Some(v) => v,
        None => return Err(BodyError::MissingField),
    };
    let task_type = match acc.task_type {
        Some(v) => slice_to_vec(v),
        None => return Err(BodyError::MissingField),
    };
    let headers = match acc.headers {
        Some(v) => v,
        None => return Err(BodyError::MissingField),
    };
    let custom_headers = match acc.custom_headers {
        Some(v) => v,
        None => return Err(BodyError::MissingField),
    };
    let payload = match acc.payload {
        Some(v) => slice_to_vec(v),
        None => return Err(BodyError::MissingField),
    };
    Ok(TaskEvent { state, lock_time, retries, task_type, headers, custom_headers, payload })
}

/// A workflow definition event body.
#[derive(Clone, Debug, PartialEq, Eq)]
pub struct WorkflowEvent {
    pub bpmn_process_id: Vec<u8>,
    pub version: i32,
    pub bpmn_xml: Vec<u8>,
    pub deployment_key: i64,
}

/// The mathematical value of a `WorkflowEvent`.
pub struct WorkflowEventView {
    pub bpmn_process_id: Seq<u8>,
    pub version: i32,
    pub bpmn_xml: Seq<u8>,
    pub deployment_key: i64,
}

impl View for WorkflowEvent {
    type V = WorkflowEventView;

    open spec fn view(&self) -> WorkflowEventView {
        WorkflowEventView {
            bpmn_process_id: self.bpmn_process_id@,
            version: self.version,
            bpmn_xml: self.bpmn_xml@,
            deployment_key: self.deployment_key,
        }
    }
}

/// Accumulator for the fields of a workflow-event record.
pub struct WorkflowAcc {
    pub bpmn_process_id: Option<Seq<u8>>,
    pub version: Option<i32>,
    pub bpmn_xml: Option<Seq<u8>>,
    pub deployment_key: Option<i64>,
}

/// The accumulator before any field has been seen.
pub open spec fn workflow_acc_empty() -> WorkflowAcc {
    WorkflowAcc { bpmn_process_id: None, version: None, bpmn_xml: None, deployment_key: None }
}

/// Consumes one key-value entry of a workflow-event record at position `q`
/// (just past the key), folding it into the accumulator.
pub open spec fn spec_workflow_entry(s: Seq<u8>, q: int, key: Seq<u8>, acc: WorkflowAcc) -> Result<
    (WorkflowAcc, int),
    BodyError,
> {
    if key == seq![98u8, 112u8, 109u8, 110u8, 80u8, 114u8, 111u8, 99u8, 101u8, 115u8, 115u8, 73u8, 100u8] {
        if acc.bpmn_process_id is Some {
            Err(BodyError::DuplicateField)
        } else {
            match spec_parse_str(s, q) {
                Err(e) => Err(e),
                Ok((v, q2)) => Ok((WorkflowAcc { bpmn_process_id: Some(v), ..acc }, q2)),
            }
        }
    } else if key == seq![118u8, 101u8, 114u8, 115u8, 105u8, 111u8, 110u8] {
        if acc.version is Some {
            Err(BodyError::DuplicateField)
        } else {
            match spec_parse_i32(s, q) {
                Err(e) => Err(e),
                Ok((v, q2)) => Ok((WorkflowAcc { version: Some(v), ..acc }, q2)),
            }
        }
    } else if key == seq![98u8, 112u8, 109u8, 110u8, 88u8, 109u8, 108u8] {
        if acc.bpmn_xml is Some {
            Err(BodyError::DuplicateField)
        } else {
            match spec_parse_bin(s, q) {
                Err(e) => Err(e),
                Ok((v, q2)) => Ok((WorkflowAcc { bpmn_xml: Some(v), ..acc }, q2)),
            }
        }
    } else if key == seq![100u8, 101u8, 112u8, 108u8, 111u8, 121u8, 109u8, 101u8, 110u8, 116u8, 75u8, 101u8, 121u8] {
        if acc.deployment_key is Some {
            Err(BodyError::DuplicateField)
        } else {
            match spec_parse_int(s, q) {
                Err(e) => Err(e),
                Ok((v, q2)) => Ok((WorkflowAcc { deployment_key: Some(v), ..acc }, q2)),
            }
        }
    } else {
        match spec_skip_value(s, q) {
            Err(e) => Err(e),
            Ok(q2) => Ok((acc, q2)),
        }
    }
}

/// Consumes `n` key-value entries of a workflow-event record starting at
/// position `p`.
pub open spec fn spec_workflow_fields(s: Seq<u8>, p: int, n: int, acc: WorkflowAcc) -> Result<
    (WorkflowAcc, int),
    BodyError,
>
    decreases s.len() - p, n,
{
    if n <= 0 {
        Ok((acc, p))
    } else {
        let step = match spec_parse_str(s, p) {
            Err(e) => Err(e),
            Ok((key, q)) => spec_workflow_entry(s, q, key, acc),
        };
        match step {
            Err(e) => Err(e),
            Ok((acc2, q2)) => if p < q2 <= s.len() {
                spec_workflow_fields(s, q2, n - 1, acc2)
            } else {
                Err(BodyError::Truncated)
            },
        }
    }
}

/// A whole workflow-event record: a map whose fields are all required.
pub open spec fn spec_parse_workflow_event(s: Seq<u8>) -> Result<WorkflowEventView, BodyError> {
    match spec_parse_map_len(s, 0) {
        Err(e) => Err(e),
        Ok((n, q)) => match spec_workflow_fields(s, q, n, workflow_acc_empty()) {
            Err(e) => Err(e),
            Ok((acc, _end)) => if acc.bpmn_process_id is Some && acc.version is Some
                && acc.bpmn_xml is Some && acc.deployment_key is Some {
                Ok(
                    WorkflowEventView {
                        bpmn_process_id: acc.bpmn_process_id->0,
                        version: acc.version->0,
                        bpmn_xml: acc.bpmn_xml->0,
                        deployment_key: acc.deployment_key->0,
                    },
                )
            } else {
                Err(BodyError::MissingField)
            },
        },
    }
}

/// In-progress fields of a workflow-event record.
struct WorkflowPartial<'p> {
    bpmn_process_id: Option<&'p [u8]>,
    version: Option<i32>,
    bpmn_xml: Option<&'p [u8]>,
    deployment_key: Option<i64>,
}

/// The view of in-progress workflow-event fields as an accumulator.
spec fn workflow_partial_view(a: WorkflowPartial<'_>) -> WorkflowAcc {
    WorkflowAcc {
        bpmn_process_id: opt_bytes_view(a.bpmn_process_id),
        version: a.version,
        bpmn_xml: opt_bytes_view(a.bpmn_xml),
        deployment_key: a.deployment_key,
    }
}

/// Consumes one key-value entry of a workflow-event record.
#[verifier::rlimit(100)]
fn workflow_entry<'p>(s: &'p [u8], q: usize, key: &[u8], acc: WorkflowPartial<'p>) -> (r: Result<
    (WorkflowPartial<'p>, usize),
    BodyError,
>)
    ensures
        spec_workflow_entry(s@, q as int, key@, workflow_partial_view(acc)) matches Ok(t) ==> (r
            matches Ok(e) && workflow_partial_view(e.0) == t.0 && e.1 == t.1),
        spec_workflow_entry(s@, q as int, key@, workflow_partial_view(acc)) matches Err(er) ==> (r
            matches Err(e2) && e2 == er),
        r matches Ok(e) ==> q < e.1 <= s@.len(),
{
    let k_bpid: [u8; 13] = [98, 112, 109, 110, 80, 114, 111, 99, 101, 115, 115, 73, 100];
    let k_version: [u8; 7] = [118, 101, 114, 115, 105, 111, 110];
    let k_xml: [u8; 7] = [98, 112, 109, 110, 88, 109, 108];
    let k_depkey: [u8; 13] = [100, 101, 112, 108, 111, 121, 109, 101, 110, 116, 75, 101, 121];
    proof {
        assert(k_bpid@ =~= seq![98u8, 112u8, 109u8, 110u8, 80u8, 114u8, 111u8, 99u8, 101u8, 115u8, 115u8, 73u8, 100u8]);
        assert(k_version@ =~= seq![118u8, 101u8, 114u8, 115u8, 105u8, 111u8, 110u8]);
        assert(k_xml@ =~= seq![98u8, 112u8, 109u8, 110u8, 88u8, 109u8, 108u8]);
        assert(k_depkey@ =~= seq![100u8, 101u8, 112u8, 108u8, 111u8, 121u8, 109u8, 101u8, 110u8, 116u8, 75u8, 101u8, 121u8]);
    }
    if bytes_eq(key, k_bpid.as_slice()) {
        if acc.bpmn_process_id.is_some() {
            return Err(BodyError::DuplicateField);
        }
        match parse_str(s, q) {
            Ok((v, q2)) => Ok((WorkflowPartial { bpmn_process_id: Some(v), ..acc }, q2)),
            Err(e) => Err(e),
        }
    } else if bytes_eq(key, k_version.as_slice()) {
        if acc.version.is_some() {
            return Err(BodyError::DuplicateField);
        }
        match parse_i32(s, q) {
            Ok((v, q2)) => Ok((WorkflowPartial { version: Some(v), ..acc }, q2)),
            Err(e) => Err(e),
        }
    } else if bytes_eq(key, k_xml.as_slice()) {
        if acc.bpmn_xml.is_some() {
            return Err(BodyError::DuplicateField);
        }
        match parse_bin(s, q) {
            Ok((v, q2)) => Ok((WorkflowPartial { bpmn_xml: Some(v), ..acc }, q2)),
            Err(e) => Err(e),
        }
    } else if bytes_eq(key, k_depkey.as_slice()) {
        if acc.deployment_key.is_some() {
            return Err(BodyError::DuplicateField);
        }
        match parse_int(s, q) {
            Ok((v, q2)) => Ok((WorkflowPartial { deployment_key: Some(v), ..acc }, q2)),
            Err(e) => Err(e),
        }
    } else {
        match skip_value(s, q) {
            Ok(q2) => Ok((acc, q2)),
            Err(e) => Err(e),
        }
    }
}

/// Parses a whole workflow-event record from a payload.
#[verifier::loop_isolation(false)]
#[verifier::rlimit(60)]
pub fn parse_workflow_event(s: &[u8]) -> (r: Result<WorkflowEvent, BodyError>)
    ensures
        spec_parse_workflow_event(s@) matches Ok(v) ==> (r matches Ok(ev) && ev@ == v),
        spec_parse_workflow_event(s@) matches Err(er) ==> (r matches Err(e2) && e2 == er),
{
    let (n_fields, start) = match parse_map_len(s, 0) {
        Ok(t) => t,
        Err(e) => return Err(e),
    };
    let mut cur = start;
    let mut acc = WorkflowPartial {
        bpmn_process_id: None,
        version: None,
        bpmn_xml: None,
        deployment_key: None,
    };
    let mut i: usize = 0;
    while i < n_fields
        invariant
            0 <= i <= n_fields,
            0 < cur <= s@.len(),
            spec_workflow_fields(s@, start as int, n_fields as int, workflow_acc_empty())
                == spec_workflow_fields(s@, cur as int, n_fields - i, workflow_partial_view(acc)),
        decreases n_fields - i,
    {
        let (key, q) = match parse_str(s, cur) {
            Ok(t) => t,
            Err(e) => return Err(e),
        };
        let (acc2, q2) = match workflow_entry(s, q, key, acc) {
            Ok(t) => t,
            Err(e) => return Err(e),
        };
        acc = acc2;
        cur = q2;
        i = i + 1;
    }
    let bpmn_process_id = match acc.bpmn_process_id {
        Some(v) => slice_to_vec(v),
        None => return Err(BodyError::MissingField),
    };
    let version = match acc.version {
        Some(v) => v,
        None => return Err(BodyError::MissingField),
    };
    let bpmn_xml = match acc.bpmn_xml {
        Some(v) => slice_to_vec(v),
        None => return Err(BodyError::MissingField),
    };
    let deployment_key = match acc.deployment_key {
        Some(v) => v,
        None => return Err(BodyError::MissingField),
    };
    Ok(WorkflowEvent { bpmn_process_id, version, bpmn_xml, deployment_key })
}

/// A workflow-instance lifecycle event body. The activity id is optional on
/// the wire: absent or nil both decode to `None`.
#[derive(Clone, Debug, PartialEq, Eq)]
pub struct WorkflowInstanceEvent {
    pub state: WorkflowInstanceState,
    pub bpmn_process_id: Vec<u8>,
    pub version: i32,
    pub workflow_key: i64,
    pub workflow_instance_key: i64,
    pub activity_id: Option<Vec<u8>>,
    pub payload: Vec<u8>,
}

/// The mathematical value of a `WorkflowInstanceEvent`.
pub struct WorkflowInstanceEventView {
    pub state: WorkflowInstanceState,
    pub bpmn_process_id: Seq<u8>,
    pub version: i32,
    pub workflow_key: i64,
    pub workflow_instance_key: i64,
    pub activity_id: Option<Seq<u8>>,
    pub payload: Seq<u8>,
}

impl View for WorkflowInstanceEvent {
    type V = WorkflowInstanceEventView;

    open spec fn view(&self) -> WorkflowInstanceEventView {
        WorkflowInstanceEventView {
            state: self.state,
            bpmn_process_id: self.bpmn_process_id@,
            version: self.version,
            workflow_key: self.workflow_key,
            workflow_instance_key: self.workflow_instance_key,
            activity_id: match self.activity_id {
                Some(v) => Some(v@),
                None => None,
            },
            payload: self.payload@,
        }
    }
}

/// Accumulator for the fields of a workflow-instance-event record. The
/// activity id distinguishes "not seen" from "seen as nil".
pub struct WorkflowInstanceAcc {
    pub state: Option<WorkflowInstanceState>,
    pub bpmn_process_id: Option<Seq<u8>>,
    pub version: Option<i32>,
    pub workflow_key: Option<i64>,
    pub workflow_instance_key: Option<i64>,
    pub activity_id: Option<Option<Seq<u8>>>,
    pub payload: Option<Seq<u8>>,
}

/// The accumulator before any field has been seen.
pub open spec fn workflow_instance_acc_empty() -> WorkflowInstanceAcc {
    WorkflowInstanceAcc {
        state: None,
        bpmn_process_id: None,
        version: None,
        workflow_key: None,
        workflow_instance_key: None,
        activity_id: None,
        payload: None,
    }
}

/// Consumes one key-value entry of a workflow-instance-event record at
/// position `q` (just past the key), folding it into the accumulator.
pub open spec fn spec_workflow_instance_entry(
    s: Seq<u8>,
    q: int,
    key: Seq<u8>,
    acc: WorkflowInstanceAcc,
) -> Result<(WorkflowInstanceAcc, int), BodyError> {
    if key == seq![115u8, 116u8, 97u8, 116u8, 101u8] {
        if acc.state is Some {
            Err(BodyError::DuplicateField)
        } else {
            match spec_parse_str(s, q) {
                Err(e) => Err(e),
                Ok((sv, q2)) => match spec_workflow_instance_state_of(sv) {
                    None => Err(BodyError::UnknownStateLiteral),
                    Some(st) => Ok((WorkflowInstanceAcc { state: Some(st), ..acc }, q2)),
                },
            }
        }
    } else if key == seq![98u8, 112u8, 109u8, 110u8, 80u8, 114u8, 111u8, 99u8, 101u8, 115u8, 115u8, 73u8, 100u8] {
        if acc.bpmn_process_id is Some {
            Err(BodyError::DuplicateField)
        } else {
            match spec_parse_str(s, q) {
                Err(e) => Err(e),
                Ok((v, q2)) => Ok((WorkflowInstanceAcc { bpmn_process_id: Some(v), ..acc }, q2)),
            }
        }
    } else if key == seq![118u8, 101u8, 114u8, 115u8, 105u8, 111u8, 110u8] {
        if acc.version is Some {
            Err(BodyError::DuplicateField)
        } else {
            match spec_parse_i32(s, q) {
                Err(e) => Err(e),
                Ok((v, q2)) => Ok((WorkflowInstanceAcc { version: Some(v), ..acc }, q2)),
            }
        }
    } else if key == seq![119u8, 111u8, 114u8, 107u8, 102u8, 108u8, 111u8, 119u8, 75u8, 101u8, 121u8] {
        if acc.workflow_key is Some {
            Err(BodyError::DuplicateField)
        } else {
            match spec_parse_int(s, q) {
                Err(e) => Err(e),
                Ok((v, q2)) => Ok((WorkflowInstanceAcc { workflow_key: Some(v), ..acc }, q2)),
            }
        }
    } else if key == seq![119u8, 111u8, 114u8, 107u8, 102u8, 108u8, 111u8, 119u8, 73u8, 110u8, 115u8, 116u8, 97u8, 110u8, 99u8, 101u8, 75u8, 101u8, 121u8] {
        if acc.workflow_instance_key is Some {
            Err(BodyError::DuplicateField)
        } else {
            match spec_parse_int(s, q) {
                Err(e) => Err(e),
                Ok((v, q2)) => Ok(
                    (WorkflowInstanceAcc { workflow_instance_key: Some(v), ..acc }, q2),
                ),
            }
        }
    } else if key == seq![97u8, 99u8, 116u8, 105u8, 118u8, 105u8, 116u8, 121u8, 73u8, 100u8] {
        if acc.activity_id is Some {
            Err(BodyError::DuplicateField)
        } else {
            if 0 <= q < s.len() && s[q] == 0xc0 {
                Ok((WorkflowInstanceAcc { activity_id: Some(None), ..acc }, q + 1))
            } else {
                match spec_parse_str(s, q) {
                    Err(e) => Err(e),
                    Ok((v, q2)) => Ok(
                        (WorkflowInstanceAcc { activity_id: Some(Some(v)), ..acc }, q2),
                    ),
                }
            }
        }
    } else if key == seq![112u8, 97u8, 121u8, 108u8, 111u8, 97u8, 100u8] {
        if acc.payload is Some {
            Err(BodyError::DuplicateField)
        } else {
            match spec_parse_bin(s, q) {
                Err(e) => Err(e),
                Ok((v, q2)) => Ok((WorkflowInstanceAcc { payload: Some(v), ..acc }, q2)),
            }
        }
    } else {
        match spec_skip_value(s, q) {
            Err(e) => Err(e),
            Ok(q2) => Ok((acc, q2)),
        }
    }
}

/// Consumes `n` key-value entries of a workflow-instance-event record
/// starting at position `p`.
pub open spec fn spec_workflow_instance_fields(
    s: Seq<u8>,
    p: int,
    n: int,
    acc: WorkflowInstanceAcc,
) -> Result<(WorkflowInstanceAcc, int), BodyError>
    decreases s.len() - p, n,
{
    if n <= 0 {
        Ok((acc, p))
    } else {
        let step = match spec_parse_str(s, p) {
            Err(e) => Err(e),
            Ok((key, q)) => spec_workflow_instance_entry(s, q, key, acc),
        };
        match step {
            Err(e) => Err(e),
            Ok((acc2, q2)) => if p < q2 <= s.len() {
                spec_workflow_instance_fields(s, q2, n - 1, acc2)
            } else {
                Err(BodyError::Truncated)
            },
        }
    }
}

/// A whole workflow-instance-event record: a map whose fields are all
/// required except the activity id.
pub open spec fn spec_parse_workflow_instance_event(s: Seq<u8>) -> Result<
    WorkflowInstanceEventView,
    BodyError,
> {
    match spec_parse_map_len(s, 0) {
        Err(e) => Err(e),
        Ok((n, q)) => match spec_workflow_instance_fields(s, q, n, workflow_instance_acc_empty()) {
            Err(e) => Err(e),
            Ok((acc, _end)) => if acc.state is Some && acc.bpmn_process_id is Some && acc.version
                is Some && acc.workflow_key is Some && acc.workflow_instance_key is Some
                && acc.payload is Some {
                Ok(
                    WorkflowInstanceEventView {
                        state: acc.state->0,
                        bpmn_process_id: acc.bpmn_process_id->0,
                        version: acc.version->0,
                        workflow_key: acc.workflow_key->0,
                        workflow_instance_key: acc.workflow_instance_key->0,
                        activity_id: match acc.activity_id {
                            Some(a) => a,
                            None => None,
                        },
                        payload: acc.payload->0,
                    },
                )
            } else {
                Err(BodyError::MissingField)
            },
        },
    }
}

/// In-progress fields of a workflow-instance-event record.
struct WorkflowInstancePartial<'p> {
    state: Option<WorkflowInstanceState>,
    bpmn_process_id: Option<&'p [u8]>,
    version: Option<i32>,
    workflow_key: Option<i64>,
    workflow_instance_key: Option<i64>,
    activity_id: Option<Option<&'p [u8]>>,
    payload: Option<&'p [u8]>,
}

/// The view of in-progress workflow-instance-event fields as an
/// accumulator.
spec fn workflow_instance_partial_view(a: WorkflowInstancePartial<'_>) -> WorkflowInstanceAcc {
    WorkflowInstanceAcc {
        state: a.state,
        bpmn_process_id: opt_bytes_view(a.bpmn_process_id),
        version: a.version,
        workflow_key: a.workflow_key,
        workflow_instance_key: a.workflow_instance_key,
        activity_id: match a.activity_id {
            Some(inner) => Some(opt_bytes_view(inner)),
            None => None,
        },
        payload: opt_bytes_view(a.payload),
    }
}

/// Consumes one key-value entry of a workflow-instance-event record.
#[verifier::rlimit(100)]
fn workflow_instance_entry<'p>(
    s: &'p [u8],
    q: usize,
    key: &[u8],
    acc: WorkflowInstancePartial<'p>,
) -> (r: Result<(WorkflowInstancePartial<'p>, usize), BodyError>)
    ensures
        spec_workflow_instance_entry(s@, q as int, key@, workflow_instance_partial_view(acc))
            matches Ok(t) ==> (r matches Ok(e) && workflow_instance_partial_view(e.0) == t.0
            && e.1 == t.1),
        spec_workflow_instance_entry(s@, q as int, key@, workflow_instance_partial_view(acc))
            matches Err(er) ==> (r matches Err(e2) && e2 == er),
        r matches Ok(e) ==> q < e.1 <= s@.len(),
{
    let k_state: [u8; 5] = [115, 116, 97, 116, 101];
    let k_bpid: [u8; 13] = [98, 112, 109, 110, 80, 114, 111, 99, 101, 115, 115, 73, 100];
    let k_version: [u8; 7] = [118, 101, 114, 115, 105, 111, 110];
    let k_wk: [u8; 11] = [119, 111, 114, 107, 102, 108, 111, 119, 75, 101, 121];
    let k_wik: [u8; 19] = [119, 111, 114, 107, 102, 108, 111, 119, 73, 110, 115, 116, 97, 110, 99, 101, 75, 101, 121];
    let k_aid: [u8; 10] = [97, 99, 116, 105, 118, 105, 116, 121, 73, 100];
    let k_payload: [u8; 7] = [112, 97, 121, 108, 111, 97, 100];
    proof {
        assert(k_state@ =~= seq![115u8, 116u8, 97u8, 116u8, 101u8]);
        assert(k_bpid@ =~= seq![98u8, 112u8, 109u8, 110u8, 80u8, 114u8, 111u8, 99u8, 101u8, 115u8, 115u8, 73u8, 100u8]);
        assert(k_version@ =~= seq![118u8, 101u8, 114u8, 115u8, 105u8, 111u8, 110u8]);
        assert(k_wk@ =~= seq![119u8, 111u8, 114u8, 107u8, 102u8, 108u8, 111u8, 119u8, 75u8, 101u8, 121u8]);
        assert(k_wik@ =~= seq![119u8, 111u8, 114u8, 107u8, 102u8, 108u8, 111u8, 119u8, 73u8, 110u8, 115u8, 116u8, 97u8, 110u8, 99u8, 101u8, 75u8, 101u8, 121u8]);
        assert(k_aid@ =~= seq![97u8, 99u8, 116u8, 105u8, 118u8, 105u8, 116u8, 121u8, 73u8, 100u8]);
        assert(k_payload@ =~= seq![112u8, 97u8, 121u8, 108u8, 111u8, 97u8, 100u8]);
    }
    if bytes_eq(key, k_state.as_slice()) {
        if acc.state.is_some() {
            return Err(BodyError::DuplicateField);
        }
        let (sv, q2) = match parse_str(s, q) {
            Ok(t) => t,
            Err(e) => return Err(e),
        };
        match workflow_instance_state_of(sv) {
            None => Err(BodyError::UnknownStateLiteral),
            Some(st) => Ok((WorkflowInstancePartial { state: Some(st), ..acc }, q2)),
        }
    } else if bytes_eq(key, k_bpid.as_slice()) {
        if acc.bpmn_process_id.is_some() {
            return Err(BodyError::DuplicateField);
        }
        match parse_str(s, q) {
            Ok((v, q2)) => Ok((WorkflowInstancePartial { bpmn_process_id: Some(v), ..acc }, q2)),
            Err(e) => Err(e),
        }
    } else if bytes_eq(key, k_version.as_slice()) {
        if acc.version.is_some() {
            return Err(BodyError::DuplicateField);
        }
        match parse_i32(s, q) {
            Ok((v, q2)) => Ok((WorkflowInstancePartial { version: Some(v), ..acc }, q2)),
            Err(e) => Err(e),
        }
    } else if bytes_eq(key, k_wk.as_slice()) {
        if acc.workflow_key.is_some() {
            return Err(BodyError::DuplicateField);
        }
        match parse_int(s, q) {
            Ok((v, q2)) => Ok((WorkflowInstancePartial { workflow_key: Some(v), ..acc }, q2)),
            Err(e) => Err(e),
        }
    } else if bytes_eq(key, k_wik.as_slice()) {
        if acc.workflow_instance_key.is_some() {
            return Err(BodyError::DuplicateField);
        }
        match parse_int(s, q) {
            Ok((v, q2)) => Ok(
                (WorkflowInstancePartial { workflow_instance_key: Some(v), ..acc }, q2),
            ),
            Err(e) => Err(e),
        }
    } else if bytes_eq(key, k_aid.as_slice()) {
        if acc.activity_id.is_some() {
            return Err(BodyError::DuplicateField);
        }
        if q < s.len() && s[q] == 0xc0 {
            Ok((WorkflowInstancePartial { activity_id: Some(None), ..acc }, q + 1))
        } else {
            match parse_str(s, q) {
                Ok((v, q2)) => Ok(
                    (WorkflowInstancePartial { activity_id: Some(Some(v)), ..acc }, q2),
                ),
                Err(e) => Err(e),
            }
        }
    } else if bytes_eq(key, k_payload.as_slice()) {
        if acc.payload.is_some() {
            return Err(BodyError::DuplicateField);
        }
        match parse_bin(s, q) {
            Ok((v, q2)) => Ok((WorkflowInstancePartial { payload: Some(v), ..acc }, q2)),
            Err(e) => Err(e),
        }
    } else {
        match skip_value(s, q) {
            Ok(q2) => Ok((acc, q2)),
            Err(e) => Err(e),
        }
    }
}

/// Parses a whole workflow-instance-event record from a payload.
#[verifier::loop_isolation(false)]
#[verifier::rlimit(60)]
pub fn parse_workflow_instance_event(s: &[u8]) -> (r: Result<WorkflowInstanceEvent, BodyError>)
    ensures
        spec_parse_workflow_instance_event(s@) matches Ok(v) ==> (r matches Ok(ev) && ev@ == v),
        spec_parse_workflow_instance_event(s@) matches Err(er) ==> (r matches Err(e2) && e2 == er),
{
    let (n_fields, start) = match parse_map_len(s, 0) {
        Ok(t) => t,
        Err(e) => return Err(e),
    };
    let mut cur = start;
    let mut acc = WorkflowInstancePartial {
        state: None,
        bpmn_process_id: None,
        version: None,
        workflow_key: None,
        workflow_instance_key: None,
        activity_id: None,
        payload: None,
    };
    let mut i: usize = 0;
    while i < n_fields
        invariant
            0 <= i <= n_fields,
            0 < cur <= s@.len(),
            spec_workflow_instance_fields(
                s@,
                start as int,
                n_fields as int,
                workflow_instance_acc_empty(),
            ) == spec_workflow_instance_fields(
                s@,
                cur as int,
                n_fields - i,
                workflow_instance_partial_view(acc),
            ),
        decreases n_fields - i,
    {
        let (key, q) = match parse_str(s, cur) {
            Ok(t) => t,
            Err(e) => return Err(e),
        };
        let (acc2, q2) = match workflow_instance_entry(s, q, key, acc) {
            Ok(t) => t,
            Err(e) => return Err(e),
        };
        acc = acc2;
        cur = q2;
        i = i + 1;
    }
    let state = match acc.state {
        Some(v) => v,
        None => return Err(BodyError::MissingField),
    };
    let bpmn_process_id = match acc.bpmn_process_id {
        Some(v) => slice_to_vec(v),
        None => return Err(BodyError::MissingField),
    };
    let version = match acc.version {
        Some(v) => v,
        None => return Err(BodyError::MissingField),
    };
    let workflow_key = match acc.workflow_key {
        Some(v) => v,
        None => return Err(BodyError::MissingField),
    };
    let workflow_instance_key = match acc.workflow_instance_key {
        Some(v) => v,
        None => return Err(BodyError::MissingField),
    };
    let activity_id: Option<Vec<u8>> = match acc.activity_id {
        Some(Some(v)) => Some(slice_to_vec(v)),
        Some(None) => None,
        None => None,
    };
    let payload = match acc.payload {
        Some(v) => slice_to_vec(v),
        None => return Err(BodyError::MissingField),
    };
    Ok(
        WorkflowInstanceEvent {
            state,
            bpmn_process_id,
            version,
            workflow_key,
            workflow_instance_key,
            activity_id,
            payload,
        },
    )
}

/// One decoded event body: a structured record for the event types that
/// carry one, and a marker for every other type.
#[derive(Clone, Debug, PartialEq, Eq)]
pub enum EventBody {
    Task(TaskEvent),
    Workflow(WorkflowEvent),
    WorkflowInstance(WorkflowInstanceEvent),
    Other,
}

/// The mathematical value of an `EventBody`.
pub enum EventBodyView {
    Task(TaskEventView),
    Workflow(WorkflowEventView),
    WorkflowInstance(WorkflowInstanceEventView),
    Other,
}

impl View for EventBody {
    type V = EventBodyView;

    open spec fn view(&self) -> EventBodyView {
        match self {
            EventBody::Task(ev) => EventBodyView::Task(ev@),
            EventBody::Workflow(ev) => EventBodyView::Workflow(ev@),
            EventBody::WorkflowInstance(ev) => EventBodyView::WorkflowInstance(ev@),
            EventBody::Other => EventBodyView::Other,
        }
    }
}

/// The discriminant values that carry a structured body: task lifecycle,
/// workflow-instance lifecycle, workflow definition.
pub const EVENT_TYPE_TASK: u8 = 0;

/// The discriminant of workflow-instance lifecycle events.
pub const EVENT_TYPE_WORKFLOW_INSTANCE: u8 = 5;

/// The discriminant of workflow definition events.
pub const EVENT_TYPE_WORKFLOW: u8 = 7;

/// The decoded body for a discriminant and payload: the three structured
/// event types parse their record, every other type has no structured body.
pub open spec fn spec_decode_body(discriminant: u8, payload: Seq<u8>) -> Result<
    EventBodyView,
    BodyError,
> {
    if discriminant == EVENT_TYPE_TASK {
        match spec_parse_task_event(payload) {
            Ok(v) => Ok(EventBodyView::Task(v)),
            Err(e) => Err(e),
        }
    } else if discriminant == EVENT_TYPE_WORKFLOW_INSTANCE {
        match spec_parse_workflow_instance_event(payload) {
            Ok(v) => Ok(EventBodyView::WorkflowInstance(v)),
            Err(e) => Err(e),
        }
    } else if discriminant == EVENT_TYPE_WORKFLOW {
        match spec_parse_workflow_event(payload) {
            Ok(v) => Ok(EventBodyView::Workflow(v)),
            Err(e) => Err(e),
        }
    } else {
        Ok(EventBodyView::Other)
    }
}

/// Decodes the body of one event from its discriminant byte and its raw
/// payload bytes. Reads nothing outside `payload`; a failure here belongs
/// to this record alone.
pub fn decode_body(discriminant: u8, payload: &[u8]) -> (r: Result<EventBody, BodyError>)
    ensures
        spec_decode_body(discriminant, payload@) matches Ok(v) ==> (r matches Ok(b) && b@ == v),
        spec_decode_body(discriminant, payload@) matches Err(er) ==> (r matches Err(e2) && e2
            == er),
{
    if discriminant == EVENT_TYPE_TASK {
        match parse_task_event(payload) {
            Ok(v) => Ok(EventBody::Task(v)),
            Err(e) => Err(e),
        }
    } else if discriminant == EVENT_TYPE_WORKFLOW_INSTANCE {
        match parse_workflow_instance_event(payload) {
            Ok(v) => Ok(EventBody::WorkflowInstance(v)),
            Err(e) => Err(e),
        }
    } else if discriminant == EVENT_TYPE_WORKFLOW {
        match parse_workflow_event(payload) {
            Ok(v) => Ok(EventBody::Workflow(v)),
            Err(e) => Err(e),
        }
    } else {
        Ok(EventBody::Other)
    }
}

} // verus!
