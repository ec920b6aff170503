//! The requests that the workflow engine is sent for a command.
//!
//! A request holds plain values. Turning it into the engine's wire format and
//! sending it is left to the caller.

use crate::interaction::{
    text_of, text_or_empty, ExecuteTemporalWorkflow, QueryTemporal, SignalTemporal,
    TemporalWorkflowExecutionInfo, WorkflowExecutionView,
};
use vstd::prelude::*;

verus! {

/// The namespace of a deployment that names none.
pub const DEFAULT_NAMESPACE: &'static str = "test-namespace";

/// The identity under which a signal is sent that names none.
pub const DEFAULT_IDENTITY: &'static str = "TemporalAPIG";

/// The control text of a signal that names none.
pub const DEFAULT_CONTROL: &'static str = "placeholder_control";

/// A request to signal a workflow.
#[derive(Debug, PartialEq, Eq)]
pub struct SignalWorkflowRequest {
    pub namespace: String,
    /// The run that is signalled, if the signal names a workflow.
    pub workflow_execution: Option<TemporalWorkflowExecutionInfo>,
    pub signal_name: String,
    pub input: Option<Vec<serde_json::Value>>,
    pub identity: String,
    pub request_id: String,
    pub control: String,
}

/// A request to query a workflow.
#[derive(Debug, PartialEq, Eq)]
pub struct QueryWorkflowRequest {
    pub namespace: String,
    /// The run that is queried, if the query names a workflow.
    pub execution: Option<TemporalWorkflowExecutionInfo>,
    pub query_type: String,
    pub query_args: Option<Vec<serde_json::Value>>,
}

/// A request to start a workflow.
#[derive(Debug, PartialEq, Eq)]
pub struct StartWorkflowRequest {
    pub namespace: String,
    pub input: Option<Vec<serde_json::Value>>,
    pub workflow_id: String,
    pub workflow_type: String,
    pub task_queue: String,
    pub request_id: String,
}

/// The run that a workflow id and a run id name: none without a workflow id,
/// and the run with the empty id without a run id.
pub open spec fn named_execution(workflow_id: Option<Seq<char>>, run_id: Option<Seq<char>>)
    -> Option<WorkflowExecutionView> {
    match workflow_id {
        Some(workflow_id) => Some(
            WorkflowExecutionView { workflow_id, run_id: text_or_empty(run_id) },
        ),
        None => None,
    }
}

/// The view of an optional run.
pub open spec fn execution_view(execution: Option<TemporalWorkflowExecutionInfo>) -> Option<
    WorkflowExecutionView,
> {
    match execution {
        Some(execution) => Some(execution@),
        None => None,
    }
}

/// `given` where there is one, else `fallback`.
pub open spec fn text_or(given: Option<Seq<char>>, fallback: Seq<char>) -> Seq<char> {
    match given {
        Some(text) => text,
        None => fallback,
    }
}

/// The run that a workflow id and a run id name.
pub fn workflow_execution(workflow_id: Option<String>, run_id: Option<String>) -> (r: Option<
    TemporalWorkflowExecutionInfo,
>)
    ensures
        execution_view(r) == named_execution(text_of(workflow_id), text_of(run_id)),
{
    match workflow_id {
        Some(workflow_id) => {
            let run_id = match run_id {
                Some(run_id) => run_id,
                None => String::new(),
            };
            Some(TemporalWorkflowExecutionInfo { workflow_id, run_id })
        },
        None => None,
    }
}

/// Makes a request id: a random UUID of version 4 from `uuid::Uuid::new_v4`,
/// written by its `Display` impl in the hyphenated form, which is 36
/// characters long. Two calls give different ids.
#[verifier::external_body]
fn new_request_id() -> (r: String)
    ensures
        r@.len() == 36,
{
    uuid::Uuid::new_v4().to_string()
}

/// The request for `signal_info`, with `fresh_request_id` as its request id
/// where the signal brings none.
pub fn build_signal_request_with(signal_info: SignalTemporal, fresh_request_id: String) -> (r:
    SignalWorkflowRequest)
    ensures
        r.namespace@ == signal_info.namespace@,
        execution_view(r.workflow_execution) == named_execution(
            signal_info@.workflow_id,
            signal_info@.run_id,
        ),
        r.signal_name@ == signal_info.signal_name@,
        r.input == signal_info.input,
        r.identity@ == text_or(signal_info@.identity, DEFAULT_IDENTITY@),
        r.request_id@ == text_or(signal_info@.request_id, fresh_request_id@),
        r.control@ == text_or(signal_info@.control, DEFAULT_CONTROL@),
{
    SignalWorkflowRequest {
        namespace: signal_info.namespace,
        workflow_execution: workflow_execution(signal_info.workflow_id, signal_info.run_id),
        signal_name: signal_info.signal_name,
        input: signal_info.input,
        identity: match signal_info.identity {
            Some(identity) => identity,
            None => DEFAULT_IDENTITY.to_owned(),
        },
        request_id: match signal_info.request_id {
            Some(request_id) => request_id,
            None => fresh_request_id,
        },
        control: match signal_info.control {
            Some(control) => control,
            None => DEFAULT_CONTROL.to_owned(),
        },
    }
}

/// The request for `signal_info`. A signal without a request id gets a new
/// one; everything else is as [`build_signal_request_with`] says.
pub fn build_signal_request(signal_info: SignalTemporal) -> (r: SignalWorkflowRequest)
    ensures
        r.namespace@ == signal_info.namespace@,
        execution_view(r.workflow_execution) == named_execution(
            signal_info@.workflow_id,
            signal_info@.run_id,
        ),
        r.signal_name@ == signal_info.signal_name@,
        r.input == signal_info.input,
        r.identity@ == text_or(signal_info@.identity, DEFAULT_IDENTITY@),
        signal_info@.request_id matches Some(request_id) ==> r.request_id@ == request_id,
        signal_info@.request_id is None ==> r.request_id@.len() == 36,
        r.control@ == text_or(signal_info@.control, DEFAULT_CONTROL@),
{
    if signal_info.request_id.is_some() {
        build_signal_request_with(signal_info, String::new())
    } else {
        let fresh = new_request_id();
        build_signal_request_with(signal_info, fresh)
    }
}

/// The request for `query_info`.
pub fn build_query_request(query_info: QueryTemporal) -> (r: QueryWorkflowRequest)
    ensures
        r.namespace@ == query_info.namespace@,
        execution_view(r.execution) == named_execution(
            query_info@.workflow_id,
            query_info@.run_id,
        ),
        r.query_type@ == query_info.query_type@,
        r.query_args == query_info.query_args,
{
    QueryWorkflowRequest {
        namespace: query_info.namespace,
        execution: workflow_execution(query_info.workflow_id, query_info.run_id),
        query_type: query_info.query_type,
        query_args: query_info.query_args,
    }
}

/// The request to start a workflow, with `request_id` as its request id.
pub fn build_workflow_execution_request_with(
    namespace: String,
    input: Option<Vec<serde_json::Value>>,
    task_queue: String,
    workflow_id: String,
    workflow_type: String,
    request_id: String,
) -> (r: StartWorkflowRequest)
    ensures
        r.namespace@ == namespace@,
        r.input == input,
        r.task_queue@ == task_queue@,
        r.workflow_id@ == workflow_id@,
        r.workflow_type@ == workflow_type@,
        r.request_id@ == request_id@,
{
    StartWorkflowRequest { namespace, input, workflow_id, workflow_type, task_queue, request_id }
}

/// The request to start a workflow, with a new request id.
pub fn build_workflow_execution_request(
    namespace: String,
    input: Option<Vec<serde_json::Value>>,
    task_queue: String,
    workflow_id: String,
    workflow_type: String,
) -> (r: StartWorkflowRequest)
    ensures
        r.namespace@ == namespace@,
        r.input == input,
        r.task_queue@ == task_queue@,
        r.workflow_id@ == workflow_id@,
        r.workflow_type@ == workflow_type@,
        r.request_id@.len() == 36,
{
    let request_id = new_request_id();
    build_workflow_execution_request_with(
        namespace,
        input,
        task_queue,
        workflow_id,
        workflow_type,
        request_id,
    )
}

/// The request to start the workflow of `workflow_info`, with a new request id.
pub fn build_start_request(workflow_info: ExecuteTemporalWorkflow) -> (r: StartWorkflowRequest)
    ensures
        r.namespace@ == workflow_info.namespace@,
        r.input == workflow_info.args,
        r.task_queue@ == workflow_info.task_queue@,
        r.workflow_id@ == workflow_info.workflow_id@,
        r.workflow_type@ == workflow_info.workflow_type@,
        r.request_id@.len() == 36,
{
    build_workflow_execution_request(
        workflow_info.namespace,
        workflow_info.args,
        workflow_info.task_queue,
        workflow_info.workflow_id,
        workflow_info.workflow_type,
    )
}

} // verus!
