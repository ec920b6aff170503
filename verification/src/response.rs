//! What the workflow engine answers, in a form that can be sent on as JSON.

use crate::json::{bytes_to_json, json_of_bytes};
use vstd::prelude::*;

verus! {

/// The answer to a started workflow.
#[derive(Debug, PartialEq, Eq)]
pub struct TemporalExecuteWorkflowResponse {
    /// The run that was started.
    pub run_id: String,
}

/// The answer to a signal: it holds nothing.
#[derive(Debug, PartialEq, Eq)]
pub struct TemporalSignalResponse {}

/// The answer to a query.
#[derive(Debug, PartialEq, Eq)]
pub struct TemporalQueryResponse {
    /// The status with which the engine rejected the query, if it did.
    pub query_rejected: Option<i32>,
    /// The data of each payload of the result, as JSON.
    pub query_result: Option<Vec<serde_json::Value>>,
}

/// The answer of the workflow engine to a command.
#[derive(Debug, PartialEq, Eq)]
pub enum TemporalInteractionResponse {
    ExecuteWorkflow(TemporalExecuteWorkflowResponse),
    Signal(TemporalSignalResponse),
    Query(TemporalQueryResponse),
}

/// A payload of a query result whose data could not be turned into JSON.
#[derive(Debug)]
pub struct QueryResultError {
    /// Position of the payload in the result.
    pub payload: usize,
    pub cause: serde_json::Error,
}

/// Whether the data of every payload before `end` can be turned into JSON.
pub open spec fn all_convert(payloads: Seq<Vec<u8>>, end: int) -> bool {
    forall|i: int| 0 <= i < end ==> (#[trigger] json_of_bytes(payloads[i]@)) is Some
}

/// The data of every payload as JSON, or the first payload whose data cannot
/// be turned into JSON.
pub fn query_results(payloads: &Vec<Vec<u8>>) -> (r: Result<
    Vec<serde_json::Value>,
    QueryResultError,
>)
    ensures
        match r {
            Ok(values) => {
                &&& values.len() == payloads.len()
                &&& forall|i: int|
                    0 <= i < payloads.len() ==> json_of_bytes(#[trigger] payloads[i]@) == Some(
                        values[i],
                    )
            },
            Err(e) => {
                &&& e.payload < payloads.len()
                &&& all_convert(payloads@, e.payload as int)
                &&& json_of_bytes(payloads[e.payload as int]@) is None
            },
        },
{
    let mut values: Vec<serde_json::Value> = Vec::new();
    let mut i: usize = 0;
    while i < payloads.len()
        invariant
            i <= payloads.len(),
            values.len() == i,
            forall|j: int|
                0 <= j < i ==> json_of_bytes(#[trigger] payloads[j]@) == Some(values[j]),
        decreases payloads.len() - i,
    {
        match bytes_to_json(&payloads[i]) {
            Ok(value) => {
                values.push(value);
            },
            Err(cause) => {
                return Err(QueryResultError { payload: i, cause });
            },
        }
        i = i + 1;
    }
    Ok(values)
}

impl TemporalInteractionResponse {
    /// The answer to a workflow that was started as the run `run_id`.
    pub fn from_started(run_id: String) -> (r: TemporalInteractionResponse)
        ensures
            r matches TemporalInteractionResponse::ExecuteWorkflow(started) && started.run_id@
                == run_id@,
    {
        TemporalInteractionResponse::ExecuteWorkflow(TemporalExecuteWorkflowResponse { run_id })
    }

    /// The answer to a signal that was sent.
    pub fn from_signalled() -> (r: TemporalInteractionResponse)
        ensures
            r is Signal,
    {
        TemporalInteractionResponse::Signal(TemporalSignalResponse {  })
    }

    /// The answer to a query: the data of each payload of the result as JSON,
    /// and the status of a rejection. A payload whose data cannot be turned
    /// into JSON fails the whole.
    pub fn from_query(query_result: Option<Vec<Vec<u8>>>, query_rejected: Option<i32>) -> (r:
        Result<TemporalInteractionResponse, QueryResultError>)
        ensures
            match r {
                Ok(response) => {
                    &&& response matches TemporalInteractionResponse::Query(answer)
                    &&& answer.query_rejected == query_rejected
                    &&& match query_result {
                        None => answer.query_result is None,
                        Some(payloads) => {
                            &&& answer.query_result matches Some(values)
                            &&& values.len() == payloads.len()
                            &&& forall|i: int|
                                0 <= i < payloads.len() ==> json_of_bytes(
                                    #[trigger] payloads[i]@,
                                ) == Some(values[i])
                        },
                    }
                },
                Err(e) => {
                    &&& query_result matches Some(payloads)
                    &&& e.payload < payloads.len()
                    &&& all_convert(payloads@, e.payload as int)
                    &&& json_of_bytes(payloads[e.payload as int]@) is None
                },
            },
    {
        let query_result = match query_result {
            Some(payloads) => Some(query_results(&payloads)?),
            None => None,
        };
        Ok(
            TemporalInteractionResponse::Query(
                TemporalQueryResponse { query_result, query_rejected },
            ),
        )
    }
}

} // verus!
