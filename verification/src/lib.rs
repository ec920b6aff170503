//! A versioned, compact text encoding for workflow interaction commands.
//!
//! An interaction command asks a workflow engine to start, signal or query a
//! workflow. [`Encoder::encode`] writes the routing part of a command as a short
//! string that a third party can carry as a callback identifier and hand back
//! unchanged; [`Encoder::decode`] reads it again. The arguments of a command are
//! never part of the string: they come with the event that brings the identifier
//! back, and [`TemporalInteraction::add_data_args`] puts them in place.
//!
//! Around the codec stand the rules of the gateway that uses it: which versions
//! of its interface exist, how the deployment environment is read, where an
//! event keeps its callback identifier, and what the workflow engine is asked
//! and answers. They take and give plain values; reading the environment and
//! talking to the network is left to the caller.

pub mod api_version;
pub mod bindings;
pub mod callback;
pub mod config;
pub mod encoder;
pub mod environment;
pub mod error;
pub mod interaction;
pub mod json;
pub mod keys;
pub mod request;
pub mod response;
pub mod roundtrip;
pub mod text;

pub use api_version::{ApiVersion, ApiVersionRejection, UNSUPPORTED_API_VERSION_MSG};
pub use bindings::{
    encode_signal_no_args_default, encode_signal_no_args_with_version, TemporalSignalWithoutInput,
};
pub use callback::{
    get_callback_id_from_slack_interaction_event, CallbackIdSource, MissingCallbackId,
};
pub use config::{default_apig_port, temporal_url, ApigConfig};
pub use encoder::{Encoder, ENCODER_SECTION_DELIMITER, SLACK_INFO_DELIMITER};
pub use environment::{
    service_host_var, service_port_var, Environment, ENVIRONMENT_STR, SECRET_PREFIX,
};
pub use error::{DecodeError, ENCODER_HELP_MSG};
pub use interaction::{
    ExecuteTemporalWorkflow, QueryTemporal, SignalTemporal, TemporalInteraction,
    TemporalInteractionDiscriminants, TemporalWorkflowExecutionInfo,
};
pub use request::{
    build_query_request, build_signal_request, build_signal_request_with, build_start_request,
    build_workflow_execution_request, build_workflow_execution_request_with, workflow_execution,
    QueryWorkflowRequest, SignalWorkflowRequest, StartWorkflowRequest, DEFAULT_NAMESPACE,
};
pub use response::{
    query_results, QueryResultError, TemporalExecuteWorkflowResponse, TemporalInteractionResponse,
    TemporalQueryResponse, TemporalSignalResponse,
};
pub use keys::{EncoderMap, KeysToTemporalAction, TEMPORAL_KEY_DELIMITER};
