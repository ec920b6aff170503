//! The interaction commands: start a workflow, signal one, query one.
//!
//! Each command has a view that holds its texts as `Seq<char>`; the contracts
//! of the codec speak of views.

use crate::error::{DecodeError, DecodeErrorView};
use crate::json::{json_text, render_json};
use crate::text::same_text;
use vstd::prelude::*;

verus! {

/// The kind of an interaction, as it is written in an encoded string.
#[derive(Debug, Clone, Copy, PartialEq, Eq, Hash, Structural)]
pub enum TemporalInteractionDiscriminants {
    Execute,
    Signal,
    Query,
}

/// Start a workflow.
#[derive(Debug, PartialEq, Eq, Default, Clone)]
pub struct ExecuteTemporalWorkflow {
    pub namespace: String,
    pub task_queue: String,
    pub workflow_id: String,
    /// The name of the workflow function.
    pub workflow_type: String,
    pub args: Option<Vec<serde_json::Value>>,
}

/// Signal a running workflow.
#[derive(Debug, PartialEq, Eq, Default, Clone)]
pub struct SignalTemporal {
    pub namespace: String,
    pub task_queue: String,
    pub workflow_id: Option<String>,
    pub run_id: Option<String>,
    pub signal_name: String,
    pub input: Option<Vec<serde_json::Value>>,
    pub identity: Option<String>,
    pub request_id: Option<String>,
    pub control: Option<String>,
}

/// Query a running workflow.
#[derive(Debug, PartialEq, Eq, Clone)]
pub struct QueryTemporal {
    pub namespace: String,
    pub task_queue: String,
    pub workflow_id: Option<String>,
    pub run_id: Option<String>,
    pub query_type: String,
    pub query_args: Option<Vec<serde_json::Value>>,
}

/// One run of a workflow.
#[derive(Debug, PartialEq, Eq, Default, Clone)]
pub struct TemporalWorkflowExecutionInfo {
    pub workflow_id: String,
    pub run_id: String,
}

/// A request to the workflow engine.
#[derive(Debug, PartialEq, Eq, Clone)]
pub enum TemporalInteraction {
    Execute(ExecuteTemporalWorkflow),
    Signal(SignalTemporal),
    Query(QueryTemporal),
}

/// The text of an optional string.
pub open spec fn text_of(s: Option<String>) -> Option<Seq<char>> {
    match s {
        Some(s) => Some(s@),
        None => None,
    }
}

/// The values of an optional list of arguments.
pub open spec fn values_of(args: Option<Vec<serde_json::Value>>) -> Option<
    Seq<serde_json::Value>,
> {
    match args {
        Some(values) => Some(values@),
        None => None,
    }
}

/// The text of an optional field, the empty text when the field is absent.
pub open spec fn text_or_empty(s: Option<Seq<char>>) -> Seq<char> {
    match s {
        Some(s) => s,
        None => Seq::empty(),
    }
}

/// View of [`ExecuteTemporalWorkflow`].
pub struct ExecuteWorkflowView {
    pub namespace: Seq<char>,
    pub task_queue: Seq<char>,
    pub workflow_id: Seq<char>,
    pub workflow_type: Seq<char>,
    pub args: Option<Seq<serde_json::Value>>,
}

/// View of [`SignalTemporal`].
pub struct SignalView {
    pub namespace: Seq<char>,
    pub task_queue: Seq<char>,
    pub workflow_id: Option<Seq<char>>,
    pub run_id: Option<Seq<char>>,
    pub signal_name: Seq<char>,
    pub input: Option<Seq<serde_json::Value>>,
    pub identity: Option<Seq<char>>,
    pub request_id: Option<Seq<char>>,
    pub control: Option<Seq<char>>,
}

/// View of [`QueryTemporal`].
pub struct QueryView {
    pub namespace: Seq<char>,
    pub task_queue: Seq<char>,
    pub workflow_id: Option<Seq<char>>,
    pub run_id: Option<Seq<char>>,
    pub query_type: Seq<char>,
    pub query_args: Option<Seq<serde_json::Value>>,
}

/// View of [`TemporalWorkflowExecutionInfo`].
pub struct WorkflowExecutionView {
    pub workflow_id: Seq<char>,
    pub run_id: Seq<char>,
}

/// View of [`TemporalInteraction`].
pub enum InteractionView {
    Execute(ExecuteWorkflowView),
    Signal(SignalView),
    Query(QueryView),
}

impl View for ExecuteTemporalWorkflow {
    type V = ExecuteWorkflowView;

    open spec fn view(&self) -> ExecuteWorkflowView {
        ExecuteWorkflowView {
            namespace: self.namespace@,
            task_queue: self.task_queue@,
            workflow_id: self.workflow_id@,
            workflow_type: self.workflow_type@,
            args: values_of(self.args),
        }
    }
}

impl View for SignalTemporal {
    type V = SignalView;

    open spec fn view(&self) -> SignalView {
        SignalView {
            namespace: self.namespace@,
            task_queue: self.task_queue@,
            workflow_id: text_of(self.workflow_id),
            run_id: text_of(self.run_id),
            signal_name: self.signal_name@,
            input: values_of(self.input),
            identity: text_of(self.identity),
            request_id: text_of(self.request_id),
            control: text_of(self.control),
        }
    }
}

impl View for QueryTemporal {
    type V = QueryView;

    open spec fn view(&self) -> QueryView {
        QueryView {
            namespace: self.namespace@,
            task_queue: self.task_queue@,
            workflow_id: text_of(self.workflow_id),
            run_id: text_of(self.run_id),
            query_type: self.query_type@,
            query_args: values_of(self.query_args),
        }
    }
}

impl View for TemporalWorkflowExecutionInfo {
    type V = WorkflowExecutionView;

    open spec fn view(&self) -> WorkflowExecutionView {
        WorkflowExecutionView { workflow_id: self.workflow_id@, run_id: self.run_id@ }
    }
}

impl View for TemporalInteraction {
    type V = InteractionView;

    open spec fn view(&self) -> InteractionView {
        match self {
            TemporalInteraction::Execute(action) => InteractionView::Execute(action@),
            TemporalInteraction::Signal(action) => InteractionView::Signal(action@),
            TemporalInteraction::Query(action) => InteractionView::Query(action@),
        }
    }
}

impl TemporalInteractionDiscriminants {
    /// The name of the kind.
    pub open spec fn name(self) -> Seq<char> {
        match self {
            TemporalInteractionDiscriminants::Execute => "Execute"@,
            TemporalInteractionDiscriminants::Signal => "Signal"@,
            TemporalInteractionDiscriminants::Query => "Query"@,
        }
    }

    /// The kind that `text` names, if it names one.
    pub open spec fn with_name(text: Seq<char>) -> Option<TemporalInteractionDiscriminants> {
        if text == "Execute"@ {
            Some(TemporalInteractionDiscriminants::Execute)
        } else if text == "Signal"@ {
            Some(TemporalInteractionDiscriminants::Signal)
        } else if text == "Query"@ {
            Some(TemporalInteractionDiscriminants::Query)
        } else {
            None
        }
    }

    /// The name of the kind.
    pub fn as_str(&self) -> (r: &'static str)
        ensures
            r@ == self.name(),
    {
        match self {
            TemporalInteractionDiscriminants::Execute => "Execute",
            TemporalInteractionDiscriminants::Signal => "Signal",
            TemporalInteractionDiscriminants::Query => "Query",
        }
    }

    /// The name of the kind as an owned string.
    pub fn to_string(&self) -> (r: String)
        ensures
            r@ == self.name(),
    {
        self.as_str().to_owned()
    }

    /// Reads the name of a kind. Any other text is refused, and the error
    /// hands the text back.
    pub fn from_str(text: &str) -> (r: Result<TemporalInteractionDiscriminants, DecodeError>)
        ensures
            match r {
                Ok(kind) => Self::with_name(text@) == Some(kind),
                Err(e) => Self::with_name(text@) is None && e@
                    == DecodeErrorView::UnknownEventKind(text@),
            },
    {
        if same_text(text, "Execute") {
            Ok(TemporalInteractionDiscriminants::Execute)
        } else if same_text(text, "Signal") {
            Ok(TemporalInteractionDiscriminants::Signal)
        } else if same_text(text, "Query") {
            Ok(TemporalInteractionDiscriminants::Query)
        } else {
            Err(DecodeError::UnknownEventKind(text.to_owned()))
        }
    }
}

/// Reading a name back gives the kind that was written, and no two kinds are
/// written alike.
pub proof fn name_identifies_kind(kind: TemporalInteractionDiscriminants, text: Seq<char>)
    ensures
        TemporalInteractionDiscriminants::with_name(kind.name()) == Some(kind),
        TemporalInteractionDiscriminants::with_name(text) == Some(kind) ==> text == kind.name(),
{
    reveal_strlit("Execute");
    reveal_strlit("Signal");
    reveal_strlit("Query");
    assert("Execute"@[0] != "Signal"@[0]);
    assert("Execute"@[0] != "Query"@[0]);
    assert("Signal"@[0] != "Query"@[0]);
}

impl InteractionView {
    /// The kind of the command.
    pub open spec fn kind(self) -> TemporalInteractionDiscriminants {
        match self {
            InteractionView::Execute(_) => TemporalInteractionDiscriminants::Execute,
            InteractionView::Signal(_) => TemporalInteractionDiscriminants::Signal,
            InteractionView::Query(_) => TemporalInteractionDiscriminants::Query,
        }
    }

    pub open spec fn namespace(self) -> Seq<char> {
        match self {
            InteractionView::Execute(action) => action.namespace,
            InteractionView::Signal(action) => action.namespace,
            InteractionView::Query(action) => action.namespace,
        }
    }

    pub open spec fn task_queue(self) -> Seq<char> {
        match self {
            InteractionView::Execute(action) => action.task_queue,
            InteractionView::Signal(action) => action.task_queue,
            InteractionView::Query(action) => action.task_queue,
        }
    }

    /// The workflow id, the empty text when the command names no workflow.
    pub open spec fn workflow_id(self) -> Seq<char> {
        match self {
            InteractionView::Execute(action) => action.workflow_id,
            InteractionView::Signal(action) => text_or_empty(action.workflow_id),
            InteractionView::Query(action) => text_or_empty(action.workflow_id),
        }
    }

    /// The arguments that travel with the command.
    pub open spec fn args(self) -> Option<Seq<serde_json::Value>> {
        match self {
            InteractionView::Execute(action) => action.args,
            InteractionView::Signal(action) => action.input,
            InteractionView::Query(action) => action.query_args,
        }
    }

    /// The command with its arguments replaced by `args`.
    pub open spec fn with_args(self, args: Option<Seq<serde_json::Value>>) -> InteractionView {
        match self {
            InteractionView::Execute(action) => InteractionView::Execute(
                ExecuteWorkflowView { args, ..action },
            ),
            InteractionView::Signal(action) => InteractionView::Signal(
                SignalView { input: args, ..action },
            ),
            InteractionView::Query(action) => InteractionView::Query(
                QueryView { query_args: args, ..action },
            ),
        }
    }
}

/// Copies an optional string, giving the empty string for an absent one.
fn cloned_or_empty(s: &Option<String>) -> (r: String)
    ensures
        r@ == text_or_empty(text_of(*s)),
{
    match s {
        Some(s) => s.clone(),
        None => String::new(),
    }
}

impl SignalTemporal {
    /// The run id, the empty string when the signal names no run.
    pub fn run_id(&self) -> (r: String)
        ensures
            r@ == text_or_empty(self@.run_id),
    {
        cloned_or_empty(&self.run_id)
    }
}

impl QueryView {
    /// The first query argument as JSON text, the empty text without one.
    pub open spec fn first_argument_text(self) -> Seq<char> {
        match self.query_args {
            Some(values) => if values.len() > 0 {
                json_text(values[0])
            } else {
                Seq::empty()
            },
            None => Seq::empty(),
        }
    }
}

impl QueryTemporal {
    /// The run id, the empty string when the query names no run.
    pub fn run_id(&self) -> (r: String)
        ensures
            r@ == text_or_empty(self@.run_id),
    {
        cloned_or_empty(&self.run_id)
    }

    /// The first query argument as JSON text, the empty string without one.
    pub fn query_args(&self) -> (r: String)
        ensures
            r@ == self@.first_argument_text(),
    {
        match &self.query_args {
            Some(values) => if values.len() > 0 {
                render_json(&values[0])
            } else {
                String::new()
            },
            None => String::new(),
        }
    }
}

impl TemporalInteraction {
    /// The name of the command's kind.
    pub fn to_type_string(&self) -> (r: String)
        ensures
            r@ == self@.kind().name(),
    {
        match self {
            TemporalInteraction::Execute(_) => TemporalInteractionDiscriminants::Execute.to_string(),
            TemporalInteraction::Signal(_) => TemporalInteractionDiscriminants::Signal.to_string(),
            TemporalInteraction::Query(_) => TemporalInteractionDiscriminants::Query.to_string(),
        }
    }

    /// The workflow id, the empty string when the command names no workflow.
    pub fn workflow_id(&self) -> (r: String)
        ensures
            r@ == self@.workflow_id(),
    {
        match self {
            TemporalInteraction::Execute(action) => action.workflow_id.clone(),
            TemporalInteraction::Signal(action) => cloned_or_empty(&action.workflow_id),
            TemporalInteraction::Query(action) => cloned_or_empty(&action.workflow_id),
        }
    }

    pub fn task_queue(&self) -> (r: String)
        ensures
            r@ == self@.task_queue(),
    {
        match self {
            TemporalInteraction::Execute(action) => action.task_queue.clone(),
            TemporalInteraction::Signal(action) => action.task_queue.clone(),
            TemporalInteraction::Query(action) => action.task_queue.clone(),
        }
    }

    pub fn namespace(&self) -> (r: String)
        ensures
            r@ == self@.namespace(),
    {
        match self {
            TemporalInteraction::Execute(action) => action.namespace.clone(),
            TemporalInteraction::Signal(action) => action.namespace.clone(),
            TemporalInteraction::Query(action) => action.namespace.clone(),
        }
    }

    /// The command with its arguments replaced by `args`; nothing else changes.
    pub fn add_data_args(self, args: Option<Vec<serde_json::Value>>) -> (r: TemporalInteraction)
        ensures
            r@ == self@.with_args(values_of(args)),
    {
        match self {
            TemporalInteraction::Execute(exec) => TemporalInteraction::Execute(
                ExecuteTemporalWorkflow { args, ..exec },
            ),
            TemporalInteraction::Signal(signal) => TemporalInteraction::Signal(
                SignalTemporal { input: args, ..signal },
            ),
            TemporalInteraction::Query(query) => TemporalInteraction::Query(
                QueryTemporal { query_args: args, ..query },
            ),
        }
    }
}

} // verus!
