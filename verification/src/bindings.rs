//! What a binding for another language offers of the codec: a signal without
//! its input, and its encoded string.

use crate::encoder::{encode_spec, Encoder};
use crate::interaction::{text_of, InteractionView, SignalTemporal, SignalView, TemporalInteraction};
use vstd::prelude::*;
use vstd::std_specs::convert::FromSpecImpl;

verus! {

/// A signal without its input.
///
/// This is what routes a webhook event back to a workflow: the event itself
/// is sent as the input of the signal.
#[derive(Debug, PartialEq, Eq, Clone)]
pub struct TemporalSignalWithoutInput {
    pub namespace: String,
    pub task_queue: String,
    pub workflow_id: Option<String>,
    pub run_id: Option<String>,
    pub signal_name: String,
}

impl TemporalSignalWithoutInput {
    /// The signal that this one stands for: nothing is set beyond its five fields.
    pub open spec fn signal(self) -> SignalView {
        SignalView {
            namespace: self.namespace@,
            task_queue: self.task_queue@,
            workflow_id: text_of(self.workflow_id),
            run_id: text_of(self.run_id),
            signal_name: self.signal_name@,
            input: None,
            identity: None,
            request_id: None,
            control: None,
        }
    }
}

impl From<TemporalSignalWithoutInput> for SignalTemporal {
    fn from(signal: TemporalSignalWithoutInput) -> (r: SignalTemporal) {
        SignalTemporal {
            namespace: signal.namespace,
            task_queue: signal.task_queue,
            workflow_id: signal.workflow_id,
            run_id: signal.run_id,
            signal_name: signal.signal_name,
            input: None,
            identity: None,
            request_id: None,
            control: None,
        }
    }
}

impl FromSpecImpl<TemporalSignalWithoutInput> for SignalTemporal {
    open spec fn obeys_from_spec() -> bool {
        true
    }

    open spec fn from_spec(signal: TemporalSignalWithoutInput) -> SignalTemporal {
        SignalTemporal {
            namespace: signal.namespace,
            task_queue: signal.task_queue,
            workflow_id: signal.workflow_id,
            run_id: signal.run_id,
            signal_name: signal.signal_name,
            input: None,
            identity: None,
            request_id: None,
            control: None,
        }
    }
}

/// The encoded string of `signal` in the default version.
pub fn encode_signal_no_args_default(signal: TemporalSignalWithoutInput) -> (r: String)
    ensures
        r@ == encode_spec(Encoder::A, InteractionView::Signal(signal.signal())),
{
    Encoder::default().encode(TemporalInteraction::Signal(SignalTemporal::from(signal)))
}

/// The encoded string of `signal` in `encoder_version`.
pub fn encode_signal_no_args_with_version(
    encoder_version: Encoder,
    signal: TemporalSignalWithoutInput,
) -> (r: String)
    ensures
        r@ == encode_spec(encoder_version, InteractionView::Signal(signal.signal())),
{
    encoder_version.encode(TemporalInteraction::Signal(SignalTemporal::from(signal)))
}

} // verus!
