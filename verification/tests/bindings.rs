use temporal_json::{
    encode_signal_no_args_default, encode_signal_no_args_with_version, Encoder, SignalTemporal,
    TemporalInteraction, TemporalSignalWithoutInput,
};

fn signal() -> TemporalSignalWithoutInput {
    TemporalSignalWithoutInput {
        namespace: "my-namespace".into(),
        task_queue: "my-taskqueue".into(),
        workflow_id: Some("some-workflow-id".into()),
        run_id: Some("some-run-id".into()),
        signal_name: "my_signal_name".into(),
    }
}

#[test]
fn signal_without_input_becomes_a_signal_with_nothing_else_set() {
    assert_eq!(
        SignalTemporal::from(signal()),
        SignalTemporal {
            namespace: "my-namespace".into(),
            task_queue: "my-taskqueue".into(),
            workflow_id: Some("some-workflow-id".into()),
            run_id: Some("some-run-id".into()),
            signal_name: "my_signal_name".into(),
            input: None,
            identity: None,
            request_id: None,
            control: None,
        }
    );
    let converted: SignalTemporal = TemporalSignalWithoutInput {
        workflow_id: None,
        run_id: None,
        ..signal()
    }
    .into();
    assert_eq!(converted.workflow_id, None);
    assert_eq!(converted.run_id, None);
}

#[test]
fn signal_without_input_is_encoded_as_a_signal() {
    let expected =
        "A~E:Signal,W:some-workflow-id,N:my-namespace,T:my-taskqueue,R:some-run-id,S:my_signal_name";
    assert_eq!(encode_signal_no_args_default(signal()), expected);
    assert_eq!(
        encode_signal_no_args_with_version(Encoder::A, signal()),
        expected
    );
    assert_eq!(
        Encoder::decode(expected),
        Ok(TemporalInteraction::Signal(signal().into()))
    );
}
