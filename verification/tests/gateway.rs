use serde_json::{Number, Value};
use temporal_json::text::replace_char;
use temporal_json::{
    build_query_request, build_signal_request, build_signal_request_with, build_start_request,
    build_workflow_execution_request, build_workflow_execution_request_with,
    default_apig_port, get_callback_id_from_slack_interaction_event, query_results,
    service_host_var, service_port_var, workflow_execution, ApiVersion, ApiVersionRejection,
    ApigConfig, CallbackIdSource, Environment, ExecuteTemporalWorkflow, MissingCallbackId,
    QueryTemporal, SignalTemporal, TemporalExecuteWorkflowResponse, TemporalInteractionResponse,
    TemporalQueryResponse, TemporalSignalResponse, TemporalWorkflowExecutionInfo,
    DEFAULT_NAMESPACE, ENVIRONMENT_STR, SECRET_PREFIX, UNSUPPORTED_API_VERSION_MSG,
};

fn is_hyphenated_uuid(text: &str) -> bool {
    text.len() == 36
        && text.char_indices().all(|(i, c)| match i {
            8 | 13 | 18 | 23 => c == '-',
            _ => c.is_ascii_hexdigit() && !c.is_ascii_uppercase(),
        })
}

#[test]
fn environment_names_are_read_in_capitals_only() {
    assert_eq!(Environment::from_str("LOCAL"), Some(Environment::LOCAL));
    assert_eq!(Environment::from_str("DEV"), Some(Environment::DEV));
    assert_eq!(Environment::from_str("STAGE"), Some(Environment::STAGE));
    assert_eq!(Environment::from_str("PROD"), Some(Environment::PROD));
    for text in ["local", "Local", "", "PRODUCTION", " PROD", "TEST"] {
        assert_eq!(Environment::from_str(text), None);
    }
    for environment in [
        Environment::LOCAL,
        Environment::DEV,
        Environment::STAGE,
        Environment::PROD,
    ] {
        assert_eq!(Environment::from_str(environment.as_str()), Some(environment));
    }
}

#[test]
fn environment_value_is_read_in_any_case() {
    // lowercase
    assert_eq!(Environment::from_env_value("local"), Ok(Environment::LOCAL));
    // uppercase
    assert_eq!(Environment::from_env_value("LOCAL"), Ok(Environment::LOCAL));
    assert_eq!(Environment::from_env_value("Stage"), Ok(Environment::STAGE));
    assert_eq!(Environment::from_env_value("pRoD"), Ok(Environment::PROD));
    assert_eq!(Environment::from_env_value("dev"), Ok(Environment::DEV));
    assert_eq!(
        Environment::from_env_value("testing"),
        Err("TESTING".to_string())
    );
    assert_eq!(Environment::from_env_value(""), Err(String::new()));
    assert_eq!(ENVIRONMENT_STR, "ENVIRONMENT");
    assert_eq!(SECRET_PREFIX, "SECRET_");
}

#[test]
fn direct_interaction_is_closed_in_stage_and_prod() {
    assert!(Environment::LOCAL.allows_direct_interaction());
    assert!(Environment::DEV.allows_direct_interaction());
    assert!(!Environment::STAGE.allows_direct_interaction());
    assert!(!Environment::PROD.allows_direct_interaction());
}

#[test]
fn service_variables_are_named_after_the_role() {
    assert_eq!(service_host_var("temporal"), "TEMPORAL_SERVICE_HOST");
    assert_eq!(service_port_var("temporal"), "TEMPORAL_SERVICE_PORT");
    assert_eq!(
        service_host_var("temporal-front-end"),
        "TEMPORAL_FRONT_END_SERVICE_HOST"
    );
    assert_eq!(service_port_var("my-api-v2"), "MY_API_V2_SERVICE_PORT");
    assert_eq!(service_host_var(""), "_SERVICE_HOST");
    assert_eq!(service_host_var("-a-"), "_A__SERVICE_HOST");
    for role in ["temporal", "a-b", "-", "Straße-x", "already_UPPER"] {
        assert_eq!(
            service_host_var(role),
            format!("{}_SERVICE_HOST", role.to_uppercase().replace('-', "_"))
        );
        assert_eq!(
            service_port_var(role),
            format!("{}_SERVICE_PORT", role.to_uppercase().replace('-', "_"))
        );
    }
}

#[test]
fn replace_char_replaces_every_occurrence() {
    assert_eq!(replace_char("a-b-c", '-', "_"), "a_b_c");
    assert_eq!(replace_char("--", '-', "_"), "__");
    assert_eq!(replace_char("", '-', "_"), "");
    assert_eq!(replace_char("abc", '-', "_"), "abc");
    assert_eq!(replace_char("a-b", '-', ""), "ab");
    assert_eq!(replace_char("a-b", '-', "<->"), "a<->b");
    for text in ["", "-", "a-", "-a", "ä-ö-", "no dash"] {
        assert_eq!(replace_char(text, '-', "_"), text.replace('-', "_"));
    }
}

#[test]
fn api_version_is_read_from_the_path() {
    assert_eq!(ApiVersion::from_path_param(Some("v1")), Ok(ApiVersion::V1));
    assert_eq!(
        ApiVersion::from_path_param(Some("not-a-version")),
        Err(ApiVersionRejection::Unsupported)
    );
    assert_eq!(
        ApiVersion::from_path_param(Some("V1")),
        Err(ApiVersionRejection::Unsupported)
    );
    assert_eq!(
        ApiVersion::from_path_param(Some("")),
        Err(ApiVersionRejection::Unsupported)
    );
    assert_eq!(
        ApiVersion::from_path_param(None),
        Err(ApiVersionRejection::Missing)
    );
    assert_eq!(
        ApiVersionRejection::Unsupported.message(),
        UNSUPPORTED_API_VERSION_MSG
    );
    assert_eq!(
        UNSUPPORTED_API_VERSION_MSG,
        "unsupported API version, route is invalid"
    );
    assert_eq!(ApiVersionRejection::Missing.message(), "version param missing");
}

#[test]
fn api_version_confirms_itself() {
    assert_eq!(ApiVersion::V1.as_str(), "V1");
    assert_eq!(
        ApiVersion::V1.confidence_message(),
        "received request with version V1"
    );
    assert_eq!(
        ApiVersion::V1.confidence_message(),
        format!("received request with version {:?}", ApiVersion::V1)
    );
}

#[test]
fn config_gives_port_and_engine_address() {
    assert_eq!(default_apig_port(), "3000");
    let config = ApigConfig {
        temporal_service_host: "temporal.internal".into(),
        temporal_service_port: "7233".into(),
        environment: Environment::LOCAL,
        apig_port: default_apig_port(),
    };
    assert_eq!(config.temporal_url(), "http://temporal.internal:7233");
    let config = ApigConfig {
        temporal_service_host: String::new(),
        temporal_service_port: String::new(),
        ..config
    };
    assert_eq!(config.temporal_url(), "http://:");
}

#[test]
fn callback_id_is_taken_from_where_the_event_keeps_it() {
    let get = get_callback_id_from_slack_interaction_event;
    assert_eq!(
        get(CallbackIdSource::BlockActions(Some(vec![
            "A~E:Signal".to_string(),
            "second".to_string()
        ]))),
        Ok("A~E:Signal".to_string())
    );
    assert_eq!(
        get(CallbackIdSource::DialogSubmission(Some("dialog".into()))),
        Ok("dialog".to_string())
    );
    assert_eq!(
        get(CallbackIdSource::MessageAction("message".into())),
        Ok("message".to_string())
    );
    assert_eq!(
        get(CallbackIdSource::ViewSubmission(Some("submitted".into()))),
        Ok("submitted".to_string())
    );
    assert_eq!(
        get(CallbackIdSource::ViewClosed(Some("closed".into()))),
        Ok("closed".to_string())
    );
}

#[test]
fn event_without_callback_id_says_what_is_missing() {
    let get = get_callback_id_from_slack_interaction_event;
    assert_eq!(
        get(CallbackIdSource::BlockActions(None)),
        Err(MissingCallbackId::NoActions)
    );
    assert_eq!(
        get(CallbackIdSource::BlockActions(Some(vec![]))),
        Err(MissingCallbackId::EmptyActions)
    );
    assert_eq!(
        get(CallbackIdSource::DialogSubmission(None)),
        Err(MissingCallbackId::NoDialogCallbackId)
    );
    assert_eq!(get(CallbackIdSource::Shortcut), Err(MissingCallbackId::Shortcut));
    assert_eq!(
        get(CallbackIdSource::ViewSubmission(None)),
        Err(MissingCallbackId::NoViewCallbackId)
    );
    assert_eq!(
        get(CallbackIdSource::ViewClosed(None)),
        Err(MissingCallbackId::NoViewCallbackId)
    );
    assert_eq!(
        MissingCallbackId::NoActions.message(),
        "No actions in block action event"
    );
    assert_eq!(
        MissingCallbackId::EmptyActions.message(),
        "Actions vector is empty, from block actions event"
    );
    assert_eq!(
        MissingCallbackId::NoDialogCallbackId.message(),
        "callback id not provided in dialog"
    );
    assert_eq!(
        MissingCallbackId::NoViewCallbackId.message(),
        "callback_id not provided to view submission"
    );
    assert_eq!(
        MissingCallbackId::Shortcut.message(),
        "no callback id is read from a shortcut"
    );
}

#[test]
fn workflow_execution_needs_a_workflow_id() {
    assert_eq!(
        workflow_execution(Some("wf".into()), Some("run".into())),
        Some(TemporalWorkflowExecutionInfo {
            workflow_id: "wf".into(),
            run_id: "run".into()
        })
    );
    assert_eq!(
        workflow_execution(Some("wf".into()), None),
        Some(TemporalWorkflowExecutionInfo {
            workflow_id: "wf".into(),
            run_id: String::new()
        })
    );
    assert_eq!(workflow_execution(None, Some("run".into())), None);
    assert_eq!(workflow_execution(None, None), None);
}

#[test]
fn signal_request_fills_in_what_the_signal_leaves_open() {
    let signal = SignalTemporal {
        namespace: "ns".into(),
        task_queue: "tq".into(),
        workflow_id: Some("wf".into()),
        run_id: None,
        signal_name: "go".into(),
        input: Some(vec![Value::Bool(true)]),
        identity: None,
        request_id: None,
        control: None,
    };
    let request = build_signal_request_with(signal.clone(), "fresh-id".into());
    assert_eq!(request.namespace, "ns");
    assert_eq!(
        request.workflow_execution,
        Some(TemporalWorkflowExecutionInfo {
            workflow_id: "wf".into(),
            run_id: String::new()
        })
    );
    assert_eq!(request.signal_name, "go");
    assert_eq!(request.input, Some(vec![Value::Bool(true)]));
    assert_eq!(request.identity, "TemporalAPIG");
    assert_eq!(request.request_id, "fresh-id");
    assert_eq!(request.control, "placeholder_control");

    let request = build_signal_request(signal);
    assert_eq!(request.identity, "TemporalAPIG");
    assert_eq!(request.control, "placeholder_control");
    assert!(is_hyphenated_uuid(&request.request_id));
}

#[test]
fn signal_request_keeps_what_the_signal_brings() {
    let signal = SignalTemporal {
        namespace: "ns".into(),
        task_queue: "tq".into(),
        workflow_id: None,
        run_id: Some("run".into()),
        signal_name: "go".into(),
        input: None,
        identity: Some("me".into()),
        request_id: Some("req-1".into()),
        control: Some("ctl".into()),
    };
    for request in [
        build_signal_request_with(signal.clone(), "fresh-id".into()),
        build_signal_request(signal),
    ] {
        assert_eq!(request.workflow_execution, None);
        assert_eq!(request.input, None);
        assert_eq!(request.identity, "me");
        assert_eq!(request.request_id, "req-1");
        assert_eq!(request.control, "ctl");
    }
}

#[test]
fn new_request_ids_differ() {
    let signal = SignalTemporal {
        namespace: "ns".into(),
        task_queue: "tq".into(),
        signal_name: "go".into(),
        ..Default::default()
    };
    let first = build_signal_request(signal.clone()).request_id;
    let second = build_signal_request(signal).request_id;
    assert!(is_hyphenated_uuid(&first));
    assert!(is_hyphenated_uuid(&second));
    assert_ne!(first, second);
}

#[test]
fn query_request_names_the_run() {
    let request = build_query_request(QueryTemporal {
        namespace: "ns".into(),
        task_queue: "tq".into(),
        workflow_id: Some("wf".into()),
        run_id: Some("run".into()),
        query_type: "state".into(),
        query_args: Some(vec![Value::Null]),
    });
    assert_eq!(request.namespace, "ns");
    assert_eq!(
        request.execution,
        Some(TemporalWorkflowExecutionInfo {
            workflow_id: "wf".into(),
            run_id: "run".into()
        })
    );
    assert_eq!(request.query_type, "state");
    assert_eq!(request.query_args, Some(vec![Value::Null]));
}

#[test]
fn start_request_carries_the_workflow() {
    let request = build_workflow_execution_request_with(
        DEFAULT_NAMESPACE.to_string(),
        Some(vec![Value::String("saxon".into())]),
        "template-taskqueue".into(),
        "1".into(),
        "GreetingWorkflow".into(),
        "req-9".into(),
    );
    assert_eq!(request.namespace, "test-namespace");
    assert_eq!(request.input, Some(vec![Value::String("saxon".into())]));
    assert_eq!(request.task_queue, "template-taskqueue");
    assert_eq!(request.workflow_id, "1");
    assert_eq!(request.workflow_type, "GreetingWorkflow");
    assert_eq!(request.request_id, "req-9");

    let request = build_workflow_execution_request(
        "ns".into(),
        None,
        "tq".into(),
        "wf".into(),
        "run".into(),
    );
    assert_eq!(request.namespace, "ns");
    assert_eq!(request.input, None);
    assert_eq!(request.task_queue, "tq");
    assert_eq!(request.workflow_id, "wf");
    assert_eq!(request.workflow_type, "run");
    assert!(is_hyphenated_uuid(&request.request_id));

    let request = build_start_request(ExecuteTemporalWorkflow {
        namespace: "ns".into(),
        task_queue: "tq".into(),
        workflow_id: "wf".into(),
        workflow_type: "run".into(),
        args: Some(vec![]),
    });
    assert_eq!(request.namespace, "ns");
    assert_eq!(request.input, Some(vec![]));
    assert_eq!(request.task_queue, "tq");
    assert_eq!(request.workflow_id, "wf");
    assert_eq!(request.workflow_type, "run");
    assert!(is_hyphenated_uuid(&request.request_id));
}

#[test]
fn responses_are_built_from_plain_values() {
    assert_eq!(
        TemporalInteractionResponse::from_started("run-1".into()),
        TemporalInteractionResponse::ExecuteWorkflow(TemporalExecuteWorkflowResponse {
            run_id: "run-1".into()
        })
    );
    assert_eq!(
        TemporalInteractionResponse::from_signalled(),
        TemporalInteractionResponse::Signal(TemporalSignalResponse {})
    );
    assert_eq!(
        TemporalInteractionResponse::from_query(None, Some(2)).unwrap(),
        TemporalInteractionResponse::Query(TemporalQueryResponse {
            query_rejected: Some(2),
            query_result: None
        })
    );
}

#[test]
fn query_result_data_becomes_a_json_list_of_bytes() {
    let bytes = |data: &[u8]| {
        Value::Array(
            data.iter()
                .map(|byte| Value::Number(Number::from(*byte)))
                .collect(),
        )
    };
    let payloads = vec![b"\"hi\"".to_vec(), vec![], vec![0, 255]];
    assert_eq!(
        query_results(&payloads).unwrap(),
        vec![bytes(b"\"hi\""), bytes(&[]), bytes(&[0, 255])]
    );
    assert_eq!(query_results(&vec![]).unwrap(), Vec::<Value>::new());
    assert_eq!(
        TemporalInteractionResponse::from_query(Some(payloads), None).unwrap(),
        TemporalInteractionResponse::Query(TemporalQueryResponse {
            query_rejected: None,
            query_result: Some(vec![bytes(b"\"hi\""), bytes(&[]), bytes(&[0, 255])])
        })
    );
}
