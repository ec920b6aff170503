use serde_json::{Number, Value};
use temporal_json::text::{find_char, join, same_text, split, split_once};
use temporal_json::{
    DecodeError, Encoder, EncoderMap, ExecuteTemporalWorkflow, KeysToTemporalAction,
    QueryTemporal, SignalTemporal, TemporalInteraction, TemporalInteractionDiscriminants,
};

fn query_with(args: Option<Vec<Value>>) -> QueryTemporal {
    QueryTemporal {
        namespace: "ns".into(),
        task_queue: "tq".into(),
        workflow_id: None,
        run_id: Some("run-7".into()),
        query_type: "state".into(),
        query_args: args,
    }
}

#[test]
fn registry_is_listed_in_writing_order() {
    let keys: Vec<String> = KeysToTemporalAction::iter()
        .iter()
        .map(|key| format!("{key:?}"))
        .collect();
    assert_eq!(keys, vec!["E", "W", "N", "T", "Y", "R", "S", "Q", "U"]);
    assert_eq!(KeysToTemporalAction::iter()[0], KeysToTemporalAction::E);
    assert_eq!(KeysToTemporalAction::iter()[8], KeysToTemporalAction::U);
    let codes: Vec<String> = KeysToTemporalAction::iter()
        .iter()
        .map(|key| key.to_string())
        .collect();
    assert_eq!(codes, vec!["E", "W", "N", "T", "Y", "R", "S", "Q", "U"]);
}

#[test]
fn every_code_reads_back_as_its_key() {
    for key in KeysToTemporalAction::iter() {
        assert_eq!(KeysToTemporalAction::from_str(&key.to_string()), Ok(key));
        assert_eq!(KeysToTemporalAction::from_str(key.as_str()), Ok(key));
    }
}

#[test]
fn other_texts_are_no_codes() {
    for text in ["", "e", "X", "EE", "E ", "namespace", "é"] {
        assert_eq!(
            KeysToTemporalAction::from_str(text),
            Err(DecodeError::UnknownKey(text.to_string()))
        );
    }
}

#[test]
fn field_names_of_the_codes() {
    let names: Vec<&str> = KeysToTemporalAction::iter()
        .iter()
        .map(|key| key.field_name())
        .collect();
    assert_eq!(
        names,
        vec![
            "event_kind",
            "workflow_id",
            "namespace",
            "task_queue",
            "workflow_type",
            "run_id",
            "signal_name",
            "query_type",
            "query_args"
        ]
    );
}

#[test]
fn to_kv_writes_code_delimiter_value() {
    assert_eq!(KeysToTemporalAction::N.to_kv("my-namespace"), "N:my-namespace");
    assert_eq!(KeysToTemporalAction::W.to_kv(""), "W:");
    assert_eq!(KeysToTemporalAction::E.to_kv("Signal"), "E:Signal");
    assert_eq!(KeysToTemporalAction::U.to_kv("a:b"), "U:a:b");
}

#[test]
fn get_value_removes_what_it_returns() {
    let mut map = EncoderMap::new();
    map.insert(KeysToTemporalAction::N, "first");
    map.insert(KeysToTemporalAction::T, "queue");
    map.insert(KeysToTemporalAction::N, "second");
    assert_eq!(KeysToTemporalAction::N.get_value(&mut map), Ok("second"));
    assert_eq!(
        KeysToTemporalAction::N.get_value(&mut map),
        Err(DecodeError::MissingRequiredField(KeysToTemporalAction::N))
    );
    assert_eq!(map.remove(KeysToTemporalAction::T), Some("queue"));
    assert_eq!(map.remove(KeysToTemporalAction::T), None);
    assert_eq!(
        KeysToTemporalAction::S.get_value(&mut map),
        Err(DecodeError::MissingRequiredField(KeysToTemporalAction::S))
    );
}

#[test]
fn versions_and_their_tags() {
    assert_eq!(Encoder::iter(), vec![Encoder::A]);
    assert_eq!(Encoder::default(), Encoder::A);
    assert_eq!(Encoder::A.to_string(), "A");
    assert_eq!(Encoder::A.as_str(), "A");
    assert_eq!(Encoder::from_str("A"), Ok(Encoder::A));
    for text in ["", "a", "B", "AA", "A~"] {
        assert_eq!(
            Encoder::from_str(text),
            Err(DecodeError::UnknownVersion(text.to_string()))
        );
    }
}

#[test]
fn kinds_and_their_names() {
    for (kind, name) in [
        (TemporalInteractionDiscriminants::Execute, "Execute"),
        (TemporalInteractionDiscriminants::Signal, "Signal"),
        (TemporalInteractionDiscriminants::Query, "Query"),
    ] {
        assert_eq!(kind.to_string(), name);
        assert_eq!(kind.as_str(), name);
        assert_eq!(TemporalInteractionDiscriminants::from_str(name), Ok(kind));
    }
    for text in ["", "execute", "Signal ", "Bogus", "Quer", "Queryy"] {
        assert_eq!(
            TemporalInteractionDiscriminants::from_str(text),
            Err(DecodeError::UnknownEventKind(text.to_string()))
        );
    }
}

#[test]
fn accessors_of_an_execute() {
    let command = TemporalInteraction::Execute(ExecuteTemporalWorkflow {
        namespace: "ns".into(),
        task_queue: "tq".into(),
        workflow_id: "wf".into(),
        workflow_type: "run".into(),
        args: None,
    });
    assert_eq!(command.to_type_string(), "Execute");
    assert_eq!(command.namespace(), "ns");
    assert_eq!(command.task_queue(), "tq");
    assert_eq!(command.workflow_id(), "wf");
}

#[test]
fn accessors_of_a_signal() {
    let signal = SignalTemporal {
        namespace: "ns".into(),
        task_queue: "tq".into(),
        workflow_id: None,
        run_id: Some("run-1".into()),
        signal_name: "go".into(),
        ..Default::default()
    };
    assert_eq!(signal.run_id(), "run-1");
    let command = TemporalInteraction::Signal(signal);
    assert_eq!(command.to_type_string(), "Signal");
    assert_eq!(command.namespace(), "ns");
    assert_eq!(command.task_queue(), "tq");
    assert_eq!(command.workflow_id(), "");
    assert_eq!(SignalTemporal::default().run_id(), "");
}

#[test]
fn accessors_of_a_query() {
    let query = query_with(None);
    assert_eq!(query.run_id(), "run-7");
    assert_eq!(query.query_args(), "");
    let command = TemporalInteraction::Query(QueryTemporal {
        workflow_id: Some("wf-9".into()),
        run_id: None,
        ..query
    });
    assert_eq!(command.to_type_string(), "Query");
    assert_eq!(command.workflow_id(), "wf-9");
    match &command {
        TemporalInteraction::Query(query) => assert_eq!(query.run_id(), ""),
        _ => unreachable!(),
    }
}

#[test]
fn query_args_renders_the_first_argument_as_json() {
    let mut object = serde_json::Map::new();
    object.insert("name".to_string(), Value::String("saxon".to_string()));
    object.insert("count".to_string(), Value::Number(Number::from(3)));
    let query = query_with(Some(vec![Value::Object(object), Value::Bool(false)]));
    assert_eq!(query.query_args(), "{\"count\":3,\"name\":\"saxon\"}");
    assert_eq!(query_with(Some(vec![])).query_args(), "");
    assert_eq!(
        query_with(Some(vec![Value::String("plain".into())])).query_args(),
        "\"plain\""
    );
    assert_eq!(query_with(Some(vec![Value::Null])).query_args(), "null");
}

#[test]
fn add_data_args_replaces_only_the_arguments() {
    let args = Some(vec![Value::Bool(true)]);
    let execute = ExecuteTemporalWorkflow {
        namespace: "ns".into(),
        task_queue: "tq".into(),
        workflow_id: "wf".into(),
        workflow_type: "run".into(),
        args: Some(vec![Value::Null]),
    };
    assert_eq!(
        TemporalInteraction::Execute(execute.clone()).add_data_args(args.clone()),
        TemporalInteraction::Execute(ExecuteTemporalWorkflow {
            args: args.clone(),
            ..execute
        })
    );
    let signal = SignalTemporal {
        namespace: "ns".into(),
        task_queue: "tq".into(),
        workflow_id: Some("wf".into()),
        run_id: None,
        signal_name: "go".into(),
        input: None,
        identity: Some("me".into()),
        request_id: None,
        control: Some("ctl".into()),
    };
    assert_eq!(
        TemporalInteraction::Signal(signal.clone()).add_data_args(args.clone()),
        TemporalInteraction::Signal(SignalTemporal {
            input: args.clone(),
            ..signal
        })
    );
    let query = query_with(Some(vec![Value::Null]));
    assert_eq!(
        TemporalInteraction::Query(query.clone()).add_data_args(None),
        TemporalInteraction::Query(QueryTemporal {
            query_args: None,
            ..query
        })
    );
}

#[test]
fn find_char_gives_the_first_position_in_characters() {
    assert_eq!(find_char("a~b~c", '~'), Some(1));
    assert_eq!(find_char("~", '~'), Some(0));
    assert_eq!(find_char("abc", '~'), None);
    assert_eq!(find_char("", '~'), None);
    assert_eq!(find_char("äö~", '~'), Some(2));
}

#[test]
fn split_once_cuts_at_the_first_separator() {
    assert_eq!(split_once("a:b:c", ':'), Some(("a", "b:c")));
    assert_eq!(split_once(":", ':'), Some(("", "")));
    assert_eq!(split_once("key:", ':'), Some(("key", "")));
    assert_eq!(split_once("no separator", ':'), None);
    assert_eq!(split_once("é:ü", ':'), Some(("é", "ü")));
    assert_eq!(split_once("a:b:c", ':'), "a:b:c".split_once(':'));
}

#[test]
fn split_cuts_at_every_separator() {
    assert_eq!(split("a,b,c", ','), vec!["a", "b", "c"]);
    assert_eq!(split("", ','), vec![""]);
    assert_eq!(split(",", ','), vec!["", ""]);
    assert_eq!(split("a,,b,", ','), vec!["a", "", "b", ""]);
    assert_eq!(split("plain", ','), vec!["plain"]);
    for text in ["", ",", "a,b", ",a,,b,", "ä,ö"] {
        assert_eq!(split(text, ','), text.split(',').collect::<Vec<_>>());
    }
}

#[test]
fn join_puts_the_separator_between_neighbours() {
    let parts = |texts: &[&str]| texts.iter().map(|t| t.to_string()).collect::<Vec<_>>();
    assert_eq!(join(&parts(&[]), ","), "");
    assert_eq!(join(&parts(&["a"]), ","), "a");
    assert_eq!(join(&parts(&["a", "b", "c"]), ","), "a,b,c");
    assert_eq!(join(&parts(&["", ""]), ","), ",");
    assert_eq!(join(&parts(&["a", "b"]), ", "), "a, b");
}

#[test]
fn same_text_compares_character_by_character() {
    assert!(same_text("Signal", "Signal"));
    assert!(same_text("", ""));
    assert!(!same_text("Signal", "Signa"));
    assert!(!same_text("Signal", "Signbl"));
    assert!(!same_text("", "a"));
    assert!(same_text("é", "é"));
    assert!(!same_text("é", "e"));
}
