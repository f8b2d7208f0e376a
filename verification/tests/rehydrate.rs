use walrus_cli::command::{App, Commands, RpcArg};
use walrus_cli::error::{CliError, Field};
use walrus_cli::rehydrate::{rehydrate, DocumentSource};

fn json_invocation(command_string: Option<&str>) -> App {
    App {
        config: Some("cli.yaml".to_string()),
        wallet: None,
        gas_budget: 1,
        json: false,
        command: Commands::Json { command_string: command_string.map(|s| s.to_string()) },
    }
}

fn store_document() -> &'static str {
    "{\"gasBudget\": 9, \"command\": {\"store\": {\"file\": \"a.bin\", \"epochs\": 3}}}"
}

fn store_invocation() -> App {
    App {
        config: None,
        wallet: None,
        gas_budget: 9,
        json: true,
        command: Commands::Store { file: "a.bin".to_string(), epochs: 3, force: false },
    }
}

#[test]
fn rehydration_forces_json_output() {
    assert_eq!(rehydrate(store_document()), Ok(store_invocation()));
    let explicit =
        "{\"json\": false, \"gasBudget\": 9, \"command\": {\"store\": {\"file\": \"a.bin\", \"epochs\": 3}}}";
    assert_eq!(rehydrate(explicit), Ok(store_invocation()));
}

#[test]
fn rehydration_of_malformed_text_is_refused() {
    assert_eq!(rehydrate("{\"command\": "), Err(CliError::MalformedJson));
    assert_eq!(rehydrate(""), Err(CliError::MalformedJson));
}

#[test]
fn rehydration_of_incomplete_document_is_refused() {
    assert_eq!(
        rehydrate("{\"command\": {\"store\": {}}}"),
        Err(CliError::MissingField(Field::File))
    );
}

#[test]
fn document_source_of_each_kind() {
    assert_eq!(json_invocation(Some("{}")).document_source(), DocumentSource::Inline);
    assert_eq!(json_invocation(None).document_source(), DocumentSource::StandardInput);
    assert_eq!(store_invocation().document_source(), DocumentSource::Nowhere);
}

#[test]
fn one_round_resolves_a_concrete_payload() {
    let next = json_invocation(Some(store_document())).advance("ignored").unwrap();
    assert_eq!(next, store_invocation());
    assert!(next.json);
    assert_eq!(next.clone().advance("whatever"), Ok(next));
}

#[test]
fn one_round_takes_standard_input_where_nothing_is_inline() {
    let next = json_invocation(None).advance(store_document()).unwrap();
    assert_eq!(next, store_invocation());
}

#[test]
fn inline_walk_follows_nested_documents() {
    let inner = "{\"command\": {\"info\": {}}}";
    let middle = format!(
        "{{\"command\": {{\"json\": {{\"commandString\": {}}}}}}}",
        walrus_cli::json::JsonValue::Text(inner.to_string()).to_text()
    );
    let app = json_invocation(Some(&middle));
    let after_one = app.clone().follow_inline(1).unwrap();
    assert_eq!(after_one.command, Commands::Json { command_string: Some(inner.to_string()) });
    assert!(after_one.json);
    let after_two = app.clone().follow_inline(2).unwrap();
    assert_eq!(after_two.command, Commands::Info { rpc_arg: RpcArg { rpc_url: None }, dev: false });
    assert_eq!(app.clone().follow_inline(u64::MAX), Ok(after_two));
    assert_eq!(app.clone().follow_inline(0), Ok(app));
}

#[test]
fn inline_walk_stops_where_standard_input_is_asked_for() {
    let app = json_invocation(Some("{\"command\": {\"json\": {}}}"));
    let next = app.follow_inline(10).unwrap();
    assert_eq!(next.document_source(), DocumentSource::StandardInput);
    assert!(next.json);
}

#[test]
fn inline_walk_gives_up_on_a_refused_document() {
    let app = json_invocation(Some("not json"));
    assert_eq!(app.follow_inline(3), Err(CliError::MalformedJson));
}

#[test]
fn second_read_of_standard_input_fails() {
    let first = json_invocation(None).advance("{\"command\": {\"json\": {}}}").unwrap();
    assert_eq!(first.document_source(), DocumentSource::StandardInput);
    assert_eq!(first.advance(""), Err(CliError::MalformedJson));
}
