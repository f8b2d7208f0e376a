use walrus_cli::blob_id::BlobId;
use walrus_cli::command::{
    App, Commands, DaemonArgs, FileOrBlobId, PublisherArgs, RpcArg, Timeout,
};
use walrus_cli::error::{CliError, ErrorKind, Field};
use walrus_cli::json::JsonValue;

const ID_TEXT: &str = "4BKcDC0Ih5RJ8R0tFMz3MZVNZV8b2goT6_JiEEwNHQo";

fn id() -> BlobId {
    BlobId::parse(ID_TEXT).unwrap()
}

fn decode(text: &str) -> Result<App, CliError> {
    App::from_json(&JsonValue::parse(text).expect("valid JSON"))
}

fn no_rpc() -> RpcArg {
    RpcArg { rpc_url: None }
}

fn invocation(command: Commands) -> App {
    App { config: None, wallet: None, gas_budget: 500_000_000, json: false, command }
}

#[test]
fn decode_documented_read_example() {
    let text = "{\n  \"config\": \"path/to/client_config.yaml\",\n  \"command\": {\n    \"read\": {\n      \"blobId\": \"4BKcDC0Ih5RJ8R0tFMz3MZVNZV8b2goT6_JiEEwNHQo\",\n      \"out\": \"some_output_file\"\n    }\n  }\n}";
    let app = decode(text).unwrap();
    assert_eq!(
        app,
        App {
            config: Some("path/to/client_config.yaml".to_string()),
            wallet: None,
            gas_budget: 500_000_000,
            json: false,
            command: Commands::Read {
                blob_id: id(),
                out: Some("some_output_file".to_string()),
                rpc_arg: no_rpc(),
            },
        }
    );
}

#[test]
fn decode_store_takes_defaults() {
    let app = decode("{\"command\": {\"store\": {\"file\": \"a.bin\"}}}").unwrap();
    assert_eq!(
        app,
        invocation(Commands::Store { file: "a.bin".to_string(), epochs: 1, force: false })
    );
}

#[test]
fn decode_store_with_all_fields() {
    let app = decode(
        "{\"wallet\": \"w.yaml\", \"gasBudget\": 7, \"json\": true, \"command\": {\"store\": {\"file\": \"a.bin\", \"epochs\": 3, \"force\": true}}}",
    )
    .unwrap();
    assert_eq!(
        app,
        App {
            config: None,
            wallet: Some("w.yaml".to_string()),
            gas_budget: 7,
            json: true,
            command: Commands::Store { file: "a.bin".to_string(), epochs: 3, force: true },
        }
    );
}

#[test]
fn decode_store_for_no_epoch_is_refused() {
    assert_eq!(
        decode("{\"command\": {\"store\": {\"file\": \"a.bin\", \"epochs\": 0}}}"),
        Err(CliError::ZeroEpochs)
    );
}

#[test]
fn decode_store_without_file_is_refused() {
    assert_eq!(
        decode("{\"command\": {\"store\": {\"epochs\": 2}}}"),
        Err(CliError::MissingField(Field::File))
    );
}

#[test]
fn decode_null_stands_for_an_absent_option() {
    let app = decode(
        "{\"config\": null, \"wallet\": null, \"command\": {\"read\": {\"blobId\": \"4BKcDC0Ih5RJ8R0tFMz3MZVNZV8b2goT6_JiEEwNHQo\", \"out\": null, \"rpcUrl\": null}}}",
    )
    .unwrap();
    assert_eq!(app, invocation(Commands::Read { blob_id: id(), out: None, rpc_arg: no_rpc() }));
}

#[test]
fn decode_unknown_members_are_passed_over() {
    let app = decode(
        "{\"extra\": 1, \"command\": {\"info\": {\"dev\": true, \"more\": [1, 2]}}}",
    )
    .unwrap();
    assert_eq!(app, invocation(Commands::Info { rpc_arg: no_rpc(), dev: true }));
}

#[test]
fn decode_blob_status_by_identifier() {
    let app = decode(
        "{\"command\": {\"blobStatus\": {\"blobId\": \"4BKcDC0Ih5RJ8R0tFMz3MZVNZV8b2goT6_JiEEwNHQo\", \"rpcUrl\": \"http://node\"}}}",
    )
    .unwrap();
    assert_eq!(
        app,
        invocation(Commands::BlobStatus {
            file_or_blob_id: FileOrBlobId { file: None, blob_id: Some(id()) },
            timeout: Timeout { secs: 1, nanos: 0 },
            rpc_arg: RpcArg { rpc_url: Some("http://node".to_string()) },
        })
    );
}

#[test]
fn decode_blob_status_by_file_with_timeout() {
    let app = decode(
        "{\"command\": {\"blobStatus\": {\"file\": \"a.bin\", \"timeout\": {\"secs\": 2, \"nanos\": 1500000000}}}}",
    )
    .unwrap();
    assert_eq!(
        app,
        invocation(Commands::BlobStatus {
            file_or_blob_id: FileOrBlobId { file: Some("a.bin".to_string()), blob_id: None },
            timeout: Timeout { secs: 3, nanos: 500_000_000 },
            rpc_arg: no_rpc(),
        })
    );
}

#[test]
fn decode_blob_status_without_target_is_refused() {
    assert_eq!(decode("{\"command\": {\"blobStatus\": {}}}"), Err(CliError::MissingTarget));
}

#[test]
fn decode_blob_status_with_two_targets_is_refused() {
    assert_eq!(
        decode(
            "{\"command\": {\"blobStatus\": {\"file\": \"a.bin\", \"blobId\": \"4BKcDC0Ih5RJ8R0tFMz3MZVNZV8b2goT6_JiEEwNHQo\"}}}"
        ),
        Err(CliError::AmbiguousTarget)
    );
}

#[test]
fn decode_timeout_that_overflows_is_refused() {
    assert_eq!(
        decode(
            "{\"command\": {\"blobStatus\": {\"file\": \"a\", \"timeout\": {\"secs\": 18446744073709551615, \"nanos\": 1000000000}}}}"
        ),
        Err(CliError::InvalidField(Field::Timeout))
    );
    assert_eq!(
        decode("{\"command\": {\"blobStatus\": {\"file\": \"a\", \"timeout\": {\"secs\": 1}}}}"),
        Err(CliError::InvalidField(Field::Timeout))
    );
    assert_eq!(
        decode("{\"command\": {\"blobStatus\": {\"file\": \"a\", \"timeout\": \"1s\"}}}"),
        Err(CliError::InvalidField(Field::Timeout))
    );
    assert_eq!(
        decode(
            "{\"command\": {\"blobStatus\": {\"file\": \"a\", \"timeout\": {\"secs\": 1, \"nanos\": 4294967296}}}}"
        ),
        Err(CliError::InvalidField(Field::Timeout))
    );
}

#[test]
fn decode_publisher_takes_defaults() {
    let app = decode("{\"command\": {\"publisher\": {}}}").unwrap();
    assert_eq!(
        app,
        invocation(Commands::Publisher {
            args: PublisherArgs {
                daemon_args: DaemonArgs {
                    bind_address: "127.0.0.1:31415".to_string(),
                    blocklist: None,
                },
                max_body_size_kib: 10_240,
            },
        })
    );
}

#[test]
fn decode_daemon_with_all_fields() {
    let app = decode(
        "{\"command\": {\"daemon\": {\"bindAddress\": \"0.0.0.0:80\", \"blocklist\": \"b.yaml\", \"maxBodySizeKib\": 5}}}",
    )
    .unwrap();
    assert_eq!(
        app,
        invocation(Commands::Daemon {
            args: PublisherArgs {
                daemon_args: DaemonArgs {
                    bind_address: "0.0.0.0:80".to_string(),
                    blocklist: Some("b.yaml".to_string()),
                },
                max_body_size_kib: 5,
            },
        })
    );
}

#[test]
fn decode_aggregator() {
    let app = decode(
        "{\"command\": {\"aggregator\": {\"rpcUrl\": \"u\", \"bindAddress\": \"[::1]:9000\"}}}",
    )
    .unwrap();
    assert_eq!(
        app,
        invocation(Commands::Aggregator {
            rpc_arg: RpcArg { rpc_url: Some("u".to_string()) },
            daemon_args: DaemonArgs { bind_address: "[::1]:9000".to_string(), blocklist: None },
        })
    );
}

#[test]
fn decode_json_command() {
    let app = decode("{\"command\": {\"json\": {\"commandString\": \"{}\"}}}").unwrap();
    assert_eq!(app, invocation(Commands::Json { command_string: Some("{}".to_string()) }));
    let bare = decode("{\"command\": {\"json\": {}}}").unwrap();
    assert_eq!(bare, invocation(Commands::Json { command_string: None }));
}

#[test]
fn decode_blob_id_command() {
    let app = decode("{\"command\": {\"blobId\": {\"file\": \"a.bin\", \"nShards\": 10}}}").unwrap();
    assert_eq!(
        app,
        invocation(Commands::BlobId {
            file: "a.bin".to_string(),
            n_shards: Some(10),
            rpc_arg: no_rpc(),
        })
    );
}

#[test]
fn decode_shard_count_out_of_range_is_refused() {
    assert_eq!(
        decode("{\"command\": {\"blobId\": {\"file\": \"a.bin\", \"nShards\": 0}}}"),
        Err(CliError::InvalidField(Field::NShards))
    );
    assert_eq!(
        decode("{\"command\": {\"blobId\": {\"file\": \"a.bin\", \"nShards\": 65536}}}"),
        Err(CliError::InvalidField(Field::NShards))
    );
    assert_eq!(
        decode("{\"command\": {\"blobId\": {\"file\": \"a.bin\", \"nShards\": -1}}}"),
        Err(CliError::InvalidField(Field::NShards))
    );
}

#[test]
fn decode_document_that_is_no_object_is_refused() {
    assert_eq!(decode("[]"), Err(CliError::NotAnObject));
    assert_eq!(decode("\"store\""), Err(CliError::NotAnObject));
    assert_eq!(decode("null"), Err(CliError::NotAnObject));
}

#[test]
fn decode_document_without_command_is_refused() {
    assert_eq!(decode("{}"), Err(CliError::MissingField(Field::Command)));
    assert_eq!(decode("{\"json\": true}"), Err(CliError::MissingField(Field::Command)));
}

#[test]
fn decode_command_of_wrong_shape_is_refused() {
    assert_eq!(decode("{\"command\": \"info\"}"), Err(CliError::CommandShape));
    assert_eq!(decode("{\"command\": {}}"), Err(CliError::CommandShape));
    assert_eq!(
        decode("{\"command\": {\"info\": {}, \"read\": {}}}"),
        Err(CliError::CommandShape)
    );
    assert_eq!(decode("{\"command\": {\"info\": 1}}"), Err(CliError::ArgumentsShape));
}

#[test]
fn decode_unknown_command_is_refused() {
    assert_eq!(decode("{\"command\": {\"write\": {}}}"), Err(CliError::UnknownCommand));
    assert_eq!(decode("{\"command\": {\"blob-status\": {}}}"), Err(CliError::UnknownCommand));
    assert_eq!(decode("{\"command\": {\"Store\": {}}}"), Err(CliError::UnknownCommand));
}

#[test]
fn decode_fields_of_wrong_kind_are_refused() {
    assert_eq!(
        decode("{\"config\": 1, \"command\": {\"info\": {}}}"),
        Err(CliError::InvalidField(Field::Config))
    );
    assert_eq!(
        decode("{\"wallet\": [], \"command\": {\"info\": {}}}"),
        Err(CliError::InvalidField(Field::Wallet))
    );
    assert_eq!(
        decode("{\"gasBudget\": \"7\", \"command\": {\"info\": {}}}"),
        Err(CliError::InvalidField(Field::GasBudget))
    );
    assert_eq!(
        decode("{\"gasBudget\": -7, \"command\": {\"info\": {}}}"),
        Err(CliError::InvalidField(Field::GasBudget))
    );
    assert_eq!(
        decode("{\"json\": null, \"command\": {\"info\": {}}}"),
        Err(CliError::InvalidField(Field::Json))
    );
    assert_eq!(
        decode("{\"command\": {\"info\": {\"dev\": 1}}}"),
        Err(CliError::InvalidField(Field::Dev))
    );
    assert_eq!(
        decode("{\"command\": {\"read\": {\"blobId\": \"short\"}}}"),
        Err(CliError::InvalidField(Field::BlobId))
    );
    assert_eq!(
        decode("{\"command\": {\"read\": {}}}"),
        Err(CliError::MissingField(Field::BlobId))
    );
    assert_eq!(
        decode("{\"command\": {\"publisher\": {\"bindAddress\": 5}}}"),
        Err(CliError::InvalidField(Field::BindAddress))
    );
    assert_eq!(
        decode("{\"command\": {\"publisher\": {\"maxBodySizeKib\": 1.5}}}"),
        Err(CliError::InvalidField(Field::MaxBodySizeKib))
    );
    assert_eq!(
        decode("{\"command\": {\"json\": {\"commandString\": 5}}}"),
        Err(CliError::InvalidField(Field::CommandString))
    );
}

fn round_trip(app: App) {
    let doc = app.to_json();
    assert_eq!(App::from_json(&doc), Ok(app.clone()));
    let text = doc.to_text();
    let parsed = JsonValue::parse(&text).expect("printed JSON parses");
    assert_eq!(App::from_json(&parsed), Ok(app));
}

#[test]
fn round_trip_of_every_operation() {
    round_trip(invocation(Commands::Store { file: "a \"b\".bin".to_string(), epochs: 3, force: true }));
    round_trip(App {
        config: Some("c.yaml".to_string()),
        wallet: Some("w.yaml".to_string()),
        gas_budget: u64::MAX,
        json: true,
        command: Commands::Read {
            blob_id: id(),
            out: Some("out".to_string()),
            rpc_arg: RpcArg { rpc_url: Some("http://x".to_string()) },
        },
    });
    round_trip(invocation(Commands::BlobStatus {
        file_or_blob_id: FileOrBlobId { file: Some("f".to_string()), blob_id: None },
        timeout: Timeout { secs: 5, nanos: 999_999_999 },
        rpc_arg: no_rpc(),
    }));
    round_trip(invocation(Commands::BlobStatus {
        file_or_blob_id: FileOrBlobId { file: None, blob_id: Some(id()) },
        timeout: Timeout { secs: 0, nanos: 0 },
        rpc_arg: no_rpc(),
    }));
    let args = PublisherArgs {
        daemon_args: DaemonArgs {
            bind_address: "127.0.0.1:1".to_string(),
            blocklist: Some("b".to_string()),
        },
        max_body_size_kib: 77,
    };
    round_trip(invocation(Commands::Publisher { args: args.clone() }));
    round_trip(invocation(Commands::Daemon { args: args.clone() }));
    round_trip(invocation(Commands::Aggregator {
        rpc_arg: no_rpc(),
        daemon_args: args.daemon_args.clone(),
    }));
    round_trip(invocation(Commands::Info { rpc_arg: no_rpc(), dev: true }));
    round_trip(invocation(Commands::Json { command_string: Some("{\"a\": 1}".to_string()) }));
    round_trip(invocation(Commands::Json { command_string: None }));
    round_trip(invocation(Commands::BlobId {
        file: "f".to_string(),
        n_shards: Some(65535),
        rpc_arg: no_rpc(),
    }));
    round_trip(invocation(Commands::BlobId { file: "f".to_string(), n_shards: None, rpc_arg: no_rpc() }));
}

#[test]
fn encoded_invocation_has_the_documented_shape() {
    let app = invocation(Commands::Store { file: "a.bin".to_string(), epochs: 3, force: false });
    assert_eq!(
        app.to_json().to_text(),
        "{\"config\":null,\"wallet\":null,\"gasBudget\":500000000,\"json\":false,\"command\":{\"store\":{\"file\":\"a.bin\",\"epochs\":3,\"force\":false}}}"
    );
}

#[test]
fn target_needs_exactly_one_of_file_and_identifier() {
    assert_eq!(FileOrBlobId::new(None, None), Err(CliError::MissingTarget));
    assert_eq!(
        FileOrBlobId::new(Some("f".to_string()), Some(id())),
        Err(CliError::AmbiguousTarget)
    );
    assert_eq!(
        FileOrBlobId::new(Some("f".to_string()), None),
        Ok(FileOrBlobId { file: Some("f".to_string()), blob_id: None })
    );
    assert_eq!(
        FileOrBlobId::new(None, Some(id())),
        Ok(FileOrBlobId { file: None, blob_id: Some(id()) })
    );
    assert_eq!(FileOrBlobId { file: None, blob_id: None }.validate(), Err(CliError::MissingTarget));
    assert_eq!(
        FileOrBlobId { file: Some("f".to_string()), blob_id: Some(id()) }.validate(),
        Err(CliError::AmbiguousTarget)
    );
    assert_eq!(FileOrBlobId { file: None, blob_id: Some(id()) }.validate(), Ok(()));
}

#[test]
fn max_body_size_is_in_bytes() {
    let args = PublisherArgs {
        daemon_args: DaemonArgs { bind_address: "a".to_string(), blocklist: None },
        max_body_size_kib: 10_240,
    };
    assert_eq!(args.max_body_size(), 10_485_760);
    assert_eq!(args.format_max_body_size(), "10.00 MiB");
    let huge = PublisherArgs { max_body_size_kib: usize::MAX, ..args };
    assert_eq!(huge.max_body_size(), usize::MAX << 10);
}

#[test]
fn errors_have_messages() {
    assert_eq!(
        CliError::MissingTarget.describe(),
        "either the file or blob ID must be defined"
    );
    assert_eq!(
        CliError::InfoInJsonMode.describe(),
        "the info command is not available in JSON mode"
    );
    assert_eq!(CliError::MissingField(Field::BlobId).describe(), "missing field `blobId`");
    assert_eq!(
        CliError::InvalidField(Field::MaxBodySizeKib).describe(),
        "invalid value for field `maxBodySizeKib`"
    );
    assert_eq!(CliError::MalformedJson.describe(), "the input is not valid JSON");
}

#[test]
fn errors_are_of_two_kinds() {
    assert_eq!(CliError::MissingTarget.kind(), ErrorKind::Validation);
    assert_eq!(CliError::AmbiguousTarget.kind(), ErrorKind::Validation);
    assert_eq!(CliError::ZeroEpochs.kind(), ErrorKind::Validation);
    assert_eq!(CliError::InfoInJsonMode.kind(), ErrorKind::Validation);
    assert_eq!(CliError::MalformedJson.kind(), ErrorKind::Deserialization);
    assert_eq!(CliError::NotAnObject.kind(), ErrorKind::Deserialization);
    assert_eq!(CliError::CommandShape.kind(), ErrorKind::Deserialization);
    assert_eq!(CliError::UnknownCommand.kind(), ErrorKind::Deserialization);
    assert_eq!(CliError::ArgumentsShape.kind(), ErrorKind::Deserialization);
    assert_eq!(CliError::MissingField(Field::File).kind(), ErrorKind::Deserialization);
    assert_eq!(CliError::InvalidField(Field::Epochs).kind(), ErrorKind::Deserialization);
}
