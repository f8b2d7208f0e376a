use walrus_cli::blob_id::BlobId;
use walrus_cli::command::{
    App, Commands, DaemonArgs, FileOrBlobId, PublisherArgs, RpcArg, Timeout,
};
use walrus_cli::config::{
    configuration_paths, not_found_message, tracing_directive, wallet_paths,
};
use walrus_cli::error::CliError;
use walrus_cli::rehydrate::rehydrate;
use walrus_cli::route::{
    deliver_read, resolve_wallet_path, ChainAccess, Missing, Plan, ReadAccess, ReadDelivery, Route,
    ShardSource, Target, WriteAccess,
};

const ID_TEXT: &str = "4BKcDC0Ih5RJ8R0tFMz3MZVNZV8b2goT6_JiEEwNHQo";

fn id() -> BlobId {
    BlobId::parse(ID_TEXT).unwrap()
}

fn invocation(command: Commands) -> App {
    App { config: None, wallet: None, gas_budget: 77, json: false, command }
}

fn rpc(url: &str) -> RpcArg {
    RpcArg { rpc_url: Some(url.to_string()) }
}

fn publisher_args() -> PublisherArgs {
    PublisherArgs {
        daemon_args: DaemonArgs {
            bind_address: "127.0.0.1:31415".to_string(),
            blocklist: Some("block.yaml".to_string()),
        },
        max_body_size_kib: 4,
    }
}

#[test]
fn wallet_path_of_the_invocation_comes_first() {
    assert_eq!(
        resolve_wallet_path(Some("a".to_string()), Some("b".to_string())),
        Some("a".to_string())
    );
    assert_eq!(resolve_wallet_path(None, Some("b".to_string())), Some("b".to_string()));
    assert_eq!(resolve_wallet_path(None, None), None);
}

#[test]
fn store_needs_a_write_client_without_blocklist() {
    let app = invocation(Commands::Store { file: "a.bin".to_string(), epochs: 3, force: true });
    let route = app.route(Some("from_config.yaml".to_string())).unwrap();
    assert_eq!(
        route,
        Route {
            wallet_path: Some("from_config.yaml".to_string()),
            plan: Plan::Store {
                access: WriteAccess { gas_budget: 77, blocklist: None },
                file: "a.bin".to_string(),
                epochs: 3,
                force: true,
            },
        }
    );
    assert!(route.plan.needs_configuration());
    assert!(route.plan.needs_wallet());
    assert!(!route.plan.starts_server());
}

#[test]
fn store_for_no_epoch_is_refused() {
    let app = invocation(Commands::Store { file: "a.bin".to_string(), epochs: 0, force: false });
    assert_eq!(app.route(None), Err(CliError::ZeroEpochs));
}

#[test]
fn read_trusts_the_wallet_only_without_a_wallet_path() {
    let command = Commands::Read { blob_id: id(), out: None, rpc_arg: rpc("u") };
    let plain = invocation(command.clone()).route(None).unwrap();
    assert_eq!(
        plain.plan,
        Plan::Read {
            access: ReadAccess {
                rpc_url: Some("u".to_string()),
                trust_wallet_config: true,
                blocklist: None,
            },
            blob_id: id(),
            out: None,
        }
    );
    assert!(!plain.plan.needs_wallet());
    let configured = invocation(command.clone()).route(Some("w".to_string())).unwrap();
    assert!(matches!(
        configured.plan,
        Plan::Read { access: ReadAccess { trust_wallet_config: false, .. }, .. }
    ));
    let mut explicit = invocation(command);
    explicit.wallet = Some("mine".to_string());
    let route = explicit.route(Some("w".to_string())).unwrap();
    assert_eq!(route.wallet_path, Some("mine".to_string()));
}

#[test]
fn blob_status_needs_the_chain_and_a_target() {
    let by_id = invocation(Commands::BlobStatus {
        file_or_blob_id: FileOrBlobId { file: None, blob_id: Some(id()) },
        timeout: Timeout { secs: 1, nanos: 0 },
        rpc_arg: RpcArg { rpc_url: None },
    });
    assert_eq!(
        by_id.route(None).unwrap().plan,
        Plan::BlobStatus {
            access: ChainAccess { rpc_url: None, trust_wallet_config: true },
            target: Target::BlobId(id()),
            timeout: Timeout { secs: 1, nanos: 0 },
        }
    );
    let by_file = invocation(Commands::BlobStatus {
        file_or_blob_id: FileOrBlobId { file: Some("a".to_string()), blob_id: None },
        timeout: Timeout { secs: 2, nanos: 5 },
        rpc_arg: RpcArg { rpc_url: None },
    });
    assert!(matches!(
        by_file.route(None).unwrap().plan,
        Plan::BlobStatus { target: Target::File(file), .. } if file == "a"
    ));
}

#[test]
fn blob_status_without_or_with_two_targets_is_refused() {
    let none = invocation(Commands::BlobStatus {
        file_or_blob_id: FileOrBlobId { file: None, blob_id: None },
        timeout: Timeout { secs: 1, nanos: 0 },
        rpc_arg: RpcArg { rpc_url: None },
    });
    assert_eq!(none.route(None), Err(CliError::MissingTarget));
    let both = invocation(Commands::BlobStatus {
        file_or_blob_id: FileOrBlobId { file: Some("a".to_string()), blob_id: Some(id()) },
        timeout: Timeout { secs: 1, nanos: 0 },
        rpc_arg: RpcArg { rpc_url: None },
    });
    assert_eq!(both.route(None), Err(CliError::AmbiguousTarget));
}

#[test]
fn target_of_a_choice() {
    assert_eq!(
        FileOrBlobId { file: None, blob_id: Some(id()) }.target(),
        Ok(Target::BlobId(id()))
    );
    assert_eq!(
        FileOrBlobId { file: Some("f".to_string()), blob_id: None }.target(),
        Ok(Target::File("f".to_string()))
    );
    assert_eq!(FileOrBlobId { file: None, blob_id: None }.target(), Err(CliError::MissingTarget));
    assert_eq!(
        FileOrBlobId { file: Some("f".to_string()), blob_id: Some(id()) }.target(),
        Err(CliError::AmbiguousTarget)
    );
}

#[test]
fn publisher_and_daemon_need_a_write_client_with_blocklist() {
    let publisher = invocation(Commands::Publisher { args: publisher_args() }).route(None).unwrap();
    assert_eq!(
        publisher.plan,
        Plan::Publisher {
            access: WriteAccess { gas_budget: 77, blocklist: Some("block.yaml".to_string()) },
            bind_address: "127.0.0.1:31415".to_string(),
            max_body_size: 4096,
        }
    );
    assert!(publisher.plan.starts_server());
    assert!(publisher.plan.needs_wallet());
    let daemon = invocation(Commands::Daemon { args: publisher_args() }).route(None).unwrap();
    assert_eq!(
        daemon.plan,
        Plan::Daemon {
            access: WriteAccess { gas_budget: 77, blocklist: Some("block.yaml".to_string()) },
            bind_address: "127.0.0.1:31415".to_string(),
            max_body_size: 4096,
        }
    );
}

#[test]
fn aggregator_needs_a_read_client() {
    let route = invocation(Commands::Aggregator {
        rpc_arg: rpc("u"),
        daemon_args: publisher_args().daemon_args,
    })
    .route(None)
    .unwrap();
    assert_eq!(
        route.plan,
        Plan::Aggregator {
            access: ReadAccess {
                rpc_url: Some("u".to_string()),
                trust_wallet_config: true,
                blocklist: Some("block.yaml".to_string()),
            },
            bind_address: "127.0.0.1:31415".to_string(),
        }
    );
    assert!(route.plan.starts_server());
    assert!(!route.plan.needs_wallet());
}

#[test]
fn info_needs_the_chain_only() {
    let route = invocation(Commands::Info { rpc_arg: rpc("u"), dev: true }).route(None).unwrap();
    assert_eq!(
        route.plan,
        Plan::Info {
            access: ChainAccess { rpc_url: Some("u".to_string()), trust_wallet_config: true },
            dev: true,
        }
    );
}

#[test]
fn info_in_json_mode_is_refused() {
    let mut app = invocation(Commands::Info { rpc_arg: RpcArg { rpc_url: None }, dev: false });
    app.json = true;
    assert_eq!(app.route(None), Err(CliError::InfoInJsonMode));
}

#[test]
fn info_from_a_document_is_refused() {
    let app = rehydrate("{\"json\": false, \"command\": {\"info\": {}}}").unwrap();
    assert_eq!(app.route(None), Err(CliError::InfoInJsonMode));
}

#[test]
fn blob_id_with_given_shards_needs_no_configuration() {
    let route = invocation(Commands::BlobId {
        file: "a".to_string(),
        n_shards: Some(10),
        rpc_arg: rpc("u"),
    })
    .route(None)
    .unwrap();
    assert_eq!(route.plan, Plan::BlobId { file: "a".to_string(), shards: ShardSource::Given(10) });
    assert!(!route.plan.needs_configuration());
}

#[test]
fn blob_id_without_shards_asks_the_chain() {
    let route = invocation(Commands::BlobId {
        file: "a".to_string(),
        n_shards: None,
        rpc_arg: rpc("u"),
    })
    .route(Some("w".to_string()))
    .unwrap();
    assert_eq!(
        route.plan,
        Plan::BlobId {
            file: "a".to_string(),
            shards: ShardSource::Chain(ChainAccess {
                rpc_url: Some("u".to_string()),
                trust_wallet_config: false,
            }),
        }
    );
    assert!(route.plan.needs_configuration());
}

#[test]
fn blob_id_for_no_shard_is_refused() {
    let app = invocation(Commands::BlobId {
        file: "a".to_string(),
        n_shards: Some(0),
        rpc_arg: RpcArg { rpc_url: None },
    });
    assert!(app.route(None).is_err());
}

#[test]
fn bytes_of_a_read_go_to_one_place() {
    assert_eq!(deliver_read(&Some("f".to_string()), false), ReadDelivery::File);
    assert_eq!(deliver_read(&Some("f".to_string()), true), ReadDelivery::File);
    assert_eq!(deliver_read(&None, false), ReadDelivery::StandardOutput);
    assert_eq!(deliver_read(&None, true), ReadDelivery::Document);
}

#[test]
fn configuration_is_looked_for_in_order() {
    assert_eq!(
        configuration_paths(Some("mine.yaml".to_string()), Some("/home/u".to_string())),
        vec!["mine.yaml".to_string()]
    );
    assert_eq!(
        configuration_paths(None, Some("/home/u".to_string())),
        vec!["./client_config.yaml".to_string(), "/home/u/.walrus/client_config.yaml".to_string()]
    );
    assert_eq!(configuration_paths(None, None), vec!["./client_config.yaml".to_string()]);
}

#[test]
fn wallet_is_looked_for_in_order() {
    assert_eq!(wallet_paths(Some("w.yaml".to_string()), None), vec!["w.yaml".to_string()]);
    assert_eq!(
        wallet_paths(None, Some("/home/u".to_string())),
        vec!["./sui_config.yaml".to_string(), "/home/u/.sui/sui_config/client.yaml".to_string()]
    );
}

#[test]
fn logging_starts_at_info() {
    assert_eq!(tracing_directive(None), "info,");
    assert_eq!(tracing_directive(Some("walrus=debug".to_string())), "info,walrus=debug");
}

#[test]
fn missing_file_names_the_places_tried() {
    assert_eq!(
        not_found_message("client configuration", &configuration_paths(None, Some("/h".to_string()))),
        "could not find the client configuration; tried: ./client_config.yaml, /h/.walrus/client_config.yaml"
    );
    assert_eq!(
        not_found_message("wallet configuration", &vec!["w.yaml".to_string()]),
        "could not find the wallet configuration; tried: w.yaml"
    );
    assert_eq!(not_found_message("x", &vec![]), "could not find the x; tried: ");
}

#[test]
fn only_what_a_plan_needs_is_missed() {
    let store = Plan::Store {
        access: WriteAccess { gas_budget: 1, blocklist: None },
        file: "a".to_string(),
        epochs: 1,
        force: false,
    };
    assert_eq!(store.missing(false, false), Some(Missing::Configuration));
    assert_eq!(store.missing(true, false), Some(Missing::Wallet));
    assert_eq!(store.missing(false, true), Some(Missing::Configuration));
    assert_eq!(store.missing(true, true), None);
    let info = Plan::Info {
        access: ChainAccess { rpc_url: None, trust_wallet_config: true },
        dev: false,
    };
    assert_eq!(info.missing(false, false), Some(Missing::Configuration));
    assert_eq!(info.missing(true, false), None);
    let local = Plan::BlobId { file: "a".to_string(), shards: ShardSource::Given(10) };
    assert_eq!(local.missing(false, false), None);
    assert_eq!(Missing::Configuration.as_str(), "client configuration");
    assert_eq!(Missing::Wallet.as_str(), "wallet configuration");
}
