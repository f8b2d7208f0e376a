use walrus_cli::orchestrator::{
    settings_path, Operation, Opts, TestbedAction, DEFAULT_START_INSTANCES,
};

#[test]
fn orchestrator_defaults() {
    assert_eq!(settings_path(), "orchestrator/assets/settings.yaml");
    assert_eq!(DEFAULT_START_INSTANCES, 10);
}

#[test]
fn operation_names_its_action() {
    let opts = Opts {
        settings_path: settings_path(),
        operation: Operation::Testbed {
            action: TestbedAction::Deploy { instances: 3, region: Some("eu".to_string()) },
        },
    };
    assert_eq!(
        opts.operation.action(),
        Some(&TestbedAction::Deploy { instances: 3, region: Some("eu".to_string()) })
    );
    assert_eq!(Operation::Benchmark.action(), None);
}

#[test]
fn failed_actions_are_named() {
    assert_eq!(TestbedAction::Status.failure_context(), None);
    assert_eq!(
        TestbedAction::Deploy { instances: 1, region: None }.failure_context(),
        Some("Failed to deploy testbed")
    );
    assert_eq!(
        TestbedAction::Start { instances: 10 }.failure_context(),
        Some("Failed to start testbed")
    );
    assert_eq!(TestbedAction::Stop.failure_context(), Some("Failed to stop testbed"));
    assert_eq!(TestbedAction::Destroy.failure_context(), Some("Failed to destroy testbed"));
}
