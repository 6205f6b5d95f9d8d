use ecs_run::errors::RunError;
use ecs_run::launch::build_run_task_request;
use ecs_run::launch::prepare_launch;
use ecs_run::logs::extract_log_config;
use ecs_run::logs::log_stream_name;
use ecs_run::model::AwsVpcConfiguration;
use ecs_run::model::ContainerDefinition;
use ecs_run::model::LogConfiguration;
use ecs_run::model::NetworkConfiguration;
use ecs_run::model::PlacementConstraint;
use ecs_run::model::PlacementStrategy;
use ecs_run::model::Service;
use ecs_run::model::Task;
use ecs_run::model::TaskDefinition;
use ecs_run::poll::is_stopped;
use ecs_run::poll::poll_transition;
use ecs_run::poll::PollAction;
use ecs_run::poll::PollState;
use ecs_run::poll::POLL_INTERVAL_MS;
use ecs_run::resolve::container_name;
use ecs_run::resolve::first_task;
use ecs_run::resolve::resolve_service;
use ecs_run::resolve::select_container;
use ecs_run::resolve::task_definition_reference;
use ecs_run::task_id::extract_task_id;
use ecs_run::task_id::task_id_of;

fn sample_options() -> Vec<(String, String)> {
    vec![
        ("awslogs-group".to_string(), "/ecs/worker".to_string()),
        ("awslogs-region".to_string(), "us-east-1".to_string()),
        ("awslogs-stream-prefix".to_string(), "ecslogs".to_string()),
    ]
}

fn sample_container(options: Vec<(String, String)>) -> ContainerDefinition {
    ContainerDefinition {
        name: Some("app".to_string()),
        log_configuration: Some(LogConfiguration {
            options: Some(options),
        }),
    }
}

fn sample_task_definition() -> TaskDefinition {
    TaskDefinition {
        container_definitions: Some(vec![sample_container(sample_options())]),
    }
}

fn sample_service(task_definition: Option<&str>) -> Service {
    Service {
        launch_type: Some("FARGATE".to_string()),
        network_configuration: Some(NetworkConfiguration {
            awsvpc_configuration: Some(AwsVpcConfiguration {
                assign_public_ip: Some("ENABLED".to_string()),
                security_groups: Some(vec!["sg-1".to_string()]),
                subnets: vec!["subnet-1".to_string(), "subnet-2".to_string()],
            }),
        }),
        placement_constraints: Some(vec![PlacementConstraint {
            expression: Some("attribute:ecs.instance-type =~ t2.*".to_string()),
            constraint_type: Some("memberOf".to_string()),
        }]),
        placement_strategy: Some(vec![PlacementStrategy {
            field: Some("attribute:ecs.availability-zone".to_string()),
            strategy_type: Some("spread".to_string()),
        }]),
        platform_version: Some("1.4.0".to_string()),
        task_definition: task_definition.map(|s| s.to_string()),
    }
}

#[test]
fn selects_first_container_of_one() {
    let td = sample_task_definition();
    let c = select_container(&td).unwrap();
    assert_eq!(c.name, Some("app".to_string()));
}

#[test]
fn selects_first_container_regardless_of_length() {
    let first = sample_container(sample_options());
    let second = ContainerDefinition {
        name: Some("sidecar".to_string()),
        log_configuration: None,
    };
    let third = ContainerDefinition {
        name: Some("third".to_string()),
        log_configuration: None,
    };
    let td = TaskDefinition {
        container_definitions: Some(vec![first.clone(), second, third]),
    };
    let c = select_container(&td).unwrap();
    assert_eq!(*c, first);
}

#[test]
fn empty_container_sequence_is_fatal() {
    let td = TaskDefinition {
        container_definitions: Some(vec![]),
    };
    match select_container(&td) {
        Err(RunError::MissingConfiguration { detail }) => {
            assert_eq!(detail, "No container definitions in task definition");
        }
        other => panic!("expected MissingConfiguration, got {:?}", other),
    }
    let absent = TaskDefinition {
        container_definitions: None,
    };
    assert!(select_container(&absent).is_err());
}

#[test]
fn task_id_is_substring_after_last_separator() {
    let id = extract_task_id("arn:aws:ecs:us-east-1:123456789012:task/prod/abc123");
    assert_eq!(id, "abc123");
}

#[test]
fn task_id_extraction_is_idempotent() {
    let once = extract_task_id("arn:aws:ecs:us-east-1:123456789012:task/prod/abc123");
    let twice = extract_task_id(&once);
    assert_eq!(once, twice);
}

#[test]
fn task_id_of_name_without_separator_is_whole_name() {
    assert_eq!(extract_task_id("abc123"), "abc123");
    assert_eq!(extract_task_id(""), "");
}

#[test]
fn task_id_of_name_ending_in_separator_is_empty() {
    assert_eq!(extract_task_id("task/prod/"), "");
}

#[test]
fn task_id_of_task_uses_resource_name() {
    let task = Task {
        task_arn: Some("arn:aws:ecs:us-east-1:123456789012:task/prod/abc123".to_string()),
        stopped_at: None,
    };
    assert_eq!(task_id_of(&task).unwrap(), "abc123");
}

#[test]
fn task_without_resource_name_is_unexpected() {
    let task = Task {
        task_arn: None,
        stopped_at: None,
    };
    match task_id_of(&task) {
        Err(RunError::UnexpectedEmptyResult { what }) => {
            assert_eq!(what, "task resource name");
        }
        other => panic!("expected UnexpectedEmptyResult, got {:?}", other),
    }
}

#[test]
fn log_stream_identifier_is_exactly_prefix_name_id() {
    let s = log_stream_name("ecslogs", "app", "abc123");
    assert_eq!(s, "ecslogs/app/abc123");
}

#[test]
fn log_stream_identifier_of_empty_parts_keeps_separators() {
    assert_eq!(log_stream_name("", "", ""), "//");
}

#[test]
fn poller_finishes_immediately_on_stopped_snapshot() {
    let stopped = Task {
        task_arn: Some("arn:aws:ecs:us-east-1:123456789012:task/prod/abc123".to_string()),
        stopped_at: Some(1_700_000_000_000),
    };
    assert!(is_stopped(&stopped));
    let (state, action) = poll_transition(PollState::Submitted, &stopped);
    assert_eq!(state, PollState::Stopped);
    assert_eq!(action, PollAction::Finish);
}

#[test]
fn poller_waits_fixed_interval_when_not_stopped() {
    let running = Task {
        task_arn: Some("arn:aws:ecs:us-east-1:123456789012:task/prod/abc123".to_string()),
        stopped_at: None,
    };
    assert!(!is_stopped(&running));
    let (state, action) = poll_transition(PollState::Submitted, &running);
    assert_eq!(state, PollState::RunningOrPending);
    assert_eq!(action, PollAction::Wait { millis: POLL_INTERVAL_MS });
    assert_eq!(POLL_INTERVAL_MS, 500);
    let (state2, action2) = poll_transition(state, &running);
    assert_eq!(state2, PollState::RunningOrPending);
    assert_eq!(action2, PollAction::Wait { millis: 500 });
}

#[test]
fn run_task_request_copies_service_fields_and_sets_count_one() {
    let td = sample_task_definition();
    let service = sample_service(Some("worker:7"));
    let req = build_run_task_request("prod", &td, service.clone()).unwrap();
    assert_eq!(req.cluster, Some("prod".to_string()));
    assert_eq!(req.count, Some(1));
    assert_eq!(req.launch_type, service.launch_type);
    assert_eq!(req.network_configuration, service.network_configuration);
    assert_eq!(req.placement_constraints, service.placement_constraints);
    assert_eq!(req.placement_strategy, service.placement_strategy);
    assert_eq!(req.platform_version, service.platform_version);
    assert_eq!(req.task_definition, "worker:7");
    assert_eq!(req.started_by, Some("ecs-run".to_string()));
    let overrides = req.overrides.unwrap();
    let container_overrides = overrides.container_overrides.unwrap();
    assert_eq!(container_overrides.len(), 1);
    assert_eq!(container_overrides[0].name, Some("app".to_string()));
    assert_eq!(
        container_overrides[0].command,
        Some(vec!["rake".to_string(), "-t".to_string()])
    );
}

#[test]
fn run_task_request_requires_task_definition_reference() {
    let td = sample_task_definition();
    match build_run_task_request("prod", &td, sample_service(None)) {
        Err(RunError::MissingConfiguration { detail }) => {
            assert_eq!(detail, "service has no task definition");
        }
        other => panic!("expected MissingConfiguration, got {:?}", other),
    }
    match build_run_task_request("prod", &td, sample_service(Some(""))) {
        Err(RunError::MissingConfiguration { detail }) => {
            assert_eq!(detail, "service has no task definition");
        }
        other => panic!("expected MissingConfiguration, got {:?}", other),
    }
}

#[test]
fn worker_scenario_yields_expected_id_and_stream() {
    let options = vec![
        ("awslogs-group".to_string(), "/ecs/worker".to_string()),
        ("awslogs-region".to_string(), "us-east-1".to_string()),
        ("awslogs-stream-prefix".to_string(), "ecslogs".to_string()),
    ];
    let td = TaskDefinition {
        container_definitions: Some(vec![sample_container(options)]),
    };
    let service = sample_service(Some("worker:7"));
    let resolved = resolve_service(Some(vec![service]), "worker").unwrap();
    assert_eq!(task_definition_reference(&resolved).unwrap(), "worker:7");
    let plan = prepare_launch("prod", &td, resolved).unwrap();
    assert_eq!(plan.log_config.group, "/ecs/worker");
    assert_eq!(plan.log_config.region, "us-east-1");
    assert_eq!(plan.log_config.stream_prefix, "ecslogs");
    assert_eq!(plan.request.task_definition, "worker:7");

    let submitted = first_task(
        Some(vec![Task {
            task_arn: Some("arn:aws:ecs:us-east-1:123456789012:task/prod/abc123".to_string()),
            stopped_at: None,
        }]),
        "run-task",
    )
    .unwrap();
    let task_id = task_id_of(&submitted).unwrap();
    assert_eq!(task_id, "abc123");

    let container = select_container(&td).unwrap();
    let name = container_name(container).unwrap();
    let stream = log_stream_name(&plan.log_config.stream_prefix, name, &task_id);
    assert_eq!(stream, "ecslogs/app/abc123");
}

#[test]
fn empty_service_answer_reports_not_found() {
    match resolve_service(Some(vec![]), "worker") {
        Err(e) => {
            assert_eq!(
                e,
                RunError::NotFound {
                    service: "worker".to_string()
                }
            );
            assert_eq!(e.message(), "Could not find service worker");
        }
        Ok(_) => panic!("expected NotFound"),
    }
    match resolve_service(None, "worker") {
        Err(RunError::NotFound { service }) => assert_eq!(service, "worker"),
        other => panic!("expected NotFound, got {:?}", other),
    }
}

#[test]
fn resolve_service_returns_first_listed_service() {
    let a = sample_service(Some("worker:7"));
    let b = sample_service(Some("other:1"));
    let resolved = resolve_service(Some(vec![a.clone(), b]), "worker").unwrap();
    assert_eq!(resolved, a);
}

#[test]
fn missing_log_region_fails_before_any_request() {
    let options = vec![
        ("awslogs-group".to_string(), "/ecs/worker".to_string()),
        ("awslogs-stream-prefix".to_string(), "ecslogs".to_string()),
    ];
    let td = TaskDefinition {
        container_definitions: Some(vec![sample_container(options)]),
    };
    match prepare_launch("prod", &td, sample_service(Some("worker:7"))) {
        Err(RunError::MissingConfiguration { detail }) => {
            assert_eq!(detail, "No log region configured");
        }
        other => panic!("expected MissingConfiguration, got {:?}", other),
    }
}

#[test]
fn missing_log_group_is_reported_first() {
    let options = vec![("awslogs-region".to_string(), "us-east-1".to_string())];
    match extract_log_config(&sample_container(options)) {
        Err(RunError::MissingConfiguration { detail }) => {
            assert_eq!(detail, "No log group configured");
        }
        other => panic!("expected MissingConfiguration, got {:?}", other),
    }
}

#[test]
fn missing_stream_prefix_is_reported_last() {
    let options = vec![
        ("awslogs-group".to_string(), "/ecs/worker".to_string()),
        ("awslogs-region".to_string(), "us-east-1".to_string()),
    ];
    match extract_log_config(&sample_container(options)) {
        Err(RunError::MissingConfiguration { detail }) => {
            assert_eq!(detail, "No log stream prefix configured");
        }
        other => panic!("expected MissingConfiguration, got {:?}", other),
    }
}

#[test]
fn absent_log_configuration_counts_as_missing_group() {
    let bare = ContainerDefinition {
        name: Some("app".to_string()),
        log_configuration: None,
    };
    match extract_log_config(&bare) {
        Err(RunError::MissingConfiguration { detail }) => {
            assert_eq!(detail, "No log group configured");
        }
        other => panic!("expected MissingConfiguration, got {:?}", other),
    }
    let no_options = ContainerDefinition {
        name: Some("app".to_string()),
        log_configuration: Some(LogConfiguration { options: None }),
    };
    assert!(extract_log_config(&no_options).is_err());
}

#[test]
fn duplicate_log_option_keys_take_first_value() {
    let options = vec![
        ("awslogs-group".to_string(), "/ecs/first".to_string()),
        ("awslogs-group".to_string(), "/ecs/second".to_string()),
        ("awslogs-region".to_string(), "us-east-1".to_string()),
        ("awslogs-stream-prefix".to_string(), "ecslogs".to_string()),
    ];
    let cfg = extract_log_config(&sample_container(options)).unwrap();
    assert_eq!(cfg.group, "/ecs/first");
}

#[test]
fn empty_task_answer_is_unexpected() {
    match first_task(Some(vec![]), "run-task") {
        Err(e) => {
            assert_eq!(
                e,
                RunError::UnexpectedEmptyResult {
                    what: "run-task".to_string()
                }
            );
            assert_eq!(e.message(), "Empty result from run-task");
        }
        Ok(_) => panic!("expected UnexpectedEmptyResult"),
    }
    assert!(first_task(None, "describe-tasks").is_err());
}

#[test]
fn first_task_returns_first_of_many() {
    let a = Task {
        task_arn: Some("arn:aws:ecs:us-east-1:123456789012:task/prod/abc123".to_string()),
        stopped_at: None,
    };
    let b = Task {
        task_arn: Some("arn:aws:ecs:us-east-1:123456789012:task/prod/def456".to_string()),
        stopped_at: None,
    };
    let t = first_task(Some(vec![a.clone(), b]), "describe-tasks").unwrap();
    assert_eq!(t, a);
}

#[test]
fn container_without_name_is_fatal() {
    let unnamed = ContainerDefinition {
        name: None,
        log_configuration: None,
    };
    match container_name(&unnamed) {
        Err(RunError::MissingConfiguration { detail }) => {
            assert_eq!(detail, "No container name");
        }
        other => panic!("expected MissingConfiguration, got {:?}", other),
    }
}

#[test]
fn lookup_failure_names_the_service() {
    let e = RunError::lookup_failure("worker", "connection refused");
    match &e {
        RunError::UpstreamApi { message } => {
            assert_eq!(message, "looking up service worker: connection refused");
        }
        other => panic!("expected UpstreamApi, got {:?}", other),
    }
    assert_eq!(
        e.message(),
        "Error: looking up service worker: connection refused"
    );
}

#[test]
fn error_messages_name_their_subject() {
    let upstream = RunError::UpstreamApi {
        message: "connection refused".to_string(),
    };
    assert_eq!(upstream.message(), "Error: connection refused");
    let missing = RunError::MissingConfiguration {
        detail: "No log group configured".to_string(),
    };
    assert_eq!(missing.message(), "No log group configured");
}
