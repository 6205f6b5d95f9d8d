//! The data model: plain-value mirrors of the orchestration service's
//! entities, holding exactly what the pipeline's logic reads or copies.

use vstd::prelude::*;

verus! {

/// Network parameters of a service, copied verbatim into a run-task request.
#[derive(Debug, PartialEq, Eq, Clone)]
pub struct AwsVpcConfiguration {
    pub assign_public_ip: Option<String>,
    pub security_groups: Option<Vec<String>>,
    pub subnets: Vec<String>,
}

/// A service's network configuration, copied verbatim into a run-task request.
#[derive(Debug, PartialEq, Eq, Clone)]
pub struct NetworkConfiguration {
    pub awsvpc_configuration: Option<AwsVpcConfiguration>,
}

/// One placement constraint of a service, copied verbatim.
#[derive(Debug, PartialEq, Eq, Clone)]
pub struct PlacementConstraint {
    pub expression: Option<String>,
    pub constraint_type: Option<String>,
}

/// One placement strategy rule of a service, copied verbatim.
#[derive(Debug, PartialEq, Eq, Clone)]
pub struct PlacementStrategy {
    pub field: Option<String>,
    pub strategy_type: Option<String>,
}

/// A deployed service: the placement, network and platform parameters a
/// one-off task inherits, and the reference to its task definition.
/// Read-only input to the pipeline; never mutated.
#[derive(Debug, PartialEq, Eq, Clone)]
pub struct Service {
    pub launch_type: Option<String>,
    pub network_configuration: Option<NetworkConfiguration>,
    pub placement_constraints: Option<Vec<PlacementConstraint>>,
    pub placement_strategy: Option<Vec<PlacementStrategy>>,
    pub platform_version: Option<String>,
    pub task_definition: Option<String>,
}

/// The log configuration of a container: a mapping of log-driver option names
/// to values, kept as a sequence of key-value pairs. The remote mapping's
/// keys are unique, so the first-match lookup the pipeline uses coincides
/// with map lookup; a duplicate key, should one occur, resolves to the
/// earliest pair.
#[derive(Debug, PartialEq, Eq, Clone)]
pub struct LogConfiguration {
    pub options: Option<Vec<(String, String)>>,
}

/// One container of a task definition: its name and its optional log
/// configuration.
#[derive(Debug, PartialEq, Eq, Clone)]
pub struct ContainerDefinition {
    pub name: Option<String>,
    pub log_configuration: Option<LogConfiguration>,
}

/// A task definition: an ordered sequence of container definitions.
#[derive(Debug, PartialEq, Eq, Clone)]
pub struct TaskDefinition {
    pub container_definitions: Option<Vec<ContainerDefinition>>,
}

/// A run-time task instance: its full resource name and, once it has
/// terminated, the time it stopped (a millisecond timestamp). The task is
/// terminal exactly when `stopped_at` is set.
#[derive(Debug, PartialEq, Eq, Clone)]
pub struct Task {
    pub task_arn: Option<String>,
    pub stopped_at: Option<i64>,
}

/// The containers of a task definition, in declaration order; an absent list
/// counts as empty.
pub open spec fn containers_of(td: TaskDefinition) -> Seq<ContainerDefinition> {
    match td.container_definitions {
        Option::Some(v) => v@,
        Option::None => Seq::<ContainerDefinition>::empty(),
    }
}

/// Whether a service carries a non-empty task-definition reference.
pub open spec fn has_task_definition_ref(s: Service) -> bool {
    match s.task_definition {
        Option::Some(r) => r@.len() > 0,
        Option::None => false,
    }
}

} // verus!
