//! Building the run-task request: a one-off task inherits the service's
//! placement, network and platform parameters verbatim, runs the service's
//! task definition, and overrides only the selected container's command.

use vstd::prelude::*;
use vstd::string::StringExecFns;

use crate::errors::RunError;
use crate::logs::LogConfig;
use crate::logs::extract_log_config;
use crate::logs::key_group;
use crate::logs::key_prefix;
use crate::logs::key_region;
use crate::logs::log_config_complete;
use crate::logs::spec_log_option;
use crate::model::ContainerDefinition;
use crate::model::NetworkConfiguration;
use crate::model::PlacementConstraint;
use crate::model::PlacementStrategy;
use crate::model::Service;
use crate::model::TaskDefinition;
use crate::model::containers_of;
use crate::model::has_task_definition_ref;
use crate::resolve::select_container;
use crate::resolve::task_definition_reference;

verus! {

/// One container override of a run-task request: the container's name and
/// the command that replaces the one in its task definition.
#[derive(Debug, PartialEq, Eq, Clone)]
pub struct ContainerOverride {
    pub name: Option<String>,
    pub command: Option<Vec<String>>,
}

/// The overrides of a run-task request; this pipeline sets exactly one
/// container override.
#[derive(Debug, PartialEq, Eq, Clone)]
pub struct TaskOverride {
    pub container_overrides: Option<Vec<ContainerOverride>>,
}

/// A run-task request, ready for submission.
#[derive(Debug, PartialEq, Eq, Clone)]
pub struct RunTaskRequest {
    pub cluster: Option<String>,
    pub count: Option<i64>,
    pub launch_type: Option<String>,
    pub network_configuration: Option<NetworkConfiguration>,
    pub placement_constraints: Option<Vec<PlacementConstraint>>,
    pub placement_strategy: Option<Vec<PlacementStrategy>>,
    pub platform_version: Option<String>,
    pub task_definition: String,
    pub overrides: Option<TaskOverride>,
    pub started_by: Option<String>,
}

/// All construction rules of a run-task request: the given cluster, a count
/// of exactly one, the placement, network and platform fields copied verbatim
/// from the service, the service's own task-definition reference, exactly one
/// container override carrying the selected container's name and the fixed
/// command, and the fixed originator label.
pub open spec fn request_matches(
    req: RunTaskRequest,
    cluster: Seq<char>,
    td: TaskDefinition,
    service: Service,
) -> bool {
    &&& req.cluster matches Option::Some(c) && c@ == cluster
    &&& req.count == Option::Some(1i64)
    &&& req.launch_type == service.launch_type
    &&& req.network_configuration == service.network_configuration
    &&& req.placement_constraints == service.placement_constraints
    &&& req.placement_strategy == service.placement_strategy
    &&& req.platform_version == service.platform_version
    &&& Option::Some(req.task_definition) == service.task_definition
    &&& req.overrides matches Option::Some(o) && (o.container_overrides matches Option::Some(co)
        && {
        &&& co@.len() == 1
        &&& co@[0].name == containers_of(td)[0].name
        &&& co@[0].command matches Option::Some(cmd) && cmd@.len() == 2 && cmd@[0]@ == "rake"@
            && cmd@[1]@ == "-t"@
    })
    &&& req.started_by matches Option::Some(sb) && sb@ == "ecs-run"@
}

fn clone_opt_string(s: &Option<String>) -> (r: Option<String>)
    ensures
        r == *s,
{
    match s {
        Option::Some(x) => Option::Some(x.clone()),
        Option::None => Option::None,
    }
}

fn override_command() -> (r: Vec<String>)
    ensures
        r@.len() == 2,
        r@[0]@ == "rake"@,
        r@[1]@ == "-t"@,
{
    let mut v: Vec<String> = Vec::new();
    v.push(String::from_str("rake"));
    v.push(String::from_str("-t"));
    v
}

/// Builds the run-task request for the given cluster, task definition and
/// service, following every rule of [`request_matches`]. An empty container
/// sequence or a missing task-definition reference is a fatal configuration
/// error.
pub fn build_run_task_request(
    cluster: &str,
    task_definition: &TaskDefinition,
    service: Service,
) -> (r: Result<RunTaskRequest, RunError>)
    ensures
        r is Ok <==> containers_of(*task_definition).len() > 0 && has_task_definition_ref(service),
        r matches Ok(req) ==> request_matches(req, cluster@, *task_definition, service),
        containers_of(*task_definition).len() == 0 ==> (r matches Err(e) && (
        e matches RunError::MissingConfiguration { detail } && detail@
            == "No container definitions in task definition"@)),
        containers_of(*task_definition).len() > 0 && !has_task_definition_ref(service) ==> (
        r matches Err(e) && (e matches RunError::MissingConfiguration { detail } && detail@
            == "service has no task definition"@)),
{
    let container = match select_container(task_definition) {
        Result::Ok(c) => c,
        Result::Err(e) => { return Result::Err(e) },
    };
    let name = clone_opt_string(&container.name);
    let td_ref = match task_definition_reference(&service) {
        Result::Ok(t) => t.clone(),
        Result::Err(e) => { return Result::Err(e) },
    };
    let mut container_overrides: Vec<ContainerOverride> = Vec::new();
    container_overrides.push(
        ContainerOverride { name, command: Option::Some(override_command()) },
    );
    Result::Ok(
        RunTaskRequest {
            cluster: Option::Some(String::from_str(cluster)),
            count: Option::Some(1),
            launch_type: service.launch_type,
            network_configuration: service.network_configuration,
            placement_constraints: service.placement_constraints,
            placement_strategy: service.placement_strategy,
            platform_version: service.platform_version,
            task_definition: td_ref,
            overrides: Option::Some(
                TaskOverride { container_overrides: Option::Some(container_overrides) },
            ),
            started_by: Option::Some(String::from_str("ecs-run")),
        },
    )
}

/// Everything a launch needs, assembled before any submission: the request
/// to submit and the selected container's log options.
#[derive(Debug, PartialEq, Eq, Clone)]
pub struct LaunchPlan {
    pub request: RunTaskRequest,
    pub log_config: LogConfig,
}

/// Whether a launch can be prepared at all: a container to run, its three
/// required log options, and a task-definition reference on the service.
pub open spec fn launch_ready(td: TaskDefinition, service: Service) -> bool {
    &&& containers_of(td).len() > 0
    &&& log_config_complete(containers_of(td)[0])
    &&& has_task_definition_ref(service)
}

/// The diagnostic for the first missing log option, in checking order.
pub open spec fn spec_missing_log_detail(c: ContainerDefinition) -> Seq<char> {
    if spec_log_option(c, key_group()) is None {
        "No log group configured"@
    } else if spec_log_option(c, key_region()) is None {
        "No log region configured"@
    } else {
        "No log stream prefix configured"@
    }
}

/// Prepares a launch: selects the container, reads its log configuration,
/// and builds the run-task request, in that order. A missing log option thus
/// fails before any request exists — submission is never attempted on
/// incomplete configuration.
pub fn prepare_launch(cluster: &str, task_definition: &TaskDefinition, service: Service) -> (r:
    Result<LaunchPlan, RunError>)
    ensures
        r is Ok <==> launch_ready(*task_definition, service),
        r matches Ok(plan) ==> {
            &&& request_matches(plan.request, cluster@, *task_definition, service)
            &&& Option::Some(plan.log_config.group@) == spec_log_option(
                containers_of(*task_definition)[0],
                key_group(),
            )
            &&& Option::Some(plan.log_config.region@) == spec_log_option(
                containers_of(*task_definition)[0],
                key_region(),
            )
            &&& Option::Some(plan.log_config.stream_prefix@) == spec_log_option(
                containers_of(*task_definition)[0],
                key_prefix(),
            )
        },
        containers_of(*task_definition).len() == 0 ==> (r matches Err(e) && (
        e matches RunError::MissingConfiguration { detail } && detail@
            == "No container definitions in task definition"@)),
        containers_of(*task_definition).len() > 0 && !log_config_complete(
            containers_of(*task_definition)[0],
        ) ==> (r matches Err(e) && (e matches RunError::MissingConfiguration { detail } && detail@
            == spec_missing_log_detail(containers_of(*task_definition)[0]))),
        containers_of(*task_definition).len() > 0 && log_config_complete(
            containers_of(*task_definition)[0],
        ) && !has_task_definition_ref(service) ==> (r matches Err(e) && (
        e matches RunError::MissingConfiguration { detail } && detail@
            == "service has no task definition"@)),
{
    let container = match select_container(task_definition) {
        Result::Ok(c) => c,
        Result::Err(e) => { return Result::Err(e) },
    };
    let log_config = match extract_log_config(container) {
        Result::Ok(l) => l,
        Result::Err(e) => { return Result::Err(e) },
    };
    let request = match build_run_task_request(cluster, task_definition, service) {
        Result::Ok(q) => q,
        Result::Err(e) => { return Result::Err(e) },
    };
    Result::Ok(LaunchPlan { request, log_config })
}

} // verus!
