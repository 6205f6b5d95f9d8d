//! Resolution steps of the pipeline: picking the service out of a lookup's
//! answer, reading the service's task-definition reference, selecting the
//! container to run, and taking the first task out of an upstream answer.

use vstd::prelude::*;
use vstd::string::StringExecFns;

use crate::errors::RunError;
use crate::model::ContainerDefinition;
use crate::model::Service;
use crate::model::Task;
use crate::model::TaskDefinition;
use crate::model::containers_of;
use crate::model::has_task_definition_ref;

verus! {

/// The list carried by an upstream answer; an absent list counts as empty.
pub open spec fn spec_list<T>(o: Option<Vec<T>>) -> Seq<T> {
    match o {
        Option::Some(v) => v@,
        Option::None => Seq::<T>::empty(),
    }
}

/// Resolves a service lookup's answer: the first listed service, or NotFound
/// naming the requested service when the answer lists none. An empty answer
/// is a recoverable, structured failure, not a fatal one.
pub fn resolve_service(services: Option<Vec<Service>>, service_name: &str) -> (r: Result<
    Service,
    RunError,
>)
    ensures
        spec_list(services).len() > 0 ==> (r matches Ok(s) && s == spec_list(services)[0]),
        spec_list(services).len() == 0 ==> (r matches Err(e) && (e matches RunError::NotFound {
            service,
        } && service@ == service_name@)),
{
    match services {
        Option::Some(mut v) => {
            if v.len() > 0 {
                Result::Ok(v.remove(0))
            } else {
                Result::Err(RunError::NotFound { service: String::from_str(service_name) })
            }
        },
        Option::None => Result::Err(
            RunError::NotFound { service: String::from_str(service_name) },
        ),
    }
}

/// The task-definition reference the service carries, used both to fetch the
/// task definition and to name it in the run-task request. A service without
/// a non-empty reference is a fatal configuration error.
pub fn task_definition_reference<'a>(service: &'a Service) -> (r: Result<&'a String, RunError>)
    ensures
        has_task_definition_ref(*service) ==> (r matches Ok(td) && service.task_definition
            == Option::Some(*td)),
        !has_task_definition_ref(*service) ==> (r matches Err(e) && (
        e matches RunError::MissingConfiguration { detail } && detail@
            == "service has no task definition"@)),
{
    match &service.task_definition {
        Option::Some(td) => {
            if td.as_str().is_empty() {
                Result::Err(
                    RunError::MissingConfiguration {
                        detail: String::from_str("service has no task definition"),
                    },
                )
            } else {
                Result::Ok(td)
            }
        },
        Option::None => Result::Err(
            RunError::MissingConfiguration {
                detail: String::from_str("service has no task definition"),
            },
        ),
    }
}

/// Selects the container whose name and log configuration the pipeline uses:
/// deterministically the first in declaration order, whatever the length of
/// the sequence. An empty container sequence is a fatal configuration error —
/// nothing to run.
pub fn select_container<'a>(td: &'a TaskDefinition) -> (r: Result<&'a ContainerDefinition, RunError>)
    ensures
        containers_of(*td).len() > 0 ==> (r matches Ok(c) && *c == containers_of(*td)[0]),
        containers_of(*td).len() == 0 ==> (r matches Err(e) && (
        e matches RunError::MissingConfiguration { detail } && detail@
            == "No container definitions in task definition"@)),
{
    match &td.container_definitions {
        Option::Some(cs) => {
            if cs.len() > 0 {
                Result::Ok(&cs[0])
            } else {
                Result::Err(
                    RunError::MissingConfiguration {
                        detail: String::from_str("No container definitions in task definition"),
                    },
                )
            }
        },
        Option::None => Result::Err(
            RunError::MissingConfiguration {
                detail: String::from_str("No container definitions in task definition"),
            },
        ),
    }
}

/// The name of the selected container, used in the container override and in
/// the log-stream identifier. A container without a name is a fatal
/// configuration error.
pub fn container_name<'a>(c: &'a ContainerDefinition) -> (r: Result<&'a String, RunError>)
    ensures
        c.name is Some ==> (r matches Ok(n) && c.name == Option::Some(*n)),
        c.name is None ==> (r matches Err(e) && (e matches RunError::MissingConfiguration {
            detail,
        } && detail@ == "No container name"@)),
{
    match &c.name {
        Option::Some(n) => Result::Ok(n),
        Option::None => Result::Err(
            RunError::MissingConfiguration { detail: String::from_str("No container name") },
        ),
    }
}

/// The first task listed in an upstream answer. An answer that lists none
/// where at least one is owed is an unexpected empty result; `context` names
/// the call for the diagnostic.
pub fn first_task(tasks: Option<Vec<Task>>, context: &str) -> (r: Result<Task, RunError>)
    ensures
        spec_list(tasks).len() > 0 ==> (r matches Ok(t) && t == spec_list(tasks)[0]),
        spec_list(tasks).len() == 0 ==> (r matches Err(e) && (
        e matches RunError::UnexpectedEmptyResult { what } && what@ == context@)),
{
    match tasks {
        Option::Some(mut v) => {
            if v.len() > 0 {
                Result::Ok(v.remove(0))
            } else {
                Result::Err(
                    RunError::UnexpectedEmptyResult { what: String::from_str(context) },
                )
            }
        },
        Option::None => Result::Err(
            RunError::UnexpectedEmptyResult { what: String::from_str(context) },
        ),
    }
}

} // verus!
