//! Log configuration and log-stream naming: reading the three required
//! log-driver options of the selected container, and computing the
//! log-stream identifier `{stream-prefix}/{container-name}/{task-id}`.

use vstd::prelude::*;
use vstd::string::StringExecFns;

use crate::errors::RunError;
use crate::model::ContainerDefinition;

verus! {

/// The three log-driver option names the selected container must carry.
pub open spec fn key_group() -> Seq<char> {
    "awslogs-group"@
}

/// See [`key_group`].
pub open spec fn key_region() -> Seq<char> {
    "awslogs-region"@
}

/// See [`key_group`].
pub open spec fn key_prefix() -> Seq<char> {
    "awslogs-stream-prefix"@
}

/// The value of the first pair whose key equals `key`, if any.
pub open spec fn spec_lookup(opts: Seq<(String, String)>, key: Seq<char>) -> Option<Seq<char>>
    decreases opts.len(),
{
    if opts.len() == 0 {
        Option::None
    } else if opts[0].0@ == key {
        Option::Some(opts[0].1@)
    } else {
        spec_lookup(opts.drop_first(), key)
    }
}

/// The value the container's log configuration gives to option `key`, if the
/// configuration, its option list and the key are all present.
pub open spec fn spec_log_option(c: ContainerDefinition, key: Seq<char>) -> Option<Seq<char>> {
    match c.log_configuration {
        Option::Some(lc) => match lc.options {
            Option::Some(opts) => spec_lookup(opts@, key),
            Option::None => Option::None,
        },
        Option::None => Option::None,
    }
}

/// Whether the container carries all three required log-driver options.
pub open spec fn log_config_complete(c: ContainerDefinition) -> bool {
    &&& spec_log_option(c, key_group()) is Some
    &&& spec_log_option(c, key_region()) is Some
    &&& spec_log_option(c, key_prefix()) is Some
}

/// The three required log-driver options of a container, as plain values:
/// the log group, the log region, and the stream prefix.
#[derive(Debug, PartialEq, Eq, Clone)]
pub struct LogConfig {
    pub group: String,
    pub region: String,
    pub stream_prefix: String,
}

fn lookup<'a>(opts: &'a Vec<(String, String)>, key: &String) -> (r: Option<&'a String>)
    ensures
        match r {
            Option::Some(v) => spec_lookup(opts@, key@) == Option::Some(v@),
            Option::None => spec_lookup(opts@, key@) is None,
        },
{
    let n = opts.len();
    let mut i: usize = 0;
    proof {
        assert(opts@.skip(0) =~= opts@);
    }
    while i < n
        invariant
            i <= n,
            n == opts@.len(),
            spec_lookup(opts@, key@) == spec_lookup(opts@.skip(i as int), key@),
        decreases n - i,
    {
        proof {
            assert(opts@.skip(i as int)[0] == opts@[i as int]);
            assert(opts@.skip(i as int).drop_first() =~= opts@.skip(i as int + 1));
        }
        if opts[i].0 == *key {
            return Option::Some(&opts[i].1);
        }
        i += 1;
    }
    proof {
        assert(opts@.skip(n as int).len() == 0);
    }
    Option::None
}

/// Reads the three required log-driver options of the selected container.
/// Absence of any — including an absent log configuration or option list —
/// is a fatal configuration error naming the first missing option, checked
/// in the order group, region, stream prefix.
pub fn extract_log_config(c: &ContainerDefinition) -> (r: Result<LogConfig, RunError>)
    ensures
        r is Ok <==> log_config_complete(*c),
        r matches Ok(cfg) ==> {
            &&& spec_log_option(*c, key_group()) == Option::Some(cfg.group@)
            &&& spec_log_option(*c, key_region()) == Option::Some(cfg.region@)
            &&& spec_log_option(*c, key_prefix()) == Option::Some(cfg.stream_prefix@)
        },
        spec_log_option(*c, key_group()) is None ==> (r matches Err(e)
            && (e matches RunError::MissingConfiguration { detail } && detail@
            == "No log group configured"@)),
        spec_log_option(*c, key_group()) is Some && spec_log_option(*c, key_region()) is None ==> (
        r matches Err(e) && (e matches RunError::MissingConfiguration { detail } && detail@
            == "No log region configured"@)),
        spec_log_option(*c, key_group()) is Some && spec_log_option(*c, key_region()) is Some
            && spec_log_option(*c, key_prefix()) is None ==> (r matches Err(e) && (
        e matches RunError::MissingConfiguration { detail } && detail@
            == "No log stream prefix configured"@)),
{
    let opts: &Vec<(String, String)> = match &c.log_configuration {
        Option::Some(lc) => match &lc.options {
            Option::Some(o) => o,
            Option::None => {
                return Result::Err(
                    RunError::MissingConfiguration {
                        detail: String::from_str("No log group configured"),
                    },
                );
            },
        },
        Option::None => {
            return Result::Err(
                RunError::MissingConfiguration {
                    detail: String::from_str("No log group configured"),
                },
            );
        },
    };
    let group = match lookup(opts, &String::from_str("awslogs-group")) {
        Option::Some(v) => v.clone(),
        Option::None => {
            return Result::Err(
                RunError::MissingConfiguration {
                    detail: String::from_str("No log group configured"),
                },
            );
        },
    };
    let region = match lookup(opts, &String::from_str("awslogs-region")) {
        Option::Some(v) => v.clone(),
        Option::None => {
            return Result::Err(
                RunError::MissingConfiguration {
                    detail: String::from_str("No log region configured"),
                },
            );
        },
    };
    let stream_prefix = match lookup(opts, &String::from_str("awslogs-stream-prefix")) {
        Option::Some(v) => v.clone(),
        Option::None => {
            return Result::Err(
                RunError::MissingConfiguration {
                    detail: String::from_str("No log stream prefix configured"),
                },
            );
        },
    };
    Result::Ok(LogConfig { group, region, stream_prefix })
}

/// The log-stream identifier for a stream prefix, a container name and a
/// task identifier: the three joined by single path separators, in that
/// order, with nothing added or dropped.
pub open spec fn spec_log_stream(
    prefix: Seq<char>,
    container_name: Seq<char>,
    task_id: Seq<char>,
) -> Seq<char> {
    prefix + "/"@ + container_name + "/"@ + task_id
}

/// Computes the log-stream identifier `{prefix}/{container-name}/{task-id}`.
pub fn log_stream_name(prefix: &str, container_name: &str, task_id: &str) -> (r: String)
    ensures
        r@ == spec_log_stream(prefix@, container_name@, task_id@),
{
    let mut r = String::from_str(prefix);
    r.append("/");
    r.append(container_name);
    r.append("/");
    r.append(task_id);
    r
}

} // verus!
