//! Running the contract tests of a service against the service itself.

use crate::error::Error;
use crate::mise::{build_command, build_command_post, CommandLine};
use crate::paths::{join, join_spec};
use crate::service::ServiceDefinition;
use crate::start::{service_url, service_url_spec};
use crate::text::{concat3, to_uppercase, uppercase};
use vstd::prelude::*;
use vstd::string::*;

verus! {

/// The port that a service gets while its contract tests run.
pub const CONTRACT_PORT: u16 = 18080;

/// How the contract tests of a service are run: the command, where it runs,
/// and the variable that tells it the URL of the service.
#[derive(Debug, Clone, PartialEq, Eq)]
pub struct ContractPlan {
    pub command: CommandLine,
    pub current_dir: String,
    pub env_name: String,
    pub env_value: String,
}

pub open spec fn no_contracts_message(service: Seq<char>) -> Seq<char> {
    "No contracts configuration found in service.yaml for '"@ + service
        + "'.\nAdd a 'contracts' section with a 'command' to run tests."@
}

pub open spec fn no_contracts_dir_message(service: Seq<char>, dir: Seq<char>) -> Seq<char> {
    "Contracts directory not found for "@ + service + ". Expected: "@ + dir
}

pub open spec fn no_contracts_command_message(service: Seq<char>) -> Seq<char> {
    "No command specified in contracts configuration for '"@ + service + "'"@
}

/// The name of the variable that tells the tests the URL of the service: the
/// service's name in upper case between a prefix and `_URL`.
pub open spec fn contract_env_name_spec(service: Seq<char>) -> Seq<char> {
    "DOUBLEAGENT_"@ + uppercase(service) + "_URL"@
}

/// The directory of the contract tests of a service that has some.
pub fn contracts_dir(name: &str, service: &ServiceDefinition) -> (r: Result<String, Error>)
    ensures
        service.contracts is None ==> (r matches Err(Error::Other(m)) && m@
            == no_contracts_message(name@)),
        service.contracts matches Some(c) ==> (r matches Ok(dir) && dir@ == join_spec(
            service.path@,
            c.directory@,
        )),
{
    match &service.contracts {
        None => contract_missing(name),
        Some(c) => Ok(join(service.path.as_str(), c.directory.as_str())),
    }
}

fn contract_missing<T>(name: &str) -> (r: Result<T, Error>)
    ensures
        r matches Err(Error::Other(m)) && m@ == no_contracts_message(name@),
{
    Err(
        Error::Other(
            concat3(
                "No contracts configuration found in service.yaml for '",
                name,
                "'.\nAdd a 'contracts' section with a 'command' to run tests.",
            ),
        ),
    )
}

/// Plans the run of the contract tests of a service that listens on `port`.
/// The service must have a contracts section, the directory of the tests
/// must be there, and the section must name a command; these are looked at in
/// this order. The command runs in that directory, through the toolchain
/// wrapper where the service brings a toolchain descriptor.
pub fn contract_plan(
    name: &str,
    service: &ServiceDefinition,
    port: u16,
    dir_exists: bool,
    has_descriptor: bool,
    mise_installed: bool,
) -> (r: Result<ContractPlan, Error>)
    ensures
        service.contracts is None ==> (r matches Err(Error::Other(m)) && m@
            == no_contracts_message(name@)),
        service.contracts matches Some(c) ==> (if !dir_exists {
            r matches Err(Error::Other(m)) && m@ == no_contracts_dir_message(
                name@,
                join_spec(service.path@, c.directory@),
            )
        } else if c.command@.len() == 0 {
            r matches Err(Error::Other(m)) && m@ == no_contracts_command_message(name@)
        } else {
            match r {
                Ok(plan) => build_command_post(
                    c.command@,
                    has_descriptor,
                    mise_installed,
                    Ok(plan.command),
                ) && plan.current_dir@ == join_spec(service.path@, c.directory@) && plan.env_name@
                    == contract_env_name_spec(name@) && plan.env_value@ == service_url_spec(port),
                Err(e) => build_command_post(c.command@, has_descriptor, mise_installed, Err(e)),
            }
        }),
{
    match &service.contracts {
        None => contract_missing(name),
        Some(c) => {
            let dir = join(service.path.as_str(), c.directory.as_str());
            if !dir_exists {
                let mut m = concat3("Contracts directory not found for ", name, ". Expected: ");
                m.append(dir.as_str());
                return Err(Error::Other(m));
            }
            if c.command.len() == 0 {
                return Err(
                    Error::Other(
                        concat3(
                            "No command specified in contracts configuration for '",
                            name,
                            "'",
                        ),
                    ),
                );
            }
            match build_command(&c.command, has_descriptor, mise_installed) {
                Err(e) => Err(e),
                Ok(command) => {
                    let upper = to_uppercase(name);
                    Ok(
                        ContractPlan {
                            command,
                            current_dir: dir,
                            env_name: concat3("DOUBLEAGENT_", upper.as_str(), "_URL"),
                            env_value: service_url(port),
                        },
                    )
                },
            }
        },
    }
}

} // verus!
