//! Starting services: which port each gets, what is told about it, and what
//! becomes of a service that does not come up.

use crate::commands::StartArgs;
use crate::error::Error;
use crate::process::{ProcessManager, ProcessTable};
use crate::text::{
    concat2, concat3, decimal, hyphens_to_underscores, replaced, to_uppercase, u64_to_string,
    uppercase,
};
use vstd::prelude::*;
use vstd::string::*;

verus! {

/// The port of the first service where none is given.
pub const DEFAULT_BASE_PORT: u16 = 8080;

/// How long a started service is given to become healthy, in seconds.
pub const HEALTH_TIMEOUT_SECS: u64 = 30;

/// The file that the URLs of the started services are written to.
pub const ENV_FILE: &'static str = ".doubleagent.env";

/// A service that runs, with the URL it is reached under.
#[derive(Debug, Clone, PartialEq, Eq)]
pub struct StartedService {
    pub name: String,
    pub url: String,
}

/// Where the services to start come from.
#[derive(Debug, Clone, PartialEq, Eq)]
pub enum StartMode {
    /// One service, from this directory.
    Local(String),
    /// The named services, from the catalog.
    Catalog,
}

/// What to do with a service that is to be started.
#[derive(Debug, Clone, PartialEq, Eq)]
pub enum StartDecision {
    /// It runs already: report it under the port it has.
    AlreadyRunning(StartedService),
    /// Launch it.
    Launch,
}

/// A start that was taken back.
#[derive(Debug, Clone, PartialEq, Eq)]
pub struct StartFailure {
    /// The failure to report.
    pub error: Error,
    /// The process to end, if the service had a record.
    pub kill: Option<u32>,
}

/// The URL of a service on this machine.
pub open spec fn service_url_spec(port: u16) -> Seq<char> {
    "http://localhost:"@ + decimal(port as nat)
}

/// The name of the variable that tells a service's URL: the service's name
/// in upper case, hyphens as underscores, between a prefix and `_URL`.
pub open spec fn env_var_name_spec(name: Seq<char>) -> Seq<char> {
    "DOUBLEAGENT_"@ + replaced(uppercase(name), '-', '_') + "_URL"@
}

/// One line for each service: the variable, `=`, the URL.
pub open spec fn env_lines(services: Seq<StartedService>) -> Seq<char>
    decreases services.len(),
{
    if services.len() == 0 {
        Seq::empty()
    } else {
        env_lines(services.drop_last()) + env_var_name_spec(services.last().name@) + "="@
            + services.last().url@ + "\n"@
    }
}

pub open spec fn env_file_header() -> Seq<char> {
    "# Generated by doubleagent - do not edit\n"@
        + "# Load with: source .doubleagent.env (bash) or use dotenv library\n\n"@
}

pub open spec fn no_services_message() -> Seq<char> {
    "No services specified. Use 'doubleagent start <service>' or 'doubleagent start --local <path>'"@
}

pub open spec fn health_failed_message(cause: Error) -> Seq<char> {
    "Health check failed: "@ + cause.message_spec()
}

/// The URL of a service on this machine.
pub fn service_url(port: u16) -> (r: String)
    ensures
        r@ == service_url_spec(port),
{
    let digits = u64_to_string(port as u64);
    concat2("http://localhost:", digits.as_str())
}

/// The name of the variable that tells a service's URL.
pub fn env_var_name(name: &str) -> (r: String)
    ensures
        r@ == env_var_name_spec(name@),
{
    let upper = to_uppercase(name);
    let plain = hyphens_to_underscores(upper.as_str());
    concat3("DOUBLEAGENT_", plain.as_str(), "_URL")
}

/// The port of the service at a position of the request: the base port and
/// the position, where that still is a port.
pub fn service_port(base_port: u16, index: usize) -> (r: Option<u16>)
    ensures
        base_port + index <= u16::MAX ==> r == Some((base_port + index) as u16),
        base_port + index > u16::MAX ==> r is None,
{
    if index <= (u16::MAX - base_port) as usize {
        Some(base_port + index as u16)
    } else {
        None
    }
}

/// The text of the file that tells the URLs of the started services; none
/// where no service was started.
pub fn env_file_content(services: &Vec<StartedService>) -> (r: Option<String>)
    ensures
        services@.len() == 0 ==> r is None,
        services@.len() > 0 ==> (r matches Some(text) && text@ == env_file_header() + env_lines(
            services@,
        )),
{
    if services.len() == 0 {
        return None;
    }
    let mut text = concat2(
        "# Generated by doubleagent - do not edit\n",
        "# Load with: source .doubleagent.env (bash) or use dotenv library\n\n",
    );
    let mut i: usize = 0;
    assert(services@.subrange(0, 0) =~= Seq::<StartedService>::empty());
    assert(text@ =~= env_file_header() + env_lines(services@.subrange(0, 0)));
    while i < services.len()
        invariant
            i <= services.len(),
            text@ == env_file_header() + env_lines(services@.subrange(0, i as int)),
        decreases services.len() - i,
    {
        let ghost before = services@.subrange(0, i as int);
        let ghost after = services@.subrange(0, i + 1);
        assert(after.drop_last() =~= before);
        assert(after.last() == services@[i as int]);
        let name = env_var_name(services[i].name.as_str());
        text.append(name.as_str());
        text.append("=");
        text.append(services[i].url.as_str());
        text.append("\n");
        assert(text@ =~= env_file_header() + env_lines(after));
        i += 1;
    }
    assert(services@.subrange(0, i as int) =~= services@);
    Some(text)
}

/// Reads from the arguments where the services come from: a local directory
/// goes first; without one at least one service must be named.
pub fn start_mode(args: &StartArgs) -> (r: Result<StartMode, Error>)
    ensures
        args.local matches Some(path) ==> r matches Ok(StartMode::Local(p)) && p == path,
        args.local is None && args.services@.len() == 0 ==> (r matches Err(Error::Other(m)) && m@
            == no_services_message()),
        args.local is None && args.services@.len() > 0 ==> r matches Ok(StartMode::Catalog),
{
    match &args.local {
        Some(path) => Ok(StartMode::Local(path.clone())),
        None => {
            if args.services.len() == 0 {
                Err(
                    Error::Other(
                        String::from_str(
                            "No services specified. Use 'doubleagent start <service>' or 'doubleagent start --local <path>'",
                        ),
                    ),
                )
            } else {
                Ok(StartMode::Catalog)
            }
        },
    }
}

/// Decides what to do with a service that is to be started: one that runs is
/// reported under the port of its record and left alone.
pub fn plan_start(manager: &ProcessManager, name: &str, table: &ProcessTable) -> (r: StartDecision)
    ensures
        manager@.dom().contains(name@) && table.alive(manager@[name@].pid) ==> (
        r matches StartDecision::AlreadyRunning(s) && s.name@ == name@ && s.url@
            == service_url_spec(manager@[name@].port)),
        !(manager@.dom().contains(name@) && table.alive(manager@[name@].pid)) ==> r is Launch,
{
    if manager.is_running(name, table) {
        match manager.get_info(name) {
            Some(info) => StartDecision::AlreadyRunning(
                StartedService { name: String::from_str(name), url: service_url(info.port) },
            ),
            None => StartDecision::Launch,
        }
    } else {
        StartDecision::Launch
    }
}

/// Closes the start of a service once the wait for its health has ended. A
/// healthy service is reported under its port. One that did not become
/// healthy is taken back: its record goes, its process is handed out to be
/// ended, and the failure says that the health check failed and why.
pub fn finish_start(
    manager: &mut ProcessManager,
    name: &str,
    port: u16,
    health: Result<(), Error>,
) -> (r: Result<StartedService, StartFailure>)
    ensures
        health is Ok ==> (r matches Ok(s) && s.name@ == name@ && s.url@ == service_url_spec(port)
            && final(manager)@ == old(manager)@),
        health matches Err(cause) ==> (r matches Err(f) && (f.error matches Error::Other(m) && m@
            == health_failed_message(cause)) && final(manager)@ == old(manager)@.remove(name@) && (
        old(manager)@.dom().contains(name@) ==> f.kill == Some(old(manager)@[name@].pid)) && (
        !old(manager)@.dom().contains(name@) ==> f.kill is None)),
{
    match health {
        Ok(_) => Ok(StartedService { name: String::from_str(name), url: service_url(port) }),
        Err(cause) => {
            let kill = manager.stop(name);
            let why = cause.message();
            let error = Error::Other(concat2("Health check failed: ", why.as_str()));
            Err(StartFailure { error, kill })
        },
    }
}

} // verus!
