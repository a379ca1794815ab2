//! The commands of the front end, as values.

use crate::config::ProjectConfig;
use vstd::prelude::*;

verus! {

/// One invocation.
#[derive(Debug, Clone, PartialEq, Eq)]
pub struct Cli {
    pub command: Commands,
}

/// What the front end can be asked to do.
#[derive(Debug, Clone, PartialEq, Eq)]
pub enum Commands {
    /// Install services from the catalog.
    Add(AddArgs),
    /// Start services.
    Start(StartArgs),
    /// Stop running services.
    Stop(StopArgs),
    /// Show the running services.
    Status,
    /// Reset the state of services.
    Reset(ResetArgs),
    /// Load data into a service.
    Seed(SeedArgs),
    /// List services.
    List(ListArgs),
    /// Run the contract tests of a service.
    Contract(ContractArgs),
    /// Refresh installed services.
    Update(UpdateArgs),
    /// Run a command with services started around it.
    Run(RunArgs),
    /// Manage snapshot profiles.
    Snapshot(SnapshotArgs),
}

#[derive(Debug, Clone, PartialEq, Eq)]
pub struct AddArgs {
    /// The services to install; where none is given, those of the project.
    pub services: Vec<String>,
}

#[derive(Debug, Clone, PartialEq, Eq)]
pub struct StartArgs {
    /// The services to start.
    pub services: Vec<String>,
    /// The port of the first service; each further one gets the next port.
    pub port: Option<u16>,
    /// Stay in the foreground.
    pub foreground: bool,
    /// A directory to start a service from, in place of the catalog.
    pub local: Option<String>,
    /// A snapshot profile to begin with.
    pub snapshot: Option<String>,
}

#[derive(Debug, Clone, PartialEq, Eq)]
pub struct ListArgs {
    /// List what the catalog offers, not what is installed.
    pub remote: bool,
}

#[derive(Debug, Clone, PartialEq, Eq)]
pub struct UpdateArgs {
    /// The services to refresh; where none is given, all installed ones.
    pub services: Vec<String>,
}

#[derive(Debug, Clone, PartialEq, Eq)]
pub struct StopArgs {
    /// The services to stop; where none is given, all running ones.
    pub services: Vec<String>,
}

#[derive(Debug, Clone, PartialEq, Eq)]
pub struct ResetArgs {
    /// The services to reset; where none is given, all running ones.
    pub services: Vec<String>,
    /// Throw away the baseline too.
    pub hard: bool,
}

#[derive(Debug, Clone, PartialEq, Eq)]
pub struct SeedArgs {
    /// The service to load data into.
    pub service: String,
    /// A file with the data.
    pub file: Option<String>,
    /// A snapshot profile with the data.
    pub snapshot: Option<String>,
    /// A fixture of the service with the data.
    pub fixture: Option<String>,
}

#[derive(Debug, Clone, PartialEq, Eq)]
pub struct ContractArgs {
    /// The service to test.
    pub service: String,
}

#[derive(Debug, Clone, PartialEq, Eq)]
pub struct RunArgs {
    /// The services to start before the command runs.
    pub services: Vec<String>,
    /// The port of the first service; each further one gets the next port.
    pub port: Option<u16>,
    /// Leave the services running when the command has ended.
    pub keep: bool,
    /// A snapshot profile to begin with.
    pub snapshot: Option<String>,
    /// The command to run.
    pub command: Vec<String>,
}

#[derive(Debug, Clone, PartialEq, Eq)]
pub struct SnapshotArgs {
    pub command: SnapshotCommands,
}

#[derive(Debug, Clone, PartialEq, Eq)]
pub enum SnapshotCommands {
    Pull(SnapshotPullArgs),
    List(SnapshotListArgs),
    Inspect(SnapshotInspectArgs),
    Delete(SnapshotDeleteArgs),
    Push(SnapshotPushArgs),
}

#[derive(Debug, Clone, PartialEq, Eq)]
pub struct SnapshotPushArgs {
    pub service: String,
    pub profile: String,
    pub registry: String,
}

#[derive(Debug, Clone, PartialEq, Eq)]
pub struct SnapshotPullArgs {
    pub service: String,
    pub profile: Option<String>,
    /// The most resources to pull of each type.
    pub limit: Option<u32>,
    pub no_redact: bool,
    pub incremental: bool,
    pub backend: Option<String>,
}

#[derive(Debug, Clone, PartialEq, Eq)]
pub struct SnapshotListArgs {
    pub service: Option<String>,
}

#[derive(Debug, Clone, PartialEq, Eq)]
pub struct SnapshotInspectArgs {
    pub service: String,
    pub profile: String,
}

#[derive(Debug, Clone, PartialEq, Eq)]
pub struct SnapshotDeleteArgs {
    pub service: String,
    pub profile: String,
}

/// What an installation works on.
#[derive(Debug, Clone, PartialEq, Eq)]
pub enum AddTargets {
    /// These services.
    Services(Vec<String>),
    /// Nothing: no service was named and the project asks for none.
    EmptyProject,
    /// Nothing: no service was named and there is no project.
    NoProject,
}

/// The services to install: those that were named, else those that the
/// project asks for.
pub fn services_to_add(named: Vec<String>, project: Option<ProjectConfig>) -> (r: AddTargets)
    ensures
        r == if named@.len() > 0 {
            AddTargets::Services(named)
        } else {
            match project {
                Some(p) => if p.services@.len() == 0 {
                    AddTargets::EmptyProject
                } else {
                    AddTargets::Services(p.services)
                },
                None => AddTargets::NoProject,
            }
        },
{
    if named.len() > 0 {
        AddTargets::Services(named)
    } else {
        match project {
            Some(p) => {
                if p.services.len() == 0 {
                    AddTargets::EmptyProject
                } else {
                    AddTargets::Services(p.services)
                }
            },
            None => AddTargets::NoProject,
        }
    }
}

/// The services that a command works on: those that were named, or all
/// running ones where none was named.
pub fn selected_services(named: Vec<String>, running: Vec<String>) -> (r: Vec<String>)
    ensures
        r == if named@.len() == 0 {
            running
        } else {
            named
        },
{
    if named.len() == 0 {
        running
    } else {
        named
    }
}

/// The exit code that a finished subprocess leaves to the front end: none
/// after a success, else the subprocess's own code, or 1 where it has none.
pub fn subprocess_exit(success: bool, code: Option<i32>) -> (r: Option<i32>)
    ensures
        r == if success {
            None
        } else {
            match code {
                Some(c) => Some(c),
                None => Some(1i32),
            }
        },
{
    if success {
        None
    } else {
        match code {
            Some(c) => Some(c),
            None => Some(1),
        }
    }
}

} // verus!
