//! The supervisor's bookkeeping: which services were started, under which
//! process, and whether they still live.
//!
//! A process is known by its id alone. Whether it lives is asked of a table
//! of live processes that the caller fills; signals and requests over HTTP
//! are the caller's too.

use crate::error::Error;
use crate::mise::{build_command, build_command_post, CommandLine};
use crate::paths::{join, join_spec};
use crate::service::ServiceDefinition;
use crate::text::{concat3, decimal, str_eq, u64_to_string, views};
use vstd::prelude::*;
use vstd::string::*;

verus! {

/// What is recorded of a running service.
#[derive(Debug, Clone, PartialEq, Eq)]
pub struct ServiceInfo {
    /// The id of its process.
    pub pid: u32,
    /// The port it listens on.
    pub port: u16,
    /// When it was started, in seconds since the Unix epoch, in decimal.
    pub started_at: String,
    /// The directory that its definition was loaded from.
    pub service_path: String,
}

/// One entry of the persisted state: a service's name with its record.
#[derive(Debug, Clone, PartialEq, Eq)]
pub struct ServiceRecord {
    pub name: String,
    pub info: ServiceInfo,
}

/// The processes that the caller found alive.
#[derive(Debug, Clone, PartialEq, Eq)]
pub struct ProcessTable {
    pub live: Vec<u32>,
}

/// A signal that ends a process.
#[derive(PartialEq, Eq, Structural, Clone, Copy, Debug)]
pub enum Signal {
    /// Asks the process to end.
    Terminate,
    /// Ends it by force.
    Kill,
}

/// How far the ending of a process has come.
#[derive(PartialEq, Eq, Structural, Clone, Copy, Debug)]
pub enum KillProgress {
    /// No signal was sent yet.
    NotStarted,
    /// The graceful signal was sent; `delivered` says whether it arrived.
    TerminateSent { delivered: bool },
    /// The forceful signal was sent.
    KillSent,
}

/// What a request to the health endpoint gave.
#[derive(PartialEq, Eq, Structural, Clone, Copy, Debug)]
pub enum ProbeOutcome {
    /// An answer with this HTTP status.
    Status(u16),
    /// No answer: the request failed or timed out.
    NoAnswer,
}

/// What happened last while waiting for a service to become healthy.
#[derive(PartialEq, Eq, Structural, Clone, Copy, Debug)]
pub enum HealthEvent {
    /// A round begins, this long after the wait began.
    RoundStarts { elapsed_nanos: u128 },
    /// The request of this round was answered, or was not.
    Probed { outcome: ProbeOutcome },
}

/// What to do next while waiting for a service to become healthy.
#[derive(Debug, Clone, PartialEq, Eq)]
pub enum HealthStep {
    /// Request the URL, giving up on the request after `timeout_secs`.
    Probe { url: String, timeout_secs: u64 },
    /// Sleep, then begin the next round.
    Wait { millis: u64 },
    /// The service answered: the wait succeeded.
    Healthy,
    /// The wait failed.
    Failed(Error),
}

/// How a service is launched: the command, where it runs and what is set in
/// its environment, later entries overriding earlier ones. Nobody waits for
/// the process.
#[derive(Debug, Clone, PartialEq, Eq)]
pub struct LaunchPlan {
    pub command: CommandLine,
    pub current_dir: String,
    pub env: Vec<(String, String)>,
    /// What the process writes to its output and its error output is thrown
    /// away.
    pub discard_output: bool,
}

/// The map that a list of records stands for; of two records of one name the
/// later one counts.
pub open spec fn records_map(records: Seq<ServiceRecord>) -> Map<Seq<char>, ServiceInfo>
    decreases records.len(),
{
    if records.len() == 0 {
        Map::empty()
    } else {
        records_map(records.drop_last()).insert(records.last().name@, records.last().info)
    }
}

/// No two records have the same name.
pub open spec fn unique_names(records: Seq<ServiceRecord>) -> bool {
    forall|i: int, j: int|
        0 <= i < j < records.len() ==> (#[trigger] records[i]).name@ != (#[trigger] records[j]).name@
}

/// The map of those records whose process is among the live ones.
pub open spec fn swept(records: Seq<ServiceRecord>, live: Seq<u32>) -> Map<Seq<char>, ServiceInfo>
    decreases records.len(),
{
    if records.len() == 0 {
        Map::empty()
    } else if live.contains(records.last().info.pid) {
        swept(records.drop_last(), live).insert(records.last().name@, records.last().info)
    } else {
        swept(records.drop_last(), live)
    }
}

/// Any 2xx status is a success.
pub open spec fn is_success_status(code: u16) -> bool {
    200 <= code <= 299
}

/// The endpoint answered with a success.
pub open spec fn probe_healthy(outcome: ProbeOutcome) -> bool {
    outcome matches ProbeOutcome::Status(code) && is_success_status(code)
}

/// The health endpoint of a service on this machine.
pub open spec fn health_url_spec(port: u16) -> Seq<char> {
    "http://localhost:"@ + decimal(port as nat) + "/_doubleagent/health"@
}

/// More than the allowed number of seconds has passed.
pub open spec fn timed_out(timeout_secs: u64, elapsed_nanos: u128) -> bool {
    elapsed_nanos > timeout_secs * 1_000_000_000
}

/// The service has a record, and the process of that record is gone.
pub open spec fn process_gone(
    services: Map<Seq<char>, ServiceInfo>,
    name: Seq<char>,
    live: Seq<u32>,
) -> bool {
    services.dom().contains(name) && !live.contains(services[name].pid)
}

/// How a wait for health ends, if it ends within the given rounds. A round
/// is the time that has passed when it begins, what its request gave, and the
/// processes that live after the request. `None` says that the wait goes on.
pub open spec fn wait_end(
    services: Map<Seq<char>, ServiceInfo>,
    name: Seq<char>,
    timeout_secs: u64,
    rounds: Seq<(u128, ProbeOutcome, Seq<u32>)>,
) -> Option<Result<(), Error>>
    decreases rounds.len(),
{
    if rounds.len() == 0 {
        None
    } else if timed_out(timeout_secs, rounds[0].0) {
        Some(Err(Error::HealthCheckTimeout(timeout_secs)))
    } else if probe_healthy(rounds[0].1) {
        Some(Ok(()))
    } else if process_gone(services, name, rounds[0].2) {
        Some(Err(Error::ServiceProcessDied))
    } else {
        wait_end(services, name, timeout_secs, rounds.drop_first())
    }
}

/// The record that a start leaves.
pub open spec fn started_as(
    info: ServiceInfo,
    service: ServiceDefinition,
    port: u16,
    pid: u32,
    now_secs: u64,
) -> bool {
    &&& info.pid == pid
    &&& info.port == port
    &&& info.started_at@ == decimal(now_secs as nat)
    &&& info.service_path@ == service.path@
}

/// The environment of a launch: the port first, then what the manifest asks.
pub open spec fn launch_env(
    env: Seq<(String, String)>,
    service: ServiceDefinition,
    port: u16,
) -> bool {
    &&& env.len() == service.server.env@.len() + 1
    &&& env[0].0@ == "PORT"@
    &&& env[0].1@ == decimal(port as nat)
    &&& env.subrange(1, env.len() as int) == service.server.env@
}

/// A name is in the map of a list exactly if one of its records has it.
pub proof fn lemma_records_map_dom(records: Seq<ServiceRecord>, name: Seq<char>)
    ensures
        records_map(records).dom().contains(name) <==> exists|i: int|
            0 <= i < records.len() && (#[trigger] records[i]).name@ == name,
    decreases records.len(),
{
    if records.len() > 0 {
        let front = records.drop_last();
        lemma_records_map_dom(front, name);
        if records_map(records).dom().contains(name) {
            if records.last().name@ == name {
                assert(records[records.len() - 1].name@ == name);
            } else {
                let i = choose|i: int| 0 <= i < front.len() && (#[trigger] front[i]).name@ == name;
                assert(records[i].name@ == name);
            }
        }
        if exists|i: int| 0 <= i < records.len() && (#[trigger] records[i]).name@ == name {
            let i = choose|i: int| 0 <= i < records.len() && (#[trigger] records[i]).name@ == name;
            if i < front.len() {
                assert(front[i].name@ == name);
            }
        }
    }
}

/// Where names are unique, the map holds each record under its name.
pub proof fn lemma_records_map_lookup(records: Seq<ServiceRecord>, i: int)
    requires
        unique_names(records),
        0 <= i < records.len(),
    ensures
        records_map(records).dom().contains(records[i].name@),
        records_map(records)[records[i].name@] == records[i].info,
    decreases records.len(),
{
    if i < records.len() - 1 {
        let front = records.drop_last();
        assert(front[i] == records[i]);
        assert(records[i].name@ != records[records.len() - 1].name@);
        assert(unique_names(front)) by {
            assert forall|a: int, b: int| 0 <= a < b < front.len() implies (#[trigger] front[a]).name@
                != (#[trigger] front[b]).name@ by {
                assert(front[a] == records[a]);
                assert(front[b] == records[b]);
            }
        }
        lemma_records_map_lookup(front, i);
    }
}

/// Where names are unique, taking a record out of the list takes its name
/// out of the map.
pub proof fn lemma_records_map_remove(records: Seq<ServiceRecord>, i: int)
    requires
        unique_names(records),
        0 <= i < records.len(),
    ensures
        unique_names(records.remove(i)),
        records_map(records.remove(i)) == records_map(records).remove(records[i].name@),
    decreases records.len(),
{
    let rest = records.remove(i);
    let name = records[i].name@;
    assert(unique_names(rest)) by {
        assert forall|a: int, b: int| 0 <= a < b < rest.len() implies (#[trigger] rest[a]).name@ != (
        #[trigger] rest[b]).name@ by {
            let a0 = if a < i {
                a
            } else {
                a + 1
            };
            let b0 = if b < i {
                b
            } else {
                b + 1
            };
            assert(rest[a] == records[a0]);
            assert(rest[b] == records[b0]);
        }
    }
    let front = records.drop_last();
    assert(unique_names(front)) by {
        assert forall|a: int, b: int| 0 <= a < b < front.len() implies (#[trigger] front[a]).name@
            != (#[trigger] front[b]).name@ by {
            assert(front[a] == records[a]);
            assert(front[b] == records[b]);
        }
    }
    if i == records.len() - 1 {
        assert(rest =~= front);
        lemma_records_map_dom(front, name);
        if records_map(front).dom().contains(name) {
            let k = choose|k: int| 0 <= k < front.len() && (#[trigger] front[k]).name@ == name;
            assert(front[k] == records[k]);
            assert(false);
        }
        assert(records_map(rest) =~= records_map(records).remove(name));
    } else {
        assert(front[i] == records[i]);
        lemma_records_map_remove(front, i);
        assert(rest.drop_last() =~= front.remove(i));
        assert(rest.last() == records.last());
        assert(records.last().name@ != name);
        assert(records_map(rest) =~= records_map(records).remove(name));
    }
}

/// Every record that a sweep keeps belongs to a live process.
pub proof fn lemma_swept_alive(records: Seq<ServiceRecord>, live: Seq<u32>)
    ensures
        forall|n: Seq<char>| #[trigger]
            swept(records, live).dom().contains(n) ==> live.contains(swept(records, live)[n].pid),
    decreases records.len(),
{
    if records.len() > 0 {
        let front = records.drop_last();
        lemma_swept_alive(front, live);
        assert forall|n: Seq<char>| #[trigger]
            swept(records, live).dom().contains(n) implies live.contains(
            swept(records, live)[n].pid,
        ) by {
            if live.contains(records.last().info.pid) && n == records.last().name@ {
            } else {
                assert(swept(front, live).dom().contains(n));
            }
        }
    }
}

/// A sweep keeps no name that the list does not hold.
pub proof fn lemma_swept_within(records: Seq<ServiceRecord>, live: Seq<u32>)
    ensures
        swept(records, live).dom().subset_of(records_map(records).dom()),
    decreases records.len(),
{
    if records.len() > 0 {
        lemma_swept_within(records.drop_last(), live);
    }
}

/// A sweep of records that all belong to live processes drops nothing.
pub proof fn lemma_swept_all_alive(records: Seq<ServiceRecord>, live: Seq<u32>)
    requires
        forall|i: int| 0 <= i < records.len() ==> live.contains((#[trigger] records[i]).info.pid),
    ensures
        swept(records, live) == records_map(records),
    decreases records.len(),
{
    if records.len() > 0 {
        let front = records.drop_last();
        assert forall|i: int| 0 <= i < front.len() implies live.contains(
            (#[trigger] front[i]).info.pid,
        ) by {
            assert(front[i] == records[i]);
        }
        lemma_swept_all_alive(front, live);
        assert(live.contains(records[records.len() - 1].info.pid));
    }
}

impl ProcessTable {
    /// The process is among the live ones.
    pub open spec fn alive(&self, pid: u32) -> bool {
        self.live@.contains(pid)
    }

    /// Tells whether a process is alive.
    pub fn is_alive(&self, pid: u32) -> (r: bool)
        ensures
            r == self.alive(pid),
    {
        let mut i: usize = 0;
        while i < self.live.len()
            invariant
                i <= self.live.len(),
                forall|j: int| 0 <= j < i ==> self.live@[j] != pid,
            decreases self.live.len() - i,
        {
            if self.live[i] == pid {
                return true;
            }
            i += 1;
        }
        false
    }
}

/// Copies a record.
pub fn clone_info(info: &ServiceInfo) -> (r: ServiceInfo)
    ensures
        r == *info,
{
    ServiceInfo {
        pid: info.pid,
        port: info.port,
        started_at: info.started_at.clone(),
        service_path: info.service_path.clone(),
    }
}

/// Finds the record of a name.
fn find(records: &Vec<ServiceRecord>, name: &str) -> (r: Option<usize>)
    ensures
        r matches Some(i) ==> i < records@.len() && records@[i as int].name@ == name@,
        r is None ==> forall|i: int|
            0 <= i < records@.len() ==> (#[trigger] records@[i]).name@ != name@,
{
    let mut i: usize = 0;
    while i < records.len()
        invariant
            i <= records.len(),
            forall|j: int| 0 <= j < i ==> (#[trigger] records@[j]).name@ != name@,
        decreases records.len() - i,
    {
        if str_eq(records[i].name.as_str(), name) {
            return Some(i);
        }
        i += 1;
    }
    None
}

/// Takes the record of a name out of a list, if there is one.
fn take(records: &mut Vec<ServiceRecord>, name: &str) -> (r: Option<ServiceInfo>)
    requires
        unique_names(old(records)@),
    ensures
        unique_names(final(records)@),
        records_map(final(records)@) == records_map(old(records)@).remove(name@),
        records_map(old(records)@).dom().contains(name@) ==> r == Some(
            records_map(old(records)@)[name@],
        ),
        !records_map(old(records)@).dom().contains(name@) ==> r is None,
{
    proof {
        lemma_records_map_dom(records@, name@);
    }
    match find(records, name) {
        Some(i) => {
            proof {
                lemma_records_map_lookup(records@, i as int);
                lemma_records_map_remove(records@, i as int);
            }
            let gone = records.remove(i);
            Some(gone.info)
        },
        None => {
            assert(records_map(records@) =~= records_map(records@).remove(name@));
            None
        },
    }
}

/// Puts a record into a list, in place of any record of the same name.
fn put(records: &mut Vec<ServiceRecord>, record: ServiceRecord)
    requires
        unique_names(old(records)@),
    ensures
        unique_names(final(records)@),
        records_map(final(records)@) == records_map(old(records)@).insert(
            record.name@,
            record.info,
        ),
{
    let ghost before = records@;
    let _ = take(records, record.name.as_str());
    let ghost middle = records@;
    proof {
        lemma_records_map_dom(middle, record.name@);
    }
    records.push(record);
    proof {
        assert(records@.drop_last() =~= middle);
        assert(unique_names(records@)) by {
            assert forall|a: int, b: int| 0 <= a < b < records@.len() implies (
            #[trigger] records@[a]).name@ != (#[trigger] records@[b]).name@ by {
                assert(records@[a] == middle[a]);
                if b < middle.len() {
                    assert(records@[b] == middle[b]);
                }
            }
        }
        assert(records_map(records@) =~= records_map(before).insert(record.name@, record.info));
    }
}

/// The URL of the health endpoint of a service on this machine.
pub fn health_url(port: u16) -> (r: String)
    ensures
        r@ == health_url_spec(port),
{
    let digits = u64_to_string(port as u64);
    concat3("http://localhost:", digits.as_str(), "/_doubleagent/health")
}

/// Tells whether an HTTP status is a success.
pub fn status_is_success(code: u16) -> (r: bool)
    ensures
        r == is_success_status(code),
{
    200 <= code && code <= 299
}

/// Tells whether the health endpoint answered with a success.
pub fn is_healthy(outcome: ProbeOutcome) -> (r: bool)
    ensures
        r == probe_healthy(outcome),
{
    match outcome {
        ProbeOutcome::Status(code) => status_is_success(code),
        ProbeOutcome::NoAnswer => false,
    }
}

/// Decides which signal ends a process next: first the graceful one; the
/// forceful one only where the graceful one could not be delivered; then
/// nothing more.
pub fn kill_process(progress: KillProgress) -> (r: Option<Signal>)
    ensures
        r == match progress {
            KillProgress::NotStarted => Some(Signal::Terminate),
            KillProgress::TerminateSent { delivered } => if delivered {
                None
            } else {
                Some(Signal::Kill)
            },
            KillProgress::KillSent => None,
        },
{
    match progress {
        KillProgress::NotStarted => Some(Signal::Terminate),
        KillProgress::TerminateSent { delivered } => {
            if delivered {
                None
            } else {
                Some(Signal::Kill)
            }
        },
        KillProgress::KillSent => None,
    }
}

/// The running services: a map from each name to its record. The records
/// are kept in a list in which no name stands twice.
pub struct ProcessManager {
    services: Vec<ServiceRecord>,
}

impl View for ProcessManager {
    type V = Map<Seq<char>, ServiceInfo>;

    /// The record of each service that has one, by the service's name.
    closed spec fn view(&self) -> Map<Seq<char>, ServiceInfo> {
        records_map(self.services@)
    }
}

impl ProcessManager {
    /// No service has two records.
    #[verifier::type_invariant]
    spec fn names_are_unique(self) -> bool {
        unique_names(self.services@)
    }

    /// A supervisor that tracks nothing.
    pub fn new() -> (r: Self)
        ensures
            r@ == Map::<Seq<char>, ServiceInfo>::empty(),
    {
        ProcessManager { services: Vec::new() }
    }

    /// Takes up the persisted state and drops every record whose process is
    /// no longer alive. Of two records of one name the later one counts.
    pub fn load(records: Vec<ServiceRecord>, table: &ProcessTable) -> (r: Self)
        ensures
            r@ == swept(records@, table.live@),
            forall|n: Seq<char>| #[trigger] r@.dom().contains(n) ==> table.alive(r@[n].pid),
    {
        let ghost all = records@;
        let mut kept: Vec<ServiceRecord> = Vec::new();
        assert(all.subrange(0, 0) =~= Seq::<ServiceRecord>::empty());
        for record in it: records
            invariant
                it.seq() == all,
                unique_names(kept@),
                records_map(kept@) == swept(all.subrange(0, it.index()), table.live@),
        {
            let ghost before = all.subrange(0, it.index());
            let ghost after = all.subrange(0, it.index() + 1);
            assert(after.drop_last() =~= before);
            assert(after.last() == record);
            if table.is_alive(record.info.pid) {
                put(&mut kept, record);
            }
        }
        proof {
            assert(all.subrange(0, all.len() as int) =~= all);
            lemma_swept_alive(all, table.live@);
        }
        ProcessManager { services: kept }
    }

    /// The whole state, as it is written to the state file.
    pub fn save(&self) -> (r: Vec<ServiceRecord>)
        ensures
            unique_names(r@),
            records_map(r@) == self@,
    {
        proof {
            use_type_invariant(self);
        }
        let mut out: Vec<ServiceRecord> = Vec::new();
        let mut i: usize = 0;
        while i < self.services.len()
            invariant
                i <= self.services.len(),
                out@ == self.services@.subrange(0, i as int),
            decreases self.services.len() - i,
        {
            let record = &self.services[i];
            out.push(ServiceRecord { name: record.name.clone(), info: clone_info(&record.info) });
            assert(out@ =~= self.services@.subrange(0, i + 1));
            i += 1;
        }
        assert(self.services@.subrange(0, i as int) =~= self.services@);
        out
    }

    /// Tells whether a service is running: it has a record, and the process
    /// of that record is alive.
    pub fn is_running(&self, name: &str, table: &ProcessTable) -> (r: bool)
        ensures
            r == (self@.dom().contains(name@) && table.alive(self@[name@].pid)),
    {
        proof {
            use_type_invariant(self);
            lemma_records_map_dom(self.services@, name@);
        }
        match find(&self.services, name) {
            Some(i) => {
                proof {
                    lemma_records_map_lookup(self.services@, i as int);
                }
                table.is_alive(self.services[i].info.pid)
            },
            None => false,
        }
    }

    /// The names of the services that have a record, each once.
    pub fn running_services(&self) -> (r: Vec<String>)
        ensures
            views(r@).no_duplicates(),
            views(r@).to_set() == self@.dom(),
    {
        proof {
            use_type_invariant(self);
        }
        let mut out: Vec<String> = Vec::new();
        let mut i: usize = 0;
        while i < self.services.len()
            invariant
                i <= self.services.len(),
                out@.len() == i,
                forall|j: int| 0 <= j < i ==> (#[trigger] out@[j])@ == self.services@[j].name@,
            decreases self.services.len() - i,
        {
            out.push(self.services[i].name.clone());
            i += 1;
        }
        proof {
            let names = views(out@);
            assert forall|a: int, b: int| 0 <= a < names.len() && 0 <= b < names.len() && a
                != b implies names[a] != names[b] by {
                assert(names[a] == out@[a]@);
                assert(names[b] == out@[b]@);
                if a < b {
                    assert(self.services@[a].name@ != self.services@[b].name@);
                } else {
                    assert(self.services@[b].name@ != self.services@[a].name@);
                }
            }
            assert forall|n: Seq<char>| names.to_set().contains(n) <==> self@.dom().contains(
                n,
            ) by {
                lemma_records_map_dom(self.services@, n);
                if names.contains(n) {
                    let k = choose|k: int| 0 <= k < names.len() && names[k] == n;
                    assert(out@[k]@ == self.services@[k].name@);
                    assert(self.services@[k].name@ == n);
                }
                if self@.dom().contains(n) {
                    let k = choose|k: int|
                        0 <= k < self.services@.len() && (#[trigger] self.services@[k]).name@ == n;
                    assert(out@[k]@ == n);
                    assert(names[k] == n);
                }
            }
            assert(names.to_set() =~= self@.dom());
        }
        out
    }

    /// The record of a service, if it has one.
    pub fn get_info(&self, name: &str) -> (r: Option<ServiceInfo>)
        ensures
            self@.dom().contains(name@) ==> r == Some(self@[name@]),
            !self@.dom().contains(name@) ==> r is None,
    {
        proof {
            use_type_invariant(self);
            lemma_records_map_dom(self.services@, name@);
        }
        match find(&self.services, name) {
            Some(i) => {
                proof {
                    lemma_records_map_lookup(self.services@, i as int);
                }
                Some(clone_info(&self.services[i].info))
            },
            None => None,
        }
    }

    /// Plans the launch of a service on a port: its command, through the
    /// toolchain wrapper where the service brings a toolchain descriptor, run
    /// in the service's `server` directory with `PORT` and the manifest's
    /// variables set.
    pub fn launch_plan(
        service: &ServiceDefinition,
        port: u16,
        has_descriptor: bool,
        mise_installed: bool,
    ) -> (r: Result<LaunchPlan, Error>)
        ensures
            r matches Ok(plan) ==> build_command_post(
                service.server.command@,
                has_descriptor,
                mise_installed,
                Ok(plan.command),
            ) && plan.current_dir@ == join_spec(service.path@, "server"@) && launch_env(
                plan.env@,
                *service,
                port,
            ) && plan.discard_output,
            r matches Err(e) ==> build_command_post(
                service.server.command@,
                has_descriptor,
                mise_installed,
                Err(e),
            ),
    {
        match build_command(&service.server.command, has_descriptor, mise_installed) {
            Err(e) => Err(e),
            Ok(command) => {
                let mut env: Vec<(String, String)> = Vec::new();
                env.push((String::from_str("PORT"), u64_to_string(port as u64)));
                let extra = &service.server.env;
                let mut i: usize = 0;
                while i < extra.len()
                    invariant
                        i <= extra.len(),
                        extra@ == service.server.env@,
                        env@.len() == i + 1,
                        env@[0].0@ == "PORT"@,
                        env@[0].1@ == decimal(port as nat),
                        env@.subrange(1, env@.len() as int) == extra@.subrange(0, i as int),
                    decreases extra.len() - i,
                {
                    env.push((extra[i].0.clone(), extra[i].1.clone()));
                    assert(env@.subrange(1, env@.len() as int) =~= extra@.subrange(0, i + 1));
                    i += 1;
                }
                assert(extra@.subrange(0, i as int) =~= extra@);
                Ok(
                    LaunchPlan {
                        command,
                        current_dir: join(service.path.as_str(), "server"),
                        env,
                        discard_output: true,
                    },
                )
            },
        }
    }

    /// Records what the launch of a service gave. A process that was started
    /// gets a record under the service's name, in place of any earlier one,
    /// and its id is handed back. A launch that failed is an I/O error and
    /// leaves no record.
    pub fn start(
        &mut self,
        service: &ServiceDefinition,
        port: u16,
        spawned: Result<u32, String>,
        now_secs: u64,
    ) -> (r: Result<u32, Error>)
        ensures
            spawned matches Err(cause) ==> r == Err::<u32, Error>(Error::IoError(cause))
                && final(self)@ == old(self)@,
            spawned matches Ok(pid) ==> r == Ok::<u32, Error>(pid)
                && final(self)@.dom().contains(service.name@)
                && started_as(final(self)@[service.name@], *service, port, pid, now_secs)
                && final(self)@ == old(self)@.insert(
                service.name@,
                final(self)@[service.name@],
            ),
    {
        match spawned {
            Err(cause) => Err(Error::IoError(cause)),
            Ok(pid) => {
                proof {
                    use_type_invariant(&*self);
                }
                let record = ServiceRecord {
                    name: service.name.clone(),
                    info: ServiceInfo {
                        pid,
                        port,
                        started_at: u64_to_string(now_secs),
                        service_path: service.path.clone(),
                    },
                };
                let mut services: Vec<ServiceRecord> = Vec::new();
                std::mem::swap(&mut services, &mut self.services);
                put(&mut services, record);
                self.services = services;
                Ok(pid)
            },
        }
    }

    /// Forgets a service and hands back the process to end, if the service
    /// had a record. The record goes whatever becomes of the process.
    pub fn stop(&mut self, name: &str) -> (r: Option<u32>)
        ensures
            final(self)@ == old(self)@.remove(name@),
            old(self)@.dom().contains(name@) ==> r == Some(old(self)@[name@].pid),
            !old(self)@.dom().contains(name@) ==> r is None,
    {
        proof {
            use_type_invariant(&*self);
        }
        let mut services: Vec<ServiceRecord> = Vec::new();
        std::mem::swap(&mut services, &mut self.services);
        let gone = take(&mut services, name);
        self.services = services;
        match gone {
            Some(info) => Some(info.pid),
            None => None,
        }
    }

    /// Decides the next step of the wait for a service to become healthy.
    ///
    /// A round begins with a request to the health endpoint, unless more than
    /// `timeout_secs` have passed: then the wait has timed out. A success
    /// ends the wait. After anything else the process is looked at: if the
    /// service has a record and its process is gone, the wait fails at once
    /// because the process died, whatever time is left; otherwise the next
    /// round begins after half a second.
    pub fn wait_for_health(
        &self,
        name: &str,
        port: u16,
        timeout_secs: u64,
        event: HealthEvent,
        table: &ProcessTable,
    ) -> (r: HealthStep)
        ensures
            event matches HealthEvent::RoundStarts { elapsed_nanos } ==> (if timed_out(
                timeout_secs,
                elapsed_nanos,
            ) {
                r == HealthStep::Failed(Error::HealthCheckTimeout(timeout_secs))
            } else {
                r matches HealthStep::Probe { url, timeout_secs: 2 } && url@ == health_url_spec(
                    port,
                )
            }),
            event matches HealthEvent::Probed { outcome } ==> (if probe_healthy(outcome) {
                r is Healthy
            } else if process_gone(self@, name@, table.live@) {
                r == HealthStep::Failed(Error::ServiceProcessDied)
            } else {
                r == (HealthStep::Wait { millis: 500 })
            }),
    {
        match event {
            HealthEvent::RoundStarts { elapsed_nanos } => {
                let limit: u128 = (timeout_secs as u128) * 1_000_000_000;
                if elapsed_nanos > limit {
                    HealthStep::Failed(Error::HealthCheckTimeout(timeout_secs))
                } else {
                    HealthStep::Probe { url: health_url(port), timeout_secs: 2 }
                }
            },
            HealthEvent::Probed { outcome } => {
                if is_healthy(outcome) {
                    HealthStep::Healthy
                } else {
                    match self.get_info(name) {
                        Some(info) => {
                            if table.is_alive(info.pid) {
                                HealthStep::Wait { millis: 500 }
                            } else {
                                HealthStep::Failed(Error::ServiceProcessDied)
                            }
                        },
                        None => HealthStep::Wait { millis: 500 },
                    }
                }
            },
        }
    }

    /// Follows a wait for health over rounds that are already known: how it
    /// ends, or that it still goes on after the last of them. A round is the
    /// time that has passed when it begins, what its request gave, and the
    /// processes that live after the request.
    pub fn wait_result(
        &self,
        name: &str,
        port: u16,
        timeout_secs: u64,
        rounds: &Vec<(u128, ProbeOutcome, ProcessTable)>,
    ) -> (r: Option<Result<(), Error>>)
        ensures
            r == wait_end(
                self@,
                name@,
                timeout_secs,
                rounds@.map_values(|x: (u128, ProbeOutcome, ProcessTable)| (x.0, x.1, x.2.live@)),
            ),
    {
        let ghost all = rounds@.map_values(
            |x: (u128, ProbeOutcome, ProcessTable)| (x.0, x.1, x.2.live@),
        );
        let mut i: usize = 0;
        assert(all.subrange(0, all.len() as int) =~= all);
        while i < rounds.len()
            invariant
                i <= rounds.len(),
                all == rounds@.map_values(
                    |x: (u128, ProbeOutcome, ProcessTable)| (x.0, x.1, x.2.live@),
                ),
                wait_end(self@, name@, timeout_secs, all) == wait_end(
                    self@,
                    name@,
                    timeout_secs,
                    all.subrange(i as int, all.len() as int),
                ),
            decreases rounds.len() - i,
        {
            let ghost here = all.subrange(i as int, all.len() as int);
            assert(here.drop_first() =~= all.subrange(i + 1, all.len() as int));
            assert(here[0] == all[i as int]);
            let round = &rounds[i];
            let begin = HealthEvent::RoundStarts { elapsed_nanos: round.0 };
            match self.wait_for_health(name, port, timeout_secs, begin, &round.2) {
                HealthStep::Failed(e) => {
                    return Some(Err(e));
                },
                _ => {},
            }
            let probed = HealthEvent::Probed { outcome: round.1 };
            match self.wait_for_health(name, port, timeout_secs, probed, &round.2) {
                HealthStep::Healthy => {
                    return Some(Ok(()));
                },
                HealthStep::Failed(e) => {
                    return Some(Err(e));
                },
                _ => {},
            }
            i += 1;
        }
        None
    }

    /// The URL to request for a single health check of a service; none for a
    /// service without a record.
    pub fn health_check_url(&self, name: &str) -> (r: Option<String>)
        ensures
            self@.dom().contains(name@) ==> (r matches Some(url) && url@ == health_url_spec(
                self@[name@].port,
            )),
            !self@.dom().contains(name@) ==> r is None,
    {
        match self.get_info(name) {
            Some(info) => Some(health_url(info.port)),
            None => None,
        }
    }

    /// Judges a single health check: a service is healthy if it has a record
    /// and its endpoint answered with a success. No answer is no failure of
    /// the check, only an unhealthy service.
    pub fn check_health(&self, name: &str, outcome: ProbeOutcome) -> (r: bool)
        ensures
            r == (self@.dom().contains(name@) && probe_healthy(outcome)),
    {
        match self.get_info(name) {
            Some(_) => is_healthy(outcome),
            None => false,
        }
    }
}

/// A wait for health reports a process that died, and no timeout, when the
/// process is gone before the endpoint has ever answered with a success:
/// if up to some round every request fails within the allowed time, and that
/// round is the first after which the process of the service's record is
/// gone, the wait ends there because the process died.
pub proof fn law_dead_process_is_reported(
    services: Map<Seq<char>, ServiceInfo>,
    name: Seq<char>,
    timeout_secs: u64,
    rounds: Seq<(u128, ProbeOutcome, Seq<u32>)>,
    k: int,
)
    requires
        services.dom().contains(name),
        0 <= k < rounds.len(),
        forall|i: int|
            0 <= i <= k ==> !timed_out(timeout_secs, (#[trigger] rounds[i]).0) && !probe_healthy(
                rounds[i].1,
            ),
        forall|i: int| 0 <= i < k ==> (#[trigger] rounds[i]).2.contains(services[name].pid),
        !rounds[k].2.contains(services[name].pid),
    ensures
        wait_end(services, name, timeout_secs, rounds) == Some(
            Err::<(), Error>(Error::ServiceProcessDied),
        ),
    decreases k,
{
    assert(!timed_out(timeout_secs, rounds[0].0) && !probe_healthy(rounds[0].1));
    if k > 0 {
        let rest = rounds.drop_first();
        assert(rounds[0].2.contains(services[name].pid));
        assert forall|i: int| 0 <= i <= k - 1 implies !timed_out(
            timeout_secs,
            (#[trigger] rest[i]).0,
        ) && !probe_healthy(rest[i].1) by {
            assert(rest[i] == rounds[i + 1]);
        }
        assert forall|i: int| 0 <= i < k - 1 implies (#[trigger] rest[i]).2.contains(
            services[name].pid,
        ) by {
            assert(rest[i] == rounds[i + 1]);
        }
        assert(rest[k - 1] == rounds[k]);
        law_dead_process_is_reported(services, name, timeout_secs, rest, k - 1);
    }
}

/// Loading is idempotent: the state that a load kept, written out and loaded
/// again while the same processes live, comes back whole. (Two loads of the
/// same records against the same table agree in any case: the state that
/// `load` returns is fixed by its arguments.)
pub proof fn law_load_idempotent(
    records: Seq<ServiceRecord>,
    live: Seq<u32>,
    saved: Seq<ServiceRecord>,
)
    requires
        unique_names(saved),
        records_map(saved) == swept(records, live),
    ensures
        swept(saved, live) == swept(records, live),
{
    lemma_swept_alive(records, live);
    assert forall|i: int| 0 <= i < saved.len() implies live.contains(
        (#[trigger] saved[i]).info.pid,
    ) by {
        lemma_records_map_lookup(saved, i);
        assert(swept(records, live).dom().contains(saved[i].name@));
    }
    lemma_swept_all_alive(saved, live);
}

/// After a load no record is left whose process is not alive.
pub proof fn law_load_keeps_only_live(records: Seq<ServiceRecord>, live: Seq<u32>)
    ensures
        forall|n: Seq<char>| #[trigger]
            swept(records, live).dom().contains(n) ==> live.contains(swept(records, live)[n].pid),
{
    lemma_swept_alive(records, live);
}

/// A start followed at once by a stop leaves the service without a record,
/// so it does not count as running; and no load of the state saved after it
/// brings the record back, whatever lives.
pub proof fn law_start_then_stop(
    before: Map<Seq<char>, ServiceInfo>,
    name: Seq<char>,
    info: ServiceInfo,
    saved: Seq<ServiceRecord>,
    live: Seq<u32>,
)
    requires
        records_map(saved) == before.insert(name, info).remove(name),
    ensures
        !before.insert(name, info).remove(name).dom().contains(name),
        !swept(saved, live).dom().contains(name),
{
    lemma_swept_within(saved, live);
}

} // verus!
