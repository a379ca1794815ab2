//! Service definitions and the catalog of installed services.

use crate::error::Error;
use crate::git::{
    fetch_planned, lists_remote, sorted_out, update_planned, BulkUpdate, DirEntry, FetchPlan,
    ServiceFetcher, SourceProbe, UpdateAttempt,
};
use crate::paths::{join, join_spec};
use crate::text::{
    concat3, is_hidden, insertion_point, lemma_empty_to_multiset, lemma_insert_keeps_sorted,
    sorted, starts_with_dot, str_eq, str_le, str_le_exec, views,
};
use vstd::prelude::*;
use vstd::seq_lib::{to_multiset_build, to_multiset_insert};
use vstd::string::*;

verus! {

/// How a service is launched.
#[derive(Debug, Clone, PartialEq, Eq)]
pub struct ServerConfig {
    /// The command and its arguments.
    pub command: Vec<String>,
    /// The port that the service listens on unless another is given.
    pub port: u16,
    /// Extra environment variables, each name with its value.
    pub env: Vec<(String, String)>,
}

/// How the contract tests of a service are run.
#[derive(Debug, Clone, PartialEq, Eq)]
pub struct ContractsConfig {
    /// The command and its arguments.
    pub command: Vec<String>,
    /// The directory of the tests, relative to the service.
    pub directory: String,
}

/// A service as its manifest describes it.
#[derive(Debug, Clone, PartialEq, Eq)]
pub struct ServiceDefinition {
    pub name: String,
    pub version: Option<String>,
    pub description: Option<String>,
    pub docs: Option<String>,
    pub server: ServerConfig,
    pub contracts: Option<ContractsConfig>,
    /// The directory that the definition was loaded from. It is no part of
    /// the manifest and is set anew on every load.
    pub path: String,
}

/// What the caller found when it read a manifest.
#[derive(Debug, Clone, PartialEq, Eq)]
pub enum ManifestRead {
    /// There is no manifest.
    Missing,
    /// The file could not be read; the text says why.
    Unreadable(String),
    /// The file is no valid manifest; the text says why.
    Invalid(String),
    /// The manifest, with any path.
    Parsed(ServiceDefinition),
}

/// One entry of the install directory, with its manifest where there is one
/// that could be read and understood.
#[derive(Debug, Clone, PartialEq, Eq)]
pub struct InstalledEntry {
    /// The entry's file name; `None` where it is not valid UTF-8.
    pub name: Option<String>,
    pub is_dir: bool,
    pub manifest: Option<ServiceDefinition>,
}

/// How a service that was asked for is to be had.
#[derive(PartialEq, Eq, Structural, Debug, Clone, Copy)]
pub enum Resolution {
    /// It is installed: read its manifest.
    Installed,
    /// It is not: fetch it from the catalog, then read its manifest.
    FetchFirst,
}

/// What happened last while a service is resolved.
#[derive(Debug, PartialEq, Eq)]
pub enum ResolveProgress {
    /// Nothing yet; the install directory was listed.
    Begin { entries: Vec<DirEntry>, auto_install: bool },
    /// The service was fetched from the catalog, or could not be.
    Fetched(Result<String, Error>),
    /// The manifest of the service was read.
    Read(ManifestRead),
}

/// What to do next while a service is resolved.
#[derive(Debug, PartialEq, Eq)]
pub enum ResolveAction {
    /// Install the service from the catalog.
    Fetch,
    /// Read the manifest at this path.
    ReadManifest { path: String },
    /// The service is resolved.
    Done(ServiceDefinition),
    /// The service cannot be had.
    GiveUp(Error),
}

/// The directory of the contract tests where the manifest names none.
pub fn default_contracts_dir() -> (r: String)
    ensures
        r@ == "contracts"@,
{
    String::from_str("contracts")
}

impl ServiceDefinition {
    /// A definition launches something, under a name, with each environment
    /// variable set once.
    pub open spec fn wf(&self) -> bool {
        &&& self.name@.len() > 0
        &&& self.server.command@.len() > 0
        &&& forall|i: int, j: int|
            0 <= i < j < self.server.env@.len() ==> self.server.env@[i].0@ != self.server.env@[j].0@
    }

    /// Checks that the definition is well formed.
    pub fn is_well_formed(&self) -> (r: bool)
        ensures
            r == self.wf(),
    {
        if self.name.as_str().unicode_len() == 0 || self.server.command.len() == 0 {
            return false;
        }
        let env = &self.server.env;
        let mut j: usize = 0;
        while j < env.len()
            invariant
                env@ == self.server.env@,
                j <= env.len(),
                forall|a: int, b: int| 0 <= a < b < j ==> env@[a].0@ != env@[b].0@,
            decreases env.len() - j,
        {
            let mut i: usize = 0;
            while i < j
                invariant
                    env@ == self.server.env@,
                    i <= j,
                    j < env.len(),
                    forall|a: int| 0 <= a < i ==> env@[a].0@ != env@[j as int].0@,
                decreases j - i,
            {
                if str_eq(env[i].0.as_str(), env[j].0.as_str()) {
                    assert(self.server.env@[i as int].0@ == self.server.env@[j as int].0@);
                    return false;
                }
                i += 1;
            }
            j += 1;
        }
        true
    }
}

/// `after` is `before` with nothing changed but the place it was loaded from.
pub open spec fn same_manifest(before: ServiceDefinition, after: ServiceDefinition) -> bool {
    &&& after.name == before.name
    &&& after.version == before.version
    &&& after.description == before.description
    &&& after.docs == before.docs
    &&& after.server == before.server
    &&& after.contracts == before.contracts
}

pub open spec fn not_installed_hint(name: Seq<char>) -> Seq<char> {
    "Service '"@ + name + "' not installed. Run 'doubleagent add "@ + name + "' to install it."@
}

pub open spec fn not_installed_long_hint(name: Seq<char>) -> Seq<char> {
    "Service '"@ + name + "' not installed. Run 'doubleagent add "@ + name
        + "' to install it, or 'doubleagent list --remote' to see available services."@
}

/// The install directory holds a manifest under this name.
pub open spec fn installed_in(entries: Seq<DirEntry>, name: Seq<char>) -> bool {
    exists|i: int|
        0 <= i < entries.len() && (#[trigger] entries[i]).name == Some(entries[i].name->0)
            && entries[i].name->0@ == name && entries[i].has_manifest
}

/// What turning a read manifest into a definition owes: a missing manifest
/// names the command that installs the service; a failure of reading or
/// parsing is passed on; a manifest that was read comes back as it is, with
/// the service's place in the install directory as its path.
pub open spec fn got(
    services_dir: Seq<char>,
    name: Seq<char>,
    read: ManifestRead,
    r: Result<ServiceDefinition, Error>,
) -> bool {
    match read {
        ManifestRead::Missing => r matches Err(Error::ServiceNotFound(m)) && m@
            == not_installed_long_hint(name),
        ManifestRead::Unreadable(cause) => r == Err::<ServiceDefinition, Error>(
            Error::IoError(cause),
        ),
        ManifestRead::Invalid(cause) => r == Err::<ServiceDefinition, Error>(
            Error::YamlError(cause),
        ),
        ManifestRead::Parsed(d) => r matches Ok(s) && same_manifest(d, s) && s.path@ == join_spec(
            services_dir,
            name,
        ),
    }
}

/// The step that follows what happened last in the resolution of a service.
/// An installed service is read at once. One that is missing is fetched
/// first where that is allowed, and cannot be had where it is not. After a
/// fetch the manifest is read; what was read decides.
pub open spec fn resolve_follows(
    services_dir: Seq<char>,
    name: Seq<char>,
    progress: ResolveProgress,
    action: ResolveAction,
) -> bool {
    match progress {
        ResolveProgress::Begin { entries, auto_install } => if installed_in(entries@, name) {
            reads_manifest(services_dir, name, action)
        } else if auto_install {
            action is Fetch
        } else {
            action matches ResolveAction::GiveUp(Error::ServiceNotFound(m)) && m@
                == not_installed_hint(name)
        },
        ResolveProgress::Fetched(Ok(_)) => reads_manifest(services_dir, name, action),
        ResolveProgress::Fetched(Err(e)) => action == ResolveAction::GiveUp(e),
        ResolveProgress::Read(read) => match action {
            ResolveAction::Done(d) => got(services_dir, name, read, Ok(d)),
            ResolveAction::GiveUp(e) => got(services_dir, name, read, Err(e)),
            _ => false,
        },
    }
}

/// The step reads the manifest of the service in the install directory.
pub open spec fn reads_manifest(
    services_dir: Seq<char>,
    name: Seq<char>,
    action: ResolveAction,
) -> bool {
    action matches ResolveAction::ReadManifest { path } && path@ == join_spec(
        join_spec(services_dir, name),
        "service.yaml"@,
    )
}

/// An entry that a listing of the catalog shows: a directory with a readable
/// name that is not hidden and a manifest that was understood.
pub open spec fn is_listed(e: InstalledEntry) -> bool {
    &&& e.name is Some
    &&& !is_hidden(e.name->0@)
    &&& e.is_dir
    &&& e.manifest is Some
}

/// `found` holds the definitions of the listed entries, in the order of the
/// entries, each with the place of its entry below `dir` as its path.
pub open spec fn located(entries: Seq<InstalledEntry>, dir: Seq<char>, found: Seq<
    ServiceDefinition,
>) -> bool
    decreases entries.len(),
{
    if entries.len() == 0 {
        found.len() == 0
    } else if is_listed(entries.last()) {
        &&& found.len() > 0
        &&& same_manifest(entries.last().manifest->0, found.last())
        &&& found.last().path@ == join_spec(dir, entries.last().name->0@)
        &&& located(entries.drop_last(), dir, found.drop_last())
    } else {
        located(entries.drop_last(), dir, found)
    }
}

/// The names of the definitions of a list.
pub open spec fn names_of(defs: Seq<ServiceDefinition>) -> Seq<Seq<char>> {
    defs.map_values(|d: ServiceDefinition| d.name@)
}

/// A sorted list with one more definition: it goes before the first one
/// whose name comes no earlier than its own.
pub open spec fn insert_by_name(sorted: Seq<ServiceDefinition>, x: ServiceDefinition) -> Seq<
    ServiceDefinition,
>
    decreases sorted.len(),
{
    if sorted.len() == 0 {
        seq![x]
    } else if str_le(x.name@, sorted[0].name@) {
        seq![x] + sorted
    } else {
        seq![sorted[0]] + insert_by_name(sorted.drop_first(), x)
    }
}

/// The definitions in the order of their names; those of one name in the
/// order they had.
pub open spec fn sorted_by_name(items: Seq<ServiceDefinition>) -> Seq<ServiceDefinition>
    decreases items.len(),
{
    if items.len() == 0 {
        Seq::empty()
    } else {
        insert_by_name(sorted_by_name(items.drop_first()), items[0])
    }
}

/// Putting a definition in at its insertion point is `insert_by_name`.
pub proof fn lemma_insert_by_name_at(
    sorted: Seq<ServiceDefinition>,
    x: ServiceDefinition,
    p: int,
)
    requires
        0 <= p <= sorted.len(),
        forall|i: int| 0 <= i < p ==> !str_le(x.name@, (#[trigger] sorted[i]).name@),
        p < sorted.len() ==> str_le(x.name@, sorted[p].name@),
    ensures
        insert_by_name(sorted, x) == sorted.insert(p, x),
    decreases p,
{
    if sorted.len() == 0 {
        assert(sorted.insert(p, x) =~= seq![x]);
    } else if p == 0 {
        assert(sorted.insert(p, x) =~= seq![x] + sorted);
    } else {
        let rest = sorted.drop_first();
        assert(!str_le(x.name@, sorted[0].name@));
        assert forall|i: int| 0 <= i < p - 1 implies !str_le(
            x.name@,
            (#[trigger] rest[i]).name@,
        ) by {
            assert(rest[i] == sorted[i + 1]);
        }
        if p - 1 < rest.len() {
            assert(rest[p - 1] == sorted[p]);
        }
        lemma_insert_by_name_at(rest, x, p - 1);
        assert(sorted.insert(p, x) =~= seq![sorted[0]] + rest.insert(p - 1, x));
    }
}

/// Sorts definitions by name, in the order of the bytes of the names;
/// definitions of one name keep their order.
pub fn sort_by_name(items: Vec<ServiceDefinition>) -> (r: Vec<ServiceDefinition>)
    ensures
        r@ == sorted_by_name(items@),
        sorted(names_of(r@)),
        r@.to_multiset() == items@.to_multiset(),
{
    let ghost orig = items@;
    let mut rest = items;
    let mut out: Vec<ServiceDefinition> = Vec::new();
    proof {
        broadcast use vstd::multiset::group_multiset_axioms;

        assert(names_of(out@) =~= Seq::<Seq<char>>::empty());
        lemma_empty_to_multiset(out@);
        assert(out@.to_multiset().add(rest@.to_multiset()) =~= orig.to_multiset());
        assert(rest@ =~= orig.subrange(0, rest@.len() as int));
        assert(orig.subrange(orig.len() as int, orig.len() as int) =~= Seq::<
            ServiceDefinition,
        >::empty());
    }
    while rest.len() > 0
        invariant
            rest@.len() <= orig.len(),
            rest@ == orig.subrange(0, rest@.len() as int),
            out@ == sorted_by_name(orig.subrange(rest@.len() as int, orig.len() as int)),
            sorted(names_of(out@)),
            out@.to_multiset().add(rest@.to_multiset()) == orig.to_multiset(),
        decreases rest.len(),
    {
        let ghost rest_before = rest@;
        let ghost out_before = out@;
        let x = rest.pop().unwrap();
        let mut p: usize = 0;
        while p < out.len() && !str_le_exec(x.name.as_str(), out[p].name.as_str())
            invariant
                p <= out.len(),
                forall|i: int| 0 <= i < p ==> !str_le(x.name@, (#[trigger] out@[i]).name@),
            decreases out.len() - p,
        {
            p += 1;
        }
        proof {
            assert(rest_before =~= rest@.push(x));
            to_multiset_build(rest@, x);
            to_multiset_insert(out_before, p as int, x);
            assert forall|i: int| 0 <= i < p implies !str_le(
                x.name@,
                #[trigger] names_of(out_before)[i],
            ) by {
                assert(names_of(out_before)[i] == out_before[i].name@);
            }
            assert(insertion_point(names_of(out_before), x.name@, p as int));
            lemma_insert_keeps_sorted(names_of(out_before), x.name@, p as int);
            lemma_insert_by_name_at(out_before, x, p as int);
            let k = rest_before.len() as int;
            let tail = orig.subrange(k - 1, orig.len() as int);
            assert(x == orig[k - 1]);
            assert(tail.drop_first() =~= orig.subrange(k, orig.len() as int));
            assert(tail[0] == x);
            assert(rest@ =~= orig.subrange(0, k - 1));
        }
        out.insert(p, x);
        proof {
            broadcast use vstd::multiset::group_multiset_axioms;

            assert(names_of(out@) =~= names_of(out_before).insert(p as int, x.name@));
            assert(out@.to_multiset().add(rest@.to_multiset()) =~= out_before.to_multiset().add(
                rest_before.to_multiset(),
            ));
        }
    }
    proof {
        broadcast use vstd::multiset::group_multiset_axioms;

        lemma_empty_to_multiset(rest@);
        assert(out@.to_multiset() =~= orig.to_multiset());
        assert(orig.subrange(0, orig.len() as int) =~= orig);
    }
    out
}

/// The catalog of installed services, with the fetcher that fills it.
#[derive(Debug, Clone, PartialEq, Eq)]
pub struct ServiceRegistry {
    /// The install directory.
    pub services_dir: String,
    pub fetcher: ServiceFetcher,
}

impl ServiceRegistry {
    /// A catalog over an install directory, filled from one branch of one
    /// remote catalog. The fetcher installs into the same directory.
    pub fn new(services_dir: &str, repo_url: &str, branch: &str) -> (r: Result<Self, Error>)
        ensures
            r matches Ok(reg) && reg.services_dir@ == services_dir@ && reg.fetcher.repo_url@
                == repo_url@ && reg.fetcher.cache_dir@ == services_dir@ && reg.fetcher.branch@
                == branch@,
    {
        let fetcher = ServiceFetcher::new(
            String::from_str(repo_url),
            String::from_str(services_dir),
            String::from_str(branch),
        );
        Ok(ServiceRegistry { services_dir: String::from_str(services_dir), fetcher })
    }

    /// The place of a service's manifest in the install directory.
    pub fn manifest_path(&self, name: &str) -> (r: String)
        ensures
            r@ == join_spec(join_spec(self.services_dir@, name@), "service.yaml"@),
    {
        let dir = join(self.services_dir.as_str(), name);
        join(dir.as_str(), "service.yaml")
    }

    /// Tells whether a service is installed: the listing of the install
    /// directory has an entry of that name with a manifest.
    pub fn is_installed(&self, name: &str, entries: &Vec<DirEntry>) -> (r: bool)
        ensures
            r == installed_in(entries@, name@),
    {
        let mut i: usize = 0;
        while i < entries.len()
            invariant
                i <= entries.len(),
                forall|j: int|
                    0 <= j < i ==> !((#[trigger] entries@[j]).name == Some(entries@[j].name->0)
                        && entries@[j].name->0@ == name@ && entries@[j].has_manifest),
            decreases entries.len() - i,
        {
            let e = &entries[i];
            match &e.name {
                Some(n) => {
                    if e.has_manifest && str_eq(n.as_str(), name) {
                        return true;
                    }
                },
                None => {},
            }
            i += 1;
        }
        false
    }

    /// Decides how a service is resolved. An installed one is read from the
    /// install directory. One that is missing is fetched first where the caller
    /// allows it, and is not found where it does not.
    pub fn get_or_install(&self, name: &str, auto_install: bool, entries: &Vec<DirEntry>) -> (r:
        Result<Resolution, Error>)
        ensures
            installed_in(entries@, name@) ==> r == Ok::<Resolution, Error>(Resolution::Installed),
            !installed_in(entries@, name@) && auto_install ==> r == Ok::<Resolution, Error>(
                Resolution::FetchFirst,
            ),
            !installed_in(entries@, name@) && !auto_install ==> (r matches Err(
                Error::ServiceNotFound(m),
            ) && m@ == not_installed_hint(name@)),
    {
        if self.is_installed(name, entries) {
            Ok(Resolution::Installed)
        } else if auto_install {
            Ok(Resolution::FetchFirst)
        } else {
            let mut m = concat3("Service '", name, "' not installed. Run 'doubleagent add ");
            m.append(name);
            m.append("' to install it.");
            Err(Error::ServiceNotFound(m))
        }
    }

    /// Turns what was read at a service's manifest into its definition. The
    /// manifest comes back as it was read, the launch command among the rest,
    /// with the service's place in the install directory as its path. A
    /// missing manifest names the command that installs the service.
    pub fn get(&self, name: &str, read: ManifestRead) -> (r: Result<ServiceDefinition, Error>)
        ensures
            got(self.services_dir@, name@, read, r),
    {
        match read {
            ManifestRead::Missing => {
                let mut m = concat3("Service '", name, "' not installed. Run 'doubleagent add ");
                m.append(name);
                m.append(
                    "' to install it, or 'doubleagent list --remote' to see available services.",
                );
                Err(Error::ServiceNotFound(m))
            },
            ManifestRead::Unreadable(cause) => Err(Error::IoError(cause)),
            ManifestRead::Invalid(cause) => Err(Error::YamlError(cause)),
            ManifestRead::Parsed(d) => {
                let mut s = d;
                s.path = join(self.services_dir.as_str(), name);
                Ok(s)
            },
        }
    }

    /// Decides the next step of the resolution of a service from what
    /// happened last: an installed service is read from the install directory
    /// at once; a missing one is fetched first where the caller allows it and
    /// cannot be had where it does not; after a fetch the manifest is read.
    pub fn resolve_next(&self, name: &str, progress: ResolveProgress) -> (r: ResolveAction)
        ensures
            resolve_follows(self.services_dir@, name@, progress, r),
    {
        match progress {
            ResolveProgress::Begin { entries, auto_install } => {
                match self.get_or_install(name, auto_install, &entries) {
                    Ok(Resolution::Installed) => ResolveAction::ReadManifest {
                        path: self.manifest_path(name),
                    },
                    Ok(Resolution::FetchFirst) => ResolveAction::Fetch,
                    Err(e) => ResolveAction::GiveUp(e),
                }
            },
            ResolveProgress::Fetched(Ok(_)) => ResolveAction::ReadManifest {
                path: self.manifest_path(name),
            },
            ResolveProgress::Fetched(Err(e)) => ResolveAction::GiveUp(e),
            ResolveProgress::Read(read) => match self.get(name, read) {
                Ok(d) => ResolveAction::Done(d),
                Err(e) => ResolveAction::GiveUp(e),
            },
        }
    }

    /// The definitions of the listed entries, in the order of the listing.
    pub fn locate(&self, entries: Vec<InstalledEntry>) -> (r: Vec<ServiceDefinition>)
        ensures
            located(entries@, self.services_dir@, r@),
    {
        let ghost all = entries@;
        let mut out: Vec<ServiceDefinition> = Vec::new();
        assert(all.subrange(0, 0) =~= Seq::<InstalledEntry>::empty());
        for entry in it: entries
            invariant
                it.seq() == all,
                located(all.subrange(0, it.index()), self.services_dir@, out@),
        {
            let ghost before = all.subrange(0, it.index());
            let ghost after = all.subrange(0, it.index() + 1);
            let ghost shown = out@;
            assert(after.drop_last() =~= before);
            assert(after.last() == entry);
            let InstalledEntry { name, is_dir, manifest } = entry;
            match (name, manifest) {
                (Some(n), Some(d)) => {
                    if !starts_with_dot(n.as_str()) && is_dir {
                        let mut s = d;
                        s.path = join(self.services_dir.as_str(), n.as_str());
                        out.push(s);
                        assert(out@.drop_last() =~= shown);
                    }
                },
                _ => {},
            }
        }
        assert(all.subrange(0, all.len() as int) =~= all);
        out
    }

    /// Lists the installed services: the definition of every listed entry,
    /// sorted by name, those of one name in the order of the listing. Hidden
    /// entries, files and entries whose manifest is missing or was not
    /// understood are left out.
    pub fn list(&self, entries: Vec<InstalledEntry>) -> (r: Result<Vec<ServiceDefinition>, Error>)
        ensures
            r matches Ok(defs) && sorted(names_of(defs@)) && exists|found: Seq<ServiceDefinition>|
                #[trigger] located(entries@, self.services_dir@, found) && defs@
                    == sorted_by_name(found),
    {
        let found = self.locate(entries);
        Ok(sort_by_name(found))
    }

    /// The services that the catalog offers; see
    /// `ServiceFetcher::list_remote_services`.
    pub fn list_remote(&self, entries: &Vec<DirEntry>) -> (r: Result<Vec<String>, Error>)
        ensures
            r matches Ok(names) && lists_remote(entries@, names@),
    {
        Ok(self.fetcher.list_remote_services(entries))
    }

    /// Plans the installation of a service; see `ServiceFetcher::fetch_service`.
    pub fn add(&self, name: &str, source: SourceProbe, dest_exists: bool) -> (r: Result<
        FetchPlan,
        Error,
    >)
        ensures
            fetch_planned(self.fetcher.cache_dir@, name@, source, dest_exists, r),
    {
        self.fetcher.fetch_service(name, source, dest_exists)
    }

    /// Plans the refresh of a service; see `ServiceFetcher::update_service`.
    pub fn update(&self, name: &str, installed: bool, source: SourceProbe) -> (r: Result<
        FetchPlan,
        Error,
    >)
        ensures
            update_planned(self.fetcher.cache_dir@, name@, installed, source, r),
    {
        self.fetcher.update_service(name, installed, source)
    }

    /// Sorts the attempts of a bulk update; see
    /// `ServiceFetcher::update_all_services`.
    pub fn update_all(&self, attempts: Vec<UpdateAttempt>) -> (r: Result<BulkUpdate, Error>)
        ensures
            r matches Ok(outcome) && sorted_out(attempts@, outcome),
    {
        Ok(self.fetcher.update_all_services(attempts))
    }
}

/// Resolving a service leaves the launch command of its manifest as it was
/// read: the same words in the same order, so that writing the command out
/// again gives back what the manifest held.
pub proof fn law_get_keeps_command(read: ServiceDefinition, got: ServiceDefinition)
    requires
        same_manifest(read, got),
    ensures
        got.server.command@ == read.server.command@,
        views(got.server.command@) == views(read.server.command@),
        got.server.port == read.server.port,
        got.server.env@ == read.server.env@,
{
}

} // verus!
