//! The distribution cache: a local mirror of one branch of the remote
//! catalog, and an install directory with one copied subtree per service.
//!
//! The functions here decide; the caller looks at the disk, runs the
//! version-control tool and copies files.

use crate::error::Error;
use crate::paths::{join, join_spec};
use crate::text::{
    concat2, concat3, is_hidden, sort_strings, sorted, starts_with_dot, str_eq, views,
};
use vstd::prelude::*;
use vstd::string::*;

verus! {

/// Where the catalog lives unless the caller says otherwise.
pub const DEFAULT_REPO_URL: &'static str = "https://github.com/islo-labs/doubleagent.git";

/// One entry of a directory, as the caller listed it.
#[derive(Debug, Clone, PartialEq, Eq)]
pub struct DirEntry {
    /// The entry's file name; `None` where it is not valid UTF-8.
    pub name: Option<String>,
    /// Whether the entry is a directory.
    pub is_dir: bool,
    /// Whether a file `service.yaml` stands directly below it.
    pub has_manifest: bool,
}

/// What the caller saw at the place of the mirror.
#[derive(Debug, Clone, PartialEq, Eq)]
pub struct MirrorProbe {
    /// Something is there.
    pub exists: bool,
    /// It holds a directory `.git`.
    pub has_git_dir: bool,
    /// It holds a file `HEAD`.
    pub has_head: bool,
}

/// What the caller saw at a service's place inside the mirror.
#[derive(Debug, Clone, PartialEq, Eq)]
pub struct SourceProbe {
    /// The subtree is there.
    pub exists: bool,
    /// It holds a manifest.
    pub has_manifest: bool,
}

/// A shallow clone of one branch.
#[derive(Debug, Clone, PartialEq, Eq)]
pub struct ClonePlan {
    pub url: String,
    pub dest: String,
    pub branch: String,
    /// How many commits of history to take.
    pub depth: u32,
}

/// How to bring the mirror up to date.
#[derive(Debug, Clone, PartialEq, Eq)]
pub enum SyncPlan {
    /// The mirror is a repository: fetch the branch and follow it.
    Pull { repo_dir: String },
    /// It is not: clear the place if anything is there, then clone.
    Clone { remove_existing: bool, clone: ClonePlan },
}

/// How the fetched commit relates to the local branch.
#[derive(Debug, Clone, PartialEq, Eq)]
pub struct MergeAnalysis {
    /// The local branch is a strict ancestor of the fetched commit.
    pub fast_forward: bool,
    /// The local branch already is at the fetched commit.
    pub up_to_date: bool,
}

/// What to do with the working tree after a fetch.
#[derive(Debug, Clone, PartialEq, Eq)]
pub enum MergeAction {
    /// Move the named branch to the fetched commit, if it exists, and force
    /// the working tree to it.
    FastForward { branch_ref: String },
    /// Leave everything as it is.
    Nothing,
    /// Reset the working tree hard to the fetched commit.
    HardReset,
}

/// The steps of a pull, in their order.
#[derive(Debug, Clone, PartialEq, Eq)]
pub enum PullStage {
    OpenRepository,
    FindRemote,
    Fetch,
    FindFetchHead,
    ResolveFetchCommit,
    Analyze,
    MoveBranch,
    Checkout,
    Reset,
}

/// The copy that installs one service.
#[derive(Debug, Clone, PartialEq, Eq)]
pub struct FetchPlan {
    /// The subtree inside the mirror.
    pub source: String,
    /// Its place in the install directory.
    pub dest: String,
    /// An earlier copy is there and goes first.
    pub remove_existing: bool,
}

/// One file or directory below a subtree, by the names on the way to it.
#[derive(Debug, Clone, PartialEq, Eq)]
pub struct TreeEntry {
    pub components: Vec<String>,
    pub is_dir: bool,
}

/// One service of a bulk update with what its fetch gave: the installed
/// path or the failure.
#[derive(Debug, PartialEq, Eq)]
pub struct UpdateAttempt {
    pub name: String,
    pub outcome: Result<String, Error>,
}

/// The outcome of a bulk update: what was refreshed and what failed.
#[derive(Debug, Clone, PartialEq, Eq)]
pub struct BulkUpdate {
    pub updated: Vec<String>,
    pub failed: Vec<(String, Error)>,
}

/// What happened last while a service is installed.
#[derive(Debug, Clone, PartialEq, Eq)]
pub enum FetchProgress {
    /// Nothing yet.
    Begin,
    /// The install directory is there, and the place of the mirror was
    /// looked at.
    MirrorSeen(MirrorProbe),
    /// The mirror was brought up to date.
    Synced,
    /// The service's places in the mirror and in the install directory were
    /// looked at.
    SourceSeen { source: SourceProbe, dest_exists: bool },
    /// The copy was made.
    Installed,
    /// The last step failed.
    Failed(Error),
}

/// What to do next while a service is installed.
#[derive(Debug, Clone, PartialEq, Eq)]
pub enum FetchAction {
    /// Make sure that the install directory is there, then look at the place
    /// of the mirror.
    ProbeMirror { cache_dir: String, repo_dir: String },
    /// Bring the mirror up to date.
    Sync(SyncPlan),
    /// Look at the service's places in the mirror and in the install
    /// directory.
    ProbeSource { source: String, dest: String },
    /// Make the copy.
    Install(FetchPlan),
    /// The service is installed at this path.
    Done(String),
    /// The installation failed.
    GiveUp(Error),
}

/// The mirror's place below the install directory.
pub open spec fn repo_dir_spec(cache_dir: Seq<char>) -> Seq<char> {
    join_spec(cache_dir, ".repo"@)
}

/// A service's subtree inside the mirror.
pub open spec fn source_dir_spec(cache_dir: Seq<char>, name: Seq<char>) -> Seq<char> {
    join_spec(join_spec(repo_dir_spec(cache_dir), "services"@), name)
}

/// The name of a branch as a reference.
pub open spec fn branch_ref_spec(branch: Seq<char>) -> Seq<char> {
    "refs/heads/"@ + branch
}

pub open spec fn missing_remote_message(name: Seq<char>) -> Seq<char> {
    "Service '"@ + name
        + "' not found in repository. Run 'doubleagent list --remote' to see available services."@
}

pub open spec fn missing_manifest_message(name: Seq<char>) -> Seq<char> {
    "Service '"@ + name + "' is missing service.yaml file"@
}

pub open spec fn not_installed_message(name: Seq<char>) -> Seq<char> {
    "Service '"@ + name + "' is not installed. Use 'doubleagent add "@ + name + "' first."@
}

pub open spec fn clone_failed_message(url: Seq<char>, branch: Seq<char>, cause: Seq<char>) -> Seq<
    char,
> {
    "Failed to clone repository from "@ + url + " (branch: "@ + branch + "): "@ + cause
}

/// The text that goes before the cause when an early step of a pull fails.
pub open spec fn pull_stage_prefix(stage: PullStage) -> Option<Seq<char>> {
    match stage {
        PullStage::OpenRepository => Some("Failed to open cached repository: "@),
        PullStage::FindRemote => Some("Failed to find origin remote: "@),
        PullStage::Fetch => Some("Failed to fetch from remote: "@),
        PullStage::FindFetchHead => Some("Failed to find FETCH_HEAD: "@),
        PullStage::ResolveFetchCommit => Some("Failed to get fetch commit: "@),
        _ => None,
    }
}

/// An entry of the mirror's `services` directory that is a service: a
/// directory with a manifest whose name is readable and not hidden.
pub open spec fn is_remote_service(e: DirEntry) -> bool {
    &&& e.name is Some
    &&& !is_hidden(e.name->0@)
    &&& e.is_dir
    &&& e.has_manifest
}

/// The names of the services among the entries, in the order of the listing.
pub open spec fn remote_names(entries: Seq<DirEntry>) -> Seq<Seq<char>>
    decreases entries.len(),
{
    if entries.len() == 0 {
        Seq::empty()
    } else if is_remote_service(entries.last()) {
        remote_names(entries.drop_last()).push(entries.last().name->0@)
    } else {
        remote_names(entries.drop_last())
    }
}

/// An entry of the install directory that holds an installed service: a
/// directory with a manifest and a readable name, the mirror itself left out.
pub open spec fn is_installed_service(e: DirEntry) -> bool {
    &&& e.name is Some
    &&& e.name->0@ != ".repo"@
    &&& e.is_dir
    &&& e.has_manifest
}

/// The names of the installed services, in the order of the listing.
pub open spec fn installed_names(entries: Seq<DirEntry>) -> Seq<Seq<char>>
    decreases entries.len(),
{
    if entries.len() == 0 {
        Seq::empty()
    } else if is_installed_service(entries.last()) {
        installed_names(entries.drop_last()).push(entries.last().name->0@)
    } else {
        installed_names(entries.drop_last())
    }
}

/// Whether one of the names on the way is the version-control directory.
pub open spec fn has_vcs_component(components: Seq<String>) -> bool {
    exists|i: int| 0 <= i < components.len() && #[trigger] components[i]@ == ".git"@
}

/// The positions of the entries that are copied: those not at or below a
/// version-control directory.
pub open spec fn copied_indices(entries: Seq<TreeEntry>) -> Seq<usize>
    decreases entries.len(),
{
    if entries.len() == 0 {
        Seq::empty()
    } else if has_vcs_component(entries.last().components@) {
        copied_indices(entries.drop_last())
    } else {
        copied_indices(entries.drop_last()).push((entries.len() - 1) as usize)
    }
}

/// The names of the attempts that succeeded, in their order.
pub open spec fn updated_names(attempts: Seq<UpdateAttempt>) -> Seq<Seq<char>>
    decreases attempts.len(),
{
    if attempts.len() == 0 {
        Seq::empty()
    } else if attempts.last().outcome is Ok {
        updated_names(attempts.drop_last()).push(attempts.last().name@)
    } else {
        updated_names(attempts.drop_last())
    }
}

/// The attempts that failed, each name with its failure, in their order.
pub open spec fn failed_attempts(attempts: Seq<UpdateAttempt>) -> Seq<(String, Error)>
    decreases attempts.len(),
{
    if attempts.len() == 0 {
        Seq::empty()
    } else if attempts.last().outcome is Err {
        failed_attempts(attempts.drop_last()).push(
            (attempts.last().name, attempts.last().outcome->Err_0),
        )
    } else {
        failed_attempts(attempts.drop_last())
    }
}

/// The percentage of the objects received, once their number is known.
pub open spec fn progress_percent_spec(received: usize, total: usize) -> Option<int> {
    if total > 0 {
        Some((received * 100) / (total as int))
    } else {
        None
    }
}

/// What the plan of an installation owes: without the subtree the service is
/// not found; without a manifest in it the subtree is no service; otherwise
/// the subtree is copied whole to the service's place in the install
/// directory, where an earlier copy goes first.
pub open spec fn fetch_planned(
    cache_dir: Seq<char>,
    name: Seq<char>,
    source: SourceProbe,
    dest_exists: bool,
    r: Result<FetchPlan, Error>,
) -> bool {
    if !source.exists {
        r matches Err(Error::ServiceNotFound(m)) && m@ == missing_remote_message(name)
    } else if !source.has_manifest {
        r matches Err(Error::Other(m)) && m@ == missing_manifest_message(name)
    } else {
        r matches Ok(p) && p.source@ == source_dir_spec(cache_dir, name) && p.dest@ == join_spec(
            cache_dir,
            name,
        ) && p.remove_existing == dest_exists
    }
}

/// What the plan of a refresh owes: a service that is not installed is
/// refused; an installed one is installed anew over its earlier copy.
pub open spec fn update_planned(
    cache_dir: Seq<char>,
    name: Seq<char>,
    installed: bool,
    source: SourceProbe,
    r: Result<FetchPlan, Error>,
) -> bool {
    if !installed {
        r matches Err(Error::ServiceNotFound(m)) && m@ == not_installed_message(name)
    } else {
        fetch_planned(cache_dir, name, source, true, r)
    }
}

/// The names are those of the services among the entries, each as often as
/// the listing has it, in the order of their bytes.
pub open spec fn lists_remote(entries: Seq<DirEntry>, names: Seq<String>) -> bool {
    sorted(views(names)) && views(names).to_multiset() == remote_names(entries).to_multiset()
}

/// The outcome holds the attempts that succeeded and those that failed, each
/// kind in the order of the attempts.
pub open spec fn sorted_out(attempts: Seq<UpdateAttempt>, outcome: BulkUpdate) -> bool {
    views(outcome.updated@) == updated_names(attempts) && outcome.failed@ == failed_attempts(
        attempts,
    )
}

/// What the plan of a synchronisation owes: a place that looks like a
/// repository is pulled; anything else is cleared, if anything is there, and
/// cloned anew, shallow and of the one branch.
pub open spec fn sync_planned(fetcher: ServiceFetcher, probe: MirrorProbe, plan: SyncPlan) -> bool {
    if probe.has_git_dir || probe.has_head {
        plan matches SyncPlan::Pull { repo_dir } && repo_dir@ == repo_dir_spec(fetcher.cache_dir@)
    } else {
        plan matches SyncPlan::Clone { remove_existing, clone } && remove_existing == probe.exists
            && clone.url@ == fetcher.repo_url@ && clone.dest@ == repo_dir_spec(fetcher.cache_dir@)
            && clone.branch@ == fetcher.branch@ && clone.depth == 1
    }
}

/// The step that follows what happened last in the installation of a
/// service: the mirror is looked at, brought up to date, the service is looked
/// for, copied, and reported; a failure ends the installation where it is.
pub open spec fn fetch_follows(
    fetcher: ServiceFetcher,
    name: Seq<char>,
    progress: FetchProgress,
    action: FetchAction,
) -> bool {
    match progress {
        FetchProgress::Begin => action matches FetchAction::ProbeMirror { cache_dir, repo_dir }
            && cache_dir@ == fetcher.cache_dir@ && repo_dir@ == repo_dir_spec(fetcher.cache_dir@),
        FetchProgress::MirrorSeen(probe) => action matches FetchAction::Sync(plan) && sync_planned(
            fetcher,
            probe,
            plan,
        ),
        FetchProgress::Synced => action matches FetchAction::ProbeSource { source, dest } && source@
            == source_dir_spec(fetcher.cache_dir@, name) && dest@ == join_spec(
            fetcher.cache_dir@,
            name,
        ),
        FetchProgress::SourceSeen { source, dest_exists } => match action {
            FetchAction::Install(plan) => fetch_planned(
                fetcher.cache_dir@,
                name,
                source,
                dest_exists,
                Ok(plan),
            ),
            FetchAction::GiveUp(e) => fetch_planned(
                fetcher.cache_dir@,
                name,
                source,
                dest_exists,
                Err(e),
            ),
            _ => false,
        },
        FetchProgress::Installed => action matches FetchAction::Done(path) && path@ == join_spec(
            fetcher.cache_dir@,
            name,
        ),
        FetchProgress::Failed(e) => action == FetchAction::GiveUp(e),
    }
}

/// What can happen when a step was taken. Nothing follows the end.
pub open spec fn answers(action: FetchAction, progress: FetchProgress) -> bool {
    match action {
        FetchAction::ProbeMirror { .. } => progress is MirrorSeen || progress is Failed,
        FetchAction::Sync(_) => progress is Synced || progress is Failed,
        FetchAction::ProbeSource { .. } => progress is SourceSeen || progress is Failed,
        FetchAction::Install(_) => progress is Installed || progress is Failed,
        FetchAction::Done(_) => false,
        FetchAction::GiveUp(_) => false,
    }
}

/// A run of the installation of a service: it begins at the beginning, each
/// step is the one that follows what happened, and what happens next answers
/// the step.
pub open spec fn fetch_run(
    fetcher: ServiceFetcher,
    name: Seq<char>,
    run: Seq<(FetchProgress, FetchAction)>,
) -> bool {
    &&& run.len() > 0
    &&& run[0].0 is Begin
    &&& forall|i: int|
        0 <= i < run.len() ==> fetch_follows(fetcher, name, (#[trigger] run[i]).0, run[i].1)
    &&& forall|i: int| 0 <= i < run.len() - 1 ==> answers((#[trigger] run[i]).1, run[i + 1].0)
}

/// Fetches services from the remote catalog into the install directory.
#[derive(Debug, Clone, PartialEq, Eq)]
pub struct ServiceFetcher {
    /// Where the catalog is cloned from.
    pub repo_url: String,
    /// The install directory.
    pub cache_dir: String,
    /// The branch that the mirror follows.
    pub branch: String,
}

impl ServiceFetcher {
    /// A fetcher for one catalog, one install directory and one branch.
    pub fn new(repo_url: String, cache_dir: String, branch: String) -> (r: Self)
        ensures
            r.repo_url == repo_url,
            r.cache_dir == cache_dir,
            r.branch == branch,
    {
        ServiceFetcher { repo_url, cache_dir, branch }
    }

    /// The directory that holds the mirror.
    pub fn repo_cache_dir(&self) -> (r: String)
        ensures
            r@ == repo_dir_spec(self.cache_dir@),
    {
        join(self.cache_dir.as_str(), ".repo")
    }

    /// The place of a service's subtree inside the mirror.
    pub fn service_source(&self, name: &str) -> (r: String)
        ensures
            r@ == source_dir_spec(self.cache_dir@, name@),
    {
        let repo = self.repo_cache_dir();
        let services = join(repo.as_str(), "services");
        join(services.as_str(), name)
    }

    /// Plans the installation of a service, after the mirror was brought up
    /// to date. Without the subtree the service is not found; without a
    /// manifest in it the subtree is no service. In both cases nothing is
    /// planned, so nothing in the install directory is touched. Otherwise an
    /// earlier copy goes and the subtree is copied whole.
    pub fn fetch_service(&self, name: &str, source: SourceProbe, dest_exists: bool) -> (r: Result<
        FetchPlan,
        Error,
    >)
        ensures
            fetch_planned(self.cache_dir@, name@, source, dest_exists, r),
    {
        if !source.exists {
            return Err(
                Error::ServiceNotFound(
                    concat3(
                        "Service '",
                        name,
                        "' not found in repository. Run 'doubleagent list --remote' to see available services.",
                    ),
                ),
            );
        }
        if !source.has_manifest {
            return Err(Error::Other(concat3("Service '", name, "' is missing service.yaml file")));
        }
        Ok(
            FetchPlan {
                source: self.service_source(name),
                dest: join(self.cache_dir.as_str(), name),
                remove_existing: dest_exists,
            },
        )
    }

    /// Decides the next step of the installation of a service from what
    /// happened last. The steps come in this order: the place of the mirror is
    /// looked at; the mirror is brought up to date; the service is looked for
    /// in it; the service is copied; the installed path is reported. A step
    /// that failed, and a service that the mirror does not hold, end the
    /// installation at once.
    pub fn fetch_next(&self, name: &str, progress: FetchProgress) -> (r: FetchAction)
        ensures
            fetch_follows(*self, name@, progress, r),
    {
        match progress {
            FetchProgress::Begin => FetchAction::ProbeMirror {
                cache_dir: self.cache_dir.clone(),
                repo_dir: self.repo_cache_dir(),
            },
            FetchProgress::MirrorSeen(probe) => FetchAction::Sync(self.ensure_repo_updated(probe)),
            FetchProgress::Synced => FetchAction::ProbeSource {
                source: self.service_source(name),
                dest: join(self.cache_dir.as_str(), name),
            },
            FetchProgress::SourceSeen { source, dest_exists } => {
                match self.fetch_service(name, source, dest_exists) {
                    Ok(plan) => FetchAction::Install(plan),
                    Err(e) => FetchAction::GiveUp(e),
                }
            },
            FetchProgress::Installed => FetchAction::Done(join(self.cache_dir.as_str(), name)),
            FetchProgress::Failed(e) => FetchAction::GiveUp(e),
        }
    }

    /// Plans the refresh of a service. One that is not installed is refused;
    /// otherwise this is `fetch_service` on a place that is taken.
    pub fn update_service(&self, name: &str, installed: bool, source: SourceProbe) -> (r: Result<
        FetchPlan,
        Error,
    >)
        ensures
            update_planned(self.cache_dir@, name@, installed, source, r),
    {
        if !installed {
            let mut m = concat3("Service '", name, "' is not installed. Use 'doubleagent add ");
            m.append(name);
            m.append("' first.");
            return Err(Error::ServiceNotFound(m));
        }
        self.fetch_service(name, source, true)
    }

    /// The services to refresh in a bulk update: every installed one, in the
    /// order of the listing of the install directory.
    pub fn installed_services(&self, entries: &Vec<DirEntry>) -> (r: Vec<String>)
        ensures
            views(r@) == installed_names(entries@),
    {
        let mut out: Vec<String> = Vec::new();
        let mut i: usize = 0;
        assert(entries@.subrange(0, 0) =~= Seq::<DirEntry>::empty());
        assert(views(out@) =~= installed_names(entries@.subrange(0, 0)));
        while i < entries.len()
            invariant
                i <= entries.len(),
                views(out@) == installed_names(entries@.subrange(0, i as int)),
            decreases entries.len() - i,
        {
            let e = &entries[i];
            let ghost before = entries@.subrange(0, i as int);
            let ghost after = entries@.subrange(0, i + 1);
            assert(after.drop_last() =~= before);
            assert(after.last() == entries@[i as int]);
            let ghost shown = views(out@);
            match &e.name {
                Some(n) => {
                    if !str_eq(n.as_str(), ".repo") && e.is_dir && e.has_manifest {
                        out.push(n.clone());
                        assert(views(out@) =~= shown.push(n@));
                    }
                },
                None => {},
            }
            i += 1;
        }
        assert(entries@.subrange(0, i as int) =~= entries@);
        out
    }

    /// Sorts the attempts of a bulk update into those that succeeded and
    /// those that failed. A failure leaves its service out of the refreshed
    /// ones and stops nothing.
    pub fn update_all_services(&self, attempts: Vec<UpdateAttempt>) -> (r: BulkUpdate)
        ensures
            sorted_out(attempts@, r),
    {
        let ghost all = attempts@;
        let mut updated: Vec<String> = Vec::new();
        let mut failed: Vec<(String, Error)> = Vec::new();
        assert(all.subrange(0, 0) =~= Seq::<UpdateAttempt>::empty());
        assert(views(updated@) =~= updated_names(all.subrange(0, 0)));
        assert(failed@ =~= failed_attempts(all.subrange(0, 0)));
        for attempt in it: attempts
            invariant
                it.seq() == all,
                views(updated@) == updated_names(all.subrange(0, it.index())),
                failed@ == failed_attempts(all.subrange(0, it.index())),
        {
            let ghost before = all.subrange(0, it.index());
            let ghost after = all.subrange(0, it.index() + 1);
            assert(after.drop_last() =~= before);
            assert(after.last() == attempt);
            let ghost shown = views(updated@);
            let UpdateAttempt { name, outcome } = attempt;
            match outcome {
                Ok(_) => {
                    updated.push(name);
                    assert(views(updated@) =~= shown.push(name@));
                },
                Err(e) => {
                    failed.push((name, e));
                },
            }
        }
        assert(all.subrange(0, all.len() as int) =~= all);
        BulkUpdate { updated, failed }
    }

    /// The services that the catalog offers, from the listing of the mirror's
    /// `services` directory: sorted, each as often as the listing has it.
    pub fn list_remote_services(&self, entries: &Vec<DirEntry>) -> (r: Vec<String>)
        ensures
            lists_remote(entries@, r@),
    {
        let mut out: Vec<String> = Vec::new();
        let mut i: usize = 0;
        assert(entries@.subrange(0, 0) =~= Seq::<DirEntry>::empty());
        assert(views(out@) =~= remote_names(entries@.subrange(0, 0)));
        while i < entries.len()
            invariant
                i <= entries.len(),
                views(out@) == remote_names(entries@.subrange(0, i as int)),
            decreases entries.len() - i,
        {
            let e = &entries[i];
            let ghost before = entries@.subrange(0, i as int);
            let ghost after = entries@.subrange(0, i + 1);
            assert(after.drop_last() =~= before);
            assert(after.last() == entries@[i as int]);
            let ghost shown = views(out@);
            match &e.name {
                Some(n) => {
                    if !starts_with_dot(n.as_str()) && e.is_dir && e.has_manifest {
                        out.push(n.clone());
                        assert(views(out@) =~= shown.push(n@));
                    }
                },
                None => {},
            }
            i += 1;
        }
        assert(entries@.subrange(0, i as int) =~= entries@);
        sort_strings(out)
    }

    /// Decides how to bring the mirror up to date: a place that looks like a
    /// repository is pulled; anything else is cleared and cloned anew.
    pub fn ensure_repo_updated(&self, probe: MirrorProbe) -> (r: SyncPlan)
        ensures
            sync_planned(*self, probe, r),
    {
        if probe.has_git_dir || probe.has_head {
            SyncPlan::Pull { repo_dir: self.repo_cache_dir() }
        } else {
            SyncPlan::Clone { remove_existing: probe.exists, clone: self.clone_repo() }
        }
    }

    /// The clone that creates the mirror: shallow, of the one branch.
    pub fn clone_repo(&self) -> (r: ClonePlan)
        ensures
            r.url@ == self.repo_url@,
            r.dest@ == repo_dir_spec(self.cache_dir@),
            r.branch@ == self.branch@,
            r.depth == 1,
    {
        ClonePlan {
            url: self.repo_url.clone(),
            dest: self.repo_cache_dir(),
            branch: self.branch.clone(),
            depth: 1,
        }
    }

    /// The failure reported when the clone did not succeed.
    pub fn clone_failed(&self, cause: &str) -> (r: Error)
        ensures
            r matches Error::Other(m) && m@ == clone_failed_message(
                self.repo_url@,
                self.branch@,
                cause@,
            ),
    {
        let mut m = concat3(
            "Failed to clone repository from ",
            self.repo_url.as_str(),
            " (branch: ",
        );
        m.append(self.branch.as_str());
        m.append("): ");
        m.append(cause);
        Error::Other(m)
    }

    /// Decides what follows the fetch of a pull: a branch that can be
    /// fast-forwarded is moved, one that is at the fetched commit is left, and
    /// anything else is reset hard to what was fetched.
    pub fn pull_repo(&self, analysis: MergeAnalysis) -> (r: MergeAction)
        ensures
            analysis.fast_forward ==> (r matches MergeAction::FastForward { branch_ref }
                && branch_ref@ == branch_ref_spec(self.branch@)),
            !analysis.fast_forward && analysis.up_to_date ==> r is Nothing,
            !analysis.fast_forward && !analysis.up_to_date ==> r is HardReset,
    {
        if analysis.fast_forward {
            MergeAction::FastForward { branch_ref: concat2("refs/heads/", self.branch.as_str()) }
        } else if analysis.up_to_date {
            MergeAction::Nothing
        } else {
            MergeAction::HardReset
        }
    }
}

/// The failure reported when a step of a pull did not succeed: the early
/// steps say which one it was, the later ones pass the cause on.
pub fn pull_failed(stage: PullStage, cause: &str) -> (r: Error)
    ensures
        pull_stage_prefix(stage) is Some ==> (r matches Error::Other(m) && m@ == pull_stage_prefix(
            stage,
        )->0 + cause@),
        pull_stage_prefix(stage) is None ==> (r matches Error::GitError(m) && m@ == cause@),
{
    match stage {
        PullStage::OpenRepository => Error::Other(
            concat2("Failed to open cached repository: ", cause),
        ),
        PullStage::FindRemote => Error::Other(concat2("Failed to find origin remote: ", cause)),
        PullStage::Fetch => Error::Other(concat2("Failed to fetch from remote: ", cause)),
        PullStage::FindFetchHead => Error::Other(concat2("Failed to find FETCH_HEAD: ", cause)),
        PullStage::ResolveFetchCommit => Error::Other(
            concat2("Failed to get fetch commit: ", cause),
        ),
        _ => Error::GitError(String::from_str(cause)),
    }
}

/// Tells whether an entry lies at or below a version-control directory.
pub fn in_vcs_dir(entry: &TreeEntry) -> (r: bool)
    ensures
        r == has_vcs_component(entry.components@),
{
    let mut i: usize = 0;
    while i < entry.components.len()
        invariant
            i <= entry.components.len(),
            forall|j: int| 0 <= j < i ==> (#[trigger] entry.components@[j])@ != ".git"@,
        decreases entry.components.len() - i,
    {
        if str_eq(entry.components[i].as_str(), ".git") {
            return true;
        }
        i += 1;
    }
    false
}

/// Picks what a recursive copy of a subtree takes: every entry but those at
/// or below a version-control directory, in the order of the listing.
pub fn copy_dir_recursive(entries: &Vec<TreeEntry>) -> (r: Vec<usize>)
    ensures
        r@ == copied_indices(entries@),
{
    let mut out: Vec<usize> = Vec::new();
    let mut i: usize = 0;
    assert(entries@.subrange(0, 0) =~= Seq::<TreeEntry>::empty());
    while i < entries.len()
        invariant
            i <= entries.len(),
            out@ == copied_indices(entries@.subrange(0, i as int)),
        decreases entries.len() - i,
    {
        let ghost before = entries@.subrange(0, i as int);
        let ghost after = entries@.subrange(0, i + 1);
        assert(after.drop_last() =~= before);
        assert(after.last() == entries@[i as int]);
        if !in_vcs_dir(&entries[i]) {
            out.push(i);
        }
        i += 1;
    }
    assert(entries@.subrange(0, i as int) =~= entries@);
    out
}

/// Computes the percentage of the objects received; none while the total is
/// not known.
pub fn progress_percent(received: usize, total: usize) -> (r: Option<u128>)
    ensures
        progress_percent_spec(received, total) matches Some(p) ==> r == Some(p as u128),
        progress_percent_spec(received, total) is None ==> r is None,
{
    if total > 0 {
        let wide: u128 = received as u128;
        Some((wide * 100) / (total as u128))
    } else {
        None
    }
}

/// An installation copies nothing before the mirror was brought up to date:
/// in every run, a copy is the step after the service was looked for, which
/// is the step after the synchronisation succeeded.
pub proof fn law_install_follows_sync(
    fetcher: ServiceFetcher,
    name: Seq<char>,
    run: Seq<(FetchProgress, FetchAction)>,
    j: int,
)
    requires
        fetch_run(fetcher, name, run),
        0 <= j < run.len(),
        run[j].1 is Install,
    ensures
        j >= 3,
        run[j].0 is SourceSeen,
        run[j - 1].0 is Synced,
        run[j - 2].1 is Sync,
{
    assert(fetch_follows(fetcher, name, run[j].0, run[j].1));
    assert(run[j].0 is SourceSeen);
    assert(j > 0);
    assert(answers(run[j - 1].1, run[j].0));
    assert(fetch_follows(fetcher, name, run[j - 1].0, run[j - 1].1));
    assert(run[j - 1].0 is Synced);
    assert(j - 1 > 0);
    assert(answers(run[j - 2].1, run[j - 1].0));
    assert(fetch_follows(fetcher, name, run[j - 2].0, run[j - 2].1));
    assert(run[j - 2].0 is MirrorSeen);
    assert(j - 2 > 0);
}

/// The installation of a service that the mirror does not hold ends with
/// "not found" and leaves the install directory as it is: in every run in
/// which the service's subtree is found missing, that is the end of the run,
/// and no copy is among its steps.
pub proof fn law_missing_service_is_not_installed(
    fetcher: ServiceFetcher,
    name: Seq<char>,
    run: Seq<(FetchProgress, FetchAction)>,
    i: int,
)
    requires
        fetch_run(fetcher, name, run),
        0 <= i < run.len(),
        run[i].0 matches FetchProgress::SourceSeen { source, .. } && !source.exists,
    ensures
        i == run.len() - 1,
        run[i].1 matches FetchAction::GiveUp(Error::ServiceNotFound(m)) && m@
            == missing_remote_message(name),
        forall|j: int| 0 <= j < run.len() ==> !((#[trigger] run[j]).1 is Install),
{
    assert(fetch_follows(fetcher, name, run[i].0, run[i].1));
    assert(run[i].1 is GiveUp);
    if i < run.len() - 1 {
        assert(answers(run[i].1, run[i + 1].0));
    }
    assert forall|j: int| 0 <= j < run.len() implies !((#[trigger] run[j]).1 is Install) by {
        if run[j].1 is Install {
            assert(fetch_follows(fetcher, name, run[j].0, run[j].1));
            assert(j < i);
            assert(answers(run[j].1, run[j + 1].0));
            assert(fetch_follows(fetcher, name, run[j + 1].0, run[j + 1].1));
            if j + 1 < run.len() - 1 {
                assert(answers(run[j + 1].1, run[j + 2].0));
            }
            assert(j + 1 == i);
        }
    }
}

} // verus!
