//! Where things are kept, and which catalog is used.

use crate::error::Error;
use crate::git::DEFAULT_REPO_URL;
use crate::paths::{join, join_spec};
use vstd::prelude::*;
use vstd::string::*;

verus! {

/// The settings of one invocation.
#[derive(Debug, Clone, PartialEq, Eq)]
pub struct Config {
    /// The install directory.
    pub services_dir: String,
    /// The file that holds the state of the running services.
    pub state_file: String,
    /// Where the catalog is cloned from.
    pub repo_url: String,
    /// The branch of the catalog that is used.
    pub branch: String,
    /// The project's own configuration file, where one was found.
    pub project_config_path: Option<String>,
}

/// What a project asks for.
#[derive(Debug, Clone, PartialEq, Eq)]
pub struct ProjectConfig {
    /// The services that the project needs.
    pub services: Vec<String>,
}

/// One directory on the way from the working directory to the root, with
/// what the caller found in it.
#[derive(Debug, Clone, PartialEq, Eq)]
pub struct ConfigProbe {
    pub dir: String,
    /// It holds a file `doubleagent.yaml`.
    pub has_yaml: bool,
    /// It holds a file `doubleagent.yml`.
    pub has_yml: bool,
}

/// The data directory below a home directory; below the working directory
/// where no home is known.
pub open spec fn data_dir_spec(home: Option<String>) -> Seq<char> {
    match home {
        Some(h) => join_spec(h@, ".doubleagent"@),
        None => join_spec("."@, ".doubleagent"@),
    }
}

/// The chosen text, or the default where nothing was chosen.
pub open spec fn or_default(chosen: Option<String>, default: Seq<char>) -> Seq<char> {
    match chosen {
        Some(c) => c@,
        None => default,
    }
}

/// No directory before position `k` holds a project configuration.
pub open spec fn none_before(levels: Seq<ConfigProbe>, k: int) -> bool {
    forall|j: int| 0 <= j < k ==> !(#[trigger] levels[j]).has_yaml && !levels[j].has_yml
}

fn data_dir(home: &Option<String>) -> (r: String)
    ensures
        r@ == data_dir_spec(*home),
{
    match home {
        Some(h) => join(h.as_str(), ".doubleagent"),
        None => join(".", ".doubleagent"),
    }
}

impl Config {
    /// Puts the settings together: the install directory and the state file
    /// below the data directory, and the catalog and its branch as the caller
    /// found them in the environment, else the defaults.
    pub fn load(
        home: Option<String>,
        repo_url: Option<String>,
        branch: Option<String>,
        project_config_path: Option<String>,
    ) -> (r: Result<Self, Error>)
        ensures
            r matches Ok(c) && c.services_dir@ == join_spec(data_dir_spec(home), "services"@)
                && c.state_file@ == join_spec(data_dir_spec(home), "state.json"@) && c.repo_url@
                == or_default(repo_url, DEFAULT_REPO_URL@) && c.branch@ == or_default(
                branch,
                "main"@,
            ) && c.project_config_path == project_config_path,
    {
        let data = data_dir(&home);
        let repo_url = match repo_url {
            Some(u) => u,
            None => String::from_str(DEFAULT_REPO_URL),
        };
        let branch = match branch {
            Some(b) => b,
            None => String::from_str("main"),
        };
        Ok(
            Config {
                services_dir: join(data.as_str(), "services"),
                state_file: join(data.as_str(), "state.json"),
                repo_url,
                branch,
                project_config_path,
            },
        )
    }

    /// Picks the project configuration: the one in the first directory, from
    /// the working directory upwards, that holds one; `doubleagent.yaml` goes
    /// before `doubleagent.yml`.
    pub fn find_project_config(levels: &Vec<ConfigProbe>) -> (r: Option<String>)
        ensures
            none_before(levels@, levels@.len() as int) ==> r is None,
            forall|k: int|
                0 <= k < levels@.len() && none_before(levels@, k) && (#[trigger] levels@[k]).has_yaml
                    ==> (r matches Some(p) && p@ == join_spec(
                    levels@[k].dir@,
                    "doubleagent.yaml"@,
                )),
            forall|k: int|
                0 <= k < levels@.len() && none_before(levels@, k) && !(
                #[trigger] levels@[k]).has_yaml && levels@[k].has_yml ==> (r matches Some(p) && p@
                    == join_spec(levels@[k].dir@, "doubleagent.yml"@)),
    {
        let mut i: usize = 0;
        while i < levels.len()
            invariant
                i <= levels.len(),
                none_before(levels@, i as int),
            decreases levels.len() - i,
        {
            let level = &levels[i];
            if level.has_yaml || level.has_yml {
                proof {
                    assert forall|k: int|
                        0 <= k < levels@.len() && none_before(levels@, k) && ((
                        #[trigger] levels@[k]).has_yaml || levels@[k].has_yml) implies k == i by {
                        if k < i {
                            assert(!levels@[k].has_yaml && !levels@[k].has_yml);
                        }
                        if i < k {
                            assert(!levels@[i as int].has_yaml && !levels@[i as int].has_yml);
                        }
                    }
                }
                if level.has_yaml {
                    return Some(join(level.dir.as_str(), "doubleagent.yaml"));
                }
                return Some(join(level.dir.as_str(), "doubleagent.yml"));
            }
            i += 1;
        }
        proof {
            assert forall|k: int| 0 <= k < levels@.len() implies !((#[trigger] levels@[k]).has_yaml
                || levels@[k].has_yml) by {}
        }
        None
    }
}

impl ProjectConfig {
    /// The project configuration, where there is a file and it was
    /// understood; none where there is no file or it could not be read.
    pub fn try_load(loaded: Option<Result<ProjectConfig, Error>>) -> (r: Option<Self>)
        ensures
            r == match loaded {
                Some(Ok(c)) => Some(c),
                _ => None,
            },
    {
        match loaded {
            Some(Ok(c)) => Some(c),
            _ => None,
        }
    }
}

} // verus!
