//! Where snapshots are kept.

use crate::commands::SnapshotPullArgs;
use crate::error::Error;
use crate::mise::CommandLine;
use crate::paths::{join, join_spec};
use crate::seed::{json_document, parse_seed_payload, seed_data_as};
use crate::text::{
    concat2, concat3, decimal, starts_with, starts_with_spec, str_eq, trim_trailing,
    u64_to_string, without_trailing,
};
use vstd::prelude::*;
use vstd::string::*;

verus! {

/// The root of the snapshots: the directory that was chosen, else
/// `.doubleagent/snapshots` below the home directory, or below the working
/// directory where no home is known.
pub open spec fn snapshots_root_spec(chosen: Option<String>, home: Option<String>) -> Seq<char> {
    match chosen {
        Some(c) => c@,
        None => match home {
            Some(h) => join_spec(join_spec(h@, ".doubleagent"@), "snapshots"@),
            None => join_spec(join_spec("."@, ".doubleagent"@), "snapshots"@),
        },
    }
}

/// One letter of a word, in either case.
pub open spec fn letter(c: char, lower: char, upper: char) -> bool {
    c == lower || c == upper
}

/// The word `strict`, whatever the case of its letters.
pub open spec fn is_strict(value: Seq<char>) -> bool {
    &&& value.len() == 6
    &&& letter(value[0], 's', 'S')
    &&& letter(value[1], 't', 'T')
    &&& letter(value[2], 'r', 'R')
    &&& letter(value[3], 'i', 'I')
    &&& letter(value[4], 'c', 'C')
    &&& letter(value[5], 't', 'T')
}

/// The root directory of the snapshots.
pub fn default_snapshots_dir(chosen: Option<String>, home: Option<String>) -> (r: String)
    ensures
        r@ == snapshots_root_spec(chosen, home),
{
    match chosen {
        Some(c) => c,
        None => {
            let data = match home {
                Some(h) => join(h.as_str(), ".doubleagent"),
                None => join(".", ".doubleagent"),
            };
            join(data.as_str(), "snapshots")
        },
    }
}

/// The directory of one snapshot profile of a service.
pub fn snapshot_dir(root: &str, service: &str, profile: &str) -> (r: String)
    ensures
        r@ == join_spec(join_spec(root@, service@), profile@),
{
    let below = join(root, service);
    join(below.as_str(), profile)
}

/// Tells whether strict compliance is asked for: the setting is there and
/// reads `strict`, in any case of its letters.
pub fn is_compliance_mode(setting: Option<&str>) -> (r: bool)
    ensures
        r == (setting matches Some(v) && is_strict(v@)),
{
    match setting {
        None => false,
        Some(v) => {
            if v.unicode_len() != 6 {
                return false;
            }
            let c0 = v.get_char(0);
            let c1 = v.get_char(1);
            let c2 = v.get_char(2);
            let c3 = v.get_char(3);
            let c4 = v.get_char(4);
            let c5 = v.get_char(5);
            (c0 == 's' || c0 == 'S') && (c1 == 't' || c1 == 'T') && (c2 == 'r' || c2 == 'R') && (c3
                == 'i' || c3 == 'I') && (c4 == 'c' || c4 == 'C') && (c5 == 't' || c5 == 'T')
        },
    }
}

pub open spec fn pull_disabled_message() -> Seq<char> {
    "Snapshot pull is disabled in compliance mode (DOUBLEAGENT_COMPLIANCE_MODE=strict).\nRemove or change the env var to allow snapshot operations."@
}

pub open spec fn snapshot_missing_message(service: Seq<char>, profile: Seq<char>) -> Seq<char> {
    "Snapshot '"@ + service + "/"@ + profile + "' not found"@
}

pub open spec fn not_pulled_message(service: Seq<char>, profile: Seq<char>) -> Seq<char> {
    "Snapshot '"@ + service + "/"@ + profile + "' not found locally. Pull it first."@
}

pub open spec fn payload_missing_message(path: Seq<char>) -> Seq<char> {
    "Snapshot seed payload not found at "@ + path
}

pub open spec fn no_connector_message(service: Seq<char>) -> Seq<char> {
    "No connector/pull.py found for service '"@ + service
        + "'. \nAdd a pull script at services/"@ + service
        + "/connector/pull.py, \nor use 'doubleagent seed "@ + service
        + " --fixture <name>' to load fixture data."@
}

pub open spec fn unsupported_registry_message() -> Seq<char> {
    "Unsupported registry protocol. Use s3://... or gs://..."@
}

/// The profile that is meant where none is named.
pub open spec fn profile_or_default(profile: Option<String>) -> Seq<char> {
    match profile {
        Some(p) => p@,
        None => "default"@,
    }
}

/// The pull script of a service.
pub open spec fn connector_script_spec(service_path: Seq<char>) -> Seq<char> {
    join_spec(join_spec(service_path, "connector"@), "pull.py"@)
}

/// The words of the command that runs the pull script of a service.
pub open spec fn pull_words(args: SnapshotPullArgs, service_path: Seq<char>) -> Seq<Seq<char>> {
    seq![
        "uv"@,
        "run"@,
        "python"@,
        connector_script_spec(service_path),
        "--service"@,
        args.service@,
        "--profile"@,
        profile_or_default(args.profile),
    ] + (match args.limit {
        Some(l) => seq!["--limit"@, decimal(l as nat)],
        None => Seq::empty(),
    }) + (if args.no_redact {
        seq!["--no-redact"@]
    } else {
        Seq::empty()
    }) + (if args.incremental {
        seq!["--incremental"@]
    } else {
        Seq::empty()
    })
}

/// Where a snapshot goes in a registry.
pub open spec fn push_dest_spec(registry: Seq<char>, service: Seq<char>, profile: Seq<char>) -> Seq<
    char,
> {
    without_trailing(registry, '/') + "/"@ + service + "/"@ + profile + "/"@
}

/// The words that synchronise a directory into a registry, after the tool's
/// name; none for a registry of an unknown kind.
pub open spec fn push_words(registry: Seq<char>, dir: Seq<char>, dest: Seq<char>) -> Option<
    (Seq<char>, Seq<Seq<char>>),
> {
    if starts_with_spec(registry, "s3://"@) {
        Some(("aws"@, seq!["s3"@, "sync"@, dir, dest, "--delete"@]))
    } else if starts_with_spec(registry, "gs://"@) {
        Some(("gsutil"@, seq!["-m"@, "rsync"@, "-r"@, "-d"@, dir, dest]))
    } else {
        None
    }
}

/// The failure of a snapshot whose manifest is not there.
pub fn manifest_missing(service: &str, profile: &str) -> (r: Error)
    ensures
        r matches Error::Other(m) && m@ == snapshot_missing_message(service@, profile@),
{
    let mut m = concat3("Snapshot '", service, "/");
    m.append(profile);
    m.append("' not found");
    Error::Other(m)
}

/// The place of the data of a snapshot profile.
pub fn seed_payload_path(root: &str, service: &str, profile: &str) -> (r: String)
    ensures
        r@ == join_spec(join_spec(join_spec(root@, service@), profile@), "seed.json"@),
{
    let dir = snapshot_dir(root, service, profile);
    join(dir.as_str(), "seed.json")
}

/// Reads the data of a snapshot profile from the text of its file; `None`
/// stands for a file that is not there.
pub fn load_seed_payload(root: &str, service: &str, profile: &str, content: Option<&str>) -> (r:
    Result<serde_json::Value, Error>)
    ensures
        content is None ==> (r matches Err(Error::Other(m)) && m@ == payload_missing_message(
            join_spec(join_spec(join_spec(root@, service@), profile@), "seed.json"@),
        )),
        content matches Some(text) ==> seed_data_as(false, json_document(text@), r),
{
    match content {
        None => {
            let path = seed_payload_path(root, service, profile);
            Err(Error::Other(concat2("Snapshot seed payload not found at ", path.as_str())))
        },
        Some(text) => parse_seed_payload(text),
    }
}

/// Plans the pull of a snapshot by the pull script of a service. Nothing is
/// pulled under strict compliance, and nothing without the script.
pub fn pull_plan(
    args: &SnapshotPullArgs,
    compliance: Option<&str>,
    service_path: &str,
    script_exists: bool,
) -> (r: Result<Vec<String>, Error>)
    ensures
        (compliance matches Some(v) && is_strict(v@)) ==> (r matches Err(Error::Other(m)) && m@
            == pull_disabled_message()),
        !(compliance matches Some(v) && is_strict(v@)) && !script_exists ==> (r matches Err(
            Error::Other(m),
        ) && m@ == no_connector_message(args.service@)),
        !(compliance matches Some(v) && is_strict(v@)) && script_exists ==> (r matches Ok(words)
            && words@.map_values(|w: String| w@) == pull_words(*args, service_path@)),
{
    if is_compliance_mode(compliance) {
        return Err(
            Error::Other(
                String::from_str(
                    "Snapshot pull is disabled in compliance mode (DOUBLEAGENT_COMPLIANCE_MODE=strict).\nRemove or change the env var to allow snapshot operations.",
                ),
            ),
        );
    }
    let service = args.service.as_str();
    if !script_exists {
        let mut m = concat3(
            "No connector/pull.py found for service '",
            service,
            "'. \nAdd a pull script at services/",
        );
        m.append(service);
        m.append("/connector/pull.py, \nor use 'doubleagent seed ");
        m.append(service);
        m.append(" --fixture <name>' to load fixture data.");
        return Err(Error::Other(m));
    }
    let connector = join(service_path, "connector");
    let mut words: Vec<String> = Vec::new();
    words.push(String::from_str("uv"));
    words.push(String::from_str("run"));
    words.push(String::from_str("python"));
    words.push(join(connector.as_str(), "pull.py"));
    words.push(String::from_str("--service"));
    words.push(args.service.clone());
    words.push(String::from_str("--profile"));
    match &args.profile {
        Some(p) => words.push(p.clone()),
        None => words.push(String::from_str("default")),
    }
    match args.limit {
        Some(l) => {
            words.push(String::from_str("--limit"));
            words.push(u64_to_string(l as u64));
        },
        None => {},
    }
    if args.no_redact {
        words.push(String::from_str("--no-redact"));
    }
    if args.incremental {
        words.push(String::from_str("--incremental"));
    }
    assert(words@.map_values(|w: String| w@) =~= pull_words(*args, service_path@));
    Ok(words)
}

/// Where a snapshot goes in a registry.
pub fn push_dest(registry: &str, service: &str, profile: &str) -> (r: String)
    ensures
        r@ == push_dest_spec(registry@, service@, profile@),
{
    let mut dest = trim_trailing(registry, '/');
    dest.append("/");
    dest.append(service);
    dest.append("/");
    dest.append(profile);
    dest.append("/");
    dest
}

/// Plans the push of a snapshot to a registry: a snapshot that is not there
/// is refused, and so is a registry that is neither `s3://` nor `gs://`.
pub fn push_plan(registry: &str, dir: &str, service: &str, profile: &str, dir_exists: bool) -> (r:
    Result<CommandLine, Error>)
    ensures
        !dir_exists ==> (r matches Err(Error::Other(m)) && m@ == not_pulled_message(
            service@,
            profile@,
        )),
        dir_exists ==> match push_words(
            registry@,
            dir@,
            push_dest_spec(registry@, service@, profile@),
        ) {
            Some((tool, words)) => r matches Ok(c) && c.program@ == tool && c.args@.map_values(
                |w: String| w@,
            ) == words,
            None => r matches Err(Error::Other(m)) && m@ == unsupported_registry_message(),
        },
{
    if !dir_exists {
        let mut m = concat3("Snapshot '", service, "/");
        m.append(profile);
        m.append("' not found locally. Pull it first.");
        return Err(Error::Other(m));
    }
    let dest = push_dest(registry, service, profile);
    let ghost planned = push_words(registry@, dir@, dest@);
    let mut args: Vec<String> = Vec::new();
    if starts_with(registry, "s3://") {
        args.push(String::from_str("s3"));
        args.push(String::from_str("sync"));
        args.push(String::from_str(dir));
        args.push(dest);
        args.push(String::from_str("--delete"));
        assert(args@.map_values(|w: String| w@) =~= planned->Some_0.1);
        Ok(CommandLine { program: String::from_str("aws"), args })
    } else if starts_with(registry, "gs://") {
        args.push(String::from_str("-m"));
        args.push(String::from_str("rsync"));
        args.push(String::from_str("-r"));
        args.push(String::from_str("-d"));
        args.push(String::from_str(dir));
        args.push(dest);
        assert(args@.map_values(|w: String| w@) =~= planned->Some_0.1);
        Ok(CommandLine { program: String::from_str("gsutil"), args })
    } else {
        Err(Error::Other(String::from_str("Unsupported registry protocol. Use s3://... or gs://...")))
    }
}

/// A snapshot that was found on disk.
#[derive(Debug, Clone, PartialEq, Eq)]
pub struct SnapshotFound {
    /// The service that it belongs to.
    pub service: String,
    /// When it was pulled: a number that is the higher the later that was.
    pub pulled: u64,
}

/// The service that a listing is narrowed to, as text.
pub open spec fn wanted(service: Option<&str>) -> Option<Seq<char>> {
    match service {
        Some(s) => Some(s@),
        None => None,
    }
}

/// The snapshot at a position belongs to the listing.
pub open spec fn is_wanted(found: Seq<SnapshotFound>, service: Option<Seq<char>>, i: int) -> bool {
    0 <= i < found.len() && (service matches Some(s) ==> found[i].service@ == s)
}

/// The snapshot at `a` goes before the one at `b`: it was pulled later, or at
/// the same time and was found earlier.
pub open spec fn goes_before(found: Seq<SnapshotFound>, a: int, b: int) -> bool {
    found[a].pulled > found[b].pulled || (found[a].pulled == found[b].pulled && a < b)
}

/// The positions are those of the snapshots that belong to the listing, the
/// newest first.
pub open spec fn snapshots_listed(
    found: Seq<SnapshotFound>,
    service: Option<Seq<char>>,
    order: Seq<usize>,
) -> bool {
    &&& forall|k: int|
        0 <= k < order.len() ==> is_wanted(found, service, #[trigger] order[k] as int)
    &&& forall|i: int| #[trigger] is_wanted(found, service, i) ==> order.contains(i as usize)
    &&& forall|a: int, b: int|
        0 <= a < b < order.len() ==> goes_before(
            found,
            #[trigger] order[a] as int,
            #[trigger] order[b] as int,
        )
}

/// Orders the snapshots that were found: those of the given service, or all
/// where none is given, the newest first; snapshots of one time stay in the
/// order in which they were found. The result names them by their positions.
pub fn list_snapshots(found: &Vec<SnapshotFound>, service: Option<&str>) -> (r: Vec<usize>)
    ensures
        snapshots_listed(found@, wanted(service), r@),
{
    let ghost filter = wanted(service);
    let mut out: Vec<usize> = Vec::new();
    let mut i: usize = 0;
    while i < found.len()
        invariant
            i <= found.len(),
            filter == wanted(service),
            forall|k: int|
                0 <= k < out@.len() ==> (#[trigger] out@[k]) < i && is_wanted(
                    found@,
                    filter,
                    out@[k] as int,
                ),
            forall|x: int|
                0 <= x < i && #[trigger] is_wanted(found@, filter, x) ==> out@.contains(x as usize),
            forall|a: int, b: int|
                0 <= a < b < out@.len() ==> goes_before(
                    found@,
                    #[trigger] out@[a] as int,
                    #[trigger] out@[b] as int,
                ),
        decreases found.len() - i,
    {
        let keep = match service {
            None => true,
            Some(s) => str_eq(found[i].service.as_str(), s),
        };
        if keep {
            let mut p: usize = 0;
            while p < out.len() && found[out[p]].pulled >= found[i].pulled
                invariant
                    p <= out@.len(),
                    i < found@.len(),
                    forall|k: int| 0 <= k < out@.len() ==> (#[trigger] out@[k]) < i,
                    forall|k: int|
                        0 <= k < p ==> found@[(#[trigger] out@[k]) as int].pulled
                            >= found@[i as int].pulled,
                decreases out@.len() - p,
            {
                p += 1;
            }
            let ghost before = out@;
            out.insert(p, i);
            proof {
                assert(out@[p as int] == i);
                assert forall|k: int| 0 <= k < out@.len() implies (#[trigger] out@[k]) < i + 1
                    && is_wanted(found@, filter, out@[k] as int) by {
                    if k < p {
                        assert(out@[k] == before[k]);
                    } else if k > p {
                        assert(out@[k] == before[k - 1]);
                    }
                }
                assert forall|x: int|
                    0 <= x < i + 1 && #[trigger] is_wanted(found@, filter, x) implies out@.contains(
                    x as usize,
                ) by {
                    if x < i {
                        let k = choose|k: int| 0 <= k < before.len() && before[k] == x as usize;
                        if k < p {
                            assert(out@[k] == x as usize);
                        } else {
                            assert(out@[k + 1] == x as usize);
                        }
                    }
                }
                assert forall|a: int, b: int| 0 <= a < b < out@.len() implies goes_before(
                    found@,
                    #[trigger] out@[a] as int,
                    #[trigger] out@[b] as int,
                ) by {
                    let a0 = if a < p {
                        a
                    } else {
                        a - 1
                    };
                    let b0 = if b < p {
                        b
                    } else {
                        b - 1
                    };
                    if a != p {
                        assert(out@[a] == before[a0]);
                    }
                    if b != p {
                        assert(out@[b] == before[b0]);
                    }
                    if a == p && b0 > p {
                        assert(goes_before(found@, before[p as int] as int, before[b0] as int));
                    }
                }
            }
        }
        i += 1;
    }
    proof {
        assert forall|x: int| #[trigger] is_wanted(found@, filter, x) implies out@.contains(
            x as usize,
        ) by {}
    }
    out
}

} // verus!
