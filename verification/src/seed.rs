//! Seeding a running service with data: where the data comes from and how
//! the text of a data file is read.

use crate::commands::SeedArgs;
use crate::error::Error;
use crate::paths::{join, join_spec};
use crate::text::{concat2, concat3, decimal, ends_with, ends_with_spec, u64_to_string};
use vstd::prelude::*;
use vstd::string::*;

verus! {

/// A JSON document of `serde_json`. Nothing is known of what it holds.
#[verifier::external_type_specification]
#[verifier::external_body]
pub struct ExJsonValue(serde_json::Value);

/// Where the data of a seeding comes from.
#[derive(Debug, Clone, PartialEq, Eq)]
pub enum SeedSource {
    /// A snapshot profile of the service.
    Snapshot(String),
    /// A file.
    File(String),
}

/// What the caller found when it looked for a fixture of a service.
#[derive(Debug, PartialEq, Eq)]
pub struct FixtureProbe {
    /// The directory of the installed service, or why there is none.
    pub service_path: Result<String, Error>,
    /// The fixture is there with the ending `.yaml`.
    pub has_yaml: bool,
    /// The fixture is there with the ending `.yml`.
    pub has_yml: bool,
}

/// How many of the three sources the arguments name.
pub open spec fn sources_named(args: SeedArgs) -> int {
    (if args.snapshot is Some {
        1int
    } else {
        0int
    }) + (if args.fixture is Some {
        1int
    } else {
        0int
    }) + (if args.file is Some {
        1int
    } else {
        0int
    })
}

pub open spec fn too_many_sources_message() -> Seq<char> {
    "Use only one of: --snapshot, --fixture, or a file path"@
}

pub open spec fn no_source_message(service: Seq<char>) -> Seq<char> {
    "A seed source is required.\nUsage: doubleagent seed "@ + service
        + " --snapshot default\nUsage: doubleagent seed "@ + service
        + " --fixture startup\nUsage: doubleagent seed "@ + service + " path/to/data.yaml"@
}

/// The place of a fixture below a service, with the given ending.
pub open spec fn fixture_path_spec(
    service_path: Seq<char>,
    fixture: Seq<char>,
    ending: Seq<char>,
) -> Seq<char> {
    join_spec(join_spec(service_path, "fixtures"@), fixture + ending)
}

pub open spec fn fixture_missing_message(
    fixture: Seq<char>,
    service: Seq<char>,
    service_path: Seq<char>,
) -> Seq<char> {
    "Fixture '"@ + fixture + "' not found for service '"@ + service + "' (looked in "@
        + fixture_path_spec(service_path, fixture, ".yaml"@) + ")"@
}

/// What a fixture resolves to, given what the caller found.
pub open spec fn fixture_resolved(
    args: SeedArgs,
    fixture: Seq<char>,
    probe: FixtureProbe,
    r: Result<SeedSource, Error>,
) -> bool {
    match probe.service_path {
        Err(e) => r == Err::<SeedSource, Error>(e),
        Ok(path) => if probe.has_yaml {
            r matches Ok(SeedSource::File(p)) && p@ == fixture_path_spec(path@, fixture, ".yaml"@)
        } else if probe.has_yml {
            r matches Ok(SeedSource::File(p)) && p@ == fixture_path_spec(path@, fixture, ".yml"@)
        } else {
            r matches Err(Error::Other(m)) && m@ == fixture_missing_message(
                fixture,
                args.service@,
                path@,
            )
        },
    }
}

/// A data file is read as YAML if its name ends with `.yaml` or `.yml`.
pub open spec fn is_yaml_path(path: Seq<char>) -> bool {
    ends_with_spec(path, ".yaml"@) || ends_with_spec(path, ".yml"@)
}

/// The endpoint that takes the data.
pub open spec fn seed_url_spec(port: u16) -> Seq<char> {
    "http://localhost:"@ + decimal(port as nat) + "/_doubleagent/seed"@
}

/// The endpoint that resets a service: softly, or hard.
pub open spec fn reset_url_spec(port: u16, hard: bool) -> Seq<char> {
    if hard {
        "http://localhost:"@ + decimal(port as nat) + "/_doubleagent/reset"@ + "?hard=true"@
    } else {
        "http://localhost:"@ + decimal(port as nat) + "/_doubleagent/reset"@
    }
}

/// How a source is named to the operator.
pub open spec fn seed_label_spec(source: SeedSource) -> Seq<char> {
    match source {
        SeedSource::Snapshot(profile) => "snapshot:"@ + profile@,
        SeedSource::File(path) => path@,
    }
}

/// The place of a fixture below a service, with the given ending.
pub fn fixture_path(service_path: &str, fixture: &str, ending: &str) -> (r: String)
    ensures
        r@ == fixture_path_spec(service_path@, fixture@, ending@),
{
    let dir = join(service_path, "fixtures");
    let file = concat2(fixture, ending);
    join(dir.as_str(), file.as_str())
}

/// Settles where the data comes from. Exactly one source may be named: a
/// snapshot profile, a fixture or a file. A fixture is looked for below the
/// installed service, first with the ending `.yaml`, then with `.yml`; what
/// the caller found there is looked at for a fixture only.
pub fn resolve_seed_source(args: &SeedArgs, probe: FixtureProbe) -> (r: Result<SeedSource, Error>)
    ensures
        sources_named(*args) > 1 ==> (r matches Err(Error::Other(m)) && m@
            == too_many_sources_message()),
        sources_named(*args) == 0 ==> (r matches Err(Error::Other(m)) && m@ == no_source_message(
            args.service@,
        )),
        sources_named(*args) == 1 ==> match (args.snapshot, args.fixture, args.file) {
            (Some(profile), _, _) => r matches Ok(SeedSource::Snapshot(p)) && p == profile,
            (None, Some(fixture), _) => fixture_resolved(*args, fixture@, probe, r),
            (None, None, Some(file)) => r matches Ok(SeedSource::File(p)) && p == file,
            (None, None, None) => true,
        },
{
    let mut named: u8 = 0;
    if args.snapshot.is_some() {
        named += 1;
    }
    if args.fixture.is_some() {
        named += 1;
    }
    if args.file.is_some() {
        named += 1;
    }
    if named > 1 {
        return Err(
            Error::Other(String::from_str("Use only one of: --snapshot, --fixture, or a file path")),
        );
    }
    match &args.snapshot {
        Some(profile) => {
            return Ok(SeedSource::Snapshot(profile.clone()));
        },
        None => {},
    }
    match &args.fixture {
        Some(fixture) => {
            let FixtureProbe { service_path, has_yaml, has_yml } = probe;
            match service_path {
                Err(e) => {
                    return Err(e);
                },
                Ok(path) => {
                    let yaml_path = fixture_path(path.as_str(), fixture.as_str(), ".yaml");
                    if has_yaml {
                        return Ok(SeedSource::File(yaml_path));
                    }
                    if has_yml {
                        return Ok(
                            SeedSource::File(fixture_path(path.as_str(), fixture.as_str(), ".yml")),
                        );
                    }
                    let mut m = concat3("Fixture '", fixture.as_str(), "' not found for service '");
                    m.append(args.service.as_str());
                    m.append("' (looked in ");
                    m.append(yaml_path.as_str());
                    m.append(")");
                    return Err(Error::Other(m));
                },
            }
        },
        None => {},
    }
    match &args.file {
        Some(file) => {
            return Ok(SeedSource::File(file.clone()));
        },
        None => {},
    }
    let service = args.service.as_str();
    let mut m = concat3(
        "A seed source is required.\nUsage: doubleagent seed ",
        service,
        " --snapshot default\nUsage: doubleagent seed ",
    );
    m.append(service);
    m.append(" --fixture startup\nUsage: doubleagent seed ");
    m.append(service);
    m.append(" path/to/data.yaml");
    Err(Error::Other(m))
}

/// Names a source to the operator.
pub fn seed_label(source: &SeedSource) -> (r: String)
    ensures
        r@ == seed_label_spec(*source),
{
    match source {
        SeedSource::Snapshot(profile) => concat2("snapshot:", profile.as_str()),
        SeedSource::File(path) => path.clone(),
    }
}

/// The endpoint of a service that takes the data.
pub fn seed_url(port: u16) -> (r: String)
    ensures
        r@ == seed_url_spec(port),
{
    let digits = u64_to_string(port as u64);
    concat3("http://localhost:", digits.as_str(), "/_doubleagent/seed")
}

/// The endpoint of a service that resets it.
pub fn reset_url(port: u16, hard: bool) -> (r: String)
    ensures
        r@ == reset_url_spec(port, hard),
{
    let digits = u64_to_string(port as u64);
    let mut url = concat3("http://localhost:", digits.as_str(), "/_doubleagent/reset");
    if hard {
        url.append("?hard=true");
    }
    url
}

/// Tells whether a data file is read as YAML.
pub fn is_yaml_file(path: &str) -> (r: bool)
    ensures
        r == is_yaml_path(path@),
{
    ends_with(path, ".yaml") || ends_with(path, ".yml")
}

/// What a text holds when it is read as JSON: the document, or the message
/// of the parser's error.
pub uninterp spec fn json_document(content: Seq<char>) -> Result<serde_json::Value, Seq<char>>;

/// What a text holds when it is read as YAML into a JSON document: the
/// document, or the message of the parser's error.
pub uninterp spec fn yaml_document(content: Seq<char>) -> Result<serde_json::Value, Seq<char>>;

/// What was parsed is what the named result says: the same document, or an
/// error with the same message.
pub open spec fn parsed_as(
    r: Result<serde_json::Value, String>,
    named: Result<serde_json::Value, Seq<char>>,
) -> bool {
    match named {
        Ok(document) => r == Ok::<serde_json::Value, String>(document),
        Err(message) => r matches Err(m) && m@ == message,
    }
}

/// `serde_json::from_str` for a document of any shape: the document that the
/// text holds, or the message of the parser's error. The result is fixed by
/// the text and known by its name only.
#[verifier::external_body]
fn json_from_str(content: &str) -> (r: Result<serde_json::Value, String>)
    ensures
        parsed_as(r, json_document(content@)),
{
    match serde_json::from_str::<serde_json::Value>(content) {
        Ok(document) => Ok(document),
        Err(e) => Err(e.to_string()),
    }
}

/// `serde_yaml::from_str` for a document of any shape, read into a JSON
/// document: the document that the text holds, or the message of the parser's
/// error. The result is fixed by the text and known by its name only.
#[verifier::external_body]
fn yaml_from_str(content: &str) -> (r: Result<serde_json::Value, String>)
    ensures
        parsed_as(r, yaml_document(content@)),
{
    match serde_yaml::from_str::<serde_json::Value>(content) {
        Ok(document) => Ok(document),
        Err(e) => Err(e.to_string()),
    }
}

/// The data of a seeding, from what a parser's result is named: the document
/// as it is, or the failure of the format that was read.
pub open spec fn seed_data_as(
    yaml: bool,
    named: Result<serde_json::Value, Seq<char>>,
    r: Result<serde_json::Value, Error>,
) -> bool {
    match named {
        Ok(document) => r == Ok::<serde_json::Value, Error>(document),
        Err(message) => if yaml {
            r matches Err(Error::YamlError(m)) && m@ == message
        } else {
            r matches Err(Error::JsonError(m)) && m@ == message
        },
    }
}

/// Turns what a parser gave into the data of a seeding: the document as it
/// is, or the failure of the format that was read.
pub fn seed_data(yaml: bool, parsed: Result<serde_json::Value, String>) -> (r: Result<
    serde_json::Value,
    Error,
>)
    ensures
        r == match parsed {
            Ok(document) => Ok::<serde_json::Value, Error>(document),
            Err(cause) => if yaml {
                Err::<serde_json::Value, Error>(Error::YamlError(cause))
            } else {
                Err::<serde_json::Value, Error>(Error::JsonError(cause))
            },
        },
{
    match parsed {
        Ok(document) => Ok(document),
        Err(cause) => {
            if yaml {
                Err(Error::YamlError(cause))
            } else {
                Err(Error::JsonError(cause))
            }
        },
    }
}

/// Reads the text of a data file: as YAML where the file's name says so,
/// else as JSON. The document comes back as the parser gave it; a failure is
/// one of the format that was tried, with the parser's message.
pub fn parse_seed_file(path: &str, content: &str) -> (r: Result<serde_json::Value, Error>)
    ensures
        is_yaml_path(path@) ==> seed_data_as(true, yaml_document(content@), r),
        !is_yaml_path(path@) ==> seed_data_as(false, json_document(content@), r),
{
    if is_yaml_file(path) {
        seed_data(true, yaml_from_str(content))
    } else {
        seed_data(false, json_from_str(content))
    }
}

/// Reads the text of the data of a snapshot profile, which is JSON.
pub fn parse_seed_payload(content: &str) -> (r: Result<serde_json::Value, Error>)
    ensures
        seed_data_as(false, json_document(content@), r),
{
    seed_data(false, json_from_str(content))
}

} // verus!
