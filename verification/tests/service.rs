use doubleagent_core::error::Error;
use doubleagent_core::git::{DirEntry, SourceProbe, UpdateAttempt};
use doubleagent_core::service::{
    default_contracts_dir, sort_by_name, ContractsConfig, InstalledEntry, ManifestRead,
    Resolution, ResolveAction, ResolveProgress, ServerConfig, ServiceDefinition, ServiceRegistry,
};

fn registry() -> ServiceRegistry {
    ServiceRegistry::new("/home/u/.doubleagent/services", "https://example.com/repo.git", "main")
        .unwrap()
}

fn definition(name: &str) -> ServiceDefinition {
    ServiceDefinition {
        name: name.to_string(),
        version: Some("1.0".to_string()),
        description: None,
        docs: None,
        server: ServerConfig {
            command: vec!["uvicorn".to_string(), "app:app".to_string()],
            port: 8080,
            env: vec![("MODE".to_string(), "fake".to_string())],
        },
        contracts: Some(ContractsConfig {
            command: vec!["pytest".to_string()],
            directory: default_contracts_dir(),
        }),
        path: String::new(),
    }
}

fn dir_entry(name: &str, has_manifest: bool) -> DirEntry {
    DirEntry { name: Some(name.to_string()), is_dir: true, has_manifest }
}

fn installed(name: &str, is_dir: bool, manifest: Option<ServiceDefinition>) -> InstalledEntry {
    InstalledEntry { name: Some(name.to_string()), is_dir, manifest }
}

#[test]
fn registry_installs_where_it_reads() {
    let reg = registry();
    assert_eq!(reg.services_dir, "/home/u/.doubleagent/services");
    assert_eq!(reg.fetcher.cache_dir, "/home/u/.doubleagent/services");
    assert_eq!(reg.fetcher.repo_url, "https://example.com/repo.git");
    assert_eq!(reg.fetcher.branch, "main");
    assert_eq!(
        reg.manifest_path("github"),
        "/home/u/.doubleagent/services/github/service.yaml"
    );
}

#[test]
fn default_contracts_dir_is_contracts() {
    assert_eq!(default_contracts_dir(), "contracts");
}

#[test]
fn is_installed_needs_a_manifest() {
    let entries = vec![dir_entry("github", true), dir_entry("slack", false)];
    let reg = registry();
    assert!(reg.is_installed("github", &entries));
    assert!(!reg.is_installed("slack", &entries));
    assert!(!reg.is_installed("jira", &entries));
    assert!(!reg.is_installed("github", &Vec::new()));
}

#[test]
fn get_or_install_short_circuits_on_an_installed_service() {
    let entries = vec![dir_entry("github", true)];
    let reg = registry();
    assert_eq!(reg.get_or_install("github", true, &entries), Ok(Resolution::Installed));
    assert_eq!(reg.get_or_install("github", false, &entries), Ok(Resolution::Installed));
}

#[test]
fn get_or_install_fetches_where_allowed() {
    let reg = registry();
    assert_eq!(reg.get_or_install("github", true, &Vec::new()), Ok(Resolution::FetchFirst));
}

#[test]
fn get_or_install_fails_where_not_allowed() {
    let reg = registry();
    assert_eq!(
        reg.get_or_install("github", false, &Vec::new()),
        Err(Error::ServiceNotFound(
            "Service 'github' not installed. Run 'doubleagent add github' to install it."
                .to_string()
        ))
    );
}

#[test]
fn get_keeps_the_manifest_and_sets_the_path() {
    let d = definition("github");
    let got = registry().get("github", ManifestRead::Parsed(d.clone())).unwrap();
    assert_eq!(got.server.command, d.server.command);
    assert_eq!(got.server.command, vec!["uvicorn".to_string(), "app:app".to_string()]);
    assert_eq!(got.server, d.server);
    assert_eq!(got.name, d.name);
    assert_eq!(got.version, d.version);
    assert_eq!(got.description, d.description);
    assert_eq!(got.docs, d.docs);
    assert_eq!(got.contracts, d.contracts);
    assert_eq!(got.path, "/home/u/.doubleagent/services/github");
}

#[test]
fn get_reports_a_missing_manifest_with_a_hint() {
    assert_eq!(
        registry().get("github", ManifestRead::Missing),
        Err(Error::ServiceNotFound(
            "Service 'github' not installed. Run 'doubleagent add github' to install it, or 'doubleagent list --remote' to see available services."
                .to_string()
        ))
    );
}

#[test]
fn get_passes_read_and_parse_failures_on() {
    assert_eq!(
        registry().get("github", ManifestRead::Unreadable("denied".to_string())),
        Err(Error::IoError("denied".to_string()))
    );
    assert_eq!(
        registry().get("github", ManifestRead::Invalid("missing field `name`".to_string())),
        Err(Error::YamlError("missing field `name`".to_string()))
    );
}

#[test]
fn list_sorts_by_name_and_skips_what_is_no_service() {
    let entries = vec![
        installed("slack", true, Some(definition("slack"))),
        installed(".repo", true, Some(definition("hidden"))),
        installed("broken", true, None),
        installed("file.txt", false, Some(definition("file"))),
        InstalledEntry { name: None, is_dir: true, manifest: Some(definition("unnamed")) },
        installed("github", true, Some(definition("github"))),
    ];
    let listed = registry().list(entries).unwrap();
    let names: Vec<&str> = listed.iter().map(|d| d.name.as_str()).collect();
    assert_eq!(names, vec!["github", "slack"]);
    assert_eq!(listed[0].path, "/home/u/.doubleagent/services/github");
    assert_eq!(listed[1].path, "/home/u/.doubleagent/services/slack");
    assert_eq!(listed[0].server, definition("github").server);
}

#[test]
fn list_of_nothing_is_empty() {
    assert!(registry().list(Vec::new()).unwrap().is_empty());
}

#[test]
fn list_sorts_by_the_name_in_the_manifest() {
    let entries = vec![
        installed("a-dir", true, Some(definition("zulu"))),
        installed("b-dir", true, Some(definition("alpha"))),
    ];
    let listed = registry().list(entries).unwrap();
    assert_eq!(listed[0].name, "alpha");
    assert_eq!(listed[0].path, "/home/u/.doubleagent/services/b-dir");
    assert_eq!(listed[1].name, "zulu");
}

#[test]
fn sort_by_name_keeps_the_order_of_equal_names() {
    let mut first = definition("same");
    first.path = "1".to_string();
    let mut second = definition("same");
    second.path = "2".to_string();
    let mut third = definition("a");
    third.path = "3".to_string();
    let sorted = sort_by_name(vec![first, second, third]);
    let paths: Vec<&str> = sorted.iter().map(|d| d.path.as_str()).collect();
    assert_eq!(paths, vec!["3", "1", "2"]);
}

#[test]
fn definitions_are_checked_for_their_form() {
    assert!(definition("github").is_well_formed());
    let mut unnamed = definition("");
    assert!(!unnamed.is_well_formed());
    unnamed.name = "x".to_string();
    unnamed.server.command.clear();
    assert!(!unnamed.is_well_formed());
    let mut twice = definition("github");
    twice.server.env.push(("OTHER".to_string(), "1".to_string()));
    assert!(twice.is_well_formed());
    twice.server.env.push(("MODE".to_string(), "real".to_string()));
    assert!(!twice.is_well_formed());
}

#[test]
fn registry_passes_through_to_the_fetcher() {
    let reg = registry();
    let entries = vec![dir_entry("beta", true), dir_entry("alpha", true)];
    assert_eq!(
        reg.list_remote(&entries),
        Ok(vec!["alpha".to_string(), "beta".to_string()])
    );
    let plan = reg.add("github", SourceProbe { exists: true, has_manifest: true }, false).unwrap();
    assert_eq!(plan.dest, "/home/u/.doubleagent/services/github");
    assert!(matches!(
        reg.add("github", SourceProbe { exists: false, has_manifest: false }, false),
        Err(Error::ServiceNotFound(_))
    ));
    assert!(matches!(
        reg.update("github", false, SourceProbe { exists: true, has_manifest: true }),
        Err(Error::ServiceNotFound(_))
    ));
    assert!(reg
        .update("github", true, SourceProbe { exists: true, has_manifest: true })
        .unwrap()
        .remove_existing);
    let bulk = reg
        .update_all(vec![UpdateAttempt {
            name: "a".to_string(),
            outcome: Err(Error::Other("x".to_string())),
        }])
        .unwrap();
    assert!(bulk.updated.is_empty());
    assert_eq!(bulk.failed.len(), 1);
}

#[test]
fn an_installed_service_is_resolved_without_a_fetch() {
    let reg = registry();
    let begin = ResolveProgress::Begin {
        entries: vec![dir_entry("github", true)],
        auto_install: true,
    };
    assert_eq!(
        reg.resolve_next("github", begin),
        ResolveAction::ReadManifest {
            path: "/home/u/.doubleagent/services/github/service.yaml".to_string()
        }
    );
    let read = ResolveProgress::Read(ManifestRead::Parsed(definition("github")));
    match reg.resolve_next("github", read) {
        ResolveAction::Done(d) => {
            assert_eq!(d.path, "/home/u/.doubleagent/services/github");
            assert_eq!(d.server, definition("github").server);
        }
        other => panic!("expected the definition, got {:?}", other),
    }
}

#[test]
fn a_missing_service_is_fetched_then_read() {
    let reg = registry();
    let begin = ResolveProgress::Begin { entries: Vec::new(), auto_install: true };
    assert_eq!(reg.resolve_next("github", begin), ResolveAction::Fetch);
    let fetched = ResolveProgress::Fetched(Ok("/home/u/.doubleagent/services/github".to_string()));
    assert_eq!(
        reg.resolve_next("github", fetched),
        ResolveAction::ReadManifest {
            path: "/home/u/.doubleagent/services/github/service.yaml".to_string()
        }
    );
    let failed = ResolveProgress::Fetched(Err(Error::ServiceNotFound("gone".to_string())));
    assert_eq!(
        reg.resolve_next("github", failed),
        ResolveAction::GiveUp(Error::ServiceNotFound("gone".to_string()))
    );
}

#[test]
fn a_missing_service_cannot_be_had_without_a_fetch() {
    let reg = registry();
    let begin = ResolveProgress::Begin { entries: Vec::new(), auto_install: false };
    assert_eq!(
        reg.resolve_next("github", begin),
        ResolveAction::GiveUp(Error::ServiceNotFound(
            "Service 'github' not installed. Run 'doubleagent add github' to install it."
                .to_string()
        ))
    );
    assert!(matches!(
        reg.resolve_next("github", ResolveProgress::Read(ManifestRead::Missing)),
        ResolveAction::GiveUp(Error::ServiceNotFound(_))
    ));
}
