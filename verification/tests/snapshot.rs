use doubleagent_core::commands::SnapshotPullArgs;
use doubleagent_core::contract::{contract_plan, contracts_dir, CONTRACT_PORT};
use doubleagent_core::error::Error;
use doubleagent_core::service::{ContractsConfig, ServerConfig, ServiceDefinition};
use doubleagent_core::snapshot::{
    list_snapshots, load_seed_payload, manifest_missing, pull_plan, push_dest, push_plan,
    seed_payload_path, SnapshotFound,
};
use doubleagent_core::text::{starts_with, trim_trailing};

fn strings(items: &[&str]) -> Vec<String> {
    items.iter().map(|s| s.to_string()).collect()
}

fn pull_args() -> SnapshotPullArgs {
    SnapshotPullArgs {
        service: "github".to_string(),
        profile: None,
        limit: None,
        no_redact: false,
        incremental: false,
        backend: None,
    }
}

fn service(contracts: Option<ContractsConfig>) -> ServiceDefinition {
    ServiceDefinition {
        name: "github".to_string(),
        version: None,
        description: None,
        docs: None,
        server: ServerConfig { command: strings(&["run"]), port: 8080, env: Vec::new() },
        contracts,
        path: "/services/github".to_string(),
    }
}

fn contracts(command: &[&str]) -> Option<ContractsConfig> {
    Some(ContractsConfig { command: strings(command), directory: "contracts".to_string() })
}

#[test]
fn load_manifest_and_seed_payload_report_missing() {
    let missing_manifest = manifest_missing("github", "missing").message();
    assert!(missing_manifest.contains("Snapshot 'github/missing' not found"));

    let missing_seed = load_seed_payload("/snaps", "github", "default", None).unwrap_err().message();
    assert!(missing_seed.contains("Snapshot seed payload not found"));
    assert_eq!(missing_seed, "Snapshot seed payload not found at /snaps/github/default/seed.json");
}

#[test]
fn seed_payload_is_read_as_json() {
    assert_eq!(seed_payload_path("/snaps", "github", "default"), "/snaps/github/default/seed.json");
    let expected: serde_json::Value = serde_json::from_str("{\"issues\":[]}").unwrap();
    assert_eq!(
        load_seed_payload("/snaps", "github", "default", Some("{\"issues\":[]}")),
        Ok(expected)
    );
    assert!(matches!(
        load_seed_payload("/snaps", "github", "default", Some("issues: []")),
        Err(Error::JsonError(_))
    ));
}

#[test]
fn pull_is_refused_under_strict_compliance() {
    let r = pull_plan(&pull_args(), Some("Strict"), "/services/github", true);
    assert_eq!(
        r,
        Err(Error::Other(
            "Snapshot pull is disabled in compliance mode (DOUBLEAGENT_COMPLIANCE_MODE=strict).\nRemove or change the env var to allow snapshot operations."
                .to_string()
        ))
    );
}

#[test]
fn pull_needs_the_pull_script() {
    let r = pull_plan(&pull_args(), Some("warn"), "/services/github", false);
    assert_eq!(
        r,
        Err(Error::Other(
            "No connector/pull.py found for service 'github'. \nAdd a pull script at services/github/connector/pull.py, \nor use 'doubleagent seed github --fixture <name>' to load fixture data."
                .to_string()
        ))
    );
}

#[test]
fn pull_runs_the_pull_script() {
    assert_eq!(
        pull_plan(&pull_args(), None, "/services/github", true),
        Ok(strings(&[
            "uv",
            "run",
            "python",
            "/services/github/connector/pull.py",
            "--service",
            "github",
            "--profile",
            "default"
        ]))
    );
    let mut args = pull_args();
    args.profile = Some("big".to_string());
    args.limit = Some(250);
    args.no_redact = true;
    args.incremental = true;
    assert_eq!(
        pull_plan(&args, None, "/services/github", true),
        Ok(strings(&[
            "uv",
            "run",
            "python",
            "/services/github/connector/pull.py",
            "--service",
            "github",
            "--profile",
            "big",
            "--limit",
            "250",
            "--no-redact",
            "--incremental"
        ]))
    );
}

#[test]
fn push_goes_to_s3_or_gs() {
    assert_eq!(push_dest("s3://bucket/prefix//", "github", "default"), "s3://bucket/prefix/github/default/");
    let plan = push_plan("s3://bucket/prefix/", "/snaps/github/default", "github", "default", true)
        .unwrap();
    assert_eq!(plan.program, "aws");
    assert_eq!(
        plan.args,
        strings(&[
            "s3",
            "sync",
            "/snaps/github/default",
            "s3://bucket/prefix/github/default/",
            "--delete"
        ])
    );
    let plan =
        push_plan("gs://bucket", "/snaps/github/default", "github", "default", true).unwrap();
    assert_eq!(plan.program, "gsutil");
    assert_eq!(
        plan.args,
        strings(&["-m", "rsync", "-r", "-d", "/snaps/github/default", "gs://bucket/github/default/"])
    );
}

#[test]
fn push_refuses_what_it_cannot_do() {
    assert_eq!(
        push_plan("ftp://x", "/snaps/github/default", "github", "default", true),
        Err(Error::Other("Unsupported registry protocol. Use s3://... or gs://...".to_string()))
    );
    assert_eq!(
        push_plan("s3://x", "/snaps/github/default", "github", "default", false),
        Err(Error::Other("Snapshot 'github/default' not found locally. Pull it first.".to_string()))
    );
}

#[test]
fn beginnings_and_trailing_runs() {
    assert!(starts_with("s3://b", "s3://"));
    assert!(!starts_with("s3:/", "s3://"));
    assert!(starts_with("x", ""));
    assert_eq!(trim_trailing("a/b///", '/'), "a/b");
    assert_eq!(trim_trailing("///", '/'), "");
    assert_eq!(trim_trailing("a", '/'), "a");
    assert_eq!(trim_trailing("", '/'), "");
}

#[test]
fn contract_tests_need_a_contracts_section() {
    assert_eq!(CONTRACT_PORT, 18080);
    let expected = Error::Other(
        "No contracts configuration found in service.yaml for 'github'.\nAdd a 'contracts' section with a 'command' to run tests."
            .to_string(),
    );
    assert_eq!(contracts_dir("github", &service(None)), Err(expected.clone()));
    assert_eq!(contract_plan("github", &service(None), 18080, true, false, false), Err(expected));
}

#[test]
fn contract_tests_need_their_directory_and_a_command() {
    let svc = service(contracts(&["pytest", "-v"]));
    assert_eq!(contracts_dir("github", &svc), Ok("/services/github/contracts".to_string()));
    assert_eq!(
        contract_plan("github", &svc, 18080, false, false, false),
        Err(Error::Other(
            "Contracts directory not found for github. Expected: /services/github/contracts"
                .to_string()
        ))
    );
    assert_eq!(
        contract_plan("github", &service(contracts(&[])), 18080, true, false, false),
        Err(Error::Other(
            "No command specified in contracts configuration for 'github'".to_string()
        ))
    );
}

#[test]
fn contract_tests_run_against_the_service() {
    let svc = service(contracts(&["pytest", "-v"]));
    let plan = contract_plan("git-hub", &svc, 18080, true, false, false).unwrap();
    assert_eq!(plan.command.program, "pytest");
    assert_eq!(plan.command.args, strings(&["-v"]));
    assert_eq!(plan.current_dir, "/services/github/contracts");
    assert_eq!(plan.env_name, "DOUBLEAGENT_GIT-HUB_URL");
    assert_eq!(plan.env_value, "http://localhost:18080");
    let plan = contract_plan("github", &svc, 18080, true, true, true).unwrap();
    assert_eq!(plan.command.program, "mise");
    assert_eq!(plan.command.args, strings(&["exec", "--", "pytest", "-v"]));
    assert!(contract_plan("github", &svc, 18080, true, true, false).is_err());
}

fn found(service: &str, pulled: u64) -> SnapshotFound {
    SnapshotFound { service: service.to_string(), pulled }
}

#[test]
fn list_snapshots_returns_newest_first() {
    let profiles = ["older", "newer", "middle"];
    let snapshots = vec![found("github", 100), found("github", 200), found("slack", 150)];

    let list = list_snapshots(&snapshots, None);
    let keys: Vec<(String, String)> = list
        .iter()
        .map(|i| (snapshots[*i].service.clone(), profiles[*i].to_string()))
        .collect();
    assert_eq!(
        keys,
        vec![
            ("github".to_string(), "newer".to_string()),
            ("slack".to_string(), "middle".to_string()),
            ("github".to_string(), "older".to_string()),
        ]
    );
}

#[test]
fn list_snapshots_can_filter_by_service() {
    let snapshots = vec![found("github", 100), found("slack", 200)];

    let list = list_snapshots(&snapshots, Some("github"));
    assert_eq!(list.len(), 1);
    assert_eq!(snapshots[list[0]].service, "github");
}

#[test]
fn list_snapshots_keeps_the_order_of_equal_times() {
    let snapshots = vec![
        found("a", 5),
        found("b", 7),
        found("a", 5),
        found("b", 5),
        found("a", u64::MAX),
        found("a", 0),
    ];
    assert_eq!(list_snapshots(&snapshots, None), vec![4, 1, 0, 2, 3, 5]);
    assert_eq!(list_snapshots(&snapshots, Some("a")), vec![4, 0, 2, 5]);
    assert_eq!(list_snapshots(&snapshots, Some("c")), Vec::<usize>::new());
    assert_eq!(list_snapshots(&Vec::new(), None), Vec::<usize>::new());
}
