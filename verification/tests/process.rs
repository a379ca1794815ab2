use doubleagent_core::error::Error;
use doubleagent_core::process::{
    health_url, is_healthy, kill_process, status_is_success, HealthEvent, HealthStep,
    KillProgress, ProbeOutcome, ProcessManager, ProcessTable, ServiceInfo, ServiceRecord, Signal,
};
use doubleagent_core::service::{ServerConfig, ServiceDefinition};

fn record(name: &str, pid: u32, port: u16) -> ServiceRecord {
    ServiceRecord {
        name: name.to_string(),
        info: ServiceInfo {
            pid,
            port,
            started_at: "1700000000".to_string(),
            service_path: format!("/services/{}", name),
        },
    }
}

fn table(live: &[u32]) -> ProcessTable {
    ProcessTable { live: live.to_vec() }
}

fn echo_service() -> ServiceDefinition {
    ServiceDefinition {
        name: "echo".to_string(),
        version: None,
        description: None,
        docs: None,
        server: ServerConfig {
            command: vec!["echo".to_string(), "ok".to_string()],
            port: 9999,
            env: vec![("MODE".to_string(), "fake".to_string())],
        },
        contracts: None,
        path: "/services/echo".to_string(),
    }
}

fn sorted_names(manager: &ProcessManager) -> Vec<String> {
    let mut names = manager.running_services();
    names.sort();
    names
}

#[test]
fn new_supervisor_tracks_nothing() {
    let manager = ProcessManager::new();
    assert!(manager.running_services().is_empty());
    assert!(manager.save().is_empty());
    assert_eq!(manager.get_info("github"), None);
}

#[test]
fn load_of_nothing_is_empty() {
    let manager = ProcessManager::load(Vec::new(), &table(&[1, 2, 3]));
    assert!(manager.running_services().is_empty());
}

#[test]
fn load_drops_records_of_dead_processes() {
    let manager = ProcessManager::load(
        vec![record("github", 100, 8080), record("slack", 200, 8081), record("jira", 300, 8082)],
        &table(&[100, 300]),
    );
    assert_eq!(sorted_names(&manager), vec!["github".to_string(), "jira".to_string()]);
    assert_eq!(manager.get_info("slack"), None);
    assert_eq!(manager.get_info("github"), Some(record("github", 100, 8080).info));
}

#[test]
fn load_with_a_pid_that_does_not_exist_reports_nothing_running() {
    let manager = ProcessManager::load(vec![record("github", u32::MAX, 8080)], &table(&[]));
    assert!(manager.running_services().is_empty());
    assert!(!manager.is_running("github", &table(&[])));
}

#[test]
fn load_takes_the_later_of_two_records_of_one_name() {
    let manager = ProcessManager::load(
        vec![record("github", 100, 8080), record("github", 200, 9090)],
        &table(&[100, 200]),
    );
    assert_eq!(manager.running_services(), vec!["github".to_string()]);
    assert_eq!(manager.get_info("github").unwrap().pid, 200);
    let manager = ProcessManager::load(
        vec![record("github", 100, 8080), record("github", 200, 9090)],
        &table(&[100]),
    );
    assert_eq!(manager.get_info("github").unwrap().pid, 100);
}

#[test]
fn load_twice_gives_the_same_services() {
    let live = table(&[100, 300]);
    let records =
        vec![record("github", 100, 8080), record("slack", 200, 8081), record("jira", 300, 8082)];
    let first = ProcessManager::load(records.clone(), &live);
    let second = ProcessManager::load(records, &live);
    assert_eq!(sorted_names(&first), sorted_names(&second));
    let again = ProcessManager::load(first.save(), &live);
    assert_eq!(sorted_names(&again), sorted_names(&first));
    assert_eq!(again.save(), first.save());
}

#[test]
fn save_writes_the_whole_state() {
    let records = vec![record("github", 100, 8080), record("jira", 300, 8082)];
    let manager = ProcessManager::load(records.clone(), &table(&[100, 300]));
    assert_eq!(manager.save(), records);
}

#[test]
fn is_running_needs_a_record_and_a_live_process() {
    let manager = ProcessManager::load(vec![record("github", 100, 8080)], &table(&[100]));
    assert!(manager.is_running("github", &table(&[100])));
    assert!(!manager.is_running("github", &table(&[])));
    assert!(!manager.is_running("slack", &table(&[100])));
}

#[test]
fn start_records_the_process() {
    let mut manager = ProcessManager::new();
    let pid = manager.start(&echo_service(), 9999, Ok(4242), 1700000123).unwrap();
    assert_eq!(pid, 4242);
    assert_eq!(
        manager.get_info("echo"),
        Some(ServiceInfo {
            pid: 4242,
            port: 9999,
            started_at: "1700000123".to_string(),
            service_path: "/services/echo".to_string(),
        })
    );
    assert!(manager.is_running("echo", &table(&[4242])));
}

#[test]
fn start_replaces_an_earlier_record() {
    let mut manager =
        ProcessManager::load(vec![record("echo", 1, 1000), record("x", 2, 2000)], &table(&[1, 2]));
    manager.start(&echo_service(), 9999, Ok(77), 5).unwrap();
    assert_eq!(sorted_names(&manager), vec!["echo".to_string(), "x".to_string()]);
    assert_eq!(manager.get_info("echo").unwrap().pid, 77);
    assert_eq!(manager.get_info("echo").unwrap().started_at, "5");
    assert_eq!(manager.get_info("x").unwrap().pid, 2);
}

#[test]
fn start_that_could_not_spawn_is_an_io_error_without_a_record() {
    let mut manager = ProcessManager::new();
    let r = manager.start(&echo_service(), 9999, Err("No such file or directory".to_string()), 5);
    assert_eq!(r, Err(Error::IoError("No such file or directory".to_string())));
    assert!(manager.running_services().is_empty());
    assert_eq!(
        Error::IoError("No such file or directory".to_string()).message(),
        "IO error: No such file or directory"
    );
}

#[test]
fn stop_removes_the_record_and_hands_out_the_process() {
    let mut manager =
        ProcessManager::load(vec![record("a", 1, 1000), record("b", 2, 2000)], &table(&[1, 2]));
    assert_eq!(manager.stop("a"), Some(1));
    assert_eq!(manager.running_services(), vec!["b".to_string()]);
    assert_eq!(manager.stop("a"), None);
    assert_eq!(manager.stop("missing"), None);
    assert_eq!(manager.running_services(), vec!["b".to_string()]);
}

#[test]
fn start_then_stop_leaves_nothing_running() {
    let mut manager = ProcessManager::new();
    manager.start(&echo_service(), 9999, Ok(4242), 1).unwrap();
    assert_eq!(manager.stop("echo"), Some(4242));
    assert!(!manager.is_running("echo", &table(&[4242])));
    let reloaded = ProcessManager::load(manager.save(), &table(&[4242]));
    assert_eq!(reloaded.get_info("echo"), None);
    assert!(!reloaded.is_running("echo", &table(&[4242])));
}

#[test]
fn kill_process_escalates_only_when_the_first_signal_fails() {
    assert_eq!(kill_process(KillProgress::NotStarted), Some(Signal::Terminate));
    assert_eq!(kill_process(KillProgress::TerminateSent { delivered: true }), None);
    assert_eq!(kill_process(KillProgress::TerminateSent { delivered: false }), Some(Signal::Kill));
    assert_eq!(kill_process(KillProgress::KillSent), None);
}

#[test]
fn health_url_of_a_port() {
    assert_eq!(health_url(8080), "http://localhost:8080/_doubleagent/health");
    assert_eq!(health_url(0), "http://localhost:0/_doubleagent/health");
    assert_eq!(health_url(65535), "http://localhost:65535/_doubleagent/health");
}

#[test]
fn any_2xx_is_healthy() {
    assert!(!status_is_success(199));
    assert!(status_is_success(200));
    assert!(status_is_success(204));
    assert!(status_is_success(299));
    assert!(!status_is_success(300));
    assert!(!status_is_success(404));
    assert!(!status_is_success(500));
    assert!(is_healthy(ProbeOutcome::Status(200)));
    assert!(!is_healthy(ProbeOutcome::Status(503)));
    assert!(!is_healthy(ProbeOutcome::NoAnswer));
}

#[test]
fn wait_for_health_probes_within_the_timeout() {
    let manager = ProcessManager::new();
    let step = manager.wait_for_health(
        "echo",
        9999,
        30,
        HealthEvent::RoundStarts { elapsed_nanos: 30_000_000_000 },
        &table(&[]),
    );
    assert_eq!(
        step,
        HealthStep::Probe {
            url: "http://localhost:9999/_doubleagent/health".to_string(),
            timeout_secs: 2
        }
    );
}

#[test]
fn wait_for_health_times_out() {
    let manager = ProcessManager::new();
    let step = manager.wait_for_health(
        "echo",
        9999,
        30,
        HealthEvent::RoundStarts { elapsed_nanos: 30_000_000_001 },
        &table(&[]),
    );
    assert_eq!(step, HealthStep::Failed(Error::HealthCheckTimeout(30)));
    assert_eq!(Error::HealthCheckTimeout(30).message(), "Health check timed out after 30s");
    let step = manager.wait_for_health(
        "echo",
        9999,
        u64::MAX,
        HealthEvent::RoundStarts { elapsed_nanos: u128::MAX },
        &table(&[]),
    );
    assert_eq!(step, HealthStep::Failed(Error::HealthCheckTimeout(u64::MAX)));
}

#[test]
fn wait_for_health_succeeds_on_a_2xx() {
    let manager = ProcessManager::new();
    let step = manager.wait_for_health(
        "echo",
        9999,
        30,
        HealthEvent::Probed { outcome: ProbeOutcome::Status(200) },
        &table(&[]),
    );
    assert_eq!(step, HealthStep::Healthy);
}

#[test]
fn wait_for_health_reports_a_dead_process_at_once() {
    let mut manager = ProcessManager::new();
    manager.start(&echo_service(), 9999, Ok(4242), 1).unwrap();
    for outcome in [ProbeOutcome::NoAnswer, ProbeOutcome::Status(503)] {
        let step = manager.wait_for_health(
            "echo",
            9999,
            30,
            HealthEvent::Probed { outcome },
            &table(&[]),
        );
        assert_eq!(step, HealthStep::Failed(Error::ServiceProcessDied));
    }
    assert_eq!(Error::ServiceProcessDied.message(), "Service process died");
}

#[test]
fn wait_for_health_waits_while_the_process_lives() {
    let mut manager = ProcessManager::new();
    manager.start(&echo_service(), 9999, Ok(4242), 1).unwrap();
    let step = manager.wait_for_health(
        "echo",
        9999,
        30,
        HealthEvent::Probed { outcome: ProbeOutcome::NoAnswer },
        &table(&[4242]),
    );
    assert_eq!(step, HealthStep::Wait { millis: 500 });
    let step = manager.wait_for_health(
        "unknown",
        9999,
        30,
        HealthEvent::Probed { outcome: ProbeOutcome::NoAnswer },
        &table(&[]),
    );
    assert_eq!(step, HealthStep::Wait { millis: 500 });
}

#[test]
fn check_health_before_the_server_exists_is_false() {
    let mut manager = ProcessManager::new();
    manager.start(&echo_service(), 9999, Ok(4242), 1).unwrap();
    assert_eq!(
        manager.health_check_url("echo"),
        Some("http://localhost:9999/_doubleagent/health".to_string())
    );
    assert!(!manager.check_health("echo", ProbeOutcome::NoAnswer));
    assert!(!manager.check_health("echo", ProbeOutcome::Status(500)));
    assert!(manager.check_health("echo", ProbeOutcome::Status(200)));
}

#[test]
fn check_health_of_an_unknown_service_is_false() {
    let manager = ProcessManager::new();
    assert_eq!(manager.health_check_url("echo"), None);
    assert!(!manager.check_health("echo", ProbeOutcome::Status(200)));
}

#[test]
fn launch_plan_runs_the_command_in_the_server_directory() {
    let plan = ProcessManager::launch_plan(&echo_service(), 9999, false, false).unwrap();
    assert_eq!(plan.command.program, "echo");
    assert_eq!(plan.command.args, vec!["ok".to_string()]);
    assert_eq!(plan.current_dir, "/services/echo/server");
    assert!(plan.discard_output);
    assert_eq!(
        plan.env,
        vec![
            ("PORT".to_string(), "9999".to_string()),
            ("MODE".to_string(), "fake".to_string())
        ]
    );
}

#[test]
fn launch_plan_wraps_with_mise() {
    let plan = ProcessManager::launch_plan(&echo_service(), 1, true, true).unwrap();
    assert_eq!(plan.command.program, "mise");
    assert_eq!(
        plan.command.args,
        vec!["exec".to_string(), "--".to_string(), "echo".to_string(), "ok".to_string()]
    );
    assert_eq!(plan.env[0], ("PORT".to_string(), "1".to_string()));
    assert!(ProcessManager::launch_plan(&echo_service(), 1, true, false).is_err());
}

#[test]
fn launch_plan_refuses_an_empty_command() {
    let mut service = echo_service();
    service.server.command.clear();
    assert_eq!(
        ProcessManager::launch_plan(&service, 1, false, false),
        Err(Error::Other("Empty command provided".to_string()))
    );
}

#[test]
fn process_table_knows_its_processes() {
    let t = table(&[3, 5]);
    assert!(t.is_alive(3));
    assert!(t.is_alive(5));
    assert!(!t.is_alive(4));
    assert!(!table(&[]).is_alive(0));
}

#[test]
fn a_wait_ends_with_the_first_decisive_round() {
    let mut manager = ProcessManager::new();
    manager.start(&echo_service(), 9999, Ok(4242), 1).unwrap();
    let second = 1_000_000_000u128;

    let still_waiting = vec![
        (0, ProbeOutcome::NoAnswer, table(&[4242])),
        (second, ProbeOutcome::Status(503), table(&[4242])),
    ];
    assert_eq!(manager.wait_result("echo", 9999, 30, &still_waiting), None);
    assert_eq!(manager.wait_result("echo", 9999, 30, &Vec::new()), None);

    let healthy = vec![
        (0, ProbeOutcome::NoAnswer, table(&[4242])),
        (second, ProbeOutcome::Status(200), table(&[])),
        (31 * second, ProbeOutcome::NoAnswer, table(&[])),
    ];
    assert_eq!(manager.wait_result("echo", 9999, 30, &healthy), Some(Ok(())));

    let timed_out = vec![
        (0, ProbeOutcome::NoAnswer, table(&[4242])),
        (30 * second + 1, ProbeOutcome::Status(200), table(&[4242])),
    ];
    assert_eq!(
        manager.wait_result("echo", 9999, 30, &timed_out),
        Some(Err(Error::HealthCheckTimeout(30)))
    );
}

#[test]
fn a_wait_reports_a_process_that_exits_before_it_answers() {
    let mut manager = ProcessManager::new();
    manager.start(&echo_service(), 9999, Ok(4242), 1).unwrap();
    let second = 1_000_000_000u128;
    let exits_at_once = vec![(0, ProbeOutcome::NoAnswer, table(&[]))];
    assert_eq!(
        manager.wait_result("echo", 9999, 30, &exits_at_once),
        Some(Err(Error::ServiceProcessDied))
    );
    let exits_later = vec![
        (0, ProbeOutcome::NoAnswer, table(&[4242])),
        (second, ProbeOutcome::NoAnswer, table(&[4242])),
        (2 * second, ProbeOutcome::Status(500), table(&[])),
        (31 * second, ProbeOutcome::NoAnswer, table(&[])),
    ];
    assert_eq!(
        manager.wait_result("echo", 9999, 30, &exits_later),
        Some(Err(Error::ServiceProcessDied))
    );
}
