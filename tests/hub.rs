use clamhub::hub::MyAgentService;
use clamhub::model::{AgentCommand, CommandPayload, ReportScanResultRequest, TriggerScanResponse};

fn s(x: &str) -> String {
    String::from(x)
}

fn report(agent_id: &str, command_id: &str, success: bool, details: &str, infected: u32) -> ReportScanResultRequest {
    ReportScanResultRequest {
        agent_id: s(agent_id),
        command_id: s(command_id),
        success,
        details: s(details),
        infected_files: infected,
    }
}

fn scan_path(cmd: &AgentCommand) -> (String, bool) {
    match &cmd.payload {
        CommandPayload::Scan(sc) => (sc.path.clone(), sc.recursive),
    }
}

#[test]
fn register_mints_id_from_hostname_and_time() {
    let mut hub = MyAgentService::new();
    let id = hub.register(s("host1"), s("0.1.0"), 1700000000);
    assert_eq!(id, "agent-host1-1700000000");
    let agents = hub.list_agents();
    assert_eq!(agents.len(), 1);
    assert_eq!(agents[0].id, id);
    assert_eq!(agents[0].hostname, "host1");
    assert_eq!(agents[0].version, "0.1.0");
    assert_eq!(agents[0].status, "Online");
    assert_eq!(agents[0].last_seen, 1700000000);
    assert_eq!(agents[0].infected_files, 0);
}

#[test]
fn register_ids_are_distinct() {
    let mut hub = MyAgentService::new();
    let a = hub.register(s("host1"), s("0.1.0"), 100);
    let b = hub.register(s("host2"), s("0.1.0"), 100);
    let c = hub.register(s("host1"), s("0.1.0"), 101);
    let d = hub.register(s("host1-10"), s("0.1.0"), 1);
    let e = hub.register(s("host1"), s("0.1.0"), 101);
    assert_ne!(a, b);
    assert_ne!(a, c);
    assert_ne!(b, c);
    assert_ne!(d, a);
    assert_eq!(c, e);
    assert_eq!(hub.list_agents().len(), 4);
}

#[test]
fn register_zero_time() {
    let mut hub = MyAgentService::new();
    assert_eq!(hub.register(s("h"), s("v"), 0), "agent-h-0");
    assert_eq!(hub.register(s(""), s("v"), u64::MAX), "agent--18446744073709551615");
}

#[test]
fn register_logs_event() {
    let mut hub = MyAgentService::new();
    hub.register(s("host1"), s("0.1.0"), 7);
    let logs = hub.list_logs();
    assert_eq!(logs.len(), 1);
    assert_eq!(logs[0].level, "INFO");
    assert_eq!(logs[0].message, "Agent registered: host1");
    assert_eq!(logs[0].timestamp, 7);
    assert_eq!(logs[0].id.len(), 36);
}

#[test]
fn heartbeat_from_unknown_agent_changes_nothing() {
    let mut hub = MyAgentService::new();
    let id = hub.register(s("host1"), s("0.1.0"), 10);
    hub.trigger_scan(&id, Some(s("/data")), 5, 11);
    let before = hub.list_agents();
    let logs_before = hub.list_logs().len();
    let r = hub.heartbeat(&s("agent-ghost-1"), s("Online"), 12);
    assert!(r.acknowledged);
    assert!(r.pending_commands.is_empty());
    let after = hub.list_agents();
    assert_eq!(before.len(), after.len());
    assert_eq!(before[0].status, after[0].status);
    assert_eq!(before[0].last_seen, after[0].last_seen);
    assert_eq!(hub.list_logs().len(), logs_before);
    let r = hub.heartbeat(&id, s("Online"), 13);
    assert_eq!(r.pending_commands.len(), 1);
}

#[test]
fn heartbeat_updates_status_and_time() {
    let mut hub = MyAgentService::new();
    let id = hub.register(s("host1"), s("0.1.0"), 10);
    let r = hub.heartbeat(&id, s("Busy"), 20);
    assert!(r.acknowledged);
    let agents = hub.list_agents();
    assert_eq!(agents[0].status, "Busy");
    assert_eq!(agents[0].last_seen, 20);
}

#[test]
fn register_heartbeat_trigger_scenario() {
    let mut hub = MyAgentService::new();
    let i1 = hub.register(s("host1"), s("0.1.0"), 100);
    let r = hub.heartbeat(&i1, s("Online"), 101);
    assert!(r.acknowledged);
    assert!(r.pending_commands.is_empty());
    match hub.trigger_scan(&i1, Some(s("/data")), 1234567, 102) {
        TriggerScanResponse::Queued { agent_id } => assert_eq!(agent_id, i1),
        TriggerScanResponse::AgentNotFound => panic!("agent should be known"),
    }
    assert_eq!(hub.list_agents()[0].status, "Scanning");
    let r = hub.heartbeat(&i1, s("Online"), 103);
    assert!(r.acknowledged);
    assert_eq!(r.pending_commands.len(), 1);
    assert_eq!(r.pending_commands[0].id, "cmd-1234567");
    assert!(r.pending_commands[0].id.starts_with("cmd-"));
    assert_eq!(scan_path(&r.pending_commands[0]), (s("/data"), true));
    let r = hub.heartbeat(&i1, s("Online"), 104);
    assert!(r.acknowledged);
    assert!(r.pending_commands.is_empty());
}

#[test]
fn commands_go_only_to_their_agent_in_order() {
    let mut hub = MyAgentService::new();
    let a = hub.register(s("a"), s("1"), 1);
    let b = hub.register(s("b"), s("1"), 1);
    hub.trigger_scan(&a, Some(s("/one")), 10, 2);
    hub.trigger_scan(&a, Some(s("/two")), 20, 2);
    let rb = hub.heartbeat(&b, s("Online"), 3);
    assert!(rb.pending_commands.is_empty());
    let ra = hub.heartbeat(&a, s("Online"), 3);
    assert_eq!(ra.pending_commands.len(), 2);
    assert_eq!(ra.pending_commands[0].id, "cmd-10");
    assert_eq!(scan_path(&ra.pending_commands[0]).0, "/one");
    assert_eq!(ra.pending_commands[1].id, "cmd-20");
    assert_eq!(scan_path(&ra.pending_commands[1]).0, "/two");
    assert!(hub.heartbeat(&a, s("Online"), 4).pending_commands.is_empty());
    assert!(hub.heartbeat(&b, s("Online"), 4).pending_commands.is_empty());
}

#[test]
fn trigger_without_path_scans_tmp() {
    let mut hub = MyAgentService::new();
    let a = hub.register(s("a"), s("1"), 1);
    hub.trigger_scan(&a, None, 5, 2);
    let r = hub.heartbeat(&a, s("Online"), 3);
    assert_eq!(scan_path(&r.pending_commands[0]), (s("/tmp"), true));
    let logs = hub.list_logs();
    assert_eq!(logs[0].message, "Scan triggered for agent: agent-a-1");
    assert_eq!(logs[0].timestamp, 2);
}

#[test]
fn trigger_for_unknown_agent_is_reported() {
    let mut hub = MyAgentService::new();
    hub.register(s("a"), s("1"), 1);
    let r = hub.trigger_scan(&s("agent-nobody-1"), Some(s("/x")), 5, 2);
    assert!(matches!(r, TriggerScanResponse::AgentNotFound));
    assert_eq!(hub.list_logs().len(), 1);
    assert_eq!(hub.list_agents()[0].status, "Online");
}

#[test]
fn report_with_threats_marks_agent_infected() {
    let mut hub = MyAgentService::new();
    let a = hub.register(s("a"), s("1"), 1);
    assert!(hub.report_scan_result(report(&a, "cmd-1", true, "x FOUND", 3), 5));
    let agents = hub.list_agents();
    assert_eq!(agents[0].status, "Infected");
    assert_eq!(agents[0].infected_files, 3);
}

#[test]
fn report_without_threats_marks_agent_secure() {
    let mut hub = MyAgentService::new();
    let a = hub.register(s("a"), s("1"), 1);
    hub.report_scan_result(report(&a, "cmd-1", true, "x FOUND", 3), 5);
    hub.report_scan_result(report(&a, "cmd-2", true, "clean", 0), 6);
    let agents = hub.list_agents();
    assert_eq!(agents[0].status, "Secure");
    assert_eq!(agents[0].infected_files, 0);
}

#[test]
fn report_scenario_newest_scan_first() {
    let mut hub = MyAgentService::new();
    let i1 = hub.register(s("host1"), s("0.1.0"), 100);
    hub.report_scan_result(report(&i1, "cmd-old", true, "", 0), 150);
    hub.report_scan_result(report(&i1, "cmd-x", true, "/data/eicar.com: Eicar-Signature FOUND", 3), 200);
    let scans = hub.list_scans();
    assert_eq!(scans.len(), 2);
    assert_eq!(scans[0].id, "cmd-x");
    assert_eq!(scans[0].agent_id, i1);
    assert_eq!(scans[0].status, "Completed");
    assert_eq!(scans[0].threats_found, 3);
    assert_eq!(scans[0].timestamp, 200);
    assert_eq!(scans[0].details, "/data/eicar.com: Eicar-Signature FOUND");
    assert_eq!(scans[1].id, "cmd-old");
}

#[test]
fn failed_report_is_logged_as_error() {
    let mut hub = MyAgentService::new();
    hub.report_scan_result(report("agent-unknown-1", "cmd-9", false, "boom", 0), 9);
    let scans = hub.list_scans();
    assert_eq!(scans[0].status, "Failed");
    assert_eq!(scans[0].agent_id, "agent-unknown-1");
    let logs = hub.list_logs();
    assert_eq!(logs[0].level, "ERROR");
    assert_eq!(logs[0].message, "Scan finished for agent-unknown-1. Threats: 0");
    assert!(hub.list_agents().is_empty());
}

#[test]
fn report_log_carries_threat_count() {
    let mut hub = MyAgentService::new();
    hub.report_scan_result(report("agent-a-1", "cmd-9", true, "", 42), 9);
    let logs = hub.list_logs();
    assert_eq!(logs[0].level, "INFO");
    assert_eq!(logs[0].message, "Scan finished for agent-a-1. Threats: 42");
}

#[test]
fn histories_are_newest_first_and_stable() {
    let mut hub = MyAgentService::new();
    hub.report_scan_result(report("x", "c1", true, "", 0), 5);
    hub.report_scan_result(report("x", "c2", true, "", 0), 9);
    hub.report_scan_result(report("x", "c3", true, "", 0), 5);
    hub.report_scan_result(report("x", "c4", true, "", 0), 7);
    let ids: Vec<String> = hub.list_scans().into_iter().map(|r| r.id).collect();
    assert_eq!(ids, vec![s("c2"), s("c4"), s("c1"), s("c3")]);
    let times: Vec<u64> = hub.list_logs().into_iter().map(|l| l.timestamp).collect();
    assert_eq!(times, vec![9, 7, 5, 5]);
}

#[test]
fn empty_hub_lists_nothing() {
    let hub = MyAgentService::new();
    assert!(hub.list_agents().is_empty());
    assert!(hub.list_scans().is_empty());
    assert!(hub.list_logs().is_empty());
}

#[test]
fn agents_list_is_stable_between_reads() {
    let mut hub = MyAgentService::new();
    hub.register(s("a"), s("1"), 1);
    hub.register(s("b"), s("2"), 2);
    let first = hub.list_agents();
    let second = hub.list_agents();
    assert_eq!(first.len(), second.len());
    for (x, y) in first.iter().zip(second.iter()) {
        assert_eq!(x.id, y.id);
        assert_eq!(x.hostname, y.hostname);
        assert_eq!(x.version, y.version);
        assert_eq!(x.status, y.status);
        assert_eq!(x.last_seen, y.last_seen);
        assert_eq!(x.infected_files, y.infected_files);
    }
}
