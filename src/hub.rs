//! The hub's state and its operations: registration, heartbeats, scan reports
//! (the coordination service) and the read views and scan trigger (the control surface).
use vstd::prelude::*;
use crate::model::{
    AgentCommand, AgentInfo, AgentSummary, AgentView, CommandPayload, HeartbeatResponse, LogRecord,
    LogView, ReportScanResultRequest, ScanCommand, ScanRecord, ScanView,
    TriggerScanResponse, CommandView, commands_view,
};
use crate::order::{newest_first, newest_first_order};
use crate::registry::{
    after_enqueue, after_heartbeat, after_report, agent_index, has_agent, ids_unique,
    lemma_index_unique, lemma_update_keeps_unique, lemma_upsert_keeps_unique, new_agent,
    pending_of, scan_command, summaries, upsert_agent,
};
use crate::text::{agent_id_of, agent_id_for, command_id_for, decimal, decimal_string, new_record_id};

verus! {

/// The hub state in mathematical form.
pub struct HubView {
    pub agents: Seq<AgentView>,
    pub scans: Seq<ScanView>,
    pub logs: Seq<LogView>,
}

/// All hub state: the agent registry with its command queues, and the
/// append-only scan and log histories.
pub struct MyAgentService {
    agents: Vec<AgentInfo>,
    scans: Vec<ScanRecord>,
    logs: Vec<LogRecord>,
}

impl View for MyAgentService {
    type V = HubView;

    closed spec fn view(&self) -> HubView {
        HubView {
            agents: self.agents@.map_values(|a: AgentInfo| a@),
            scans: self.scans@.map_values(|s: ScanRecord| s@),
            logs: self.logs@.map_values(|l: LogRecord| l@),
        }
    }
}

pub open spec fn registered_message(hostname: Seq<char>) -> Seq<char> {
    "Agent registered: "@ + hostname
}

pub open spec fn triggered_message(agent_id: Seq<char>) -> Seq<char> {
    "Scan triggered for agent: "@ + agent_id
}

pub open spec fn finished_message(agent_id: Seq<char>, infected: u32) -> Seq<char> {
    "Scan finished for "@ + agent_id + ". Threats: "@ + decimal(infected as nat)
}

pub open spec fn outcome_status(success: bool) -> Seq<char> {
    if success {
        "Completed"@
    } else {
        "Failed"@
    }
}

pub open spec fn outcome_level(success: bool) -> Seq<char> {
    if success {
        "INFO"@
    } else {
        "ERROR"@
    }
}

/// The scan target: the requested path, or `/tmp` when none was given.
pub open spec fn scan_target(path: Option<String>) -> Seq<char> {
    match path {
        Some(p) => p@,
        None => "/tmp"@,
    }
}

/// `after` is `before` with one entry appended that carries `level`, `message`
/// and `timestamp` (and a fresh random identifier).
pub open spec fn log_appended(before: Seq<LogView>, after: Seq<LogView>, level: Seq<char>, message: Seq<char>, timestamp: u64) -> bool {
    &&& after.len() == before.len() + 1
    &&& after.drop_last() == before
    &&& after.last().level == level
    &&& after.last().message == message
    &&& after.last().timestamp == timestamp
    &&& after.last().id.len() == 36
}

pub open spec fn scan_times(scans: Seq<ScanView>) -> Seq<u64> {
    scans.map_values(|s: ScanView| s.timestamp)
}

pub open spec fn log_times(logs: Seq<LogView>) -> Seq<u64> {
    logs.map_values(|l: LogView| l.timestamp)
}

/// The scan history, newest first (stable among equal timestamps).
pub open spec fn newest_scans(scans: Seq<ScanView>) -> Seq<ScanView> {
    newest_first(scan_times(scans), scans.len()).map_values(|i: usize| scans[i as int])
}

/// The log history, newest first (stable among equal timestamps).
pub open spec fn newest_logs(logs: Seq<LogView>) -> Seq<LogView> {
    newest_first(log_times(logs), logs.len()).map_values(|i: usize| logs[i as int])
}

impl MyAgentService {
    /// Agent identifiers are unique in the registry.
    pub open spec fn wf(&self) -> bool {
        ids_unique(self@.agents)
    }

    /// An empty hub: no agents, no history.
    pub fn new() -> (r: MyAgentService)
        ensures
            r.wf(),
            r@.agents.len() == 0,
            r@.scans.len() == 0,
            r@.logs.len() == 0,
    {
        let r = MyAgentService { agents: Vec::new(), scans: Vec::new(), logs: Vec::new() };
        assert(r@.agents =~= Seq::<AgentView>::empty());
        r
    }

    /// Position of agent `id` in the registry.
    fn find_agent(&self, id: &String) -> (r: Option<usize>)
        requires
            self.wf(),
        ensures
            match r {
                Some(i) => i < self@.agents.len() && has_agent(self@.agents, id@) && i == agent_index(self@.agents, id@),
                None => !has_agent(self@.agents, id@),
            },
    {
        let mut i: usize = 0;
        while i < self.agents.len()
            invariant
                i <= self.agents@.len(),
                self.wf(),
                forall|j: int| 0 <= j < i ==> self@.agents[j].id != id@,
            decreases self.agents@.len() - i,
        {
            if self.agents[i].id == *id {
                proof {
                    lemma_index_unique(self@.agents, id@, i as int);
                }
                return Some(i);
            }
            i = i + 1;
        }
        None
    }

    /// Whether an agent with identifier `id` is registered.
    pub fn is_registered(&self, id: &String) -> (r: bool)
        requires
            self.wf(),
        ensures
            r == has_agent(self@.agents, id@),
    {
        self.find_agent(id).is_some()
    }

    fn append_log(&mut self, level: &str, message: String, now: u64)
        ensures
            final(self).agents == old(self).agents,
            final(self).scans == old(self).scans,
            log_appended(old(self)@.logs, final(self)@.logs, level@, message@, now),
    {
        let record = LogRecord { id: new_record_id(), level: String::from_str(level), message, timestamp: now };
        self.logs.push(record);
        assert(final(self)@.logs.drop_last() =~= old(self)@.logs);
    }

    /// Registers an agent and returns the identifier minted for it from its
    /// hostname and the registration second.
    pub fn register(&mut self, hostname: String, version: String, now: u64) -> (r: String)
        requires
            old(self).wf(),
        ensures
            final(self).wf(),
            r@ == agent_id_of(hostname@, now as nat),
            final(self)@.agents == upsert_agent(old(self)@.agents, new_agent(hostname@, version@, now)),
            final(self)@.scans == old(self)@.scans,
            log_appended(old(self)@.logs, final(self)@.logs, "INFO"@, registered_message(hostname@), now),
    {
        let agent_id = agent_id_for(&hostname, now);
        let message = String::from_str("Agent registered: ").concat(hostname.as_str());
        let info = AgentInfo {
            id: agent_id.clone(),
            hostname,
            version,
            status: String::from_str("Online"),
            last_seen: now,
            infected_files: 0,
            pending_commands: Vec::new(),
        };
        let ghost g = info;
        let ghost before = self@.agents;
        let ghost raw = self.agents@;
        assert(g@.pending =~= Seq::<CommandView>::empty());
        assert(g@ == new_agent(hostname@, version@, now));
        match self.find_agent(&agent_id) {
            Some(i) => {
                self.agents.remove(i);
                self.agents.insert(i, info);
                assert(self.agents@ =~= raw.update(i as int, g));
                assert(self@.agents =~= before.update(i as int, g@));
            },
            None => {
                self.agents.push(info);
                assert(self@.agents =~= before.push(g@));
            },
        }
        proof {
            lemma_upsert_keeps_unique(before, g@);
        }
        self.append_log("INFO", message, now);
        agent_id
    }

    /// Records a heartbeat: a known agent gets its status and time updated and
    /// its whole queue handed over, oldest first; an unknown one gets an empty
    /// reply and nothing changes.
    pub fn heartbeat(&mut self, agent_id: &String, status: String, now: u64) -> (r: HeartbeatResponse)
        requires
            old(self).wf(),
        ensures
            final(self).wf(),
            r.acknowledged,
            commands_view(r.pending_commands@) == pending_of(old(self)@.agents, agent_id@),
            final(self)@.agents == after_heartbeat(old(self)@.agents, agent_id@, status@, now),
            final(self)@.scans == old(self)@.scans,
            final(self)@.logs == old(self)@.logs,
            !has_agent(old(self)@.agents, agent_id@) ==> final(self)@ == old(self)@ && r.pending_commands@.len() == 0,
    {
        match self.find_agent(agent_id) {
            Some(i) => {
                let ghost before = self@.agents;
                let ghost raw = self.agents@;
                let mut a = self.agents.remove(i);
                let mut commands: Vec<AgentCommand> = Vec::new();
                std::mem::swap(&mut commands, &mut a.pending_commands);
                a.status = status;
                a.last_seen = now;
                let ghost g = a;
                self.agents.insert(i, a);
                assert(self.agents@ =~= raw.update(i as int, g));
                assert(g@.pending =~= Seq::<CommandView>::empty());
                assert(self@.agents =~= before.update(i as int, g@));
                proof {
                    lemma_update_keeps_unique(before, i as int, g@);
                }
                HeartbeatResponse { acknowledged: true, pending_commands: commands }
            },
            None => {
                let r = HeartbeatResponse { acknowledged: true, pending_commands: Vec::new() };
                assert(commands_view(r.pending_commands@) =~= Seq::<CommandView>::empty());
                r
            },
        }
    }

    /// Records a scan outcome in the history and the log, and sets the agent's
    /// infected count and derived status. Always acknowledged.
    pub fn report_scan_result(&mut self, req: ReportScanResultRequest, now: u64) -> (acknowledged: bool)
        requires
            old(self).wf(),
        ensures
            final(self).wf(),
            acknowledged,
            final(self)@.scans == old(self)@.scans.push(
                ScanView {
                    id: req.command_id@,
                    agent_id: req.agent_id@,
                    status: outcome_status(req.success),
                    threats_found: req.infected_files,
                    timestamp: now,
                    details: req.details@,
                },
            ),
            log_appended(
                old(self)@.logs,
                final(self)@.logs,
                outcome_level(req.success),
                finished_message(req.agent_id@, req.infected_files),
                now,
            ),
            final(self)@.agents == after_report(old(self)@.agents, req.agent_id@, req.infected_files),
    {
        let ReportScanResultRequest { agent_id, command_id, success, details, infected_files } = req;
        let status = if success {
            String::from_str("Completed")
        } else {
            String::from_str("Failed")
        };
        let level: &str = if success {
            "INFO"
        } else {
            "ERROR"
        };
        let count = decimal_string(infected_files as u128);
        let message = String::from_str("Scan finished for ").concat(agent_id.as_str()).concat(
            ". Threats: ",
        ).concat(count.as_str());
        let found = self.find_agent(&agent_id);
        let record = ScanRecord {
            id: command_id,
            agent_id,
            status,
            threats_found: infected_files,
            timestamp: now,
            details,
        };
        let ghost scans_before = self@.scans;
        self.scans.push(record);
        assert(self@.scans =~= scans_before.push(record@));
        self.append_log(level, message, now);
        match found {
            Some(i) => {
                let ghost before = self@.agents;
                let ghost raw = self.agents@;
                let mut a = self.agents.remove(i);
                a.infected_files = infected_files;
                a.status = if infected_files > 0 {
                    String::from_str("Infected")
                } else {
                    String::from_str("Secure")
                };
                let ghost g = a;
                self.agents.insert(i, a);
                assert(self.agents@ =~= raw.update(i as int, g));
                assert(self@.agents =~= before.update(i as int, g@));
                proof {
                    lemma_update_keeps_unique(before, i as int, g@);
                }
            },
            None => {},
        }
        true
    }

    /// Queues a recursive scan of `path` (or of `/tmp`) for a known agent,
    /// shows that agent as scanning and logs the request; an unknown agent is
    /// answered with `AgentNotFound` and nothing changes.
    pub fn trigger_scan(&mut self, agent_id: &String, path: Option<String>, nanos: u128, now: u64) -> (r: TriggerScanResponse)
        requires
            old(self).wf(),
        ensures
            final(self).wf(),
            has_agent(old(self)@.agents, agent_id@) <==> r is Queued,
            match r {
                TriggerScanResponse::Queued { agent_id: queued } => {
                    &&& queued@ == agent_id@
                    &&& final(self)@.agents == after_enqueue(
                        old(self)@.agents,
                        agent_id@,
                        scan_command(nanos as nat, scan_target(path)),
                    )
                    &&& final(self)@.scans == old(self)@.scans
                    &&& log_appended(old(self)@.logs, final(self)@.logs, "INFO"@, triggered_message(agent_id@), now)
                },
                TriggerScanResponse::AgentNotFound => final(self)@ == old(self)@,
            },
    {
        match self.find_agent(agent_id) {
            Some(i) => {
                let target = match path {
                    Some(p) => p,
                    None => String::from_str("/tmp"),
                };
                let cmd = AgentCommand {
                    id: command_id_for(nanos),
                    payload: CommandPayload::Scan(ScanCommand { path: target, recursive: true }),
                };
                assert(cmd@ == scan_command(nanos as nat, scan_target(path)));
                let ghost before = self@.agents;
                let ghost raw = self.agents@;
                let mut a = self.agents.remove(i);
                let ghost queue = a.pending_commands@;
                let ghost c = cmd;
                a.pending_commands.push(cmd);
                a.status = String::from_str("Scanning");
                let ghost g = a;
                self.agents.insert(i, a);
                assert(commands_view(g.pending_commands@) =~= commands_view(queue).push(c@));
                assert(self.agents@ =~= raw.update(i as int, g));
                assert(self@.agents =~= before.update(i as int, g@));
                proof {
                    lemma_update_keeps_unique(before, i as int, g@);
                }
                let message = String::from_str("Scan triggered for agent: ").concat(agent_id.as_str());
                self.append_log("INFO", message, now);
                TriggerScanResponse::Queued { agent_id: agent_id.clone() }
            },
            None => TriggerScanResponse::AgentNotFound,
        }
    }

    /// Snapshot of all agents without their queues.
    pub fn list_agents(&self) -> (r: Vec<AgentSummary>)
        ensures
            r@.map_values(|s: AgentSummary| s@) == summaries(self@.agents),
    {
        let mut r: Vec<AgentSummary> = Vec::new();
        let mut i: usize = 0;
        while i < self.agents.len()
            invariant
                i <= self.agents@.len(),
                r@.map_values(|s: AgentSummary| s@) == summaries(self@.agents).take(i as int),
            decreases self.agents@.len() - i,
        {
            let s = self.agents[i].summary();
            let ghost prev = r@;
            r.push(s);
            assert(r@.map_values(|s: AgentSummary| s@) =~= prev.map_values(|s: AgentSummary| s@).push(s@));
            assert(summaries(self@.agents).take(i + 1) =~= summaries(self@.agents).take(i as int).push(s@));
            i = i + 1;
        }
        assert(summaries(self@.agents).take(i as int) =~= summaries(self@.agents));
        r
    }

    /// The whole scan history, newest first.
    pub fn list_scans(&self) -> (r: Vec<ScanRecord>)
        ensures
            r@.map_values(|s: ScanRecord| s@) == newest_scans(self@.scans),
    {
        let mut keys: Vec<u64> = Vec::new();
        let mut i: usize = 0;
        while i < self.scans.len()
            invariant
                i <= self.scans@.len(),
                keys@ == scan_times(self@.scans).take(i as int),
            decreases self.scans@.len() - i,
        {
            keys.push(self.scans[i].timestamp);
            assert(keys@ =~= scan_times(self@.scans).take(i + 1));
            i = i + 1;
        }
        assert(keys@ =~= scan_times(self@.scans));
        let order = newest_first_order(&keys);
        let ghost whole = newest_scans(self@.scans);
        let mut r: Vec<ScanRecord> = Vec::new();
        let mut k: usize = 0;
        while k < order.len()
            invariant
                k <= order@.len(),
                order@.len() == self@.scans.len(),
                order@ == newest_first(scan_times(self@.scans), self@.scans.len()),
                forall|j: int| 0 <= j < order@.len() ==> order@[j] < self@.scans.len(),
                whole == newest_scans(self@.scans),
                r@.map_values(|s: ScanRecord| s@) == whole.take(k as int),
            decreases order@.len() - k,
        {
            let s = self.scans[order[k]].duplicate();
            let ghost prev = r@;
            r.push(s);
            assert(r@.map_values(|s: ScanRecord| s@) =~= prev.map_values(|s: ScanRecord| s@).push(s@));
            assert(whole.take(k + 1) =~= whole.take(k as int).push(s@));
            k = k + 1;
        }
        assert(whole.take(k as int) =~= whole);
        r
    }

    /// The whole log history, newest first.
    pub fn list_logs(&self) -> (r: Vec<LogRecord>)
        ensures
            r@.map_values(|l: LogRecord| l@) == newest_logs(self@.logs),
    {
        let mut keys: Vec<u64> = Vec::new();
        let mut i: usize = 0;
        while i < self.logs.len()
            invariant
                i <= self.logs@.len(),
                keys@ == log_times(self@.logs).take(i as int),
            decreases self.logs@.len() - i,
        {
            keys.push(self.logs[i].timestamp);
            assert(keys@ =~= log_times(self@.logs).take(i + 1));
            i = i + 1;
        }
        assert(keys@ =~= log_times(self@.logs));
        let order = newest_first_order(&keys);
        let ghost whole = newest_logs(self@.logs);
        let mut r: Vec<LogRecord> = Vec::new();
        let mut k: usize = 0;
        while k < order.len()
            invariant
                k <= order@.len(),
                order@.len() == self@.logs.len(),
                order@ == newest_first(log_times(self@.logs), self@.logs.len()),
                forall|j: int| 0 <= j < order@.len() ==> order@[j] < self@.logs.len(),
                whole == newest_logs(self@.logs),
                r@.map_values(|l: LogRecord| l@) == whole.take(k as int),
            decreases order@.len() - k,
        {
            let l = self.logs[order[k]].duplicate();
            let ghost prev = r@;
            r.push(l);
            assert(r@.map_values(|l: LogRecord| l@) =~= prev.map_values(|l: LogRecord| l@).push(l@));
            assert(whole.take(k + 1) =~= whole.take(k as int).push(l@));
            k = k + 1;
        }
        assert(whole.take(k as int) =~= whole);
        r
    }
}

} // verus!
