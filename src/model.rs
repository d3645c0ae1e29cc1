//! The hub's records and their mathematical views.
use vstd::prelude::*;

verus! {

/// Instruction to scan `path`, descending into directories when `recursive`.
pub struct ScanCommand {
    pub path: String,
    pub recursive: bool,
}

/// What a command asks an agent to do.
pub enum CommandPayload {
    Scan(ScanCommand),
}

/// A command queued for one agent and delivered to it at most once.
pub struct AgentCommand {
    pub id: String,
    pub payload: CommandPayload,
}

/// The hub's record of one registered agent.
pub struct AgentInfo {
    pub id: String,
    pub hostname: String,
    pub version: String,
    pub status: String,
    pub last_seen: u64,
    pub infected_files: u32,
    pub pending_commands: Vec<AgentCommand>,
}

/// The visible part of an agent record, as the agents list shows it.
pub struct AgentSummary {
    pub id: String,
    pub hostname: String,
    pub version: String,
    pub status: String,
    pub last_seen: u64,
    pub infected_files: u32,
}

/// Audit entry for one reported scan outcome.
pub struct ScanRecord {
    pub id: String,
    pub agent_id: String,
    pub status: String,
    pub threats_found: u32,
    pub timestamp: u64,
    pub details: String,
}

/// Audit entry for an operational event.
pub struct LogRecord {
    pub id: String,
    pub level: String,
    pub message: String,
    pub timestamp: u64,
}

/// Reply to a heartbeat: the commands that were waiting for the agent.
pub struct HeartbeatResponse {
    pub acknowledged: bool,
    pub pending_commands: Vec<AgentCommand>,
}

/// An agent's report of how one command's scan ended.
pub struct ReportScanResultRequest {
    pub agent_id: String,
    pub command_id: String,
    pub success: bool,
    pub details: String,
    pub infected_files: u32,
}

/// Outcome of asking for a scan on a named agent.
pub enum TriggerScanResponse {
    Queued { agent_id: String },
    AgentNotFound,
}

pub enum PayloadView {
    Scan { path: Seq<char>, recursive: bool },
}

pub struct CommandView {
    pub id: Seq<char>,
    pub payload: PayloadView,
}

pub struct AgentView {
    pub id: Seq<char>,
    pub hostname: Seq<char>,
    pub version: Seq<char>,
    pub status: Seq<char>,
    pub last_seen: u64,
    pub infected_files: u32,
    pub pending: Seq<CommandView>,
}

pub struct SummaryView {
    pub id: Seq<char>,
    pub hostname: Seq<char>,
    pub version: Seq<char>,
    pub status: Seq<char>,
    pub last_seen: u64,
    pub infected_files: u32,
}

pub struct ScanView {
    pub id: Seq<char>,
    pub agent_id: Seq<char>,
    pub status: Seq<char>,
    pub threats_found: u32,
    pub timestamp: u64,
    pub details: Seq<char>,
}

pub struct LogView {
    pub id: Seq<char>,
    pub level: Seq<char>,
    pub message: Seq<char>,
    pub timestamp: u64,
}

impl View for CommandPayload {
    type V = PayloadView;

    open spec fn view(&self) -> PayloadView {
        match self {
            CommandPayload::Scan(s) => PayloadView::Scan { path: s.path@, recursive: s.recursive },
        }
    }
}

impl View for AgentCommand {
    type V = CommandView;

    open spec fn view(&self) -> CommandView {
        CommandView { id: self.id@, payload: self.payload@ }
    }
}

pub open spec fn commands_view(v: Seq<AgentCommand>) -> Seq<CommandView> {
    v.map_values(|c: AgentCommand| c@)
}

impl View for AgentInfo {
    type V = AgentView;

    open spec fn view(&self) -> AgentView {
        AgentView {
            id: self.id@,
            hostname: self.hostname@,
            version: self.version@,
            status: self.status@,
            last_seen: self.last_seen,
            infected_files: self.infected_files,
            pending: commands_view(self.pending_commands@),
        }
    }
}

impl View for AgentSummary {
    type V = SummaryView;

    open spec fn view(&self) -> SummaryView {
        SummaryView {
            id: self.id@,
            hostname: self.hostname@,
            version: self.version@,
            status: self.status@,
            last_seen: self.last_seen,
            infected_files: self.infected_files,
        }
    }
}

impl View for ScanRecord {
    type V = ScanView;

    open spec fn view(&self) -> ScanView {
        ScanView {
            id: self.id@,
            agent_id: self.agent_id@,
            status: self.status@,
            threats_found: self.threats_found,
            timestamp: self.timestamp,
            details: self.details@,
        }
    }
}

impl View for LogRecord {
    type V = LogView;

    open spec fn view(&self) -> LogView {
        LogView {
            id: self.id@,
            level: self.level@,
            message: self.message@,
            timestamp: self.timestamp,
        }
    }
}

/// The visible part of an agent's view.
pub open spec fn summary_of(a: AgentView) -> SummaryView {
    SummaryView {
        id: a.id,
        hostname: a.hostname,
        version: a.version,
        status: a.status,
        last_seen: a.last_seen,
        infected_files: a.infected_files,
    }
}

impl AgentInfo {
    pub fn summary(&self) -> (r: AgentSummary)
        ensures
            r@ == summary_of(self@),
    {
        AgentSummary {
            id: self.id.clone(),
            hostname: self.hostname.clone(),
            version: self.version.clone(),
            status: self.status.clone(),
            last_seen: self.last_seen,
            infected_files: self.infected_files,
        }
    }
}

impl ScanRecord {
    pub fn duplicate(&self) -> (r: ScanRecord)
        ensures
            r@ == self@,
    {
        ScanRecord {
            id: self.id.clone(),
            agent_id: self.agent_id.clone(),
            status: self.status.clone(),
            threats_found: self.threats_found,
            timestamp: self.timestamp,
            details: self.details.clone(),
        }
    }
}

impl LogRecord {
    pub fn duplicate(&self) -> (r: LogRecord)
        ensures
            r@ == self@,
    {
        LogRecord {
            id: self.id.clone(),
            level: self.level.clone(),
            message: self.message.clone(),
            timestamp: self.timestamp,
        }
    }
}

} // verus!
