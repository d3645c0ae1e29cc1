//! The agent registry as sequences of agent views, and the transitions that
//! the coordination service and the control surface apply to it.
use vstd::prelude::*;
use crate::model::{AgentView, CommandView, PayloadView, SummaryView, summary_of};
use crate::text::{agent_id_of, command_id_of};

verus! {

/// No two agents share an identifier.
pub open spec fn ids_unique(agents: Seq<AgentView>) -> bool {
    forall|i: int, j: int|
        0 <= i < agents.len() && 0 <= j < agents.len() && i != j ==> agents[i].id != agents[j].id
}

pub open spec fn has_agent(agents: Seq<AgentView>, id: Seq<char>) -> bool {
    exists|i: int| 0 <= i < agents.len() && agents[i].id == id
}

pub open spec fn agent_index(agents: Seq<AgentView>, id: Seq<char>) -> int {
    choose|i: int| 0 <= i < agents.len() && agents[i].id == id
}

/// The record of a freshly registered agent.
pub open spec fn new_agent(hostname: Seq<char>, version: Seq<char>, now: u64) -> AgentView {
    AgentView {
        id: agent_id_of(hostname, now as nat),
        hostname,
        version,
        status: "Online"@,
        last_seen: now,
        infected_files: 0,
        pending: Seq::empty(),
    }
}

/// Inserts `a`, replacing the record that holds the same identifier if any.
pub open spec fn upsert_agent(agents: Seq<AgentView>, a: AgentView) -> Seq<AgentView> {
    if has_agent(agents, a.id) {
        agents.update(agent_index(agents, a.id), a)
    } else {
        agents.push(a)
    }
}

/// The commands waiting for agent `id` (none for an unknown agent).
pub open spec fn pending_of(agents: Seq<AgentView>, id: Seq<char>) -> Seq<CommandView> {
    if has_agent(agents, id) {
        agents[agent_index(agents, id)].pending
    } else {
        Seq::empty()
    }
}

/// A heartbeat from a known agent records its status and time and empties its queue;
/// one from an unknown agent changes nothing.
pub open spec fn after_heartbeat(agents: Seq<AgentView>, id: Seq<char>, status: Seq<char>, now: u64) -> Seq<AgentView> {
    if has_agent(agents, id) {
        let i = agent_index(agents, id);
        agents.update(i, AgentView { status, last_seen: now, pending: Seq::empty(), ..agents[i] })
    } else {
        agents
    }
}

/// The scan command created at `nanos` for `path`; queued scans are always recursive.
pub open spec fn scan_command(nanos: nat, path: Seq<char>) -> CommandView {
    CommandView { id: command_id_of(nanos), payload: PayloadView::Scan { path, recursive: true } }
}

/// Queues `cmd` at the back of agent `id`'s queue and shows the agent as scanning.
pub open spec fn after_enqueue(agents: Seq<AgentView>, id: Seq<char>, cmd: CommandView) -> Seq<AgentView> {
    if has_agent(agents, id) {
        let i = agent_index(agents, id);
        agents.update(i, AgentView { status: "Scanning"@, pending: agents[i].pending.push(cmd), ..agents[i] })
    } else {
        agents
    }
}

/// The status derived from a reported threat count.
pub open spec fn threat_status(infected: u32) -> Seq<char> {
    if infected > 0 {
        "Infected"@
    } else {
        "Secure"@
    }
}

/// A scan report sets the agent's infected count and derives its status from it.
pub open spec fn after_report(agents: Seq<AgentView>, id: Seq<char>, infected: u32) -> Seq<AgentView> {
    if has_agent(agents, id) {
        let i = agent_index(agents, id);
        agents.update(i, AgentView { infected_files: infected, status: threat_status(infected), ..agents[i] })
    } else {
        agents
    }
}

/// The agents list as the control surface shows it.
pub open spec fn summaries(agents: Seq<AgentView>) -> Seq<SummaryView> {
    agents.map_values(|a: AgentView| summary_of(a))
}

/// With unique identifiers, the agent found at `i` is the one `agent_index` names.
pub proof fn lemma_index_unique(agents: Seq<AgentView>, id: Seq<char>, i: int)
    requires
        ids_unique(agents),
        0 <= i < agents.len(),
        agents[i].id == id,
    ensures
        has_agent(agents, id),
        agent_index(agents, id) == i,
{
    assert(has_agent(agents, id));
}

/// Replacing one record by another with the same identifier keeps identifiers unique.
pub proof fn lemma_update_keeps_unique(agents: Seq<AgentView>, i: int, a: AgentView)
    requires
        ids_unique(agents),
        0 <= i < agents.len(),
        agents[i].id == a.id,
    ensures
        ids_unique(agents.update(i, a)),
{
}

pub proof fn lemma_upsert_keeps_unique(agents: Seq<AgentView>, a: AgentView)
    requires
        ids_unique(agents),
    ensures
        ids_unique(upsert_agent(agents, a)),
{
    if has_agent(agents, a.id) {
        lemma_update_keeps_unique(agents, agent_index(agents, a.id), a);
    }
}

/// A heartbeat from an identifier that is not registered leaves the registry
/// as it was and hands out no command.
pub proof fn lemma_unknown_heartbeat(agents: Seq<AgentView>, id: Seq<char>, status: Seq<char>, now: u64)
    requires
        !has_agent(agents, id),
    ensures
        after_heartbeat(agents, id, status, now) == agents,
        pending_of(agents, id) == Seq::<CommandView>::empty(),
{
}

/// A command queued for registered agent `a` is handed out by `a`'s next
/// heartbeat, after the commands queued before it; the heartbeat of any other
/// agent does not hand it out, and the heartbeat of `a` that follows hands out
/// nothing.
pub proof fn lemma_delivery(
    agents: Seq<AgentView>,
    a: Seq<char>,
    cmd: CommandView,
    b: Seq<char>,
    status: Seq<char>,
    now: u64,
)
    requires
        ids_unique(agents),
        has_agent(agents, a),
    ensures
        ids_unique(after_enqueue(agents, a, cmd)),
        pending_of(after_enqueue(agents, a, cmd), a) == pending_of(agents, a).push(cmd),
        b != a ==> pending_of(after_enqueue(agents, a, cmd), b) == pending_of(agents, b),
        pending_of(after_heartbeat(after_enqueue(agents, a, cmd), a, status, now), a)
            == Seq::<CommandView>::empty(),
{
    let i = agent_index(agents, a);
    let queued = after_enqueue(agents, a, cmd);
    lemma_update_keeps_unique(agents, i, queued[i]);
    lemma_index_unique(queued, a, i);
    if b != a {
        if has_agent(agents, b) {
            let j = agent_index(agents, b);
            lemma_index_unique(queued, b, j);
        } else {
            assert forall|k: int| 0 <= k < queued.len() implies queued[k].id != b by {
                assert(queued[k].id == agents[k].id);
            }
        }
    }
    let beat = after_heartbeat(queued, a, status, now);
    lemma_update_keeps_unique(queued, i, beat[i]);
    lemma_index_unique(beat, a, i);
}

/// After a scan report for registered agent `a` with `n` infected files, the
/// agents list shows `a` with that count, and with status `Infected` when `n`
/// is positive and `Secure` when it is zero.
pub proof fn lemma_report_visible(agents: Seq<AgentView>, a: Seq<char>, n: u32)
    requires
        ids_unique(agents),
        has_agent(agents, a),
    ensures
        exists|i: int|
            0 <= i < summaries(after_report(agents, a, n)).len()
            && #[trigger] summaries(after_report(agents, a, n))[i].id == a
            && summaries(after_report(agents, a, n))[i].infected_files == n
            && (n > 0 ==> summaries(after_report(agents, a, n))[i].status == "Infected"@)
            && (n == 0 ==> summaries(after_report(agents, a, n))[i].status == "Secure"@),
{
    let i = agent_index(agents, a);
    let list = summaries(after_report(agents, a, n));
    assert(list[i].id == a);
}

} // verus!
