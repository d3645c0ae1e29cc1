//! The agent process's decisions: connect until the hub answers, register
//! once, then send heartbeats forever and run what they bring.
use vstd::prelude::*;
use crate::model::{AgentCommand, commands_view};

verus! {

/// Where an agent process stands.
pub enum AgentPhase {
    Connecting,
    Connected,
    Registered { agent_id: String },
    Stopped,
}

/// What happened when the last action was carried out.
pub enum AgentEvent {
    ConnectSucceeded,
    ConnectFailed,
    RegisterSucceeded { agent_id: String },
    RegisterFailed,
    HeartbeatSucceeded { commands: Vec<AgentCommand> },
    HeartbeatFailed,
}

/// What the agent process does next.
pub enum AgentAction {
    /// Wait the fixed retry delay, then try to connect again.
    RetryConnect,
    /// Register with the hub.
    Register,
    /// Start each command in a task of its own, then send the next heartbeat.
    DispatchThenHeartbeat { commands: Vec<AgentCommand> },
    /// Wait for the next tick, then send a heartbeat.
    Heartbeat,
    /// End the process: registration failed.
    Exit,
    /// Nothing to do for an event that does not belong to the current phase.
    Ignore,
}

/// The next phase and action of an agent in `phase` once `event` happened.
/// Connection failures are retried without limit; a failed registration ends
/// the process; a failed heartbeat is followed by the next one; the commands
/// of a heartbeat are all dispatched, in the order received.
pub fn agent_step(phase: AgentPhase, event: AgentEvent) -> (r: (AgentPhase, AgentAction))
    ensures
        phase is Connecting && event is ConnectFailed ==> r.0 is Connecting && r.1 is RetryConnect,
        phase is Connecting && event is ConnectSucceeded ==> r.0 is Connected && r.1 is Register,
        phase is Connected && event is RegisterSucceeded ==> {
            &&& r.0 is Registered
            &&& r.0->Registered_agent_id@ == event->RegisterSucceeded_agent_id@
            &&& r.1 is Heartbeat
        },
        phase is Connected && event is RegisterFailed ==> r.0 is Stopped && r.1 is Exit,
        phase is Registered && event is HeartbeatSucceeded ==> {
            &&& r.0 is Registered
            &&& r.0->Registered_agent_id@ == phase->Registered_agent_id@
            &&& r.1 is DispatchThenHeartbeat
            &&& commands_view(r.1->DispatchThenHeartbeat_commands@) == commands_view(
                event->HeartbeatSucceeded_commands@,
            )
        },
        phase is Registered && event is HeartbeatFailed ==> {
            &&& r.0 is Registered
            &&& r.0->Registered_agent_id@ == phase->Registered_agent_id@
            &&& r.1 is Heartbeat
        },
        !(phase is Connecting && (event is ConnectFailed || event is ConnectSucceeded))
            && !(phase is Connected && (event is RegisterSucceeded || event is RegisterFailed))
            && !(phase is Registered && (event is HeartbeatSucceeded || event is HeartbeatFailed))
            ==> r.1 is Ignore && r.0 == phase,
{
    match phase {
        AgentPhase::Connecting => match event {
            AgentEvent::ConnectFailed => (AgentPhase::Connecting, AgentAction::RetryConnect),
            AgentEvent::ConnectSucceeded => (AgentPhase::Connected, AgentAction::Register),
            _ => (AgentPhase::Connecting, AgentAction::Ignore),
        },
        AgentPhase::Connected => match event {
            AgentEvent::RegisterSucceeded { agent_id } => (
                AgentPhase::Registered { agent_id },
                AgentAction::Heartbeat,
            ),
            AgentEvent::RegisterFailed => (AgentPhase::Stopped, AgentAction::Exit),
            _ => (AgentPhase::Connected, AgentAction::Ignore),
        },
        AgentPhase::Registered { agent_id } => match event {
            AgentEvent::HeartbeatSucceeded { commands } => (
                AgentPhase::Registered { agent_id },
                AgentAction::DispatchThenHeartbeat { commands },
            ),
            AgentEvent::HeartbeatFailed => (AgentPhase::Registered { agent_id }, AgentAction::Heartbeat),
            _ => (AgentPhase::Registered { agent_id }, AgentAction::Ignore),
        },
        AgentPhase::Stopped => (AgentPhase::Stopped, AgentAction::Ignore),
    }
}

} // verus!
