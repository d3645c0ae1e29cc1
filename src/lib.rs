//! Coordination core of a hub that manages a fleet of remote scanning agents:
//! the agent registry, the heartbeat / command-dispatch cycle, scan-result
//! reporting, and the interpretation of a scanner's output on the agent side.

pub mod hub;
pub mod model;
pub mod order;
pub mod registry;
pub mod runtime;
pub mod scan;
pub mod text;
