//! Records of the agent table, as plain values.

pub mod agents;
