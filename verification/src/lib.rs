//! A redundancy supervisor: tracks the health of named components, detects
//! when the active component becomes unhealthy, and promotes the first
//! healthy standby candidate to the active role.

pub mod component;
pub mod health;
pub mod manager;
pub mod policy;
pub mod registry;
