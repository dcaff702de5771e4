//! A time-bounded peer-discovery and reachability test harness for a
//! peer-to-peer overlay node: a bounded session state machine that decides
//! when to bootstrap, retry, and stop, a health registry for bootstrap
//! peers, an attempt tracker, a STUN-style address-discovery client, and a
//! report generator.

pub mod attempts;
pub mod discovery;
pub mod events;
pub mod registry;
pub mod report;
pub mod session;
