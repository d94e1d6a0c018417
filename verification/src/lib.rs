//! Service-management logic of a network node: the node registry and its
//! entries, the node's log-output settings, the decisions of the node's run
//! loop and of the manager daemon's restart requests.

pub mod error;
pub mod text;
pub mod ui;
pub mod peer_id;
pub mod multiaddr;
pub mod paths;
pub mod service;
pub mod node;
pub mod registry;
pub mod daemon;
pub mod identity;
pub mod log_output;
pub mod node_run;
