use vstd::prelude::*;
use crate::error::{Error, error_text};
use crate::multiaddr::Multiaddr;
use crate::node::{addrs_view, duplicate_addrs};
use crate::peer_id::{PeerId, peer_id_base58, peer_id_from_bytes_result};
use crate::registry::{NodeRegistry, NodeRegistryView, env_vars_view, has_peer_id};
use crate::service::SocketAddress;
use crate::text::concat;

verus! {

/// The port the manager daemon listens on when none is given.
pub const PORT: u16 = 12500;

/// The status code of a failed RPC reply.
#[derive(Clone, Copy, Debug, PartialEq, Eq, Structural)]
pub enum Code {
    /// The request could not be carried out.
    Internal,
}

/// A failed RPC reply: its code and message.
pub struct StatusReply {
    pub code: Code,
    pub message: String,
}

/// How a node is to be restarted.
pub enum RestartKind {
    /// As a process started by the daemon.
    Process,
    /// As a service of the operating system, with these environment variables.
    Service { environment_variables: Option<Vec<(String, String)>> },
}

/// What restarting a node takes: which node of the registry, how to reach it,
/// the peers to bootstrap from, and how to restart it.
pub struct RestartPlan {
    pub node_index: usize,
    pub rpc_socket_addr: SocketAddress,
    pub preserve_peer_id: bool,
    pub bootstrap_peers: Vec<Multiaddr>,
    pub kind: RestartKind,
}

/// `plan` restarts the first node of the registry that carries `peer`, reached at
/// its RPC address, with the registry's bootstrap peers, as a process or else as a
/// service with the registry's environment variables.
pub open spec fn is_restart_plan(
    registry: NodeRegistryView,
    peer: Seq<u8>,
    preserve_peer_id: bool,
    process: bool,
    plan: RestartPlan,
) -> bool {
    &&& plan.node_index < registry.nodes.len()
    &&& has_peer_id(registry.nodes[plan.node_index as int], peer)
    &&& forall|j: int| 0 <= j < plan.node_index ==> !has_peer_id(#[trigger] registry.nodes[j], peer)
    &&& plan.rpc_socket_addr == registry.nodes[plan.node_index as int].rpc_socket_addr
    &&& plan.preserve_peer_id == preserve_peer_id
    &&& addrs_view(plan.bootstrap_peers@) == registry.bootstrap_peers
    &&& if process {
        plan.kind is Process
    } else {
        plan.kind matches RestartKind::Service { environment_variables } && match environment_variables {
            Some(v) => registry.environment_variables == Some(env_vars_view(v@)),
            None => registry.environment_variables is None,
        }
    }
}

/// A restart plan does what the request asked: it keeps the node's peer id
/// exactly when the request asks to keep it, whether the node is restarted as a
/// process or as a service, and it restarts a process exactly when asked to.
pub proof fn lemma_restart_plan_follows_request(
    registry: NodeRegistryView,
    peer: Seq<u8>,
    preserve_peer_id: bool,
    process: bool,
    plan: RestartPlan,
)
    requires
        is_restart_plan(registry, peer, preserve_peer_id, process, plan),
    ensures
        plan.preserve_peer_id == preserve_peer_id,
        plan.kind is Process <==> process,
        plan.kind is Service <==> !process,
        registry.nodes[plan.node_index as int].peer_id == Some(peer),
{
}

/// No node of the registry carries `peer`.
pub open spec fn no_node_has(registry: NodeRegistryView, peer: Seq<u8>) -> bool {
    forall|j: int| 0 <= j < registry.nodes.len() ==> !has_peer_id(#[trigger] registry.nodes[j], peer)
}

/// The error text when no node has the requested id: the id as `{:?}` shows it.
pub open spec fn node_not_found_text(peer: Seq<u8>) -> Seq<char> {
    "Could not find the provided PeerId: PeerId(\""@ + peer_id_base58(peer) + "\")"@
}

/// Decides how to restart the node that carries `peer_id`: the first such node
/// of the registry, reached at its RPC address; a process restart is given the
/// registry's bootstrap peers, a service restart also its environment variables.
pub fn restart_handler(
    node_registry: &NodeRegistry,
    peer_id: &PeerId,
    preserve_peer_id: bool,
    process: bool,
) -> (r: Result<RestartPlan, Error>)
    ensures
        match r {
            Ok(plan) => is_restart_plan(node_registry@, peer_id@, preserve_peer_id, process, plan),
            Err(e) => no_node_has(node_registry@, peer_id@) && (e matches Error::NodeNotFound(m) && m@
                == node_not_found_text(peer_id@)),
        },
        r matches Ok(plan) ==> plan.preserve_peer_id == preserve_peer_id && (plan.kind is Process
            <==> process),
{
    match node_registry.find_node_by_peer_id(peer_id) {
        None => {
            let b58 = peer_id.to_base58();
            let m = concat("Could not find the provided PeerId: PeerId(\"", b58.as_str());
            let m = concat(m.as_str(), "\")");
            Err(Error::NodeNotFound(m))
        },
        Some(i) => {
            let node = &node_registry.nodes[i];
            assert(node_registry@.nodes[i as int] == node@);
            let kind = if process {
                RestartKind::Process
            } else {
                RestartKind::Service {
                    environment_variables: duplicate_env_vars(&node_registry.environment_variables),
                }
            };
            Ok(RestartPlan {
                node_index: i,
                rpc_socket_addr: node.rpc_socket_addr,
                preserve_peer_id,
                bootstrap_peers: duplicate_addrs(&node_registry.bootstrap_peers),
                kind,
            })
        },
    }
}

/// A second list of the same environment variables.
fn duplicate_env_vars(v: &Option<Vec<(String, String)>>) -> (r: Option<Vec<(String, String)>>)
    ensures
        match v {
            Some(vars) => r matches Some(out) && env_vars_view(out@) == env_vars_view(vars@),
            None => r is None,
        },
{
    match v {
        None => None,
        Some(vars) => {
            let mut out: Vec<(String, String)> = Vec::new();
            let n = vars.len();
            let mut i: usize = 0;
            while i < n
                invariant
                    n == vars.len(),
                    i <= n,
                    out.len() == i,
                    forall|k: int|
                        0 <= k < i ==> (#[trigger] out@[k]).0@ == vars@[k].0@ && out@[k].1@ == vars@[k].1@,
                decreases n - i,
            {
                let (a, b) = &vars[i];
                out.push((a.clone(), b.clone()));
                i = i + 1;
            }
            assert(env_vars_view(out@) =~= env_vars_view(vars@));
            Some(out)
        },
    }
}

/// A failed reply with code `Internal` and this message.
fn internal(message: String) -> (r: StatusReply)
    ensures
        r.code == Code::Internal,
        r.message == message,
{
    StatusReply { code: Code::Internal, message }
}

/// The reply when the registry's path could not be obtained.
pub open spec fn registry_path_failure_text(err: Seq<char>) -> Seq<char> {
    "Could not obtain node registry path "@ + err
}

/// The reply when the registry could not be loaded.
pub open spec fn registry_load_failure_text(err: Seq<char>) -> Seq<char> {
    "Could not open local node registry with "@ + err
}

/// The reply when the requested peer id does not parse.
pub open spec fn peer_id_failure_text(err: Seq<char>) -> Seq<char> {
    "Failed to parse PeerId: "@ + err
}

/// The reply when the node could not be restarted.
pub open spec fn restart_failure_text(err: Seq<char>) -> Seq<char> {
    "Failed to restart the node: "@ + err
}

/// First step of a service restart request: the path of the node registry, or
/// the reply that it could not be obtained.
pub fn on_registry_path(path: Result<String, String>) -> (r: Result<String, StatusReply>)
    ensures
        match path {
            Ok(p) => r matches Ok(q) && q@ == p@,
            Err(e) => r matches Err(reply) && reply.code == Code::Internal
                && reply.message@ == registry_path_failure_text(e@),
        },
{
    match path {
        Ok(p) => Ok(p),
        Err(e) => Err(internal(concat("Could not obtain node registry path ", e.as_str()))),
    }
}

/// Second step of a restart request, once the registry has been loaded: the
/// registry and the plan of the restart, or the reply of the first failure, in
/// this order: the registry could not be loaded; the peer id does not parse; no
/// node carries that id.
pub fn on_registry_loaded(
    loaded: Result<NodeRegistry, String>,
    peer_id_bytes: &[u8],
    preserve_peer_id: bool,
    process: bool,
) -> (r: Result<(NodeRegistry, RestartPlan), StatusReply>)
    ensures
        match loaded {
            Err(e) => r matches Err(reply) && reply.code == Code::Internal
                && reply.message@ == registry_load_failure_text(e@),
            Ok(registry) => match peer_id_from_bytes_result(peer_id_bytes@) {
                Err(m) => r matches Err(reply) && reply.code == Code::Internal
                    && reply.message@ == peer_id_failure_text(m),
                Ok(peer) => if no_node_has(registry@, peer) {
                    r matches Err(reply) && reply.code == Code::Internal && reply.message@
                        == restart_failure_text(node_not_found_text(peer))
                } else {
                    r matches Ok((reg, plan)) && reg@ == registry@ && is_restart_plan(
                        registry@,
                        peer,
                        preserve_peer_id,
                        process,
                        plan,
                    )
                },
            },
        },
        r matches Ok((_, plan)) ==> plan.preserve_peer_id == preserve_peer_id && (plan.kind is Process
            <==> process),
{
    let node_registry = match loaded {
        Ok(reg) => reg,
        Err(e) => {
            return Err(internal(concat("Could not open local node registry with ", e.as_str())));
        },
    };
    let peer_id = match PeerId::from_bytes(peer_id_bytes) {
        Ok(p) => p,
        Err(e) => {
            let m = e.message();
            return Err(internal(concat("Failed to parse PeerId: ", m.as_str())));
        },
    };
    match restart_handler(&node_registry, &peer_id, preserve_peer_id, process) {
        Ok(plan) => Ok((node_registry, plan)),
        Err(e) => {
            let m = e.message();
            Err(internal(concat("Failed to restart the node: ", m.as_str())))
        },
    }
}

/// What follows the restart of a node.
pub enum AfterRestart {
    /// The node was restarted: save the registry, then answer by
    /// [`on_registry_saved`].
    SaveRegistry,
    /// The restart failed: this is the reply, and the registry is not saved.
    Reply(StatusReply),
}

/// Third step of a restart request, once the node has been restarted: save the
/// registry, or reply that the restart failed (without saving).
pub fn on_node_restarted(outcome: Result<(), Error>) -> (r: AfterRestart)
    ensures
        match outcome {
            Ok(()) => r is SaveRegistry,
            Err(e) => r matches AfterRestart::Reply(reply) && reply.code == Code::Internal
                && reply.message@ == restart_failure_text(error_text(e)),
        },
{
    match outcome {
        Ok(()) => AfterRestart::SaveRegistry,
        Err(e) => {
            let m = e.message();
            AfterRestart::Reply(internal(concat("Failed to restart the node: ", m.as_str())))
        },
    }
}

/// Last step of a restart request, once the registry has been saved: success, or
/// the reply that the restart failed because the registry could not be saved.
pub fn on_registry_saved(outcome: Result<(), Error>) -> (r: Result<(), StatusReply>)
    ensures
        match outcome {
            Ok(()) => r is Ok,
            Err(e) => r matches Err(reply) && reply.code == Code::Internal
                && reply.message@ == restart_failure_text(error_text(e)),
        },
{
    match outcome {
        Ok(()) => Ok(()),
        Err(e) => {
            let m = e.message();
            Err(internal(concat("Failed to restart the node: ", m.as_str())))
        },
    }
}

} // verus!
