use vstd::prelude::*;
use crate::multiaddr::{Multiaddr, ProtocolView};
use crate::node::{NodeServiceData, NodeServiceDataView, addrs_view};
use crate::peer_id::PeerId;
use crate::service::{Daemon, DaemonView, Faucet, FaucetView};

verus! {

/// Everything the node manager knows of the services it manages, and where that
/// knowledge is saved.
pub struct NodeRegistry {
    pub bootstrap_peers: Vec<Multiaddr>,
    pub daemon: Option<Daemon>,
    pub environment_variables: Option<Vec<(String, String)>>,
    pub faucet: Option<Faucet>,
    pub nodes: Vec<NodeServiceData>,
    pub save_path: String,
}

/// The mathematical value of a [`NodeRegistry`].
pub struct NodeRegistryView {
    pub bootstrap_peers: Seq<Seq<ProtocolView>>,
    pub daemon: Option<DaemonView>,
    pub environment_variables: Option<Seq<(Seq<char>, Seq<char>)>>,
    pub faucet: Option<FaucetView>,
    pub nodes: Seq<NodeServiceDataView>,
    pub save_path: Seq<char>,
}

pub open spec fn env_vars_view(v: Seq<(String, String)>) -> Seq<(Seq<char>, Seq<char>)> {
    v.map_values(|kv: (String, String)| (kv.0@, kv.1@))
}

impl View for NodeRegistry {
    type V = NodeRegistryView;

    open spec fn view(&self) -> NodeRegistryView {
        NodeRegistryView {
            bootstrap_peers: addrs_view(self.bootstrap_peers@),
            daemon: match self.daemon {
                Some(d) => Some(d@),
                None => None,
            },
            environment_variables: match self.environment_variables {
                Some(v) => Some(env_vars_view(v@)),
                None => None,
            },
            faucet: match self.faucet {
                Some(f) => Some(f@),
                None => None,
            },
            nodes: self.nodes@.map_values(|n: NodeServiceData| n@),
            save_path: self.save_path@,
        }
    }
}

/// The registry of a manager that manages nothing yet, saved at `save_path`.
pub open spec fn empty_registry(save_path: Seq<char>) -> NodeRegistryView {
    NodeRegistryView {
        bootstrap_peers: Seq::empty(),
        daemon: None,
        environment_variables: None,
        faucet: None,
        nodes: Seq::empty(),
        save_path,
    }
}

/// Whether a node's record carries this peer id.
pub open spec fn has_peer_id(node: NodeServiceDataView, peer: Seq<u8>) -> bool {
    node.peer_id == Some(peer)
}

/// What was found at the registry's path.
pub enum RegistryFile {
    /// No file is there.
    Missing,
    /// The file is there, with these contents.
    Contents(String),
}

/// What loading the registry comes to.
pub enum RegistryLoad {
    /// The registry is known without reading any JSON.
    Loaded(NodeRegistry),
    /// The registry is these JSON contents, still to be parsed.
    Parse(String),
}

impl NodeRegistry {
    /// A registry that manages nothing yet, saved at `save_path`.
    pub fn empty(save_path: &str) -> (r: NodeRegistry)
        ensures
            r@ == empty_registry(save_path@),
    {
        let r = NodeRegistry {
            bootstrap_peers: Vec::new(),
            daemon: None,
            environment_variables: None,
            faucet: None,
            nodes: Vec::new(),
            save_path: save_path.to_owned(),
        };
        assert(r@.bootstrap_peers =~= Seq::<Seq<ProtocolView>>::empty());
        assert(r@.nodes =~= Seq::<NodeServiceDataView>::empty());
        r
    }

    /// Loads the registry saved at `path`. A missing file, or an empty one (as
    /// when a `status` command runs before any service was added), is an empty
    /// registry saved at `path`; other contents are JSON to parse.
    pub fn load(path: &str, file: RegistryFile) -> (r: RegistryLoad)
        ensures
            match file {
                RegistryFile::Missing => r matches RegistryLoad::Loaded(reg) && reg@ == empty_registry(
                    path@,
                ),
                RegistryFile::Contents(c) => if c@.len() == 0 {
                    r matches RegistryLoad::Loaded(reg) && reg@ == empty_registry(path@)
                } else {
                    r matches RegistryLoad::Parse(json) && json@ == c@
                },
            },
    {
        match file {
            RegistryFile::Missing => RegistryLoad::Loaded(NodeRegistry::empty(path)),
            RegistryFile::Contents(contents) => {
                if contents.as_str().is_empty() {
                    RegistryLoad::Loaded(NodeRegistry::empty(path))
                } else {
                    RegistryLoad::Parse(contents)
                }
            },
        }
    }

    /// The position of the first node whose record carries this peer id, if any.
    pub fn find_node_by_peer_id(&self, peer_id: &PeerId) -> (r: Option<usize>)
        ensures
            match r {
                Some(i) => i < self@.nodes.len() && has_peer_id(self@.nodes[i as int], peer_id@)
                    && forall|j: int| 0 <= j < i ==> !has_peer_id(#[trigger] self@.nodes[j], peer_id@),
                None => forall|j: int|
                    0 <= j < self@.nodes.len() ==> !has_peer_id(#[trigger] self@.nodes[j], peer_id@),
            },
    {
        let n = self.nodes.len();
        let mut i: usize = 0;
        while i < n
            invariant
                n == self.nodes.len(),
                i <= n,
                forall|j: int| 0 <= j < i ==> !has_peer_id(#[trigger] self@.nodes[j], peer_id@),
            decreases n - i,
        {
            assert(self@.nodes[i as int] == self.nodes@[i as int]@);
            if let Some(id) = &self.nodes[i].peer_id {
                if id.same_as(peer_id) {
                    return Some(i);
                }
            }
            i = i + 1;
        }
        None
    }
}

} // verus!
