use vstd::prelude::*;
use crate::error::Error;
use crate::multiaddr::{Multiaddr, Protocol, ProtocolView, udp_port_of};
use crate::peer_id::{PeerId, peer_id_base58, peer_id_from_str_result};
use crate::service::{ServiceStateActions, ServiceStatus, SocketAddress};

verus! {

/// The record the manager keeps of one node service.
pub struct NodeServiceData {
    pub connected_peers: Option<Vec<PeerId>>,
    pub data_dir_path: String,
    pub genesis: bool,
    pub listen_addr: Option<Vec<Multiaddr>>,
    pub local: bool,
    pub log_dir_path: String,
    pub number: u16,
    pub peer_id: Option<PeerId>,
    pub pid: Option<u32>,
    pub rpc_socket_addr: SocketAddress,
    pub safenode_path: String,
    pub service_name: String,
    pub status: ServiceStatus,
    pub user: String,
    pub version: String,
}

/// The mathematical value of a [`NodeServiceData`].
pub struct NodeServiceDataView {
    pub connected_peers: Option<Seq<Seq<u8>>>,
    pub data_dir_path: Seq<char>,
    pub genesis: bool,
    pub listen_addr: Option<Seq<Seq<ProtocolView>>>,
    pub local: bool,
    pub log_dir_path: Seq<char>,
    pub number: u16,
    pub peer_id: Option<Seq<u8>>,
    pub pid: Option<u32>,
    pub rpc_socket_addr: SocketAddress,
    pub safenode_path: Seq<char>,
    pub service_name: Seq<char>,
    pub status: ServiceStatus,
    pub user: Seq<char>,
    pub version: Seq<char>,
}

/// The ids of a list of peers.
pub open spec fn peers_view(peers: Seq<PeerId>) -> Seq<Seq<u8>> {
    peers.map_values(|p: PeerId| p@)
}

/// The values of a list of addresses.
pub open spec fn addrs_view(addrs: Seq<Multiaddr>) -> Seq<Seq<ProtocolView>> {
    addrs.map_values(|a: Multiaddr| a@)
}

pub open spec fn opt_peer_view(p: Option<PeerId>) -> Option<Seq<u8>> {
    match p {
        Some(id) => Some(id@),
        None => None,
    }
}

pub open spec fn opt_peers_view(p: Option<Vec<PeerId>>) -> Option<Seq<Seq<u8>>> {
    match p {
        Some(v) => Some(peers_view(v@)),
        None => None,
    }
}

pub open spec fn opt_addrs_view(a: Option<Vec<Multiaddr>>) -> Option<Seq<Seq<ProtocolView>>> {
    match a {
        Some(v) => Some(addrs_view(v@)),
        None => None,
    }
}

impl View for NodeServiceData {
    type V = NodeServiceDataView;

    open spec fn view(&self) -> NodeServiceDataView {
        NodeServiceDataView {
            connected_peers: opt_peers_view(self.connected_peers),
            data_dir_path: self.data_dir_path@,
            genesis: self.genesis,
            listen_addr: opt_addrs_view(self.listen_addr),
            local: self.local,
            log_dir_path: self.log_dir_path@,
            number: self.number,
            peer_id: opt_peer_view(self.peer_id),
            pid: self.pid,
            rpc_socket_addr: self.rpc_socket_addr,
            safenode_path: self.safenode_path@,
            service_name: self.service_name@,
            status: self.status,
            user: self.user@,
            version: self.version@,
        }
    }
}

/// The first UDP port found in a list of addresses, taken in order.
pub open spec fn first_udp_port(addrs: Seq<Seq<ProtocolView>>) -> Option<u16>
    decreases addrs.len(),
{
    if addrs.len() == 0 {
        None
    } else {
        match udp_port_of(addrs[0]) {
            Some(port) => Some(port),
            None => first_udp_port(addrs.drop_first()),
        }
    }
}

/// Each listening address with the node's own id appended as its last component.
pub open spec fn p2p_listen_addrs(listeners: Seq<Seq<ProtocolView>>, peer: Seq<u8>) -> Seq<
    Seq<ProtocolView>,
> {
    listeners.map_values(|a: Seq<ProtocolView>| a.push(ProtocolView::P2p(peer)))
}

/// Each recorded address is the reported one with exactly one component added
/// at its end, the node's own id: as many addresses as were reported, each one
/// component longer, beginning with the reported address and ending in `/p2p/<peer>`.
pub proof fn lemma_listen_addrs_gain_one_peer_component(
    listeners: Seq<Seq<ProtocolView>>,
    peer: Seq<u8>,
)
    ensures
        p2p_listen_addrs(listeners, peer).len() == listeners.len(),
        forall|i: int|
            0 <= i < listeners.len() ==> {
                let a = #[trigger] p2p_listen_addrs(listeners, peer)[i];
                &&& a.len() == listeners[i].len() + 1
                &&& a.take(listeners[i].len() as int) == listeners[i]
                &&& a.last() == ProtocolView::P2p(peer)
            },
{
    assert forall|i: int| 0 <= i < listeners.len() implies {
        let a = #[trigger] p2p_listen_addrs(listeners, peer)[i];
        &&& a.len() == listeners[i].len() + 1
        &&& a.take(listeners[i].len() as int) == listeners[i]
        &&& a.last() == ProtocolView::P2p(peer)
    } by {
        let a = p2p_listen_addrs(listeners, peer)[i];
        assert(a.take(listeners[i].len() as int) =~= listeners[i]);
    }
}

/// The port read from a list of addresses is that of the first address with a
/// UDP component: if address `j` has port `p` and no earlier address has one,
/// the port is `p`; if no address has one, there is none.
pub proof fn lemma_first_udp_port_is_first_found(addrs: Seq<Seq<ProtocolView>>)
    ensures
        forall|j: int|
            0 <= j < addrs.len() && #[trigger] udp_port_of(addrs[j]) is Some && (forall|k: int|
                0 <= k < j ==> udp_port_of(#[trigger] addrs[k]) is None) ==> first_udp_port(addrs)
                == udp_port_of(addrs[j]),
        (forall|k: int| 0 <= k < addrs.len() ==> udp_port_of(#[trigger] addrs[k]) is None)
            ==> first_udp_port(addrs) is None,
    decreases addrs.len(),
{
    if addrs.len() > 0 {
        lemma_first_udp_port_is_first_found(addrs.drop_first());
        assert forall|j: int|
            0 <= j < addrs.len() && #[trigger] udp_port_of(addrs[j]) is Some && (forall|k: int|
                0 <= k < j ==> udp_port_of(#[trigger] addrs[k]) is None) implies first_udp_port(addrs)
                == udp_port_of(addrs[j]) by {
            if j > 0 {
                assert(udp_port_of(addrs[0]) is None);
                assert(addrs.drop_first()[j - 1] == addrs[j]);
                assert forall|k: int| 0 <= k < j - 1 implies udp_port_of(
                    #[trigger] addrs.drop_first()[k],
                ) is None by {
                    assert(addrs.drop_first()[k] == addrs[k + 1]);
                }
            }
        }
        if forall|k: int| 0 <= k < addrs.len() ==> udp_port_of(#[trigger] addrs[k]) is None {
            assert(udp_port_of(addrs[0]) is None);
            assert forall|k: int| 0 <= k < addrs.drop_first().len() implies udp_port_of(
                #[trigger] addrs.drop_first()[k],
            ) is None by {
                assert(addrs.drop_first()[k] == addrs[k + 1]);
            }
        }
    }
}

/// Appending a peer-id component leaves an address's UDP port as it was.
pub proof fn lemma_udp_port_after_p2p(addr: Seq<ProtocolView>, peer: Seq<u8>)
    ensures
        udp_port_of(addr.push(ProtocolView::P2p(peer))) == udp_port_of(addr),
    decreases addr.len(),
{
    if addr.len() == 0 {
        let one = addr.push(ProtocolView::P2p(peer));
        assert(one[0] == ProtocolView::P2p(peer));
        assert(one.drop_first().len() == 0);
        assert(udp_port_of(one.drop_first()) is None);
    } else {
        assert(addr.push(ProtocolView::P2p(peer))[0] == addr[0]);
        assert(addr.push(ProtocolView::P2p(peer)).drop_first() =~= addr.drop_first().push(
            ProtocolView::P2p(peer),
        ));
        lemma_udp_port_after_p2p(addr.drop_first(), peer);
    }
}

/// Initializing a node service does not change the port read from its record:
/// the port of the addresses with the node's id appended is the port of the
/// addresses the node reported.
pub proof fn lemma_port_unchanged_by_peer_ids(listeners: Seq<Seq<ProtocolView>>, peer: Seq<u8>)
    ensures
        first_udp_port(p2p_listen_addrs(listeners, peer)) == first_udp_port(listeners),
    decreases listeners.len(),
{
    if listeners.len() > 0 {
        lemma_udp_port_after_p2p(listeners[0], peer);
        assert(p2p_listen_addrs(listeners, peer).drop_first() =~= p2p_listen_addrs(
            listeners.drop_first(),
            peer,
        ));
        lemma_port_unchanged_by_peer_ids(listeners.drop_first(), peer);
    }
}

/// A second list of the same addresses.
pub fn duplicate_addrs(addrs: &Vec<Multiaddr>) -> (r: Vec<Multiaddr>)
    ensures
        addrs_view(r@) == addrs_view(addrs@),
{
    let mut out: Vec<Multiaddr> = Vec::new();
    let n = addrs.len();
    let mut i: usize = 0;
    while i < n
        invariant
            n == addrs.len(),
            i <= n,
            out.len() == i,
            forall|j: int| 0 <= j < i ==> #[trigger] out@[j]@ == addrs@[j]@,
        decreases n - i,
    {
        out.push(addrs[i].duplicate());
        i = i + 1;
    }
    assert(addrs_view(out@) =~= addrs_view(addrs@));
    out
}

impl NodeServiceData {
    /// Returns the UDP port from our node's listen address: the port of the first
    /// UDP component of the first listening address that has one.
    pub fn get_safenode_port(&self) -> (r: Option<u16>)
        ensures
            r == match self@.listen_addr {
                Some(addrs) => first_udp_port(addrs),
                None => None,
            },
    {
        match &self.listen_addr {
            Some(multi_addrs) => {
                let n = multi_addrs.len();
                let ghost all = addrs_view(multi_addrs@);
                let mut i: usize = 0;
                assert(all.skip(0) =~= all);
                while i < n
                    invariant
                        n == multi_addrs.len(),
                        all == addrs_view(multi_addrs@),
                        self@.listen_addr == Some(all),
                        i <= n,
                        first_udp_port(all) == first_udp_port(all.skip(i as int)),
                    decreases n - i,
                {
                    assert(all.skip(i as int)[0] == multi_addrs@[i as int]@);
                    assert(all.skip(i as int).drop_first() =~= all.skip(i + 1));
                    let found = multi_addrs[i].udp_port();
                    assert(all.skip(i as int).len() > 0);
                    assert(first_udp_port(all.skip(i as int)) == match udp_port_of(all.skip(i as int)[0]) {
                        Some(port) => Some(port),
                        None => first_udp_port(all.skip(i as int).drop_first()),
                    });
                    if let Some(port) = found {
                        return Some(port);
                    }
                    i = i + 1;
                }
                assert(all.skip(n as int).len() == 0);
                None
            },
            None => None,
        }
    }
}

/// What the node's RPC service reports of the node itself.
pub struct NodeInfo {
    pub pid: u32,
    pub peer_id: PeerId,
}

/// What the node's RPC service reports of the node's networking.
pub struct NetworkInfo {
    pub listeners: Vec<Multiaddr>,
}

/// What is asked of a running node when its service is initialized: its own
/// information, then its network information.
pub struct NodeObservation {
    pub node_info: Result<NodeInfo, Error>,
    pub network_info: Result<NetworkInfo, Error>,
}

/// A node service: its record, and the means `R` of reaching the node by RPC.
pub struct NodeService<R> {
    pub service_data: NodeServiceData,
    pub rpc_actions: R,
}

impl<R> NodeService<R> {
    pub fn new(service_data: NodeServiceData, rpc_actions: R) -> (r: NodeService<R>)
        ensures
            r.service_data == service_data,
            r.rpc_actions == rpc_actions,
    {
        NodeService { rpc_actions, service_data }
    }
}

/// Each address with `/p2p/<peer>` appended.
fn with_peer_component(listeners: &Vec<Multiaddr>, peer: &PeerId) -> (r: Vec<Multiaddr>)
    ensures
        addrs_view(r@) == p2p_listen_addrs(addrs_view(listeners@), peer@),
{
    let mut out: Vec<Multiaddr> = Vec::new();
    let n = listeners.len();
    let mut i: usize = 0;
    while i < n
        invariant
            n == listeners.len(),
            i <= n,
            out.len() == i,
            forall|k: int| 0 <= k < i ==> #[trigger] out@[k]@ == listeners@[k]@.push(ProtocolView::P2p(peer@)),
        decreases n - i,
    {
        let a = listeners[i].duplicate();
        out.push(a.with(Protocol::P2p(peer.duplicate())));
        i = i + 1;
    }
    assert(addrs_view(out@) =~= p2p_listen_addrs(addrs_view(listeners@), peer@));
    out
}

impl<R> ServiceStateActions for NodeService<R> {
    type Observation = NodeObservation;

    fn bin_path(&self) -> (r: String)
        ensures
            r@ == self.service_data.safenode_path@,
    {
        self.service_data.safenode_path.clone()
    }

    fn data_dir_path(&self) -> (r: String)
        ensures
            r@ == self.service_data.data_dir_path@,
    {
        self.service_data.data_dir_path.clone()
    }

    fn log_dir_path(&self) -> (r: String)
        ensures
            r@ == self.service_data.log_dir_path@,
    {
        self.service_data.log_dir_path.clone()
    }

    fn name(&self) -> (r: String)
        ensures
            r@ == self.service_data.service_name@,
    {
        self.service_data.service_name.clone()
    }

    fn pid(&self) -> (r: Option<u32>)
        ensures
            r == self.service_data.pid,
    {
        self.service_data.pid
    }

    /// Records what the running node reported: its listening addresses, each
    /// with the node's id appended, its pid and id, and that it is running. A
    /// failed report leaves the record as it was and is the error returned.
    fn initialize(&mut self, observed: NodeObservation) -> (r: Result<(), Error>)
        ensures
            match observed.node_info {
                Err(e) => r == Err::<(), Error>(e) && final(self).service_data@ == old(self).service_data@,
                Ok(info) => match observed.network_info {
                    Err(e) => r == Err::<(), Error>(e) && final(self).service_data@ == old(
                        self,
                    ).service_data@,
                    Ok(net) => r is Ok && final(self).service_data@ == (NodeServiceDataView {
                        listen_addr: Some(
                            p2p_listen_addrs(addrs_view(net.listeners@), info.peer_id@),
                        ),
                        pid: Some(info.pid),
                        peer_id: Some(info.peer_id@),
                        status: ServiceStatus::Running,
                        ..old(self).service_data@
                    }),
                },
            },
    {
        let node_info = match observed.node_info {
            Ok(info) => info,
            Err(e) => return Err(e),
        };
        let network_info = match observed.network_info {
            Ok(net) => net,
            Err(e) => return Err(e),
        };
        let addrs = with_peer_component(&network_info.listeners, &node_info.peer_id);
        self.service_data.listen_addr = Some(addrs);
        self.service_data.pid = Some(node_info.pid);
        self.service_data.peer_id = Some(node_info.peer_id);
        self.service_data.status = ServiceStatus::Running;
        Ok(())
    }

    fn status(&self) -> (r: ServiceStatus)
        ensures
            r == self.service_data.status,
    {
        self.service_data.status
    }
}

/// The ids that a list of texts parses to, or the error of the first text that
/// does not parse.
pub open spec fn parse_peer_texts(texts: Seq<Seq<char>>) -> Result<Seq<Seq<u8>>, Seq<char>>
    decreases texts.len(),
{
    if texts.len() == 0 {
        Ok(Seq::empty())
    } else {
        match parse_peer_texts(texts.drop_last()) {
            Err(m) => Err(m),
            Ok(ids) => match peer_id_from_str_result(texts.last()) {
                Ok(b) => Ok(ids.push(b)),
                Err(m) => Err(m),
            },
        }
    }
}

/// The texts of a list of strings.
pub open spec fn texts_view(v: Seq<String>) -> Seq<Seq<char>> {
    v.map_values(|s: String| s@)
}

/// The text under which a node's peer id is stored: its base-58 form, if it has one.
pub fn serialize_peer_id(value: &Option<PeerId>) -> (r: Option<String>)
    ensures
        match value {
            Some(p) => r matches Some(s) && s@ == peer_id_base58(p@) && crate::peer_id::is_peer_id_bytes(
                p@,
            ),
            None => r is None,
        },
{
    match value {
        Some(peer_id) => Some(peer_id.to_base58()),
        None => None,
    }
}

/// Reads back a stored peer id: none stays none, a text must parse as a peer id.
/// The base-58 text of a peer id reads back as that id.
pub fn deserialize_peer_id(value: Option<String>) -> (r: Result<Option<PeerId>, Error>)
    ensures
        match value {
            None => r matches Ok(None),
            Some(s) => match peer_id_from_str_result(s@) {
                Ok(b) => r matches Ok(Some(p)) && p@ == b,
                Err(m) => r matches Err(Error::PeerIdParse(e)) && e@ == m,
            },
        },
        value matches Some(s) ==> forall|b: Seq<u8>| #![auto]
            crate::peer_id::is_peer_id_bytes(b) && s@ == peer_id_base58(b) ==> (r matches Ok(Some(p))
                && p@ == b),
{
    match value {
        Some(peer_id_str) => match PeerId::from_base58(peer_id_str.as_str()) {
            Ok(p) => Ok(Some(p)),
            Err(e) => Err(e),
        },
        None => Ok(None),
    }
}

/// The texts under which a node's connected peers are stored: each id in its
/// base-58 form, in order.
pub fn serialize_connected_peers(connected_peers: &Option<Vec<PeerId>>) -> (r: Option<Vec<String>>)
    ensures
        match connected_peers {
            Some(peers) => r matches Some(texts) && texts.len() == peers.len() && (forall|i: int|
                0 <= i < peers.len() ==> #[trigger] texts@[i]@ == peer_id_base58(peers@[i]@))
                && texts_of_ids(texts_view(texts@), peers_view(peers@)),
            None => r is None,
        },
{
    match connected_peers {
        Some(peers) => {
            let mut peer_strs: Vec<String> = Vec::new();
            let n = peers.len();
            let mut i: usize = 0;
            while i < n
                invariant
                    n == peers.len(),
                    i <= n,
                    peer_strs.len() == i,
                    forall|k: int| 0 <= k < i ==> #[trigger] peer_strs@[k]@ == peer_id_base58(peers@[k]@),
                    forall|k: int| 0 <= k < i ==> crate::peer_id::is_peer_id_bytes(#[trigger] peers@[k]@),
                decreases n - i,
            {
                peer_strs.push(peers[i].to_base58());
                i = i + 1;
            }
            assert(texts_of_ids(texts_view(peer_strs@), peers_view(peers@)));
            Some(peer_strs)
        },
        None => None,
    }
}

/// The texts are the base-58 forms of these well-formed ids, in order.
pub open spec fn texts_of_ids(texts: Seq<Seq<char>>, ids: Seq<Seq<u8>>) -> bool {
    &&& texts.len() == ids.len()
    &&& forall|i: int|
        0 <= i < ids.len() ==> crate::peer_id::is_peer_id_bytes(#[trigger] ids[i]) && texts[i]
            == peer_id_base58(ids[i])
}

/// Reads back stored connected peers: none stays none; otherwise every text must
/// parse, and the first that does not is the error. The base-58 texts of peer
/// ids read back as those ids.
pub fn deserialize_connected_peers(value: Option<Vec<String>>) -> (r: Result<Option<Vec<PeerId>>, Error>)
    ensures
        value matches Some(texts) ==> forall|ids: Seq<Seq<u8>>|
            #[trigger] texts_of_ids(texts_view(texts@), ids) ==> (r matches Ok(Some(peers))
                && peers_view(peers@) == ids),
        match value {
            None => r matches Ok(None),
            Some(texts) => match parse_peer_texts(texts_view(texts@)) {
                Ok(ids) => r matches Ok(Some(peers)) && peers_view(peers@) == ids,
                Err(m) => r matches Err(Error::PeerIdParse(e)) && e@ == m,
            },
        },
{
    match value {
        Some(peer_strs) => {
            let ghost all = texts_view(peer_strs@);
            let mut peers: Vec<PeerId> = Vec::new();
            let n = peer_strs.len();
            let mut i: usize = 0;
            assert(all.take(0) =~= Seq::<Seq<char>>::empty());
            assert(peers_view(peers@) =~= Seq::<Seq<u8>>::empty());
            while i < n
                invariant
                    value == Some(peer_strs),
                    n == peer_strs.len(),
                    peers.len() == i,
                    all == texts_view(peer_strs@),
                    i <= n,
                    parse_peer_texts(all.take(i as int)) == Ok::<Seq<Seq<u8>>, Seq<char>>(peers_view(peers@)),
                    forall|k: int, b: Seq<u8>| #![trigger peers@[k], peer_id_base58(b)]
                        0 <= k < i && crate::peer_id::is_peer_id_bytes(b) && all[k] == peer_id_base58(b)
                            ==> peers@[k]@ == b,
                decreases n - i,
            {
                assert(all.take(i + 1).drop_last() =~= all.take(i as int));
                assert(all.take(i + 1).last() == peer_strs@[i as int]@);
                match PeerId::from_base58(peer_strs[i].as_str()) {
                    Ok(p) => {
                        let ghost before = peers_view(peers@);
                        peers.push(p);
                        assert(peers_view(peers@) =~= before.push(peers@[i as int]@));
                    },
                    Err(e) => {
                        proof {
                            assert forall|ids: Seq<Seq<u8>>| !texts_of_ids(all, ids) by {
                                if texts_of_ids(all, ids) {
                                    assert(crate::peer_id::is_peer_id_bytes(ids[i as int]));
                                }
                            }
                            assert(peer_id_from_str_result(peer_strs@[i as int]@) is Err);
                            assert(parse_peer_texts(all.take(i + 1)) == Err::<Seq<Seq<u8>>, Seq<char>>(peer_id_from_str_result(peer_strs@[i as int]@)->Err_0));
                            lemma_parse_failure_persists(all, i as int);
                        }
                        return Err(e);
                    },
                }
                i = i + 1;
            }
            assert(all.take(n as int) =~= all);
            assert forall|ids: Seq<Seq<u8>>| #[trigger] texts_of_ids(all, ids) implies peers_view(peers@) == ids by {
                assert forall|k: int| 0 <= k < ids.len() implies peers_view(peers@)[k] == ids[k] by {
                    assert(crate::peer_id::is_peer_id_bytes(ids[k]) && all[k] == peer_id_base58(ids[k]));
                    assert(peers@[k]@ == ids[k]);
                }
                assert(peers_view(peers@) =~= ids);
            }
            Ok(Some(peers))
        },
        None => Ok(None),
    }
}

/// A failure on a prefix of the texts is the failure of all of them.
proof fn lemma_parse_failure_persists(texts: Seq<Seq<char>>, i: int)
    requires
        0 <= i < texts.len(),
        parse_peer_texts(texts.take(i + 1)) is Err,
    ensures
        parse_peer_texts(texts) == parse_peer_texts(texts.take(i + 1)),
    decreases texts.len() - i,
{
    if i + 1 == texts.len() {
        assert(texts.take(i + 1) =~= texts);
    } else {
        assert(texts.take(i + 2).drop_last() =~= texts.take(i + 1));
        lemma_parse_failure_persists(texts, i + 1);
    }
}

} // verus!
