use vstd::prelude::*;
use crate::peer_id::PeerId;

verus! {

/// One component of a network address.
pub enum Protocol {
    /// An IPv4 address, by its four octets.
    Ip4(u8, u8, u8, u8),
    /// An IPv6 address, as one 128-bit number.
    Ip6(u128),
    /// A DNS name.
    Dns(String),
    /// A TCP port.
    Tcp(u16),
    /// A UDP port.
    Udp(u16),
    /// The QUIC (version 1) transport.
    QuicV1,
    /// The id of the peer reached at the address.
    P2p(PeerId),
    /// Any other component, by its text (such as `/ws`).
    Other(String),
}

/// The mathematical value of a [`Protocol`].
pub enum ProtocolView {
    Ip4(u8, u8, u8, u8),
    Ip6(u128),
    Dns(Seq<char>),
    Tcp(u16),
    Udp(u16),
    QuicV1,
    P2p(Seq<u8>),
    Other(Seq<char>),
}

impl View for Protocol {
    type V = ProtocolView;

    open spec fn view(&self) -> ProtocolView {
        match self {
            Protocol::Ip4(a, b, c, d) => ProtocolView::Ip4(*a, *b, *c, *d),
            Protocol::Ip6(x) => ProtocolView::Ip6(*x),
            Protocol::Dns(s) => ProtocolView::Dns(s@),
            Protocol::Tcp(p) => ProtocolView::Tcp(*p),
            Protocol::Udp(p) => ProtocolView::Udp(*p),
            Protocol::QuicV1 => ProtocolView::QuicV1,
            Protocol::P2p(id) => ProtocolView::P2p(id@),
            Protocol::Other(s) => ProtocolView::Other(s@),
        }
    }
}

impl Protocol {
    /// A second value of the same component.
    pub fn duplicate(&self) -> (r: Protocol)
        ensures
            r@ == self@,
    {
        match self {
            Protocol::Ip4(a, b, c, d) => Protocol::Ip4(*a, *b, *c, *d),
            Protocol::Ip6(x) => Protocol::Ip6(*x),
            Protocol::Dns(s) => Protocol::Dns(s.clone()),
            Protocol::Tcp(p) => Protocol::Tcp(*p),
            Protocol::Udp(p) => Protocol::Udp(*p),
            Protocol::QuicV1 => Protocol::QuicV1,
            Protocol::P2p(id) => Protocol::P2p(id.duplicate()),
            Protocol::Other(s) => Protocol::Other(s.clone()),
        }
    }
}

/// A network address made of components, such as
/// `/ip4/127.0.0.1/udp/56215/quic-v1/p2p/<peer id>`.
pub struct Multiaddr {
    pub components: Vec<Protocol>,
}

impl View for Multiaddr {
    type V = Seq<ProtocolView>;

    open spec fn view(&self) -> Seq<ProtocolView> {
        self.components@.map_values(|p: Protocol| p@)
    }
}

/// The port of the first UDP component of an address, if it has one.
pub open spec fn udp_port_of(components: Seq<ProtocolView>) -> Option<u16>
    decreases components.len(),
{
    if components.len() == 0 {
        None
    } else {
        match components[0] {
            ProtocolView::Udp(port) => Some(port),
            _ => udp_port_of(components.drop_first()),
        }
    }
}

/// The UDP port of an address is that of its first UDP component, whatever the
/// components before it (IPv4, IPv6, DNS, ...) are; an address without a UDP
/// component has none.
pub proof fn lemma_udp_port_is_first_udp(components: Seq<ProtocolView>)
    ensures
        forall|j: int|
            0 <= j < components.len() && #[trigger] components[j] is Udp && (forall|k: int|
                0 <= k < j ==> !(#[trigger] components[k] is Udp)) ==> udp_port_of(components) == Some(
                components[j]->Udp_0,
            ),
        (forall|k: int| 0 <= k < components.len() ==> !(#[trigger] components[k] is Udp))
            ==> udp_port_of(components) is None,
    decreases components.len(),
{
    if components.len() > 0 {
        lemma_udp_port_is_first_udp(components.drop_first());
        assert forall|j: int|
            0 <= j < components.len() && #[trigger] components[j] is Udp && (forall|k: int|
                0 <= k < j ==> !(#[trigger] components[k] is Udp)) implies udp_port_of(components)
                == Some(components[j]->Udp_0) by {
            if j > 0 {
                assert(!(components[0] is Udp));
                assert(components.drop_first()[j - 1] == components[j]);
                assert forall|k: int| 0 <= k < j - 1 implies !(
                #[trigger] components.drop_first()[k] is Udp) by {
                    assert(components.drop_first()[k] == components[k + 1]);
                }
            }
        }
        if forall|k: int| 0 <= k < components.len() ==> !(#[trigger] components[k] is Udp) {
            assert(!(components[0] is Udp));
            assert forall|k: int| 0 <= k < components.drop_first().len() implies !(
            #[trigger] components.drop_first()[k] is Udp) by {
                assert(components.drop_first()[k] == components[k + 1]);
            }
        }
    }
}

impl Multiaddr {
    /// The address with one more component at its end (`Multiaddr::with`).
    pub fn with(self, p: Protocol) -> (r: Multiaddr)
        ensures
            r@ == self@.push(p@),
    {
        let mut components = self.components;
        let ghost old_components = components@;
        components.push(p);
        let r = Multiaddr { components };
        assert(r@ =~= old_components.map_values(|q: Protocol| q@).push(p@));
        r
    }

    /// A second value of the same address.
    pub fn duplicate(&self) -> (r: Multiaddr)
        ensures
            r@ == self@,
    {
        let mut components: Vec<Protocol> = Vec::new();
        let n = self.components.len();
        let mut i: usize = 0;
        while i < n
            invariant
                n == self.components.len(),
                i <= n,
                components.len() == i,
                forall|j: int| 0 <= j < i ==> #[trigger] components@[j]@ == self.components@[j]@,
            decreases n - i,
        {
            components.push(self.components[i].duplicate());
            i = i + 1;
        }
        let r = Multiaddr { components };
        assert(r@ =~= self@);
        r
    }

    /// The port of the first UDP component of the address, if any
    /// (such as 56215 in `/ip4/127.0.0.1/udp/56215/quic-v1`).
    pub fn udp_port(&self) -> (r: Option<u16>)
        ensures
            r == udp_port_of(self@),
    {
        let n = self.components.len();
        let mut i: usize = 0;
        assert(self@.skip(0) =~= self@);
        while i < n
            invariant
                n == self.components.len(),
                i <= n,
                udp_port_of(self@) == udp_port_of(self@.skip(i as int)),
            decreases n - i,
        {
            assert(self@.skip(i as int)[0] == self.components@[i as int]@);
            if let Protocol::Udp(port) = &self.components[i] {
                return Some(*port);
            }
            assert(self@.skip(i as int).drop_first() =~= self@.skip(i + 1));
            i = i + 1;
        }
        assert(self@.skip(n as int).len() == 0);
        None
    }
}

} // verus!
