use safenode_service::error::Error;
use safenode_service::multiaddr::{Multiaddr, Protocol};
use safenode_service::node::{
    deserialize_connected_peers, deserialize_peer_id, serialize_connected_peers, serialize_peer_id,
};
use safenode_service::peer_id::PeerId;

fn sample_peer() -> libp2p_identity::PeerId {
    let secret = [7u8; 32];
    libp2p_identity::Keypair::ed25519_from_bytes(secret).unwrap().public().to_peer_id()
}

fn other_peer() -> libp2p_identity::PeerId {
    let secret = [9u8; 32];
    libp2p_identity::Keypair::ed25519_from_bytes(secret).unwrap().public().to_peer_id()
}

#[test]
fn peer_id_text_and_bytes_match_libp2p() {
    let real = sample_peer();
    let ours = PeerId::from_base58(&real.to_base58()).unwrap();
    assert_eq!(ours.to_base58(), real.to_base58());
    assert_eq!(ours.to_bytes(), real.to_bytes());
    let again = PeerId::from_bytes(&real.to_bytes()).unwrap();
    assert!(again.same_as(&ours));
    assert!(!again.same_as(&PeerId::from_bytes(&other_peer().to_bytes()).unwrap()));
}

#[test]
fn peer_id_parse_errors_carry_libp2p_text() {
    match PeerId::from_base58("not-a-peer-id") {
        Err(Error::PeerIdParse(m)) => {
            let expected = "not-a-peer-id".parse::<libp2p_identity::PeerId>().unwrap_err().to_string();
            assert_eq!(m, expected);
        }
        _ => panic!("expected a parse error"),
    }
    match PeerId::from_bytes(&[1, 2, 3]) {
        Err(Error::PeerIdParse(m)) => {
            let expected = libp2p_identity::PeerId::from_bytes(&[1, 2, 3]).unwrap_err().to_string();
            assert_eq!(m, expected);
        }
        _ => panic!("expected a parse error"),
    }
}

#[test]
fn stored_peer_id_reads_back() {
    let p = PeerId::from_bytes(&sample_peer().to_bytes()).unwrap();
    let text = serialize_peer_id(&Some(p.duplicate()));
    assert_eq!(text, Some(sample_peer().to_string()));
    let back = deserialize_peer_id(text).unwrap().unwrap();
    assert!(back.same_as(&p));
    assert!(serialize_peer_id(&None).is_none());
    assert!(matches!(deserialize_peer_id(None), Ok(None)));
    assert!(matches!(deserialize_peer_id(Some("zz0".to_string())), Err(Error::PeerIdParse(_))));
}

#[test]
fn stored_connected_peers_read_back_in_order() {
    let a = PeerId::from_bytes(&sample_peer().to_bytes()).unwrap();
    let b = PeerId::from_bytes(&other_peer().to_bytes()).unwrap();
    let texts = serialize_connected_peers(&Some(vec![a.duplicate(), b.duplicate()])).unwrap();
    assert_eq!(texts, vec![sample_peer().to_string(), other_peer().to_string()]);
    let back = deserialize_connected_peers(Some(texts)).unwrap().unwrap();
    assert_eq!(back.len(), 2);
    assert!(back[0].same_as(&a));
    assert!(back[1].same_as(&b));
    assert!(serialize_connected_peers(&None).is_none());
    assert!(matches!(deserialize_connected_peers(None), Ok(None)));
}

#[test]
fn connected_peers_fail_on_first_bad_text() {
    let good = sample_peer().to_string();
    let first_bad = "0OIl".to_string();
    let expected = first_bad.parse::<libp2p_identity::PeerId>().unwrap_err().to_string();
    let r = deserialize_connected_peers(Some(vec![good, first_bad, "also bad".to_string()]));
    match r {
        Err(Error::PeerIdParse(m)) => assert_eq!(m, expected),
        _ => panic!("expected the first parse error"),
    }
}

fn quic_addr(port: u16) -> Multiaddr {
    Multiaddr {
        components: vec![Protocol::Ip4(127, 0, 0, 1), Protocol::Udp(port), Protocol::QuicV1],
    }
}

#[test]
fn udp_port_is_first_udp_component() {
    assert_eq!(quic_addr(56215).udp_port(), Some(56215));
    let tcp = Multiaddr { components: vec![Protocol::Ip4(10, 0, 0, 1), Protocol::Tcp(80)] };
    assert_eq!(tcp.udp_port(), None);
    let two = Multiaddr { components: vec![Protocol::Udp(1), Protocol::Udp(2)] };
    assert_eq!(two.udp_port(), Some(1));
}

#[test]
fn with_appends_a_component() {
    let p = PeerId::from_bytes(&sample_peer().to_bytes()).unwrap();
    let a = quic_addr(5).with(Protocol::P2p(p));
    assert_eq!(a.components.len(), 4);
    assert!(matches!(a.components[3], Protocol::P2p(_)));
    assert_eq!(a.udp_port(), Some(5));
}
