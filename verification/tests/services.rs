use safenode_service::daemon::{
    on_node_restarted, on_registry_loaded, on_registry_path, on_registry_saved, restart_handler,
    AfterRestart, Code, RestartKind,
};
use safenode_service::error::Error;
use safenode_service::multiaddr::{Multiaddr, Protocol};
use safenode_service::node::{
    NetworkInfo, NodeInfo, NodeObservation, NodeService, NodeServiceData,
};
use safenode_service::peer_id::PeerId;
use safenode_service::registry::{NodeRegistry, RegistryFile, RegistryLoad};
use safenode_service::service::{
    Daemon, Faucet, IpAddress, ServiceStateActions, ServiceStatus, SocketAddress,
};

fn peer(seed: u8) -> PeerId {
    let kp = libp2p_identity::Keypair::ed25519_from_bytes([seed; 32]).unwrap();
    PeerId::from_bytes(&kp.public().to_peer_id().to_bytes()).unwrap()
}

fn node_data(number: u16, peer_id: Option<PeerId>, rpc_port: u16) -> NodeServiceData {
    NodeServiceData {
        connected_peers: None,
        data_dir_path: format!("/var/safenode/node{number}"),
        genesis: false,
        listen_addr: None,
        local: true,
        log_dir_path: format!("/var/log/safenode/node{number}"),
        number,
        peer_id,
        pid: None,
        rpc_socket_addr: SocketAddress { ip: IpAddress::V4(127, 0, 0, 1), port: rpc_port },
        safenode_path: "/usr/bin/safenode".to_string(),
        service_name: format!("safenode{number}"),
        status: ServiceStatus::Added,
        user: "safe".to_string(),
        version: "0.105.0".to_string(),
    }
}

fn addr(components: Vec<Protocol>) -> Multiaddr {
    Multiaddr { components }
}

#[test]
fn node_service_reports_its_record() {
    let svc = NodeService::new(node_data(1, None, 13001), ());
    assert_eq!(svc.bin_path(), "/usr/bin/safenode");
    assert_eq!(svc.data_dir_path(), "/var/safenode/node1");
    assert_eq!(svc.log_dir_path(), "/var/log/safenode/node1");
    assert_eq!(svc.name(), "safenode1");
    assert_eq!(svc.pid(), None);
    assert_eq!(svc.status(), ServiceStatus::Added);
}

#[test]
fn initialize_records_what_the_node_reported() {
    let mut svc = NodeService::new(node_data(1, None, 13001), ());
    let obs = NodeObservation {
        node_info: Ok(NodeInfo { pid: 4242, peer_id: peer(3) }),
        network_info: Ok(NetworkInfo {
            listeners: vec![
                addr(vec![Protocol::Ip4(127, 0, 0, 1), Protocol::Tcp(9000)]),
                addr(vec![Protocol::Ip4(127, 0, 0, 1), Protocol::Udp(56215), Protocol::QuicV1]),
            ],
        }),
    };
    assert!(svc.initialize(obs).is_ok());
    assert_eq!(svc.pid(), Some(4242));
    assert_eq!(svc.status(), ServiceStatus::Running);
    assert!(svc.service_data.peer_id.as_ref().unwrap().same_as(&peer(3)));
    let addrs = svc.service_data.listen_addr.as_ref().unwrap();
    assert_eq!(addrs.len(), 2);
    for a in addrs {
        match a.components.last().unwrap() {
            Protocol::P2p(id) => assert!(id.same_as(&peer(3))),
            _ => panic!("the node's id is appended"),
        }
    }
    assert_eq!(svc.service_data.get_safenode_port(), Some(56215));
}

#[test]
fn initialize_failure_leaves_record_unchanged() {
    let mut svc = NodeService::new(node_data(1, None, 13001), ());
    let obs = NodeObservation {
        node_info: Err(Error::Rpc("node unreachable".to_string())),
        network_info: Ok(NetworkInfo { listeners: vec![] }),
    };
    match svc.initialize(obs) {
        Err(Error::Rpc(m)) => assert_eq!(m, "node unreachable"),
        _ => panic!("expected the node-info error"),
    }
    assert_eq!(svc.status(), ServiceStatus::Added);
    assert!(svc.service_data.listen_addr.is_none());

    let obs = NodeObservation {
        node_info: Ok(NodeInfo { pid: 1, peer_id: peer(3) }),
        network_info: Err(Error::Rpc("no network info".to_string())),
    };
    match svc.initialize(obs) {
        Err(Error::Rpc(m)) => assert_eq!(m, "no network info"),
        _ => panic!("expected the network-info error"),
    }
    assert_eq!(svc.pid(), None);
}

#[test]
fn safenode_port_of_record() {
    let mut data = node_data(1, None, 13001);
    assert_eq!(data.get_safenode_port(), None);
    data.listen_addr = Some(vec![addr(vec![Protocol::Ip4(1, 2, 3, 4), Protocol::Tcp(1)])]);
    assert_eq!(data.get_safenode_port(), None);
    data.listen_addr = Some(vec![
        addr(vec![Protocol::Ip4(1, 2, 3, 4), Protocol::Tcp(1)]),
        addr(vec![Protocol::Ip4(1, 2, 3, 4), Protocol::Udp(7), Protocol::QuicV1]),
        addr(vec![Protocol::Udp(8)]),
    ]);
    assert_eq!(data.get_safenode_port(), Some(7));
}

#[test]
fn registry_load_missing_or_empty_is_empty() {
    match NodeRegistry::load("/tmp/reg.json", RegistryFile::Missing) {
        RegistryLoad::Loaded(r) => {
            assert!(r.nodes.is_empty() && r.bootstrap_peers.is_empty());
            assert!(r.daemon.is_none() && r.faucet.is_none() && r.environment_variables.is_none());
            assert_eq!(r.save_path, "/tmp/reg.json");
        }
        _ => panic!("a missing file is an empty registry"),
    }
    match NodeRegistry::load("/tmp/reg.json", RegistryFile::Contents(String::new())) {
        RegistryLoad::Loaded(r) => assert_eq!(r.save_path, "/tmp/reg.json"),
        _ => panic!("an empty file is an empty registry"),
    }
    match NodeRegistry::load("/tmp/reg.json", RegistryFile::Contents("{}".to_string())) {
        RegistryLoad::Parse(json) => assert_eq!(json, "{}"),
        _ => panic!("contents are parsed"),
    }
}

fn registry() -> NodeRegistry {
    let mut r = NodeRegistry::empty("/tmp/reg.json");
    r.nodes.push(node_data(1, None, 13001));
    r.nodes.push(node_data(2, Some(peer(2)), 13002));
    r.nodes.push(node_data(3, Some(peer(3)), 13003));
    r.nodes.push(node_data(4, Some(peer(3)), 13004));
    r.bootstrap_peers.push(addr(vec![Protocol::Ip4(8, 8, 8, 8), Protocol::Udp(1200)]));
    r.environment_variables = Some(vec![("RUST_LOG".to_string(), "trace".to_string())]);
    r.daemon = Some(Daemon {
        daemon_path: "/usr/bin/daemon".to_string(),
        endpoint: None,
        pid: None,
        service_name: "safenodemand".to_string(),
        status: ServiceStatus::Stopped,
    });
    r.faucet = Some(Faucet {
        faucet_path: "/usr/bin/faucet".to_string(),
        local: true,
        log_dir_path: "/var/log/faucet".to_string(),
        pid: Some(5),
        service_name: "faucet".to_string(),
        status: ServiceStatus::Running,
        user: "safe".to_string(),
        version: "0.1".to_string(),
    });
    r
}

#[test]
fn find_node_takes_first_match() {
    let r = registry();
    assert_eq!(r.find_node_by_peer_id(&peer(3)), Some(2));
    assert_eq!(r.find_node_by_peer_id(&peer(2)), Some(1));
    assert_eq!(r.find_node_by_peer_id(&peer(5)), None);
    assert_eq!(r.faucet.as_ref().unwrap().duplicate().pid, Some(5));
    assert_eq!(r.daemon.as_ref().unwrap().duplicate().status, ServiceStatus::Stopped);
}

#[test]
fn restart_plans() {
    let r = registry();
    let plan = restart_handler(&r, &peer(3), true, true).unwrap();
    assert_eq!(plan.node_index, 2);
    assert_eq!(plan.rpc_socket_addr.port, 13003);
    assert!(plan.preserve_peer_id);
    assert_eq!(plan.bootstrap_peers.len(), 1);
    assert!(matches!(plan.kind, RestartKind::Process));

    let plan = restart_handler(&r, &peer(2), false, false).unwrap();
    assert_eq!(plan.node_index, 1);
    match plan.kind {
        RestartKind::Service { environment_variables: Some(v) } => {
            assert_eq!(v, vec![("RUST_LOG".to_string(), "trace".to_string())])
        }
        _ => panic!("a service restart carries the environment"),
    }

    match restart_handler(&r, &peer(5), true, true) {
        Err(Error::NodeNotFound(m)) => {
            assert_eq!(m, format!("Could not find the provided PeerId: {:?}", libp2p_peer(5)))
        }
        _ => panic!("unknown peer"),
    }
}

fn libp2p_peer(seed: u8) -> libp2p_identity::PeerId {
    libp2p_identity::Keypair::ed25519_from_bytes([seed; 32]).unwrap().public().to_peer_id()
}

#[test]
fn restart_request_replies() {
    match on_registry_path(Err("no home".to_string())) {
        Err(reply) => {
            assert_eq!(reply.code, Code::Internal);
            assert_eq!(reply.message, "Could not obtain node registry path no home");
        }
        _ => panic!(),
    }
    assert_eq!(on_registry_path(Ok("/x".to_string())).ok().unwrap(), "/x");

    match on_registry_loaded(Err("bad json".to_string()), &libp2p_peer(3).to_bytes(), true, true) {
        Err(reply) => assert_eq!(reply.message, "Could not open local node registry with bad json"),
        _ => panic!(),
    }
    match on_registry_loaded(Ok(registry()), &[0xff, 0xff], true, true) {
        Err(reply) => {
            let e = libp2p_identity::PeerId::from_bytes(&[0xff, 0xff]).unwrap_err();
            assert_eq!(reply.message, format!("Failed to parse PeerId: {e}"));
        }
        _ => panic!(),
    }
    match on_registry_loaded(Ok(registry()), &libp2p_peer(5).to_bytes(), true, true) {
        Err(reply) => assert_eq!(
            reply.message,
            format!(
                "Failed to restart the node: Could not find the provided PeerId: {:?}",
                libp2p_peer(5)
            )
        ),
        _ => panic!(),
    }
    match on_registry_loaded(Ok(registry()), &libp2p_peer(3).to_bytes(), false, false) {
        Ok((reg, plan)) => {
            assert_eq!(reg.nodes.len(), 4);
            assert_eq!(plan.node_index, 2);
            assert!(!plan.preserve_peer_id);
            assert!(matches!(plan.kind, RestartKind::Service { .. }));
        }
        _ => panic!(),
    }
    assert!(matches!(on_node_restarted(Ok(())), AfterRestart::SaveRegistry));
    match on_node_restarted(Err(Error::Rpc("timeout".to_string()))) {
        AfterRestart::Reply(reply) => {
            assert_eq!(reply.code, Code::Internal);
            assert_eq!(reply.message, "Failed to restart the node: timeout")
        }
        _ => panic!(),
    }
    assert!(on_registry_saved(Ok(())).is_ok());
    match on_registry_saved(Err(Error::Rpc("disk full".to_string()))) {
        Err(reply) => assert_eq!(reply.message, "Failed to restart the node: disk full"),
        _ => panic!(),
    }
}

#[test]
fn error_texts() {
    assert_eq!(Error::UserDataDirectoryNotObtainable.message(), "Could not obtain user's data directory");
    assert_eq!(Error::RootDirectoryNotObtainable.message(), "could not obtain root directory path");
    assert_eq!(Error::SecretKey("x".to_string()).message(), "x");
}
