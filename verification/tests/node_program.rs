use safenode_service::error::Error;
use safenode_service::identity::{
    get_root_dir_and_keypair, identity_from_secret, keypair_from_path, secret_key_file_error,
    KeyFileRead, RootDirPlan,
};
use safenode_service::log_output::{
    init_logging, logging_targets, parse_log_output, LogFormat, LogLevel, LogOutputDest,
    LogOutputDestArg,
};
use safenode_service::node_run::{
    continue_after_shutdown_request, node_socket_addr, node_started_message, on_node_event,
    on_service_control, on_shutdown_signal_sent, pid_file_contents, restart_args,
    service_loop_continues, startup_banner, ControlStep, EventAction, EventReceipt, NodeEvent, Opt,
    ServiceControl, ServiceControlHandlerResult, ServiceLoopEvent,
};
use safenode_service::paths::{
    get_local_node_registry_path, get_root_dir, logs_dir_path, pid_file_path, secret_key_path,
};
use safenode_service::peer_id::PeerId;
use safenode_service::service::{IpAddress, SocketAddress};
use safenode_service::ui::{on_client_event, ClientEvent, ClientEventReceipt};

#[test]
fn log_output_values() {
    assert!(matches!(parse_log_output("stdout").unwrap(), LogOutputDestArg::Stdout));
    assert!(matches!(parse_log_output("data-dir").unwrap(), LogOutputDestArg::DataDir));
    match parse_log_output("/var/log/node").unwrap() {
        LogOutputDestArg::Path(p) => assert_eq!(p, "/var/log/node"),
        _ => panic!("a path"),
    }
    match parse_log_output("").unwrap() {
        LogOutputDestArg::Path(p) => assert_eq!(p, ""),
        _ => panic!("any other value is a path"),
    }
}

#[test]
fn log_output_display_and_parse_round_trip() {
    for v in ["stdout", "data-dir", "/tmp/logs", "Stdout", "logs dir"] {
        assert_eq!(parse_log_output(v).unwrap().to_string(), v);
    }
    for a in [LogOutputDestArg::Stdout, LogOutputDestArg::DataDir, LogOutputDestArg::Path("/x/y".to_string())] {
        let back = parse_log_output(&a.to_string()).unwrap();
        assert_eq!(back.to_string(), a.to_string());
    }
    // A path spelled like a keyword reads as the keyword.
    assert!(matches!(
        parse_log_output(&LogOutputDestArg::Path("stdout".to_string()).to_string()).unwrap(),
        LogOutputDestArg::Stdout
    ));
}

fn peer() -> PeerId {
    let kp = libp2p_identity::Keypair::ed25519_from_bytes([1u8; 32]).unwrap();
    PeerId::from_bytes(&kp.public().to_peer_id().to_bytes()).unwrap()
}

fn opt(dest: LogOutputDestArg) -> Opt {
    Opt {
        log_output_dest: dest,
        log_format: None,
        max_uncompressed_log_files: Some(10),
        max_compressed_log_files: None,
        root_dir: None,
        port: 0,
        ip: IpAddress::V4(0, 0, 0, 0),
        rpc: None,
        local: false,
    }
}

#[test]
fn log_format_values() {
    assert_eq!(LogFormat::parse_from_str("default").unwrap(), LogFormat::Default);
    assert_eq!(LogFormat::parse_from_str("json").unwrap(), LogFormat::Json);
    match LogFormat::parse_from_str("JSON") {
        Err(Error::LoggingConfiguration(m)) => assert_eq!(
            m,
            "The only valid values for this argument are \"default\" or \"json\""
        ),
        _ => panic!("only lower-case names are formats"),
    }
}

#[test]
fn paths_keep_their_separators() {
    // A data directory with a trailing separator gets no second one.
    assert_eq!(
        get_local_node_registry_path(Some("/data/")).unwrap(),
        "/data/safe/local_node_registry.json"
    );
    assert_eq!(secret_key_path("/srv/node"), "/srv/node/secret-key");
    assert_eq!(secret_key_path("/srv/node/"), "/srv/node/secret-key");
    assert_eq!(pid_file_path("/srv/node"), "/srv/node/safenode.pid");
    assert_eq!(logs_dir_path("/srv/node"), "/srv/node/logs");
    assert_eq!(secret_key_path(""), "secret-key");
}

#[test]
fn logging_plan() {
    let targets = logging_targets();
    assert_eq!(targets.len(), 10);
    assert_eq!(targets[0], ("sn_networking".to_string(), LogLevel::Debug));
    assert!(targets[1..].iter().all(|(_, l)| *l == LogLevel::Trace));
    assert_eq!(targets[9].0, "sn_transfers");

    let p = init_logging(&opt(LogOutputDestArg::Stdout), None, &peer()).unwrap();
    assert!(matches!(p.output_dest, LogOutputDest::Stdout));
    assert_eq!(p.output_dest.to_string(), "stdout");
    assert_eq!(p.format, LogFormat::Default);
    assert_eq!(p.max_uncompressed_log_files, Some(10));
    assert_eq!(p.max_compressed_log_files, None);

    let mut o = opt(LogOutputDestArg::DataDir);
    o.log_format = Some(LogFormat::Json);
    let p = init_logging(&o, Some("/home/u/.local/share"), &peer()).unwrap();
    assert_eq!(p.format, LogFormat::Json);
    assert_eq!(
        p.output_dest.to_string(),
        format!("/home/u/.local/share/safe/node/{}/logs", peer().to_base58())
    );
    assert!(matches!(
        init_logging(&opt(LogOutputDestArg::DataDir), None, &peer()),
        Err(Error::RootDirectoryNotObtainable)
    ));
    let p = init_logging(&opt(LogOutputDestArg::Path("/l".to_string())), None, &peer()).unwrap();
    assert_eq!(p.output_dest.to_string(), "/l");
}

#[test]
fn directories() {
    assert_eq!(
        get_root_dir(Some("/data"), &peer()).unwrap(),
        format!("/data/safe/node/{}", peer().to_base58())
    );
    assert!(matches!(get_root_dir(None, &peer()), Err(Error::RootDirectoryNotObtainable)));
    assert_eq!(
        get_local_node_registry_path(Some("/data")).unwrap(),
        "/data/safe/local_node_registry.json"
    );
    assert!(matches!(
        get_local_node_registry_path(None),
        Err(Error::UserDataDirectoryNotObtainable)
    ));
}

#[test]
fn identities() {
    let id = identity_from_secret(vec![1u8; 32]).unwrap();
    assert!(id.peer_id().same_as(&peer()));
    assert_eq!(id.secret(), &vec![1u8; 32]);
    assert_eq!(id.keypair().public().to_peer_id().to_bytes(), peer().to_bytes());
    match identity_from_secret(vec![1u8; 31]) {
        Err(Error::SecretKey(m)) => {
            assert_eq!(m, "Key decoding error: failed to parse Ed25519 secret key")
        }
        _ => panic!("31 bytes are no secret"),
    }
    let (id, write) = keypair_from_path(KeyFileRead::Contents(vec![1u8; 32])).unwrap();
    assert!(!write && id.peer_id().same_as(&peer()));
    match keypair_from_path(KeyFileRead::Contents(vec![1u8; 64])) {
        Err(Error::SecretKey(m)) => assert_eq!(
            m,
            "could not read ed25519 key from file: Key decoding error: failed to parse Ed25519 secret key"
        ),
        _ => panic!(),
    }
    let (id, write) = keypair_from_path(KeyFileRead::NotFound).unwrap();
    assert!(write && id.secret().len() == 32);
    let again = identity_from_secret(id.secret().clone()).unwrap();
    assert!(again.peer_id().same_as(id.peer_id()));
    assert_eq!(
        id.keypair().public().to_peer_id().to_bytes(),
        id.peer_id().to_bytes()
    );
    match keypair_from_path(KeyFileRead::Failed("permission denied".to_string())) {
        Err(Error::SecretKey(m)) => assert_eq!(m, "failed to read secret key file: permission denied"),
        _ => panic!(),
    }
    match secret_key_file_error("exists") {
        Error::SecretKey(m) => assert_eq!(m, "could not create secret key file: exists"),
        _ => panic!(),
    }
}

#[test]
fn root_dir_plans() {
    match get_root_dir_and_keypair(&Some("/srv/node".to_string()), None).unwrap() {
        RootDirPlan::Given { dir, secret_key_path } => {
            assert_eq!(dir, "/srv/node");
            assert_eq!(secret_key_path, "/srv/node/secret-key");
        }
        _ => panic!(),
    }
    match get_root_dir_and_keypair(&None, Some("/data")).unwrap() {
        RootDirPlan::Fresh { dir, secret_key_path, identity } => {
            assert_eq!(dir, format!("/data/safe/node/{}", identity.peer_id().to_base58()));
            assert_eq!(identity.keypair().public().to_peer_id().to_bytes(), identity.peer_id().to_bytes());
            assert_eq!(secret_key_path, format!("{dir}/secret-key"));
        }
        _ => panic!(),
    }
    assert!(matches!(
        get_root_dir_and_keypair(&None, None),
        Err(Error::RootDirectoryNotObtainable)
    ));
}

#[test]
fn run_loop_decisions() {
    assert!(matches!(
        on_node_event(EventReceipt::Event(NodeEvent::ConnectedToNetwork)),
        EventAction::LogConnected
    ));
    assert!(matches!(
        on_node_event(EventReceipt::Event(NodeEvent::ChannelClosed)),
        EventAction::SendShutdown
    ));
    assert!(matches!(on_node_event(EventReceipt::Closed), EventAction::SendShutdown));
    assert!(matches!(
        on_node_event(EventReceipt::Event(NodeEvent::BehindNat)),
        EventAction::SendShutdown
    ));
    match on_node_event(EventReceipt::Event(NodeEvent::Other("PeerAdded".to_string()))) {
        EventAction::Ignore(t) => assert_eq!(t, "PeerAdded"),
        _ => panic!(),
    }
    assert!(matches!(on_node_event(EventReceipt::Lagged(3)), EventAction::Skip(3)));
    assert!(continue_after_shutdown_request(true));
    assert!(!continue_after_shutdown_request(false));
}

#[test]
fn program_texts() {
    assert_eq!(startup_banner("safenode", "0.1.0"), "\nRunning safenode v0.1.0\n=======================");
    assert_eq!(
        node_started_message("12D3"),
        "\nNode started\n\nPeerId is 12D3\nYou can check your reward balance by running:\n`safe wallet balance --peer-id=12D3`\n    "
    );
    assert_eq!(pid_file_contents(0), "0");
    assert_eq!(pid_file_contents(4294967295), "4294967295");
    assert_eq!(pid_file_contents(1203), 1203u32.to_string());
    let args: Vec<String> = ["/bin/safenode", "--port", "12"].iter().map(|s| s.to_string()).collect();
    assert_eq!(restart_args(&args), vec!["--port".to_string(), "12".to_string()]);
    assert!(restart_args(&vec!["/bin/safenode".to_string()]).is_empty());
    let mut o = opt(LogOutputDestArg::Stdout);
    o.port = 1200;
    o.ip = IpAddress::V4(10, 0, 0, 2);
    assert_eq!(node_socket_addr(&o), SocketAddress { ip: IpAddress::V4(10, 0, 0, 2), port: 1200 });
}

#[test]
fn windows_service_control() {
    assert!(matches!(
        on_service_control(ServiceControl::Interrogate),
        ControlStep::Reply(ServiceControlHandlerResult::NoError)
    ));
    assert!(matches!(on_service_control(ServiceControl::Stop), ControlStep::TrySendShutdown));
    assert!(matches!(
        on_service_control(ServiceControl::Other),
        ControlStep::Reply(ServiceControlHandlerResult::NotImplemented)
    ));
    assert_eq!(on_shutdown_signal_sent(true), ServiceControlHandlerResult::NoError);
    assert_eq!(on_shutdown_signal_sent(false), ServiceControlHandlerResult::Other(1));
    assert!(service_loop_continues(true, ServiceLoopEvent::Tick));
    assert!(!service_loop_continues(true, ServiceLoopEvent::RunFinished));
    assert!(!service_loop_continues(true, ServiceLoopEvent::ShutdownReceived));
}

#[test]
fn client_feedback() {
    assert_eq!(
        on_client_event(ClientEventReceipt::Event(ClientEvent::ConnectedToNetwork)),
        ("Connected to the network".to_string(), true)
    );
    assert_eq!(
        on_client_event(ClientEventReceipt::Event(ClientEvent::GossipsubMsg { topic: "t1".to_string() })),
        ("Received message on topic t1".to_string(), true)
    );
    assert_eq!(
        on_client_event(ClientEventReceipt::Event(ClientEvent::InactiveClient { secs: 1, nanos: 500_000_000 })),
        ("Inactive client for 1.5s".to_string(), true)
    );
    assert_eq!(
        on_client_event(ClientEventReceipt::Event(ClientEvent::ObtainStoreCostFailed("no peers".to_string()))),
        ("no peers".to_string(), true)
    );
    assert_eq!(
        on_client_event(ClientEventReceipt::Closed),
        ("Event channel closed. Exiting...".to_string(), false)
    );
}
