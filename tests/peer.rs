use carrier::address::{IpAddress, SocketAddress};
use carrier::context::{attach_reply, classify_inbound, start_reply, InboundRequest, PeerContext};
use carrier::error::Error;
use carrier::executor::InstancesExecutor;
use carrier::peer::{connect_to_peer_failure, service_request, service_start_reply};
use carrier::protocol::{PeerId, Protocol};
use carrier::stream::NewStreamHandle;

fn echo() -> String {
    String::from("echo")
}

#[test]
fn empty_registry_refuses_every_start() {
    let mut ctx: PeerContext<u8, &str> = PeerContext::new();
    for name in ["echo", "lifeline", ""] {
        let r = ctx.start_server_service_instance(&String::from(name), 3, 1, "sender");
        assert!(matches!(&r, Err(Error::ServiceNotFound(n)) if n == name));
        assert!(matches!(start_reply(&r), Protocol::ServiceNotFound));
    }
    assert!(ctx.connect_stream_to_service_instance(0, 1).is_none());
}

#[test]
fn missing_service_is_refused_and_registers_nothing() {
    let mut ctx: PeerContext<u8, &str> = PeerContext::new();
    ctx.register_service(echo(), 1);
    let r = ctx.start_server_service_instance(&String::from("missing"), 0, 1, "sender");
    assert!(matches!(&r, Err(Error::ServiceNotFound(n)) if n == "missing"));
    assert!(ctx.connect_stream_to_service_instance(0, 1).is_none());
    // The next instance still gets the first id.
    let (id, _) = ctx.start_server_service_instance(&echo(), 0, 1, "sender").unwrap();
    assert_eq!(id, 0);
}

#[test]
fn started_instance_gets_fresh_id_and_handle() {
    let mut ctx: PeerContext<u8, &str> = PeerContext::new();
    ctx.register_service(echo(), 7);
    let r = ctx.start_server_service_instance(&echo(), 41, 9, "a");
    let (id, handle) = r.as_ref().unwrap();
    assert_eq!(*id, 0);
    assert_eq!(handle.service_id, 41);
    assert_eq!(handle.connection, 9);
    assert!(matches!(start_reply(&r), Protocol::ServiceStarted { id: 0 }));
    let (id2, _) = ctx.start_server_service_instance(&echo(), 42, 9, "b").unwrap();
    assert_eq!(id2, 1);
}

#[test]
fn register_service_replaces_same_name() {
    let mut ctx: PeerContext<u8, &str> = PeerContext::new();
    ctx.register_service(echo(), 1);
    ctx.register_service(echo(), 2);
    ctx.register_service(String::from("lifeline"), 3);
    assert_eq!(ctx.find_service(&echo()), Some(&2));
    assert_eq!(ctx.find_service(&String::from("lifeline")), Some(&3));
    assert_eq!(ctx.find_service(&String::from("other")), None);
}

#[test]
fn stream_attaches_only_from_same_connection() {
    let mut ctx: PeerContext<u8, &str> = PeerContext::new();
    ctx.register_service(echo(), 1);
    let (id, _) = ctx.start_server_service_instance(&echo(), 0, 5, "inst").unwrap();
    assert_eq!(ctx.connect_stream_to_service_instance(id, 5), Some(&"inst"));
    assert_eq!(ctx.connect_stream_to_service_instance(id, 6), None);
    assert_eq!(ctx.connect_stream_to_service_instance(id + 1, 5), None);
    assert!(matches!(attach_reply(true), Protocol::ServiceConnected));
    assert!(matches!(attach_reply(false), Protocol::ServiceNotFound));
}

#[test]
fn no_attach_after_drop_and_ids_not_reused() {
    let mut ctx: PeerContext<u8, &str> = PeerContext::new();
    ctx.register_service(echo(), 1);
    let (id, _) = ctx.start_server_service_instance(&echo(), 0, 5, "inst").unwrap();
    ctx.service_instance_dropped(id);
    assert_eq!(ctx.connect_stream_to_service_instance(id, 5), None);
    ctx.service_instance_dropped(id);
    let (next, _) = ctx.start_server_service_instance(&echo(), 0, 5, "inst2").unwrap();
    assert_ne!(next, id);
    assert_eq!(next, 1);
}

#[test]
fn next_service_id_counts_up() {
    let mut ctx: PeerContext<u8, &str> = PeerContext::new();
    assert_eq!(ctx.next_service_id(), Some(0));
    assert_eq!(ctx.next_service_id(), Some(1));
    assert_eq!(ctx.start_client_service_instance(3, "client").unwrap(), 2);
    assert_eq!(ctx.connect_stream_to_service_instance(2, 3), Some(&"client"));
}

#[test]
fn executor_routes_by_id() {
    let mut ex: InstancesExecutor<u32> = InstancesExecutor::new();
    let a = ex.add_server_service_instance(1, 100).unwrap();
    let b = ex.add_server_service_instance(2, 200).unwrap();
    assert_eq!((a, b), (0, 1));
    assert_eq!(ex.connect_stream_to_server_service_instance(b, 2), Some(&200));
    assert_eq!(ex.connect_stream_to_server_service_instance(a, 1), Some(&100));
    ex.service_instance_dropped(a);
    assert_eq!(ex.connect_stream_to_server_service_instance(a, 1), None);
    assert_eq!(ex.connect_stream_to_server_service_instance(b, 2), Some(&200));
}

#[test]
fn inbound_first_message_is_classified() {
    assert!(matches!(
        classify_inbound(Some(Protocol::ConnectToService { id: 4 })),
        InboundRequest::Attach { id: 4 }
    ));
    match classify_inbound(Some(Protocol::RequestServiceStart { name: echo(), local_id: 8 })) {
        InboundRequest::Start { name, remote_id } => {
            assert_eq!(name, "echo");
            assert_eq!(remote_id, 8);
        }
        _ => panic!("expected a start request"),
    }
    assert!(matches!(classify_inbound(None), InboundRequest::Close));
    assert!(matches!(classify_inbound(Some(Protocol::ServiceConnected)), InboundRequest::Close));
}

#[test]
fn service_request_carries_name_and_local_id() {
    match service_request(&echo(), 12) {
        Protocol::RequestServiceStart { name, local_id } => {
            assert_eq!(name, "echo");
            assert_eq!(local_id, 12);
        }
        _ => panic!("expected RequestServiceStart"),
    }
}

#[test]
fn service_start_replies() {
    assert_eq!(service_start_reply(&echo(), Some(Protocol::ServiceStarted { id: 6 })).unwrap(), 6);
    let r = service_start_reply(&String::from("missing"), Some(Protocol::ServiceNotFound));
    assert!(matches!(r, Err(Error::ServiceNotFound(n)) if n == "missing"));
    assert!(matches!(
        service_start_reply(&echo(), None),
        Err(Error::ConnectionClosedDuringRequest)
    ));
    assert!(matches!(
        service_start_reply(&echo(), Some(Protocol::ServiceConnected)),
        Err(Error::UnexpectedMessage)
    ));
}

#[test]
fn peer_not_found_reply_names_the_peer() {
    let x = PeerId::new(vec![0xab; 32]);
    let e = connect_to_peer_failure(x.clone(), Some(Protocol::PeerNotFound));
    assert!(matches!(&e, Error::PeerNotFound(p) if *p == x));
    assert!(e.is_retryable());
    let addr = SocketAddress { ip: IpAddress::V4([1, 2, 3, 4]), port: 5 };
    let e = connect_to_peer_failure(x.clone(), Some(Protocol::PeerOnBearer { addr }));
    assert!(matches!(e, Error::PeerOnBearer(a) if a == addr));
    let e = connect_to_peer_failure(x.clone(), Some(Protocol::Error { msg: String::from("no") }));
    assert!(matches!(&e, Error::Remote(m) if m == "no"));
    assert!(!e.is_retryable());
    assert!(matches!(connect_to_peer_failure(x, None), Error::ConnectionClosedDuringRequest));
    assert!(!Error::ServiceNotFound(echo()).is_retryable());
}

#[test]
fn new_stream_handshake() {
    let h = NewStreamHandle::new(17, 2);
    assert!(matches!(h.new_stream_request(), Protocol::ConnectToService { id: 17 }));
    assert!(h.new_stream_reply(Some(Protocol::ServiceConnected)).is_ok());
    assert!(matches!(
        h.new_stream_reply(Some(Protocol::ServiceNotFound)),
        Err(Error::ServiceInstanceNotFound(17))
    ));
    assert!(matches!(h.new_stream_reply(None), Err(Error::ConnectionClosedDuringRequest)));
    assert!(matches!(
        h.new_stream_reply(Some(Protocol::PeerNotFound)),
        Err(Error::UnexpectedMessage)
    ));
}
