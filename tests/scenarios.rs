use std::sync::mpsc::{channel, Receiver, Sender};

use carrier::address::{IpAddress, SocketAddress};
use carrier::bearer::{BearerAction, Directory};
use carrier::context::{attach_reply, classify_inbound, start_reply, InboundRequest, PeerContext};
use carrier::error::Error;
use carrier::peer::{connect_to_peer_failure, service_request, service_start_reply};
use carrier::peer_proof::create_proof;
use carrier::protocol::{PeerId, Protocol, ServiceId};
use carrier::stream::NewStreamHandle;

use openssl::ec::{EcGroup, EcKey};
use openssl::nid::Nid;
use openssl::pkey::PKey;

const TEST_SERVICE_DATA: &[u8] = b"HERP!DERP!TEST!SERVICE";
const CONNECTION: u64 = 100;

/// One end of a simulated stream: the server writes, the client reads.
enum End {
    Writer(Sender<Vec<u8>>),
    Reader(Receiver<Vec<u8>>),
}

type Ctx = PeerContext<u8, Sender<End>>;

struct Session {
    client: Ctx,
    server: Ctx,
    client_id: ServiceId,
    server_id: ServiceId,
    server_handle: NewStreamHandle,
    client_streams: Receiver<End>,
    server_streams: Receiver<End>,
    first_reader: Receiver<Vec<u8>>,
    first_writer: Sender<Vec<u8>>,
}

fn bearer_addr() -> SocketAddress {
    SocketAddress { ip: IpAddress::V4([127, 0, 0, 1]), port: 22222 }
}

/// Registers peer `r` at the bearer and lets the client ask for a connection to it.
fn broker_to_registered_peer(r: &PeerId) {
    let group = EcGroup::from_curve_name(Nid::X9_62_PRIME256V1).unwrap();
    let key = PKey::from_ec_key(EcKey::generate(&group).unwrap()).unwrap();
    let der = key.public_key_to_der().unwrap();
    let mut bearer: Directory<u64> = Directory::new(bearer_addr(), false);
    let hello = Protocol::Hello { proof: create_proof(&key, &bearer_addr()).unwrap() };
    bearer.handle_hello(Some(hello), r.clone(), Some(der), 1, 7).unwrap();
    let ask = Protocol::ConnectToPeer { pub_key: r.clone(), connection_id: CONNECTION };
    assert!(matches!(bearer.handle_message(ask), BearerAction::Broker { target: 7, .. }));
}

/// Runs the start handshake of service `name` from a client to a peer offering `echo`.
fn start_session(name: &str) -> Result<Session, Error> {
    let r = PeerId::new(vec![0x42; 32]);
    broker_to_registered_peer(&r);

    let mut server: Ctx = PeerContext::new();
    server.register_service(String::from("echo"), 1);
    let mut client: Ctx = PeerContext::new();

    let (client_tx, client_streams) = channel();
    let client_id = client.start_client_service_instance(CONNECTION, client_tx)?;
    let request = service_request(&String::from(name), client_id);

    let (server_tx, server_streams) = channel();
    let started = match classify_inbound(Some(request)) {
        InboundRequest::Start { name, remote_id } => {
            server.start_server_service_instance(&name, remote_id, CONNECTION, server_tx)
        }
        _ => panic!("expected a start request"),
    };
    let reply = start_reply(&started);
    let server_id = service_start_reply(&String::from(name), Some(reply)).map_err(|e| {
        client.service_instance_dropped(client_id);
        e
    })?;
    let (id, server_handle) = started.unwrap();
    assert_eq!(id, server_id);
    assert_eq!(server_handle.service_id, client_id);

    let (first_writer, first_reader) = channel();
    Ok(Session {
        client,
        server,
        client_id,
        server_id,
        server_handle,
        client_streams,
        server_streams,
        first_reader,
        first_writer,
    })
}

/// Attaches a stream that `opener` opens with `handle` to an instance of `acceptor`.
fn attach(acceptor: &Ctx, handle: &NewStreamHandle, end: End) {
    let id = match classify_inbound(Some(handle.new_stream_request())) {
        InboundRequest::Attach { id } => id,
        _ => panic!("expected an attach request"),
    };
    let sender = acceptor.connect_stream_to_service_instance(id, handle.connection);
    let reply = attach_reply(sender.is_some());
    handle.new_stream_reply(Some(reply)).unwrap();
    sender.unwrap().send(end).unwrap();
}

/// The server writes the service data once on every stream it owns; the client
/// collects what arrives on all of its streams.
fn run(s: Session, extra_client_readers: Vec<Receiver<Vec<u8>>>) -> Vec<u8> {
    s.first_writer.send(TEST_SERVICE_DATA.to_vec()).unwrap();
    drop(s.first_writer);
    for end in s.server_streams.try_iter() {
        if let End::Writer(w) = end {
            w.send(TEST_SERVICE_DATA.to_vec()).unwrap();
        }
    }
    let mut data: Vec<u8> = s.first_reader.try_iter().flatten().collect();
    for end in s.client_streams.try_iter() {
        if let End::Reader(r) = end {
            data.extend(r.try_iter().flatten());
        }
    }
    for r in extra_client_readers {
        data.extend(r.try_iter().flatten());
    }
    data
}

fn expected(streams: usize) -> Vec<u8> {
    TEST_SERVICE_DATA.iter().cloned().cycle().take(TEST_SERVICE_DATA.len() * streams).collect()
}

#[test]
fn direct_one_stream_service() {
    let s = start_session("echo").unwrap();
    assert_eq!(run(s, vec![]), expected(1));
}

#[test]
fn client_opens_additional_stream() {
    let s = start_session("echo").unwrap();
    let handle = NewStreamHandle::new(s.server_id, CONNECTION);
    let (w, r) = channel();
    attach(&s.server, &handle, End::Writer(w));
    assert_eq!(run(s, vec![r]), expected(2));
}

#[test]
fn peer_opens_additional_stream() {
    let s = start_session("echo").unwrap();
    let (w, r) = channel();
    let handle = s.server_handle;
    attach(&s.client, &handle, End::Reader(r));
    s.server.connect_stream_to_service_instance(s.server_id, CONNECTION).unwrap().send(End::Writer(w)).unwrap();
    assert_eq!(run(s, vec![]), expected(2));
}

#[test]
fn unknown_peer_is_peer_not_found() {
    let bearer: Directory<u64> = Directory::new(bearer_addr(), false);
    let x = PeerId::new(vec![0x58; 32]);
    let ask = Protocol::ConnectToPeer { pub_key: x.clone(), connection_id: CONNECTION };
    let reply = match bearer.handle_message(ask) {
        BearerAction::Reply(reply) => reply,
        _ => panic!("expected a reply"),
    };
    let e = connect_to_peer_failure(x.clone(), Some(reply));
    assert!(matches!(&e, Error::PeerNotFound(p) if *p == x));
    assert!(e.is_retryable());
}

#[test]
fn missing_service_is_service_not_found() {
    let e = start_session("missing").err().unwrap();
    assert!(matches!(e, Error::ServiceNotFound(ref n) if n == "missing"));
    assert!(!e.is_retryable());
}

#[test]
fn dropping_peer_ends_its_instances() {
    let s = start_session("echo").unwrap();
    assert!(s.client.connect_stream_to_service_instance(s.client_id, CONNECTION).is_some());
    drop(s.client);
    drop(s.first_writer);
    let data: Vec<u8> = s.first_reader.iter().flatten().collect();
    let more: Vec<End> = s.client_streams.iter().collect();
    assert_eq!(data.len(), 0);
    assert!(more.is_empty());
}
