use carrier::address::{IpAddress, SocketAddress};
use carrier::bearer::{BearerAction, Directory};
use carrier::error::Error;
use carrier::peer_proof::{create_proof, Proof};
use carrier::protocol::{PeerId, Protocol};

use openssl::ec::{EcGroup, EcKey};
use openssl::nid::Nid;
use openssl::pkey::{PKey, Private};

fn key_pair() -> (PKey<Private>, Vec<u8>) {
    let group = EcGroup::from_curve_name(Nid::X9_62_PRIME256V1).unwrap();
    let key = PKey::from_ec_key(EcKey::generate(&group).unwrap()).unwrap();
    let der = key.public_key_to_der().unwrap();
    (key, der)
}

fn bearer_addr() -> SocketAddress {
    SocketAddress { ip: IpAddress::V4([127, 0, 0, 1]), port: 22222 }
}

fn peer(n: u8) -> PeerId {
    PeerId::new(vec![n; 32])
}

fn hello(key: &PKey<Private>, addr: &SocketAddress) -> Option<Protocol> {
    Some(Protocol::Hello { proof: create_proof(key, addr).unwrap() })
}

#[test]
fn hello_with_valid_proof_registers_peer() {
    let (key, der) = key_pair();
    let mut d: Directory<&str> = Directory::new(bearer_addr(), false);
    let r = d.handle_hello(hello(&key, &bearer_addr()), peer(1), Some(der), 1, "stream-1");
    assert!(r.is_ok());
    assert_eq!(d.len(), 1);
    assert_eq!(d.find_connection(&peer(1)), Some(&"stream-1"));
    assert_eq!(d.find_connection(&peer(2)), None);
}

#[test]
fn hello_with_proof_for_other_bearer_is_refused() {
    let (key, der) = key_pair();
    let other = SocketAddress { ip: IpAddress::V4([127, 0, 0, 2]), port: 22222 };
    let mut d: Directory<&str> = Directory::new(bearer_addr(), false);
    let r = d.handle_hello(hello(&key, &other), peer(1), Some(der), 1, "stream-1");
    assert!(matches!(r, Err(Error::ProofInvalid)));
    assert_eq!(d.len(), 0);
}

#[test]
fn hello_with_garbage_proof_is_refused() {
    let (_, der) = key_pair();
    let mut d: Directory<&str> = Directory::new(bearer_addr(), false);
    let msg = Some(Protocol::Hello { proof: Proof::from_bytes(vec![0; 8]) });
    let r = d.handle_hello(msg, peer(1), Some(der), 1, "stream-1");
    assert!(r.is_err());
    assert_eq!(d.len(), 0);
}

#[test]
fn first_message_must_be_hello() {
    let (_, der) = key_pair();
    let mut d: Directory<&str> = Directory::new(bearer_addr(), false);
    let r = d.handle_hello(Some(Protocol::ServiceConnected), peer(1), Some(der), 1, "s");
    assert!(matches!(r, Err(Error::HelloExpected)));
    assert_eq!(d.len(), 0);
}

#[test]
fn stream_closed_before_hello() {
    let (_, der) = key_pair();
    let mut d: Directory<&str> = Directory::new(bearer_addr(), false);
    let r = d.handle_hello(None, peer(1), Some(der), 1, "s");
    assert!(matches!(r, Err(Error::ConnectionClosedDuringRequest)));
}

#[test]
fn hello_without_public_key_is_refused() {
    let (key, _) = key_pair();
    let mut d: Directory<&str> = Directory::new(bearer_addr(), false);
    let r = d.handle_hello(hello(&key, &bearer_addr()), peer(1), None, 1, "s");
    assert!(matches!(r, Err(Error::PublicKeyMissing)));
    assert_eq!(d.len(), 0);
}

#[test]
fn second_registration_replaces_first() {
    let (key, der) = key_pair();
    let mut d: Directory<&str> = Directory::new(bearer_addr(), false);
    d.handle_hello(hello(&key, &bearer_addr()), peer(1), Some(der.clone()), 1, "old").unwrap();
    d.handle_hello(hello(&key, &bearer_addr()), peer(1), Some(der), 2, "new").unwrap();
    assert_eq!(d.len(), 1);
    assert_eq!(d.find_connection(&peer(1)), Some(&"new"));
}

#[test]
fn late_unregister_of_replaced_connection_keeps_new_one() {
    let (key, der) = key_pair();
    let mut d: Directory<&str> = Directory::new(bearer_addr(), false);
    d.handle_hello(hello(&key, &bearer_addr()), peer(1), Some(der.clone()), 1, "old").unwrap();
    d.handle_hello(hello(&key, &bearer_addr()), peer(1), Some(der), 2, "new").unwrap();
    d.unregister_connection(&peer(1), 1);
    assert_eq!(d.find_connection(&peer(1)), Some(&"new"));
    d.unregister_connection(&peer(1), 2);
    assert_eq!(d.find_connection(&peer(1)), None);
    d.unregister_connection(&peer(1), 2);
    assert_eq!(d.len(), 0);
}

#[test]
fn connect_to_registered_peer_is_brokered() {
    let (key, der) = key_pair();
    let mut d: Directory<&str> = Directory::new(bearer_addr(), false);
    d.handle_hello(hello(&key, &bearer_addr()), peer(1), Some(der), 1, "stream-1").unwrap();
    let msg = Protocol::ConnectToPeer { pub_key: peer(1), connection_id: 77 };
    match d.handle_message(msg) {
        BearerAction::Broker { target, connection_id } => {
            assert_eq!(*target, "stream-1");
            assert_eq!(connection_id, 77);
        }
        _ => panic!("expected the connection to be brokered"),
    }
}

#[test]
fn connect_to_unknown_peer_is_peer_not_found() {
    let d: Directory<&str> = Directory::new(bearer_addr(), false);
    let msg = Protocol::ConnectToPeer { pub_key: peer(9), connection_id: 1 };
    assert!(matches!(d.handle_message(msg), BearerAction::Reply(Protocol::PeerNotFound)));
}

#[test]
fn connect_to_unknown_peer_asks_ring() {
    let d: Directory<&str> = Directory::new(bearer_addr(), true);
    let msg = Protocol::ConnectToPeer { pub_key: peer(9), connection_id: 5 };
    match d.handle_message(msg) {
        BearerAction::AskRing { peer: p, connection_id } => {
            assert_eq!(p, peer(9));
            assert_eq!(connection_id, 5);
        }
        _ => panic!("expected a ring lookup"),
    }
}

#[test]
fn other_messages_are_ignored() {
    let d: Directory<&str> = Directory::new(bearer_addr(), false);
    assert!(matches!(d.handle_message(Protocol::ServiceConnected), BearerAction::Ignore));
    assert!(matches!(d.handle_message(Protocol::PeerNotFound), BearerAction::Ignore));
}
