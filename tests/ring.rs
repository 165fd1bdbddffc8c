use carrier::address::{IpAddress, SocketAddress};
use carrier::peer_proof::create_proof;
use carrier::protocol::{PeerId, Protocol};
use carrier::ring::{get_field_names, ring_reply, to_hex, RingRecord};

use openssl::ec::{EcGroup, EcKey};
use openssl::nid::Nid;
use openssl::pkey::{PKey, Private};

fn key_pair() -> (PKey<Private>, Vec<u8>) {
    let group = EcGroup::from_curve_name(Nid::X9_62_PRIME256V1).unwrap();
    let key = PKey::from_ec_key(EcKey::generate(&group).unwrap()).unwrap();
    let der = key.public_key_to_der().unwrap();
    (key, der)
}

fn host() -> SocketAddress {
    SocketAddress { ip: IpAddress::V4([10, 1, 2, 3]), port: 4000 }
}

#[test]
fn hex_is_lowercase_two_digits_per_byte() {
    assert_eq!(to_hex(&[0x00, 0x0f, 0xa0, 0xff, 0x5c]), b"000fa0ff5c".to_vec());
    assert_eq!(to_hex(&[]), Vec::<u8>::new());
}

#[test]
fn ring_keys_follow_layout() {
    let keys = get_field_names(&PeerId::new(vec![0xde, 0xad, 0x01]));
    assert_eq!(keys.proof, b"dead01_proof".to_vec());
    assert_eq!(keys.public_key, b"dead01_pubkey".to_vec());
    assert_eq!(keys.bearer, b"dead01_bearer".to_vec());
}

#[test]
fn valid_record_locates_host_bearer() {
    let (key, der) = key_pair();
    let proof = create_proof(&key, &host()).unwrap();
    let record = RingRecord { proof: proof.into_bytes(), public_key: der, bearer: Some(host()) };
    assert_eq!(record.locate(), Some(host()));
    assert!(matches!(ring_reply(Some(record)), Protocol::PeerOnBearer { addr } if addr == host()));
}

#[test]
fn record_pointing_elsewhere_is_refused() {
    let (key, der) = key_pair();
    let proof = create_proof(&key, &host()).unwrap();
    let other = SocketAddress { ip: IpAddress::V4([10, 1, 2, 4]), port: 4000 };
    let record = RingRecord { proof: proof.into_bytes(), public_key: der, bearer: Some(other) };
    assert_eq!(record.locate(), None);
    assert!(matches!(ring_reply(Some(record)), Protocol::PeerNotFound));
}

#[test]
fn unparsable_or_missing_record_is_not_found() {
    let (key, der) = key_pair();
    let proof = create_proof(&key, &host()).unwrap();
    let record = RingRecord { proof: proof.into_bytes(), public_key: der, bearer: None };
    assert_eq!(record.locate(), None);
    assert!(matches!(ring_reply(Some(record)), Protocol::PeerNotFound));
    assert!(matches!(ring_reply(None), Protocol::PeerNotFound));
}
