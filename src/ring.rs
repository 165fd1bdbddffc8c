use vstd::prelude::*;

use crate::address::SocketAddress;
use crate::peer_proof::{proof_valid, verify_proof, Proof};
use crate::protocol::{PeerId, Protocol};

verus! {

/// The lowercase hexadecimal digit for `n`, below 16, as an ASCII byte.
pub open spec fn hex_digit(n: u8) -> u8 {
    if n < 10 {
        (48 + n) as u8
    } else {
        (87 + n) as u8
    }
}

/// Bytes as lowercase hexadecimal text, two digits per byte.
pub open spec fn hex_of(s: Seq<u8>) -> Seq<u8>
    decreases s.len(),
{
    if s.len() == 0 {
        Seq::empty()
    } else {
        hex_of(s.drop_last()) + seq![hex_digit(s.last() / 16), hex_digit(s.last() % 16)]
    }
}

/// The ASCII text `_proof`.
pub open spec fn proof_suffix() -> Seq<u8> {
    seq![95u8, 112u8, 114u8, 111u8, 111u8, 102u8]
}

/// The ASCII text `_pubkey`.
pub open spec fn pubkey_suffix() -> Seq<u8> {
    seq![95u8, 112u8, 117u8, 98u8, 107u8, 101u8, 121u8]
}

/// The ASCII text `_bearer`.
pub open spec fn bearer_suffix() -> Seq<u8> {
    seq![95u8, 98u8, 101u8, 97u8, 114u8, 101u8, 114u8]
}

/// The lowercase hexadecimal text of `bytes`.
pub fn to_hex(bytes: &[u8]) -> (r: Vec<u8>)
    ensures
        r@ == hex_of(bytes@),
{
    let mut r: Vec<u8> = Vec::new();
    let mut i: usize = 0;
    while i < bytes.len()
        invariant
            i <= bytes@.len(),
            r@ == hex_of(bytes@.subrange(0, i as int)),
        decreases bytes@.len() - i,
    {
        let b = bytes[i];
        let hi = b / 16;
        let lo = b % 16;
        let hi_digit: u8 = if hi < 10 { 48 + hi } else { 87 + hi };
        let lo_digit: u8 = if lo < 10 { 48 + lo } else { 87 + lo };
        r.push(hi_digit);
        r.push(lo_digit);
        proof {
            let next = bytes@.subrange(0, i + 1);
            assert(next.drop_last() =~= bytes@.subrange(0, i as int));
            assert(next.last() == b);
        }
        i = i + 1;
        assert(r@ =~= hex_of(bytes@.subrange(0, i as int)));
    }
    assert(bytes@.subrange(0, bytes@.len() as int) =~= bytes@);
    r
}

fn push_all(r: &mut Vec<u8>, tail: &[u8])
    ensures
        final(r)@ == old(r)@ + tail@,
{
    let mut i: usize = 0;
    while i < tail.len()
        invariant
            i <= tail@.len(),
            r@ == old(r)@ + tail@.subrange(0, i as int),
        decreases tail@.len() - i,
    {
        r.push(tail[i]);
        i = i + 1;
        assert(r@ =~= old(r)@ + tail@.subrange(0, i as int));
    }
    assert(tail@.subrange(0, tail@.len() as int) =~= tail@);
}

/// The keys under which the ring stores what it knows of one peer.
#[derive(Debug)]
pub struct RingKeys {
    /// `<peer-hex>_proof`: the peer's identity proof.
    pub proof: Vec<u8>,
    /// `<peer-hex>_pubkey`: the peer's public key, DER-encoded.
    pub public_key: Vec<u8>,
    /// `<peer-hex>_bearer`: the address of the bearer that hosts the peer, as text.
    pub bearer: Vec<u8>,
}

/// The ring keys of `peer`.
pub fn get_field_names(peer: &PeerId) -> (r: RingKeys)
    ensures
        r.proof@ == hex_of(peer@) + proof_suffix(),
        r.public_key@ == hex_of(peer@) + pubkey_suffix(),
        r.bearer@ == hex_of(peer@) + bearer_suffix(),
{
    let hex = to_hex(peer.digest.as_slice());
    let mut proof = hex.clone();
    assert(proof@ =~= hex@);
    let mut public_key = hex.clone();
    assert(public_key@ =~= hex@);
    let mut bearer = hex.clone();
    assert(bearer@ =~= hex@);
    let proof_tail: [u8; 6] = [95u8, 112u8, 114u8, 111u8, 111u8, 102u8];
    let pubkey_tail: [u8; 7] = [95u8, 112u8, 117u8, 98u8, 107u8, 101u8, 121u8];
    let bearer_tail: [u8; 7] = [95u8, 98u8, 101u8, 97u8, 114u8, 101u8, 114u8];
    assert(proof_tail@ =~= proof_suffix());
    assert(pubkey_tail@ =~= pubkey_suffix());
    assert(bearer_tail@ =~= bearer_suffix());
    push_all(&mut proof, proof_tail.as_slice());
    push_all(&mut public_key, pubkey_tail.as_slice());
    push_all(&mut bearer, bearer_tail.as_slice());
    RingKeys { proof, public_key, bearer }
}

/// What the ring holds for a peer, as read back: the proof, the public key, and
/// the hosting bearer's address (`None` when the stored text is no address).
#[derive(Debug)]
pub struct RingRecord {
    pub proof: Vec<u8>,
    pub public_key: Vec<u8>,
    pub bearer: Option<SocketAddress>,
}

impl RingRecord {
    /// The address of the bearer that hosts the peer, when the record's proof
    /// verifies, under the record's public key, against that address. Records
    /// from a hostile or confused bearer are thereby refused.
    pub fn locate(&self) -> (r: Option<SocketAddress>)
        ensures
            r matches Some(a) ==> self.bearer == Some(a) && proof_valid(
                self.public_key@,
                a,
                self.proof@,
            ),
            self.bearer is None ==> r is None,
            self.bearer matches Some(a) ==> (proof_valid(self.public_key@, a, self.proof@) ==> r
                == Some(a)),
            (self.bearer matches Some(a) && !proof_valid(self.public_key@, a, self.proof@)) ==> r
                is None,
    {
        match self.bearer {
            None => None,
            Some(addr) => {
                let proof = Proof::from_bytes(self.proof.clone());
                assert(proof@ =~= self.proof@);
                match verify_proof(self.public_key.as_slice(), &addr, &proof) {
                    Ok(true) => Some(addr),
                    _ => None,
                }
            },
        }
    }
}

/// The bearer's reply to a `ConnectToPeer` for a peer that it does not host,
/// given what the ring returned (`None`: nothing, or the ring could not be read):
/// a redirect to the hosting bearer when the record checks out, else
/// `PeerNotFound`.
pub fn ring_reply(record: Option<RingRecord>) -> (r: Protocol)
    ensures
        r matches Protocol::PeerOnBearer { addr } ==> (record matches Some(rec) && rec.bearer
            == Some(addr) && proof_valid(rec.public_key@, addr, rec.proof@)),
        !(r is PeerOnBearer) ==> r is PeerNotFound,
        record is None ==> r is PeerNotFound,
        record matches Some(rec) ==> (rec.bearer matches Some(a) ==> (proof_valid(
            rec.public_key@,
            a,
            rec.proof@,
        ) ==> r == (Protocol::PeerOnBearer { addr: a }))),
        (record matches Some(rec) && rec.bearer is None) ==> r is PeerNotFound,
        (record matches Some(rec) && rec.bearer matches Some(a) && !proof_valid(
            rec.public_key@,
            a,
            rec.proof@,
        )) ==> r is PeerNotFound,
{
    match record {
        None => Protocol::PeerNotFound,
        Some(rec) => match rec.locate() {
            Some(addr) => Protocol::PeerOnBearer { addr },
            None => Protocol::PeerNotFound,
        },
    }
}

} // verus!
