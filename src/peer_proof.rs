use vstd::prelude::*;

use openssl::error::ErrorStack;
use openssl::hash::MessageDigest;
use openssl::pkey::{PKey, Private};
use openssl::sign::{Signer, Verifier};

use crate::address::{ip_octets, port_be, IpAddress, SocketAddress};
use crate::config::FileFormat;
use crate::error::Error;

verus! {

#[verifier::external_type_specification]
#[verifier::external_body]
#[verifier::reject_recursive_types(T)]
pub struct ExPKey<T>(PKey<T>);

#[verifier::external_type_specification]
#[verifier::external_body]
pub struct ExPrivate(Private);

#[verifier::external_type_specification]
#[verifier::external_body]
pub struct ExErrorStack(ErrorStack);

/// An identity proof: a signature by a peer over the address of the bearer it
/// connects to.
#[derive(Clone, Debug)]
pub struct Proof {
    data: Vec<u8>,
}

impl View for Proof {
    type V = Seq<u8>;

    closed spec fn view(&self) -> Seq<u8> {
        self.data@
    }
}

impl Proof {
    /// A proof holding the given signature bytes.
    pub fn from_bytes(data: Vec<u8>) -> (r: Proof)
        ensures
            r@ == data@,
    {
        Proof { data }
    }

    /// The signature bytes of this proof.
    pub fn as_bytes(&self) -> (r: &[u8])
        ensures
            r@ == self@,
    {
        self.data.as_slice()
    }

    /// The signature bytes of this proof, taken out of it.
    pub fn into_bytes(self) -> (r: Vec<u8>)
        ensures
            r@ == self@,
    {
        self.data
    }
}

/// The salt that opens every signed proof message: the ASCII text `CARRIER`.
pub open spec fn proof_salt() -> Seq<u8> {
    seq![67u8, 65u8, 82u8, 82u8, 73u8, 69u8, 82u8]
}

/// What a peer signs to prove that it is connected to the bearer at `addr`:
/// the salt, the octets of the bearer's IP address and its port, big-endian.
pub open spec fn proof_message(addr: SocketAddress) -> Seq<u8> {
    proof_salt() + ip_octets(addr.ip) + port_be(addr.port)
}

/// Whether `openssl` reads `public_key_der` as a DER-encoded public key and
/// accepts `signature` as a SHA-256 signature of `msg` under it.
pub uninterp spec fn sha256_signature_valid(
    public_key_der: Seq<u8>,
    msg: Seq<u8>,
    signature: Seq<u8>,
) -> bool;

/// Whether `proof` proves, for the peer with the DER-encoded public key
/// `public_key_der`, a connection to the bearer at `addr`.
pub open spec fn proof_valid(public_key_der: Seq<u8>, addr: SocketAddress, proof: Seq<u8>) -> bool {
    sha256_signature_valid(public_key_der, proof_message(addr), proof)
}

/// Relies on openssl's `Signer` with the SHA-256 digest: the signature of `msg`
/// under `key`. Nothing is stated of its bytes (some key types sign with fresh
/// randomness).
#[verifier::external_body]
fn sign_sha256(key: &PKey<Private>, msg: &[u8]) -> (r: Result<Vec<u8>, ErrorStack>) {
    let mut signer = Signer::new(MessageDigest::sha256(), key)?;
    signer.update(msg)?;
    signer.sign_to_vec()
}

/// Relies on openssl's `PKey::public_key_from_der` and `Verifier` with the SHA-256
/// digest: whether `signature` is a valid signature of `msg` under the key. The
/// answer depends on the three byte strings alone.
#[verifier::external_body]
fn verify_sha256_der(public_key_der: &[u8], msg: &[u8], signature: &[u8]) -> (r: Result<
    bool,
    ErrorStack,
>)
    ensures
        r matches Ok(b) ==> b == sha256_signature_valid(public_key_der@, msg@, signature@),
        sha256_signature_valid(public_key_der@, msg@, signature@) ==> r matches Ok(true),
{
    let key = PKey::public_key_from_der(public_key_der)?;
    let mut verifier = Verifier::new(MessageDigest::sha256(), &key)?;
    verifier.update(msg)?;
    verifier.verify(signature)
}

/// Relies on openssl's `PKey::private_key_from_pem`: parses a PEM private key.
/// openssl refuses, by a panic, input longer than a C `int` can count.
#[verifier::external_body]
fn private_key_from_pem(data: &[u8]) -> (r: Result<PKey<Private>, ErrorStack>)
    requires
        data@.len() <= i32::MAX,
{
    PKey::private_key_from_pem(data)
}

/// Relies on openssl's `PKey::private_key_from_der`: parses a DER private key.
#[verifier::external_body]
fn private_key_from_der(data: &[u8]) -> (r: Result<PKey<Private>, ErrorStack>) {
    PKey::private_key_from_der(data)
}

/// Parses the private key that signs a peer's proofs, in the given encoding.
/// A PEM text longer than `i32::MAX` bytes is refused.
pub fn load_private_key_from_memory(format: FileFormat, data: &[u8]) -> (r: Result<
    PKey<Private>,
    Error,
>)
    ensures
        (format is Pem && data@.len() > i32::MAX) ==> r matches Err(Error::PrivateKeyTooLong),
        r matches Err(e) ==> (e is OpenSsl || (e is PrivateKeyTooLong && format is Pem
            && data@.len() > i32::MAX)),
{
    if format == FileFormat::Pem && data.len() > 0x7fff_ffffusize {
        return Err(Error::PrivateKeyTooLong);
    }
    let parsed = match format {
        FileFormat::Pem => private_key_from_pem(data),
        FileFormat::Der => private_key_from_der(data),
    };
    match parsed {
        Ok(key) => Ok(key),
        Err(e) => Err(Error::OpenSsl(e)),
    }
}

/// The message that a proof for the bearer at `addr` signs.
pub fn proof_message_bytes(addr: &SocketAddress) -> (r: Vec<u8>)
    ensures
        r@ == proof_message(*addr),
{
    let mut m: Vec<u8> = Vec::new();
    m.push(67u8);
    m.push(65u8);
    m.push(82u8);
    m.push(82u8);
    m.push(73u8);
    m.push(69u8);
    m.push(82u8);
    assert(m@ =~= proof_salt());
    let mut octets = addr.ip.octets();
    m.append(&mut octets);
    m.push((addr.port / 256) as u8);
    m.push((addr.port % 256) as u8);
    assert(m@ =~= proof_message(*addr));
    m
}

/// Creates the proof that the peer holding `pkey` connects to the bearer at
/// `bearer_address`: a SHA-256 signature of `proof_message(bearer_address)`.
pub fn create_proof(pkey: &PKey<Private>, bearer_address: &SocketAddress) -> (r: Result<
    Proof,
    Error,
>)
    ensures
        r matches Err(e) ==> e is OpenSsl,
{
    let msg = proof_message_bytes(bearer_address);
    match sign_sha256(pkey, msg.as_slice()) {
        Ok(data) => Ok(Proof { data }),
        Err(e) => Err(Error::OpenSsl(e)),
    }
}

/// Verifies `proof` for the peer whose public key has the DER encoding
/// `public_key_der`, against the bearer at `bearer_address`.
/// `Ok(true)` when the proof holds; an error when openssl cannot use the key.
pub fn verify_proof(public_key_der: &[u8], bearer_address: &SocketAddress, proof: &Proof) -> (r:
    Result<bool, Error>)
    ensures
        r matches Ok(b) ==> b == proof_valid(public_key_der@, *bearer_address, proof@),
        proof_valid(public_key_der@, *bearer_address, proof@) ==> r matches Ok(true),
        r matches Err(e) ==> e is OpenSsl,
{
    let msg = proof_message_bytes(bearer_address);
    match verify_sha256_der(public_key_der, msg.as_slice(), proof.as_bytes()) {
        Ok(b) => Ok(b),
        Err(e) => Err(Error::OpenSsl(e)),
    }
}

/// The signed message determines the bearer address: a proof made for one
/// bearer address is made over a different message than one for any other.
pub proof fn lemma_proof_message_binds_address(a: SocketAddress, b: SocketAddress)
    requires
        proof_message(a) == proof_message(b),
    ensures
        a == b,
{
    broadcast use vstd::array::group_array_axioms;

    let ma = proof_message(a);
    let mb = proof_message(b);
    let la = ip_octets(a.ip).len() as int;
    let lb = ip_octets(b.ip).len() as int;
    assert(ma.len() == 9 + la);
    assert(mb.len() == 9 + lb);
    assert(la == lb);
    assert(ip_octets(a.ip) =~= ma.subrange(7, 7 + la));
    assert(ip_octets(b.ip) =~= mb.subrange(7, 7 + lb));
    assert(port_be(a.port) =~= ma.subrange(7 + la, 9 + la));
    assert(port_be(b.port) =~= mb.subrange(7 + lb, 9 + lb));
    assert(port_be(a.port)[0] == port_be(b.port)[0]);
    assert(port_be(a.port)[1] == port_be(b.port)[1]);
    assert(a.port == b.port);
    match a.ip {
        IpAddress::V4(oa) => match b.ip {
            IpAddress::V4(ob) => {
                assert forall|i: int| 0 <= i < 4 implies oa[i] == ob[i] by {
                    assert(oa@[i] == ob@[i]);
                }
                assert(oa =~= ob);
            },
            IpAddress::V6(_) => {},
        },
        IpAddress::V6(oa) => match b.ip {
            IpAddress::V4(_) => {},
            IpAddress::V6(ob) => {
                assert forall|i: int| 0 <= i < 16 implies oa[i] == ob[i] by {
                    assert(oa@[i] == ob@[i]);
                }
                assert(oa =~= ob);
            },
        },
    }
}

} // verus!
