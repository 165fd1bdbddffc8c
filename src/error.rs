use vstd::prelude::*;

use openssl::error::ErrorStack;

use crate::address::SocketAddress;
use crate::protocol::{PeerId, ServiceId};

verus! {

/// The errors of the control plane.
#[derive(Debug)]
pub enum Error {
    /// openssl could not sign or verify.
    OpenSsl(ErrorStack),
    /// The bearer knows no peer with this id.
    PeerNotFound(PeerId),
    /// The peer is hosted by the bearer at this address; ask there.
    PeerOnBearer(SocketAddress),
    /// The other side closed the control stream with this error message.
    Remote(String),
    /// The remote peer offers no service of this name.
    ServiceNotFound(String),
    /// The remote peer has no live service instance with this id.
    ServiceInstanceNotFound(ServiceId),
    /// The stream closed before the reply to a request arrived.
    ConnectionClosedDuringRequest,
    /// A control message arrived that the protocol does not allow at this point.
    UnexpectedMessage,
    /// The first message on a bearer's control stream was not `Hello`.
    HelloExpected,
    /// The transport did not provide the connecting peer's public key.
    PublicKeyMissing,
    /// The identity proof did not verify against this bearer's address.
    ProofInvalid,
    /// A peer ran out of service ids.
    ServiceIdsExhausted,
    /// A control frame is longer than a length prefix can state.
    FrameTooLong,
    /// No certificate chain was configured.
    CertificateMissing,
    /// No private key was configured.
    PrivateKeyMissing,
    /// A private key text is longer than openssl can read.
    PrivateKeyTooLong,
}

impl Error {
    /// Whether the request that failed may succeed when tried again later: the
    /// peer was not (yet) registered, or is hosted by another bearer.
    pub fn is_retryable(&self) -> (r: bool)
        ensures
            r == (self is PeerNotFound || self is PeerOnBearer),
    {
        match self {
            Error::PeerNotFound(_) => true,
            Error::PeerOnBearer(_) => true,
            _ => false,
        }
    }
}

} // verus!
