use vstd::prelude::*;

use crate::address::SocketAddress;
use crate::peer_proof::Proof;

verus! {

/// Identifies a service instance on the peer that allocated it.
pub type ServiceId = u64;

/// Identity of a peer: the SHA-256 digest of its long-lived public key.
#[derive(Clone, Debug, PartialEq, Eq, Hash)]
pub struct PeerId {
    pub digest: Vec<u8>,
}

impl View for PeerId {
    type V = Seq<u8>;

    open spec fn view(&self) -> Seq<u8> {
        self.digest@
    }
}

impl PeerId {
    /// The peer id with the given digest bytes.
    pub fn new(digest: Vec<u8>) -> (r: PeerId)
        ensures
            r@ == digest@,
    {
        PeerId { digest }
    }

    /// Whether `other` is the same peer.
    pub fn same(&self, other: &PeerId) -> (r: bool)
        ensures
            r == (self@ == other@),
    {
        let r = self.digest == other.digest;
        proof {
            if r {
                assert(self@ =~= other@);
            }
        }
        r
    }
}

/// The control messages exchanged on a stream before it is handed to a service.
#[derive(Clone, Debug)]
pub enum Protocol {
    /// First message of a peer to its bearer, with the peer's identity proof.
    Hello { proof: Proof },
    /// A fatal error on a control stream.
    Error { msg: String },
    /// Asks the bearer to broker a connection to the peer `pub_key`.
    ConnectToPeer { pub_key: PeerId, connection_id: u64 },
    /// The bearer knows no such peer.
    PeerNotFound,
    /// The requested peer is hosted by the bearer at `addr`; ask there.
    PeerOnBearer { addr: SocketAddress },
    /// Asks the remote peer to start the service `name`; `local_id` is the
    /// instance id chosen by the requesting side.
    RequestServiceStart { name: String, local_id: ServiceId },
    /// The requested service, or service instance, does not exist.
    ServiceNotFound,
    /// The service was started; `id` is the instance id on the replying side.
    ServiceStarted { id: ServiceId },
    /// Attaches this stream to the service instance `id` of the receiving side.
    ConnectToService { id: ServiceId },
    /// The stream was attached; it now belongs to the service instance.
    ServiceConnected,
}

} // verus!
