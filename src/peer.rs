use vstd::prelude::*;

use crate::error::Error;
use crate::protocol::{PeerId, Protocol, ServiceId};

verus! {

/// The request that starts the service `name` on a remote peer; `local_id` is
/// the id of the requesting side's instance.
pub fn service_request(name: &String, local_id: ServiceId) -> (r: Protocol)
    ensures
        r matches Protocol::RequestServiceStart { name: n, local_id: l } && n@ == name@ && l
            == local_id,
{
    Protocol::RequestServiceStart { name: name.clone(), local_id }
}

/// Reads the reply to a `RequestServiceStart` for `name`: `ServiceStarted` gives
/// the remote instance's id; `ServiceNotFound` fails with `ServiceNotFound(name)`;
/// a stream that closed first (`None`) and any other message fail too.
pub fn service_start_reply(name: &String, reply: Option<Protocol>) -> (r: Result<ServiceId, Error>)
    ensures
        match reply {
            Some(Protocol::ServiceStarted { id }) => r == Ok::<ServiceId, Error>(id),
            Some(Protocol::ServiceNotFound) => r matches Err(Error::ServiceNotFound(n)) && n@
                == name@,
            None => r matches Err(Error::ConnectionClosedDuringRequest),
            _ => r matches Err(Error::UnexpectedMessage),
        },
{
    match reply {
        Some(Protocol::ServiceStarted { id }) => Ok(id),
        Some(Protocol::ServiceNotFound) => Err(Error::ServiceNotFound(name.clone())),
        None => Err(Error::ConnectionClosedDuringRequest),
        Some(_) => Err(Error::UnexpectedMessage),
    }
}

/// The error that a bearer's reply to `ConnectToPeer` for `peer` stands for:
/// `PeerNotFound` fails with `PeerNotFound(peer)`, a redirect with the other
/// bearer's address, an `Error` frame with its message; a stream that closed
/// (`None`) and any other message fail too.
pub fn connect_to_peer_failure(peer: PeerId, reply: Option<Protocol>) -> (r: Error)
    ensures
        match reply {
            Some(Protocol::PeerNotFound) => r matches Error::PeerNotFound(p) && p@ == peer@,
            Some(Protocol::PeerOnBearer { addr }) => r == Error::PeerOnBearer(addr),
            Some(Protocol::Error { msg }) => r matches Error::Remote(m) && m@ == msg@,
            None => r is ConnectionClosedDuringRequest,
            _ => r is UnexpectedMessage,
        },
{
    match reply {
        Some(Protocol::PeerNotFound) => Error::PeerNotFound(peer),
        Some(Protocol::PeerOnBearer { addr }) => Error::PeerOnBearer(addr),
        Some(Protocol::Error { msg }) => Error::Remote(msg),
        None => Error::ConnectionClosedDuringRequest,
        Some(_) => Error::UnexpectedMessage,
    }
}

} // verus!
