use vstd::prelude::*;

use crate::error::Error;
use crate::protocol::{Protocol, ServiceId};

verus! {

/// Opens further streams to a remote service instance: each new stream asks,
/// with `ConnectToService`, to be attached to the instance `service_id` of the
/// remote side.
#[derive(Clone, Copy, Debug)]
pub struct NewStreamHandle {
    pub service_id: ServiceId,
    pub connection: u64,
}

impl NewStreamHandle {
    /// A handle for the remote instance `service_id`, reached over `connection`.
    pub fn new(service_id: ServiceId, connection: u64) -> (r: NewStreamHandle)
        ensures
            r.service_id == service_id,
            r.connection == connection,
    {
        NewStreamHandle { service_id, connection }
    }

    /// The first message on a new stream.
    pub fn new_stream_request(&self) -> (r: Protocol)
        ensures
            r == (Protocol::ConnectToService { id: self.service_id }),
    {
        Protocol::ConnectToService { id: self.service_id }
    }

    /// Reads the reply to `new_stream_request`: `ServiceConnected` hands the stream
    /// to the caller; `ServiceNotFound` means the remote instance is gone; a
    /// stream that closed (`None`) or any other message is a failure too.
    pub fn new_stream_reply(&self, reply: Option<Protocol>) -> (r: Result<(), Error>)
        ensures
            match reply {
                Some(Protocol::ServiceConnected) => r is Ok,
                Some(Protocol::ServiceNotFound) => r matches Err(Error::ServiceInstanceNotFound(
                    id,
                )) && id == self.service_id,
                None => r matches Err(Error::ConnectionClosedDuringRequest),
                _ => r matches Err(Error::UnexpectedMessage),
            },
    {
        match reply {
            Some(Protocol::ServiceConnected) => Ok(()),
            Some(Protocol::ServiceNotFound) => Err(Error::ServiceInstanceNotFound(self.service_id)),
            None => Err(Error::ConnectionClosedDuringRequest),
            Some(_) => Err(Error::UnexpectedMessage),
        }
    }
}

} // verus!
