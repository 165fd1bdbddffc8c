use vstd::prelude::*;

use crate::error::Error;
use crate::executor::{attach_allowed, InstanceEntry, InstancesExecutor};
use crate::protocol::{Protocol, ServiceId};
use crate::stream::NewStreamHandle;

verus! {

/// A service that a peer offers, under its name.
pub struct ServiceEntry<F> {
    pub name: String,
    pub factory: F,
}

/// What the first message of a fresh inbound stream asks for.
#[derive(Debug)]
pub enum InboundRequest {
    /// Attach the stream to the local service instance `id`.
    Attach { id: ServiceId },
    /// Start the service `name`; the requester's instance id is `remote_id`.
    Start { name: String, remote_id: ServiceId },
    /// The stream closed before any message, or opened with a message that does
    /// not belong there: close it.
    Close,
}

/// Reads the first message of a fresh inbound stream (`None`: it closed first).
pub fn classify_inbound(first: Option<Protocol>) -> (r: InboundRequest)
    ensures
        match first {
            Some(Protocol::ConnectToService { id }) => r == (InboundRequest::Attach { id }),
            Some(Protocol::RequestServiceStart { name, local_id }) => r == (InboundRequest::Start {
                name,
                remote_id: local_id,
            }),
            _ => r is Close,
        },
{
    match first {
        Some(Protocol::ConnectToService { id }) => InboundRequest::Attach { id },
        Some(Protocol::RequestServiceStart { name, local_id }) => InboundRequest::Start {
            name,
            remote_id: local_id,
        },
        _ => InboundRequest::Close,
    }
}

/// The reply to a `RequestServiceStart`, given how the start went.
pub fn start_reply(started: &Result<(ServiceId, NewStreamHandle), Error>) -> (r: Protocol)
    ensures
        match started {
            Ok((id, _)) => r == (Protocol::ServiceStarted { id: *id }),
            Err(_) => r is ServiceNotFound,
        },
{
    match started {
        Ok((id, _)) => Protocol::ServiceStarted { id: *id },
        Err(_) => Protocol::ServiceNotFound,
    }
}

/// The reply to a `ConnectToService`, given whether the stream was attached.
pub fn attach_reply(attached: bool) -> (r: Protocol)
    ensures
        attached ==> r is ServiceConnected,
        !attached ==> r is ServiceNotFound,
{
    if attached {
        Protocol::ServiceConnected
    } else {
        Protocol::ServiceNotFound
    }
}

/// The entries hold one service per name, and are what `registry` maps.
spec fn registry_matches<F>(services: Seq<ServiceEntry<F>>, registry: Map<Seq<char>, F>) -> bool {
    &&& forall|i: int, j: int|
        0 <= i < j < services.len() ==> services[i].name@ != services[j].name@
    &&& forall|k: Seq<char>|
        registry.contains_key(k) <==> exists|i: int|
            0 <= i < services.len() && services[i].name@ == k
    &&& forall|i: int|
        0 <= i < services.len() ==> #[trigger] registry[services[i].name@] == services[i].factory
}

/// The state of a peer: the services it offers, by name, and its live service
/// instances.
pub struct PeerContext<F, S> {
    services: Vec<ServiceEntry<F>>,
    registry: Ghost<Map<Seq<char>, F>>,
    instances: InstancesExecutor<S>,
}

impl<F, S> PeerContext<F, S> {
    /// The offered services, by name.
    pub closed spec fn services(&self) -> Map<Seq<char>, F> {
        self.registry@
    }

    /// The instance table.
    pub closed spec fn executor(&self) -> InstancesExecutor<S> {
        self.instances
    }

    pub closed spec fn wf(&self) -> bool {
        &&& self.instances.wf()
        &&& registry_matches(self.services@, self.registry@)
    }

    /// A peer that offers no service and runs no instance.
    pub fn new() -> (r: PeerContext<F, S>)
        ensures
            r.wf(),
            r.services() == Map::<Seq<char>, F>::empty(),
            r.executor()@ == Map::<ServiceId, InstanceEntry<S>>::empty(),
            r.executor().history() == Seq::<ServiceId>::empty(),
            r.executor().next_id() == 0,
    {
        PeerContext {
            services: Vec::new(),
            registry: Ghost(Map::empty()),
            instances: InstancesExecutor::new(),
        }
    }

    fn position(&self, name: &String) -> (r: Option<usize>)
        requires
            self.wf(),
        ensures
            r is None <==> !self.services().contains_key(name@),
            r matches Some(i) ==> i < self.services@.len() && self.services@[i as int].name@
                == name@,
    {
        let mut i: usize = 0;
        while i < self.services.len()
            invariant
                self.wf(),
                i <= self.services@.len(),
                forall|j: int| 0 <= j < i ==> self.services@[j].name@ != name@,
            decreases self.services@.len() - i,
        {
            if self.services[i].name == *name {
                return Some(i);
            }
            i = i + 1;
        }
        None
    }

    /// Offers `factory` under `name`, replacing a service registered earlier
    /// under the same name.
    pub fn register_service(&mut self, name: String, factory: F)
        requires
            old(self).wf(),
        ensures
            final(self).wf(),
            final(self).services() == old(self).services().insert(name@, factory),
            final(self).executor() == old(self).executor(),
    {
        let ghost key = name@;
        let ghost old_services = self.services@;
        match self.position(&name) {
            Some(i) => {
                self.services.set(i, ServiceEntry { name, factory });
            },
            None => {
                self.services.push(ServiceEntry { name, factory });
            },
        }
        self.registry = Ghost(self.registry@.insert(key, factory));
        assert forall|k: Seq<char>|
            self.registry@.contains_key(k) <==> exists|i: int|
                0 <= i < self.services@.len() && self.services@[i].name@ == k by {
            if self.registry@.contains_key(k) && k != key {
                let i = choose|i: int| 0 <= i < old_services.len() && old_services[i].name@ == k;
                assert(self.services@[i].name@ == k);
            }
            if k == key {
                if exists|i: int| 0 <= i < old_services.len() && old_services[i].name@ == k {
                    let i = choose|i: int| 0 <= i < old_services.len() && old_services[i].name@ == k;
                    assert(self.services@[i].name@ == k);
                } else {
                    assert(self.services@[self.services@.len() - 1].name@ == k);
                }
            }
        }
    }

    /// The service offered under `name`, if any.
    pub fn find_service(&self, name: &String) -> (r: Option<&F>)
        requires
            self.wf(),
        ensures
            r is None <==> !self.services().contains_key(name@),
            r matches Some(f) ==> *f == self.services()[name@],
    {
        match self.position(name) {
            Some(i) => Some(&self.services[i].factory),
            None => None,
        }
    }

    /// Takes a fresh service id, or `None` once all are used.
    pub fn next_service_id(&mut self) -> (r: Option<ServiceId>)
        requires
            old(self).wf(),
        ensures
            final(self).wf(),
            final(self).services() == old(self).services(),
            final(self).executor()@ == old(self).executor()@,
            final(self).executor().history() == old(self).executor().history(),
            old(self).executor().next_id() < u64::MAX ==> (r == Some(old(self).executor().next_id())
                && final(self).executor().next_id() == old(self).executor().next_id() + 1),
            old(self).executor().next_id() == u64::MAX ==> (r is None && final(self).executor().next_id()
                == old(self).executor().next_id()),
    {
        self.instances.next_service_id()
    }

    /// Answers a `RequestServiceStart` for `name` that arrived on `connection`
    /// from the remote instance `remote_service_id`. When the service is offered,
    /// a new instance is registered under a fresh id with `sender`, and the id
    /// comes back with a handle for opening streams to the remote instance;
    /// otherwise nothing changes and the error is `ServiceNotFound(name)`.
    pub fn start_server_service_instance(
        &mut self,
        name: &String,
        remote_service_id: ServiceId,
        connection: u64,
        sender: S,
    ) -> (r: Result<(ServiceId, NewStreamHandle), Error>)
        requires
            old(self).wf(),
        ensures
            final(self).wf(),
            final(self).services() == old(self).services(),
            !old(self).services().contains_key(name@) ==> (r matches Err(Error::ServiceNotFound(n))
                && n@ == name@ && final(self).executor() == old(self).executor()),
            (old(self).services().contains_key(name@) && old(self).executor().next_id() < u64::MAX)
                ==> (r matches Ok((id, handle)) && id == old(self).executor().next_id()
                && handle.service_id == remote_service_id && handle.connection == connection
                && final(self).executor()@ == old(self).executor()@.insert(
                id,
                InstanceEntry { connection, sender },
            ) && final(self).executor().history() == old(self).executor().history().push(id)
                && final(self).executor().next_id() == old(self).executor().next_id() + 1
                && !old(self).executor().history().contains(id)),
            (old(self).services().contains_key(name@) && old(self).executor().next_id() == u64::MAX)
                ==> (r matches Err(Error::ServiceIdsExhausted) && final(self).executor()@ == old(
                self,
            ).executor()@ && final(self).executor().history() == old(self).executor().history()),
    {
        match self.position(name) {
            None => Err(Error::ServiceNotFound(name.clone())),
            Some(_) => match self.instances.add_server_service_instance(connection, sender) {
                Some(id) => Ok((id, NewStreamHandle::new(remote_service_id, connection))),
                None => Err(Error::ServiceIdsExhausted),
            },
        }
    }

    /// Registers the local instance of a service that this peer asks a remote
    /// peer to run, over `connection`; its fresh id goes into the request.
    pub fn start_client_service_instance(&mut self, connection: u64, sender: S) -> (r: Result<
        ServiceId,
        Error,
    >)
        requires
            old(self).wf(),
        ensures
            final(self).wf(),
            final(self).services() == old(self).services(),
            old(self).executor().next_id() < u64::MAX ==> (r == Ok::<ServiceId, Error>(
                old(self).executor().next_id(),
            ) && final(self).executor()@ == old(self).executor()@.insert(
                old(self).executor().next_id(),
                InstanceEntry { connection, sender },
            ) && final(self).executor().history() == old(self).executor().history().push(
                old(self).executor().next_id(),
            ) && final(self).executor().next_id() == old(self).executor().next_id() + 1
                && !old(self).executor().history().contains(old(self).executor().next_id())),
            old(self).executor().next_id() == u64::MAX ==> (r matches Err(
                Error::ServiceIdsExhausted,
            ) && final(self).executor()@ == old(self).executor()@),
    {
        match self.instances.add_server_service_instance(connection, sender) {
            Some(id) => Ok(id),
            None => Err(Error::ServiceIdsExhausted),
        }
    }

    /// The sender of instance `service_id`, when a stream that arrived on
    /// `connection` may be attached to it.
    pub fn connect_stream_to_service_instance(&self, service_id: ServiceId, connection: u64) -> (r:
        Option<&S>)
        requires
            self.wf(),
        ensures
            r is Some <==> attach_allowed(self.executor()@, service_id, connection),
            r matches Some(s) ==> *s == self.executor()@[service_id].sender,
    {
        self.instances.connect_stream_to_server_service_instance(service_id, connection)
    }

    /// Forgets instance `service_id`, once it has ended.
    pub fn service_instance_dropped(&mut self, service_id: ServiceId)
        requires
            old(self).wf(),
        ensures
            final(self).wf(),
            final(self).services() == old(self).services(),
            final(self).executor()@ == old(self).executor()@.remove(service_id),
            final(self).executor().history() == old(self).executor().history(),
            final(self).executor().next_id() == old(self).executor().next_id(),
    {
        self.instances.service_instance_dropped(service_id);
    }
}

/// A peer never gives one id to two instances: every id ever given was given
/// once, and each lies below the next id to be handed out.
pub proof fn lemma_peer_service_ids_never_repeat<F, S>(ctx: &PeerContext<F, S>)
    requires
        ctx.wf(),
    ensures
        ctx.executor().history().no_duplicates(),
        forall|i: int|
            0 <= i < ctx.executor().history().len() ==> #[trigger] ctx.executor().history()[i]
                < ctx.executor().next_id(),
{
    crate::executor::lemma_service_ids_never_repeat(&ctx.instances);
}

/// A peer that offers no service refuses every request to start one.
pub proof fn lemma_empty_registry_refuses<F, S>(ctx: &PeerContext<F, S>, name: Seq<char>)
    requires
        ctx.services() == Map::<Seq<char>, F>::empty(),
    ensures
        !ctx.services().contains_key(name),
{
}

} // verus!
