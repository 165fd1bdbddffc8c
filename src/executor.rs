use vstd::prelude::*;

use crate::protocol::ServiceId;

verus! {

/// A live service instance: its id, the transport connection it was created on,
/// and the sender through which further streams reach it.
pub struct ServiceInstance<S> {
    pub id: ServiceId,
    pub connection: u64,
    pub sender: S,
}

/// What the instance table holds for one live instance.
pub struct InstanceEntry<S> {
    pub connection: u64,
    pub sender: S,
}

/// Whether a stream that arrived on `connection` may be attached to instance `id`:
/// the instance is live and was created on that same connection.
pub open spec fn attach_allowed<S>(
    table: Map<ServiceId, InstanceEntry<S>>,
    id: ServiceId,
    connection: u64,
) -> bool {
    table.contains_key(id) && table[id].connection == connection
}

/// The per-peer instance table and stream router. Ids are handed out in
/// increasing order and never twice, also after an instance is gone.
pub struct InstancesExecutor<S> {
    instances: Vec<ServiceInstance<S>>,
    next_service_id: u64,
    table: Ghost<Map<ServiceId, InstanceEntry<S>>>,
    history: Ghost<Seq<ServiceId>>,
}

impl<S> View for InstancesExecutor<S> {
    type V = Map<ServiceId, InstanceEntry<S>>;

    closed spec fn view(&self) -> Map<ServiceId, InstanceEntry<S>> {
        self.table@
    }
}

impl<S> InstancesExecutor<S> {
    /// Every id that was ever given to an instance, in the order given.
    pub closed spec fn history(&self) -> Seq<ServiceId> {
        self.history@
    }

    /// The id that the next allocation hands out.
    pub closed spec fn next_id(&self) -> u64 {
        self.next_service_id
    }

    pub closed spec fn wf(&self) -> bool {
        &&& forall|i: int, j: int|
            0 <= i < j < self.instances@.len() ==> self.instances@[i].id
                != self.instances@[j].id
        &&& forall|id: ServiceId|
            self.table@.contains_key(id) <==> exists|i: int|
                0 <= i < self.instances@.len() && self.instances@[i].id == id
        &&& forall|i: int|
            0 <= i < self.instances@.len() ==> #[trigger] self.table@[self.instances@[i].id]
                == (InstanceEntry {
                connection: self.instances@[i].connection,
                sender: self.instances@[i].sender,
            })
        &&& forall|i: int, j: int|
            0 <= i < j < self.history@.len() ==> self.history@[i] < self.history@[j]
        &&& forall|i: int|
            0 <= i < self.history@.len() ==> #[trigger] self.history@[i] < self.next_service_id
        &&& forall|id: ServiceId| #[trigger]
            self.table@.contains_key(id) ==> self.history@.contains(id)
    }

    /// An empty table; the first id it hands out is 0.
    pub fn new() -> (r: InstancesExecutor<S>)
        ensures
            r.wf(),
            r@ == Map::<ServiceId, InstanceEntry<S>>::empty(),
            r.history() == Seq::<ServiceId>::empty(),
            r.next_id() == 0,
    {
        InstancesExecutor {
            instances: Vec::new(),
            next_service_id: 0,
            table: Ghost(Map::empty()),
            history: Ghost(Seq::empty()),
        }
    }

    /// Takes the next service id, or `None` once every id has been handed out.
    /// An id taken here is never handed out again.
    pub fn next_service_id(&mut self) -> (r: Option<ServiceId>)
        requires
            old(self).wf(),
        ensures
            final(self).wf(),
            final(self)@ == old(self)@,
            final(self).history() == old(self).history(),
            old(self).next_id() < u64::MAX ==> (r == Some(old(self).next_id()) && final(self).next_id() == old(self).next_id() + 1),
            old(self).next_id() == u64::MAX ==> (r is None && final(self).next_id() == old(self).next_id()),
    {
        if self.next_service_id == u64::MAX {
            return None;
        }
        let id = self.next_service_id;
        self.next_service_id = self.next_service_id + 1;
        assert forall|i: int| 0 <= i < self.history@.len() implies #[trigger] self.history@[i]
            < self.next_service_id by {
            assert(old(self).history@[i] < old(self).next_service_id);
        }
        assert forall|k: ServiceId| self.table@.contains_key(k) implies exists|i: int|
            0 <= i < self.instances@.len() && self.instances@[i].id == k by {
            let i = choose|i: int| 0 <= i < old(self).instances@.len() && old(self).instances@[i].id == k;
            assert(self.instances@[i].id == k);
        }
        Some(id)
    }

    /// Registers a new instance created on `connection`, under a fresh id, or
    /// returns `None` once the ids are used up.
    pub fn add_server_service_instance(&mut self, connection: u64, sender: S) -> (r: Option<
        ServiceId,
    >)
        requires
            old(self).wf(),
        ensures
            final(self).wf(),
            old(self).next_id() < u64::MAX ==> (r == Some(old(self).next_id()) && final(self).next_id() == old(self).next_id() + 1 && final(self)@ == old(self)@.insert(
                old(self).next_id(),
                InstanceEntry { connection, sender },
            ) && final(self).history() == old(self).history().push(old(self).next_id())),
            old(self).next_id() == u64::MAX ==> (r is None && final(self)@ == old(self)@
                && final(self).history() == old(self).history() && final(self).next_id()
                == old(self).next_id()),
            r matches Some(id) ==> !old(self).history().contains(id) && !old(self)@.contains_key(
                id,
            ),
    {
        if self.next_service_id == u64::MAX {
            return None;
        }
        let id = self.next_service_id;
        proof {
            assert forall|i: int| 0 <= i < self.instances@.len() implies self.instances@[i].id
                != id by {
                let k = self.instances@[i].id;
                assert(self.table@.contains_key(k));
                assert(self.history@.contains(k));
            }
            assert(!self.history@.contains(id));
        }
        let ghost old_instances = self.instances@;
        self.instances.push(ServiceInstance { id, connection, sender });
        self.table = Ghost(self.table@.insert(id, InstanceEntry { connection, sender }));
        self.history = Ghost(self.history@.push(id));
        self.next_service_id = self.next_service_id + 1;
        assert forall|k: ServiceId|
            self.table@.contains_key(k) <==> exists|i: int|
                0 <= i < self.instances@.len() && self.instances@[i].id == k by {
            if self.table@.contains_key(k) && k != id {
                let i = choose|i: int| 0 <= i < old_instances.len() && old_instances[i].id == k;
                assert(self.instances@[i].id == k);
            }
            if k == id {
                assert(self.instances@[self.instances@.len() - 1].id == k);
            }
        }
        assert forall|k: ServiceId| #[trigger]
            self.table@.contains_key(k) implies self.history@.contains(k) by {
            if k == id {
                assert(self.history@[self.history@.len() - 1] == k);
            } else {
                let j = choose|j: int| 0 <= j < old(self).history@.len() && old(self).history@[j] == k;
                assert(self.history@[j] == k);
            }
        }
        Some(id)
    }

    /// The sender of instance `id`, when a stream from `connection` may be
    /// attached to it; `None` when no such instance is live, or when it was
    /// created on another connection.
    pub fn connect_stream_to_server_service_instance(&self, id: ServiceId, connection: u64) -> (r:
        Option<&S>)
        requires
            self.wf(),
        ensures
            r is Some <==> attach_allowed(self@, id, connection),
            r matches Some(s) ==> *s == self@[id].sender,
    {
        let mut i: usize = 0;
        while i < self.instances.len()
            invariant
                self.wf(),
                i <= self.instances@.len(),
                forall|j: int| 0 <= j < i ==> self.instances@[j].id != id,
            decreases self.instances@.len() - i,
        {
            if self.instances[i].id == id {
                assert(self.table@[self.instances@[i as int].id] == InstanceEntry {
                    connection: self.instances@[i as int].connection,
                    sender: self.instances@[i as int].sender,
                });
                if self.instances[i].connection == connection {
                    return Some(&self.instances[i].sender);
                } else {
                    return None;
                }
            }
            i = i + 1;
        }
        None
    }

    /// Removes instance `id`; its sender is dropped, which ends the instance's
    /// stream source. Removing an id that is not live changes nothing.
    pub fn service_instance_dropped(&mut self, id: ServiceId)
        requires
            old(self).wf(),
        ensures
            final(self).wf(),
            final(self)@ == old(self)@.remove(id),
            final(self).history() == old(self).history(),
            final(self).next_id() == old(self).next_id(),
    {
        let mut i: usize = 0;
        while i < self.instances.len()
            invariant
                self.wf(),
                *self == *old(self),
                i <= self.instances@.len(),
                forall|j: int| 0 <= j < i ==> self.instances@[j].id != id,
            decreases self.instances@.len() - i,
        {
            if self.instances[i].id == id {
                let ghost before = self.instances@;
                let _gone = self.instances.remove(i);
                self.table = Ghost(self.table@.remove(id));
                assert forall|k: ServiceId|
                    self.table@.contains_key(k) <==> exists|j: int|
                        0 <= j < self.instances@.len() && self.instances@[j].id == k by {
                    if self.table@.contains_key(k) {
                        let j = choose|j: int| 0 <= j < before.len() && before[j].id == k;
                        if j < i {
                            assert(self.instances@[j].id == k);
                        } else {
                            assert(self.instances@[j - 1].id == k);
                        }
                    }
                }
                return;
            }
            i = i + 1;
        }
        assert(self.table@.remove(id) =~= self.table@);
    }
}

/// Ids are never reused: every id that was ever given to an instance was given
/// once, and all of them lie below the next id to be handed out.
pub proof fn lemma_service_ids_never_repeat<S>(e: &InstancesExecutor<S>)
    requires
        e.wf(),
    ensures
        e.history().no_duplicates(),
        forall|i: int| 0 <= i < e.history().len() ==> #[trigger] e.history()[i] < e.next_id(),
{
}

/// A stream is attached only to an instance created on the stream's own
/// connection.
pub proof fn lemma_attached_stream_shares_connection<S>(
    table: Map<ServiceId, InstanceEntry<S>>,
    id: ServiceId,
    connection: u64,
)
    requires
        attach_allowed(table, id, connection),
    ensures
        table[id].connection == connection,
{
}

/// Once an instance has been dropped, no stream is attached to it any more.
pub proof fn lemma_no_attach_after_drop<S>(
    table: Map<ServiceId, InstanceEntry<S>>,
    id: ServiceId,
    connection: u64,
)
    ensures
        !attach_allowed(table.remove(id), id, connection),
{
}

} // verus!
