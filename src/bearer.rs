use vstd::prelude::*;

use crate::address::SocketAddress;
use crate::error::Error;
use crate::peer_proof::{proof_valid, verify_proof, Proof};
use crate::protocol::{PeerId, Protocol};

verus! {

/// A peer as the bearer directory records it.
pub struct Registration<H> {
    /// The peer.
    pub peer: PeerId,
    /// The transport connection that the peer registered on.
    pub connection: u64,
    /// The peer's public key, DER-encoded.
    pub public_key: Vec<u8>,
    /// The peer's identity proof for this bearer.
    pub proof: Proof,
    /// The handle to the peer's control stream.
    pub handle: H,
}

/// What the directory holds for one registered peer.
pub struct RegisteredPeer<H> {
    pub connection: u64,
    pub public_key: Seq<u8>,
    pub proof: Seq<u8>,
    pub handle: H,
}

impl<H> Registration<H> {
    pub open spec fn entry(&self) -> RegisteredPeer<H> {
        RegisteredPeer {
            connection: self.connection,
            public_key: self.public_key@,
            proof: self.proof@,
            handle: self.handle,
        }
    }
}

/// The bearer's directory of authenticated peers: at most one registration per
/// peer id, each with a proof that verified against this bearer's address.
pub struct Directory<H> {
    address: SocketAddress,
    ring: bool,
    entries: Vec<Registration<H>>,
    peers: Ghost<Map<Seq<u8>, RegisteredPeer<H>>>,
}

/// What the bearer does with a message on an authenticated control stream.
pub enum BearerAction<T> {
    /// Hand `connection_id` to the transport with the target's control stream
    /// handle, so that the transport brokers the connection.
    Broker { target: T, connection_id: u64 },
    /// The target is not registered here; look it up in the ring.
    AskRing { peer: PeerId, connection_id: u64 },
    /// Send this reply on the control stream.
    Reply(Protocol),
    /// Nothing to do.
    Ignore,
}

impl<H> View for Directory<H> {
    type V = Map<Seq<u8>, RegisteredPeer<H>>;

    closed spec fn view(&self) -> Map<Seq<u8>, RegisteredPeer<H>> {
        self.peers@
    }
}

impl<H> Directory<H> {
    /// The address at which this bearer is reachable, and against which proofs
    /// are checked.
    pub closed spec fn spec_address(&self) -> SocketAddress {
        self.address
    }

    /// Whether this bearer takes part in a ring.
    pub closed spec fn spec_ring(&self) -> bool {
        self.ring
    }

    pub closed spec fn wf(&self) -> bool {
        &&& forall|i: int, j: int|
            0 <= i < j < self.entries@.len() ==> self.entries@[i].peer@
                != self.entries@[j].peer@
        &&& forall|k: Seq<u8>|
            self.peers@.contains_key(k) <==> exists|i: int|
                0 <= i < self.entries@.len() && self.entries@[i].peer@ == k
        &&& forall|i: int|
            0 <= i < self.entries@.len() ==> #[trigger] self.peers@[self.entries@[i].peer@]
                == self.entries@[i].entry()
        &&& forall|k: Seq<u8>|
            #[trigger] self.peers@.contains_key(k) ==> proof_valid(
                self.peers@[k].public_key,
                self.address,
                self.peers@[k].proof,
            )
    }

    /// An empty directory for the bearer at `address`; `ring` tells whether the
    /// bearer takes part in a ring.
    pub fn new(address: SocketAddress, ring: bool) -> (r: Directory<H>)
        ensures
            r.wf(),
            r@ == Map::<Seq<u8>, RegisteredPeer<H>>::empty(),
            r.spec_address() == address,
            r.spec_ring() == ring,
    {
        Directory { address, ring, entries: Vec::new(), peers: Ghost(Map::empty()) }
    }

    /// The address of this bearer.
    pub fn address(&self) -> (r: SocketAddress)
        ensures
            r == self.spec_address(),
    {
        self.address
    }

    /// The number of registered peers.
    pub fn len(&self) -> (r: usize)
        requires
            self.wf(),
        ensures
            r == self@.len(),
    {
        proof {
            self.lemma_dom_len();
        }
        self.entries.len()
    }

    proof fn lemma_dom_len(&self)
        requires
            self.wf(),
        ensures
            self@.dom().finite(),
            self@.len() == self.entries@.len(),
    {
        let keys = Seq::new(self.entries@.len(), |i: int| self.entries@[i].peer@);
        assert(keys.no_duplicates());
        assert forall|k: Seq<u8>| self@.dom().contains(k) <==> keys.to_set().contains(k) by {
            if self@.dom().contains(k) {
                let i = choose|i: int| 0 <= i < self.entries@.len() && self.entries@[i].peer@ == k;
                assert(keys[i] == k);
            }
            if keys.to_set().contains(k) {
                assert(keys.contains(k));
                let i = choose|i: int| 0 <= i < keys.len() && keys[i] == k;
                assert(self.entries@[i].peer@ == k);
            }
        }
        assert(self@.dom() =~= keys.to_set());
        keys.unique_seq_to_set();
    }

    /// The position of `peer` in the entries, if it is registered.
    fn position(&self, peer: &PeerId) -> (r: Option<usize>)
        requires
            self.wf(),
        ensures
            r is None <==> !self@.contains_key(peer@),
            r matches Some(i) ==> i < self.entries@.len() && self.entries@[i as int].peer@
                == peer@,
    {
        let mut i: usize = 0;
        while i < self.entries.len()
            invariant
                self.wf(),
                i <= self.entries@.len(),
                forall|j: int| 0 <= j < i ==> self.entries@[j].peer@ != peer@,
            decreases self.entries@.len() - i,
        {
            if self.entries[i].peer.same(peer) {
                return Some(i);
            }
            i = i + 1;
        }
        None
    }

    /// The control stream handle of `peer`, if it is registered here.
    pub fn find_connection(&self, peer: &PeerId) -> (r: Option<&H>)
        requires
            self.wf(),
        ensures
            r is None <==> !self@.contains_key(peer@),
            r matches Some(h) ==> *h == self@[peer@].handle,
    {
        match self.position(peer) {
            Some(i) => Some(&self.entries[i].handle),
            None => None,
        }
    }

    /// Records `reg`, replacing any earlier registration of the same peer.
    fn insert(&mut self, reg: Registration<H>)
        requires
            old(self).wf(),
            proof_valid(reg.public_key@, old(self).spec_address(), reg.proof@),
        ensures
            final(self).wf(),
            final(self)@ == old(self)@.insert(reg.peer@, reg.entry()),
            final(self).spec_address() == old(self).spec_address(),
            final(self).spec_ring() == old(self).spec_ring(),
    {
        let ghost key = reg.peer@;
        let ghost e = reg.entry();
        match self.position(&reg.peer) {
            Some(i) => {
                self.entries.set(i, reg);
            },
            None => {
                self.entries.push(reg);
            },
        }
        self.peers = Ghost(self.peers@.insert(key, e));
        assert forall|k: Seq<u8>|
            self.peers@.contains_key(k) <==> exists|i: int|
                0 <= i < self.entries@.len() && self.entries@[i].peer@ == k by {
            if self.peers@.contains_key(k) && k != key {
                let i = choose|i: int| 0 <= i < old(self).entries@.len() && old(self).entries@[i].peer@ == k;
                assert(self.entries@[i].peer@ == k);
            }
            if k == key {
                if exists|i: int| 0 <= i < old(self).entries@.len() && old(self).entries@[i].peer@ == k {
                    let i = choose|i: int| 0 <= i < old(self).entries@.len() && old(self).entries@[i].peer@ == k;
                    assert(self.entries@[i].peer@ == k);
                } else {
                    assert(self.entries@[self.entries@.len() - 1].peer@ == k);
                }
            }
        }
    }

    /// Handles the first message on a peer's control stream. A `Hello` whose proof
    /// verifies, under the peer's public key, against this bearer's address
    /// registers the peer with its control stream handle, replacing any earlier
    /// registration; anything else is refused and leaves the directory as it was.
    /// `None` stands for a stream that closed before any message.
    pub fn handle_hello(
        &mut self,
        msg: Option<Protocol>,
        peer: PeerId,
        public_key: Option<Vec<u8>>,
        connection: u64,
        handle: H,
    ) -> (r: Result<(), Error>)
        requires
            old(self).wf(),
        ensures
            final(self).wf(),
            final(self).spec_address() == old(self).spec_address(),
            final(self).spec_ring() == old(self).spec_ring(),
            r is Ok ==> (msg matches Some(Protocol::Hello { proof }) && public_key matches Some(pk)
                && proof_valid(pk@, old(self).spec_address(), proof@) && final(self)@
                == old(self)@.insert(
                peer@,
                RegisteredPeer { connection, public_key: pk@, proof: proof@, handle },
            )),
            r is Err ==> final(self)@ == old(self)@,
            (msg matches Some(Protocol::Hello { proof }) && public_key matches Some(pk)
                && proof_valid(pk@, old(self).spec_address(), proof@)) ==> r is Ok,
            msg is None ==> r matches Err(Error::ConnectionClosedDuringRequest),
            (msg matches Some(m) && !(m is Hello)) ==> r matches Err(Error::HelloExpected),
            (msg matches Some(Protocol::Hello { .. }) && public_key is None) ==> r matches Err(
                Error::PublicKeyMissing,
            ),
            (msg matches Some(Protocol::Hello { proof }) && public_key matches Some(pk)
                && !proof_valid(pk@, old(self).spec_address(), proof@)) ==> r is Err,
            r matches Err(e) ==> (e is ConnectionClosedDuringRequest || e is HelloExpected
                || e is PublicKeyMissing || e is ProofInvalid || e is OpenSsl),
    {
        let proof = match msg {
            None => {
                return Err(Error::ConnectionClosedDuringRequest);
            },
            Some(Protocol::Hello { proof }) => proof,
            Some(_) => {
                return Err(Error::HelloExpected);
            },
        };
        let public_key = match public_key {
            None => {
                return Err(Error::PublicKeyMissing);
            },
            Some(pk) => pk,
        };
        match verify_proof(public_key.as_slice(), &self.address, &proof) {
            Ok(true) => {
                self.insert(Registration { peer, connection, public_key, proof, handle });
                Ok(())
            },
            Ok(false) => Err(Error::ProofInvalid),
            Err(e) => Err(e),
        }
    }

    /// Removes the registration of `peer` made on `connection`. A registration
    /// that a later one, on another connection, has replaced stays.
    pub fn unregister_connection(&mut self, peer: &PeerId, connection: u64)
        requires
            old(self).wf(),
        ensures
            final(self).wf(),
            final(self).spec_address() == old(self).spec_address(),
            final(self).spec_ring() == old(self).spec_ring(),
            (old(self)@.contains_key(peer@) && old(self)@[peer@].connection == connection)
                ==> final(self)@ == old(self)@.remove(peer@),
            !(old(self)@.contains_key(peer@) && old(self)@[peer@].connection == connection)
                ==> final(self)@ == old(self)@,
    {
        match self.position(peer) {
            Some(i) => {
                if self.entries[i].connection == connection {
                    let ghost key = peer@;
                    let ghost before = self.entries@;
                    let _removed = self.entries.remove(i);
                    self.peers = Ghost(self.peers@.remove(key));
                    assert forall|k: Seq<u8>|
                        self.peers@.contains_key(k) <==> exists|j: int|
                            0 <= j < self.entries@.len() && self.entries@[j].peer@ == k by {
                        if self.peers@.contains_key(k) {
                            let j = choose|j: int| 0 <= j < before.len() && before[j].peer@ == k;
                            if j < i {
                                assert(self.entries@[j].peer@ == k);
                            } else {
                                assert(self.entries@[j - 1].peer@ == k);
                            }
                        }
                    }
                }
            },
            None => {},
        }
    }

    /// Decides what to do with a message on an authenticated control stream.
    /// `ConnectToPeer` for a registered peer is brokered through that peer's
    /// control stream handle; for an unknown peer the ring is asked, when the
    /// bearer takes part in one, else `PeerNotFound` is the reply. Other
    /// messages are ignored.
    pub fn handle_message(&self, msg: Protocol) -> (r: BearerAction<&H>)
        requires
            self.wf(),
        ensures
            match msg {
                Protocol::ConnectToPeer { pub_key, connection_id } => {
                    if self@.contains_key(pub_key@) {
                        r matches BearerAction::Broker { target, connection_id: c } && *target
                            == self@[pub_key@].handle && c == connection_id
                    } else if self.spec_ring() {
                        r matches BearerAction::AskRing { peer, connection_id: c } && peer@
                            == pub_key@ && c == connection_id
                    } else {
                        r matches BearerAction::Reply(Protocol::PeerNotFound)
                    }
                },
                _ => r is Ignore,
            },
    {
        match msg {
            Protocol::ConnectToPeer { pub_key, connection_id } => {
                match self.find_connection(&pub_key) {
                    Some(target) => BearerAction::Broker { target, connection_id },
                    None => {
                        if self.ring {
                            BearerAction::AskRing { peer: pub_key, connection_id }
                        } else {
                            BearerAction::Reply(Protocol::PeerNotFound)
                        }
                    },
                }
            },
            _ => BearerAction::Ignore,
        }
    }
}

/// Every peer in a bearer's directory holds a proof that verifies, under its
/// public key, against that bearer's address.
pub proof fn lemma_registered_peers_are_verified<H>(d: &Directory<H>, peer: Seq<u8>)
    requires
        d.wf(),
        d@.contains_key(peer),
    ensures
        proof_valid(d@[peer].public_key, d.spec_address(), d@[peer].proof),
{
}

/// Registering a peer twice leaves one entry for it, the later one.
pub proof fn lemma_register_twice<H>(
    peers: Map<Seq<u8>, RegisteredPeer<H>>,
    peer: Seq<u8>,
    first: RegisteredPeer<H>,
    second: RegisteredPeer<H>,
)
    ensures
        peers.insert(peer, first).insert(peer, second) == peers.insert(peer, second),
        peers.insert(peer, first).insert(peer, second).dom() == peers.dom().insert(peer),
        peers.insert(peer, first).insert(peer, second)[peer] == second,
{
    assert(peers.insert(peer, first).insert(peer, second) =~= peers.insert(peer, second));
}

} // verus!
