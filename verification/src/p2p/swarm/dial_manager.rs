//! The dial bookkeeping for each peer: which addresses remain to be tried,
//! and which pending connection belongs to which peer.
//!
//! Peers are named by application public key (libp2p protobuf encoding),
//! addresses by their multiaddr bytes, connections by their id number.

use crate::p2p::keyed::ByteKeyMap;
use cynosure::site_c::queue::Queue;
use std::collections::HashMap;
use vstd::prelude::*;

verus! {

broadcast use vstd::std_specs::hash::group_hash_axioms;

#[verifier::external_type_specification]
#[verifier::external_body]
#[verifier::reject_recursive_types(T)]
pub struct ExQueue<T, const N: usize>(Queue<T, N>);

/// The addresses an address queue holds, front first.
pub uninterp spec fn queue_addresses(q: Queue<Vec<u8>, 4>) -> Seq<Seq<u8>>;

/// Trusted: `Queue::from_iter`, which pushes each item to the back in
/// order, so the queue holds the addresses in the order given.
#[verifier::external_body]
pub(crate) fn queue_from_addresses(addresses: Vec<Vec<u8>>) -> (q: Queue<Vec<u8>, 4>)
    ensures
        queue_addresses(q) == addresses@.map_values(|a: Vec<u8>| a@),
{
    Queue::from_iter(addresses)
}

/// Trusted: `Queue::pop_front`, which removes and returns the front item,
/// or returns `None` on an empty queue.
#[verifier::external_body]
pub(crate) fn queue_pop_front(q: &mut Queue<Vec<u8>, 4>) -> (r: Option<Vec<u8>>)
    ensures
        queue_addresses(*old(q)).len() == 0 ==> r is None && queue_addresses(*final(q))
            == queue_addresses(*old(q)),
        queue_addresses(*old(q)).len() > 0 ==> (r matches Some(a) && a@ == queue_addresses(
            *old(q),
        )[0] && queue_addresses(*final(q)) == queue_addresses(*old(q)).drop_first()),
{
    q.pop_front()
}

/// [`DialManager`] is responsible for managing the dial process for each
/// peer.
pub struct DialManager {
    /// Maps application public keys to the queue of remaining addresses.
    dial_queues: ByteKeyMap<Queue<Vec<u8>, 4>>,
    /// Maps connection ids to the application public key being dialed.
    conn_to_dial: HashMap<usize, Vec<u8>>,
}

impl DialManager {
    /// The tables are well formed.
    pub closed spec fn wf(self) -> bool {
        self.dial_queues.wf()
    }

    /// The remaining addresses of each peer being dialed.
    pub closed spec fn queues(self) -> Map<Seq<u8>, Seq<Seq<u8>>> {
        self.dial_queues.view().map_values(|q: Queue<Vec<u8>, 4>| queue_addresses(q))
    }

    /// The peer each pending connection dials.
    pub closed spec fn connections(self) -> Map<usize, Seq<u8>> {
        self.conn_to_dial@.map_values(|k: Vec<u8>| k@)
    }

    /// Creates a new, empty manager.
    pub fn new() -> (m: Self)
        ensures
            m.wf(),
            m.queues() == Map::<Seq<u8>, Seq<Seq<u8>>>::empty(),
            m.connections() == Map::<usize, Seq<u8>>::empty(),
    {
        let m = DialManager { dial_queues: ByteKeyMap::new(), conn_to_dial: HashMap::new() };
        assert(m.queues() =~= Map::<Seq<u8>, Seq<Seq<u8>>>::empty());
        assert(m.connections() =~= Map::<usize, Seq<u8>>::empty());
        m
    }

    /// Sets the queue of addresses to try for `app_public_key`.
    pub fn insert_queue(&mut self, app_public_key: Vec<u8>, queue: Queue<Vec<u8>, 4>)
        requires
            old(self).wf(),
        ensures
            final(self).wf(),
            final(self).queues() == old(self).queues().insert(
                app_public_key@,
                queue_addresses(queue),
            ),
            final(self).connections() == old(self).connections(),
    {
        self.dial_queues.insert(app_public_key, queue);
        assert(self.queues() =~= old(self).queues().insert(
            app_public_key@,
            queue_addresses(queue),
        ));
    }

    /// Takes the next address to try for `app_public_key`; `None` when it
    /// has no queue or its queue is empty. An emptied queue stays in place.
    pub fn pop_next_addr(&mut self, app_public_key: &[u8]) -> (r: Option<Vec<u8>>)
        requires
            old(self).wf(),
        ensures
            final(self).wf(),
            final(self).connections() == old(self).connections(),
            !old(self).queues().contains_key(app_public_key@) ==> r is None && final(self).queues() == old(self).queues(),
            old(self).queues().contains_key(app_public_key@) ==> {
                let q = old(self).queues()[app_public_key@];
                &&& q.len() == 0 ==> r is None && final(self).queues() == old(self).queues()
                &&& q.len() > 0 ==> (r matches Some(a) && a@ == q[0] && final(self).queues()
                    == old(self).queues().insert(app_public_key@, q.drop_first()))
            },
    {
        match self.dial_queues.remove(app_public_key) {
            None => {
                assert(self.queues() =~= old(self).queues());
                None
            },
            Some(mut queue) => {
                let ghost before = queue;
                assert(old(self).queues()[app_public_key@] == queue_addresses(before));
                let addr = queue_pop_front(&mut queue);
                let ghost q = queue_addresses(queue);
                self.dial_queues.insert(vstd::slice::slice_to_vec(app_public_key), queue);
                proof {
                    assert(self.queues() =~= old(self).queues().insert(app_public_key@, q));
                    if queue_addresses(before).len() == 0 {
                        assert(q == queue_addresses(before));
                        assert(old(self).queues().contains_key(app_public_key@));
                        assert(self.queues() =~= old(self).queues());
                    }
                }
                addr
            },
        }
    }

    /// Records that connection `conn_id` dials `app_public_key`.
    pub fn map_connid(&mut self, conn_id: usize, app_public_key: Vec<u8>)
        requires
            old(self).wf(),
        ensures
            final(self).wf(),
            final(self).queues() == old(self).queues(),
            final(self).connections() == old(self).connections().insert(conn_id, app_public_key@),
    {
        self.conn_to_dial.insert(conn_id, app_public_key);
        assert(self.connections() =~= old(self).connections().insert(conn_id, app_public_key@));
    }

    /// Forgets connection `conn_id`, returning the key it was dialing.
    pub fn remove_connid(&mut self, conn_id: &usize) -> (r: Option<Vec<u8>>)
        requires
            old(self).wf(),
        ensures
            final(self).wf(),
            final(self).queues() == old(self).queues(),
            final(self).connections() == old(self).connections().remove(*conn_id),
            r is Some <==> old(self).connections().contains_key(*conn_id),
            r matches Some(k) ==> k@ == old(self).connections()[*conn_id],
    {
        let r = self.conn_to_dial.remove(conn_id);
        assert(self.connections() =~= old(self).connections().remove(*conn_id));
        r
    }

    /// Forgets the address queue of `app_public_key`.
    pub fn remove_queue(&mut self, app_public_key: &[u8])
        requires
            old(self).wf(),
        ensures
            final(self).wf(),
            final(self).queues() == old(self).queues().remove(app_public_key@),
            final(self).connections() == old(self).connections(),
    {
        self.dial_queues.remove(app_public_key);
        assert(self.queues() =~= old(self).queues().remove(app_public_key@));
    }

    /// The key that connection `conn_id` dials, if any.
    pub fn get_app_public_key_by_connection_id(&self, conn_id: &usize) -> (r: Option<Vec<u8>>)
        requires
            self.wf(),
        ensures
            r is Some <==> self.connections().contains_key(*conn_id),
            r matches Some(k) ==> k@ == self.connections()[*conn_id],
    {
        match self.conn_to_dial.get(conn_id) {
            Some(k) => Some(k.clone()),
            None => None,
        }
    }

    /// Whether `app_public_key` already has an address queue.
    pub fn has_app_public_key(&self, app_public_key: &[u8]) -> (r: bool)
        requires
            self.wf(),
        ensures
            r == self.queues().contains_key(app_public_key@),
    {
        self.dial_queues.contains_key(app_public_key)
    }
}

} // verus!
