//! The connection registry: a concurrent map from `Association` to the
//! outbound write channel of that TCP connection. Insertion happens at
//! accept time; removal happens when either side of the connection detects
//! termination, and is idempotent.
//!
//! The registry's observable state is a map from associations to the
//! sender registered for each: `insert` binds the given sender (overwriting
//! any stale entry), and `lookup` hands back exactly the sender bound to
//! the association.

use super::state::Association;
use super::state::Zip;
use tokio::sync::mpsc::Sender;
use vstd::prelude::*;

verus! {

/// dashmap's sharded concurrent hash map, carried opaquely.
#[verifier::external_type_specification]
#[verifier::external_body]
#[verifier::reject_recursive_types(K)]
#[verifier::reject_recursive_types(V)]
#[verifier::reject_recursive_types(S)]
pub struct ExDashMap<K, V, S>(dashmap::DashMap<K, V, S>);

/// The registry of live TCP connections. `model` is the map the registry
/// holds: which outbound sender is registered under each association.
pub struct Registry {
    pub inner: dashmap::DashMap<Association, Sender<Zip>>,
    pub model: Ghost<Map<Association, Sender<Zip>>>,
}

impl Registry {
    /// The associations currently registered.
    pub open spec fn associations(&self) -> Set<Association> {
        self.model@.dom()
    }

    /// Relies on dashmap::DashMap::new: a fresh map holds no entry.
    #[verifier::external_body]
    pub fn new() -> (r: Registry)
        ensures
            r.associations() == Set::<Association>::empty(),
    {
        Registry { inner: dashmap::DashMap::new(), model: Ghost(Map::empty()) }
    }

    /// Relies on dashmap::DashMap::insert: afterwards the key is bound to
    /// the given value, any earlier entry for it overwritten.
    #[verifier::external_body]
    pub fn insert(&mut self, association: Association, sender: Sender<Zip>)
        ensures
            final(self).model@ == old(self).model@.insert(association, sender),
    {
        self.inner.insert(association, sender);
    }

    /// Relies on dashmap::DashMap::remove: the entry, if any, is gone
    /// afterwards, and the return says whether one existed. Removing an
    /// absent key is a no-op.
    #[verifier::external_body]
    pub fn remove(&mut self, association: &Association) -> (r: bool)
        ensures
            final(self).model@ == old(self).model@.remove(*association),
            r == old(self).model@.dom().contains(*association),
    {
        self.inner.remove(association).is_some()
    }

    /// Relies on dashmap::DashMap::get (and Sender::clone to hand the entry
    /// out): an entry is found exactly when the association is registered,
    /// and what comes back is the sender registered under it.
    #[verifier::external_body]
    pub fn lookup(&self, association: &Association) -> (r: Option<Sender<Zip>>)
        ensures
            r is Some <==> self.model@.dom().contains(*association),
            r matches Some(s) ==> s == self.model@[*association],
    {
        self.inner.get(association).map(|entry| entry.value().clone())
    }

    /// Relies on dashmap::DashMap::len.
    #[verifier::external_body]
    pub fn len(&self) -> (r: usize)
        ensures
            r == self.model@.dom().len(),
    {
        self.inner.len()
    }

    pub fn contains(&self, association: &Association) -> (r: bool)
        ensures
            r == self.associations().contains(*association),
    {
        self.lookup(association).is_some()
    }
}

/// Law: removal is idempotent. Removing an association twice leaves the
/// registry exactly as one removal left it, and removing one never inserted
/// leaves the registry unchanged.
pub proof fn lemma_remove_idempotent(m: Map<Association, Sender<Zip>>, a: Association)
    ensures
        m.remove(a).remove(a) == m.remove(a),
        !m.dom().contains(a) ==> m.remove(a) == m,
{
    assert(m.remove(a).remove(a) =~= m.remove(a));
    if !m.dom().contains(a) {
        assert(m.remove(a) =~= m);
    }
}

} // verus!
