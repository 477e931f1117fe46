//! The connection pool: the live connections of the worker, each under the id
//! that was handed to the caller when it was opened.

use vstd::prelude::*;

verus! {

/// A connection to a database. Opaque here.
#[verifier::external_type_specification]
#[verifier::external_body]
pub struct ExConnection(rusqlite::Connection);

/// The slot map that backs the pool.
#[verifier::external_type_specification]
#[verifier::external_body]
#[verifier::reject_recursive_types(T)]
pub struct ExSlots<T>(slab::Slab<T>);

/// The keys that hold a connection in a slot map of connections.
pub uninterp spec fn live_keys(slots: slab::Slab<rusqlite::Connection>) -> Set<usize>;

/// Calls `slab::Slab::new`: a slot map that holds nothing.
#[verifier::external_body]
fn slots_new() -> (slots: slab::Slab<rusqlite::Connection>)
    ensures
        live_keys(slots) == Set::<usize>::empty(),
{
    slab::Slab::new()
}

/// Calls `slab::Slab::insert`. It stores the connection under a key that held
/// nothing and returns that key; the other keys keep what they held.
#[verifier::external_body]
fn slots_insert(slots: &mut slab::Slab<rusqlite::Connection>, conn: rusqlite::Connection) -> (key:
    usize)
    ensures
        !live_keys(*old(slots)).contains(key),
        live_keys(*final(slots)) == live_keys(*old(slots)).insert(key),
{
    slots.insert(conn)
}

/// Calls `slab::Slab::get`. It returns the connection under the key, or `None`
/// when the key holds nothing.
#[verifier::external_body]
fn slots_get(slots: &slab::Slab<rusqlite::Connection>, key: usize) -> (conn: Option<
    &rusqlite::Connection,
>)
    ensures
        conn is Some <==> live_keys(*slots).contains(key),
{
    slots.get(key)
}

/// Calls `slab::Slab::get_mut`. It returns the connection under the key, or
/// `None` when the key holds nothing; the keys stay as they are.
#[verifier::external_body]
fn slots_get_mut(slots: &mut slab::Slab<rusqlite::Connection>, key: usize) -> (conn: Option<
    &mut rusqlite::Connection,
>)
    ensures
        conn is Some <==> live_keys(*old(slots)).contains(key),
        live_keys(*final(slots)) == live_keys(*old(slots)),
{
    slots.get_mut(key)
}

/// Calls `slab::Slab::try_remove`. It removes and returns the connection under
/// the key, or returns `None` and changes nothing when the key holds nothing.
#[verifier::external_body]
fn slots_try_remove(slots: &mut slab::Slab<rusqlite::Connection>, key: usize) -> (conn: Option<
    rusqlite::Connection,
>)
    ensures
        conn is Some <==> live_keys(*old(slots)).contains(key),
        live_keys(*final(slots)) == live_keys(*old(slots)).remove(key),
{
    slots.try_remove(key)
}

/// The live connections of the worker.
pub struct ConnPool {
    slots: slab::Slab<rusqlite::Connection>,
}

impl View for ConnPool {
    type V = Set<usize>;

    /// The ids of the live connections.
    closed spec fn view(&self) -> Set<usize> {
        live_keys(self.slots)
    }
}

impl ConnPool {
    /// A pool with no connection.
    pub fn new() -> (pool: ConnPool)
        ensures
            pool@ == Set::<usize>::empty(),
    {
        ConnPool { slots: slots_new() }
    }

    /// Takes a connection into the pool and returns its id, which was free.
    pub fn insert(&mut self, conn: rusqlite::Connection) -> (id: usize)
        ensures
            !old(self)@.contains(id),
            final(self)@ == old(self)@.insert(id),
    {
        slots_insert(&mut self.slots, conn)
    }

    /// The connection with this id, if it is live.
    pub fn get(&self, id: usize) -> (conn: Option<&rusqlite::Connection>)
        ensures
            conn is Some <==> self@.contains(id),
    {
        slots_get(&self.slots, id)
    }

    /// The connection with this id for exclusive use, if it is live.
    pub fn get_mut(&mut self, id: usize) -> (conn: Option<&mut rusqlite::Connection>)
        ensures
            conn is Some <==> old(self)@.contains(id),
            final(self)@ == old(self)@,
    {
        slots_get_mut(&mut self.slots, id)
    }

    /// Whether a connection with this id is live.
    pub fn contains(&self, id: usize) -> (live: bool)
        ensures
            live == self@.contains(id),
    {
        slots_get(&self.slots, id).is_some()
    }

    /// Takes the connection with this id out of the pool, if it is live. The
    /// caller closes it by dropping it.
    pub fn take(&mut self, id: usize) -> (conn: Option<rusqlite::Connection>)
        ensures
            conn is Some <==> old(self)@.contains(id),
            final(self)@ == old(self)@.remove(id),
    {
        slots_try_remove(&mut self.slots, id)
    }
}

} // verus!
