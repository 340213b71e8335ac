use vstd::prelude::*;
use dashmap::DashMap;

verus! {

/// The concurrent map of the dashmap crate.
#[verifier::external_type_specification]
#[verifier::external_body]
#[verifier::reject_recursive_types(K)]
#[verifier::reject_recursive_types(V)]
#[verifier::reject_recursive_types(S)]
pub struct ExDashMap<K, V, S>(DashMap<K, V, S>);

/// A map from session IDs to connection handles.
pub type PeerMap = DashMap<String, u64>;

/// What a map from session IDs to connection handles holds.
pub uninterp spec fn peer_entries(m: PeerMap) -> Map<Seq<char>, u64>;

/// `DashMap::new`: a map with no entries.
#[verifier::external_body]
fn peers_new() -> (r: PeerMap)
    ensures
        peer_entries(r).dom() == Set::<Seq<char>>::empty(),
{
    DashMap::new()
}

/// `DashMap::insert`: maps the key to the value, replacing what it was mapped to;
/// returns the replaced value.
#[verifier::external_body]
fn peers_insert(m: &mut PeerMap, key: String, value: u64) -> (r: Option<u64>)
    ensures
        peer_entries(*final(m)) == peer_entries(*old(m)).insert(key@, value),
        r == (if peer_entries(*old(m)).contains_key(key@) {
            Some(peer_entries(*old(m))[key@])
        } else {
            None::<u64>
        }),
{
    m.insert(key, value)
}

/// `DashMap::remove`: takes the key out of the map; returns the value it had.
#[verifier::external_body]
fn peers_remove(m: &mut PeerMap, key: &str) -> (r: Option<u64>)
    ensures
        peer_entries(*final(m)) == peer_entries(*old(m)).remove(key@),
        r == (if peer_entries(*old(m)).contains_key(key@) {
            Some(peer_entries(*old(m))[key@])
        } else {
            None::<u64>
        }),
{
    m.remove(key).map(|entry| entry.1)
}

/// `DashMap::get`: the value the key is mapped to, if any.
#[verifier::external_body]
fn peers_get(m: &PeerMap, key: &str) -> (r: Option<u64>)
    ensures
        r == (if peer_entries(*m).contains_key(key@) {
            Some(peer_entries(*m)[key@])
        } else {
            None::<u64>
        }),
{
    m.get(key).map(|entry| *entry.value())
}

/// `DashMap::contains_key`: whether the key is mapped.
#[verifier::external_body]
fn peers_contains(m: &PeerMap, key: &str) -> (r: bool)
    ensures
        r == peer_entries(*m).contains_key(key@),
{
    m.contains_key(key)
}

/// Maps the session IDs of registered peers to the handles of their connections.
pub struct PeerRegistry {
    peers: PeerMap,
}

impl View for PeerRegistry {
    type V = Map<Seq<char>, u64>;

    closed spec fn view(&self) -> Map<Seq<char>, u64> {
        peer_entries(self.peers)
    }
}

impl PeerRegistry {
    /// A registry with no peer online.
    pub fn new() -> (r: Self)
        ensures
            r@ == Map::<Seq<char>, u64>::empty(),
    {
        let r = PeerRegistry { peers: peers_new() };
        assert(r@ =~= Map::<Seq<char>, u64>::empty());
        r
    }

    /// Records the peer `session_id` as reachable through `session`, replacing
    /// any earlier connection of that ID.
    pub fn register(&mut self, session_id: String, session: u64)
        ensures
            final(self)@ == old(self)@.insert(session_id@, session),
    {
        peers_insert(&mut self.peers, session_id, session);
    }

    /// Takes the peer `session_id` off the registry.
    pub fn unregister(&mut self, session_id: &str)
        ensures
            final(self)@ == old(self)@.remove(session_id@),
    {
        peers_remove(&mut self.peers, session_id);
    }

    /// The connection of the peer `session_id`, if it is online.
    pub fn get_session(&self, session_id: &str) -> (r: Option<u64>)
        ensures
            r == (if self@.contains_key(session_id@) {
                Some(self@[session_id@])
            } else {
                None::<u64>
            }),
    {
        peers_get(&self.peers, session_id)
    }

    /// Whether the peer `session_id` is online.
    pub fn is_online(&self, session_id: &str) -> (r: bool)
        ensures
            r == self@.contains_key(session_id@),
    {
        peers_contains(&self.peers, session_id)
    }
}

/// A peer is online, and reached through its connection, right after it registers.
pub proof fn lemma_registered_peer_is_reachable(peers: Map<Seq<char>, u64>, id: Seq<char>, conn: u64)
    ensures
        peers.insert(id, conn).contains_key(id),
        peers.insert(id, conn)[id] == conn,
{
}

/// A peer is offline right after it unregisters.
pub proof fn lemma_unregistered_peer_is_offline(peers: Map<Seq<char>, u64>, id: Seq<char>)
    ensures
        !peers.remove(id).contains_key(id),
{
}

/// Registering or unregistering one peer leaves every other peer as it was.
pub proof fn lemma_registry_change_is_local(
    peers: Map<Seq<char>, u64>,
    id: Seq<char>,
    conn: u64,
    other: Seq<char>,
)
    requires
        other != id,
    ensures
        peers.insert(id, conn).contains_key(other) == peers.contains_key(other),
        peers.remove(id).contains_key(other) == peers.contains_key(other),
        peers.contains_key(other) ==> peers.insert(id, conn)[other] == peers[other]
            && peers.remove(id)[other] == peers[other],
{
}

/// One call on a registry: `(true, id, session)` registers `id` as reachable
/// through `session`, `(false, id, _)` unregisters `id`.
pub type RegistryCall = (bool, Seq<char>, u64);

/// The peers online after `calls`, made in order on a registry holding `peers`.
pub open spec fn after_calls(peers: Map<Seq<char>, u64>, calls: Seq<RegistryCall>) -> Map<Seq<char>, u64>
    decreases calls.len(),
{
    if calls.len() == 0 {
        peers
    } else {
        let before = after_calls(peers, calls.drop_last());
        let c = calls.last();
        if c.0 {
            before.insert(c.1, c.2)
        } else {
            before.remove(c.1)
        }
    }
}

/// The last of `calls` that names `id`, if any.
pub open spec fn last_call_on(calls: Seq<RegistryCall>, id: Seq<char>) -> Option<RegistryCall>
    decreases calls.len(),
{
    if calls.len() == 0 {
        None
    } else if calls.last().1 == id {
        Some(calls.last())
    } else {
        last_call_on(calls.drop_last(), id)
    }
}

/// Starting from a new registry, after any sequence of registrations and
/// unregistrations a peer is online exactly when the last call naming it
/// registered it, and it is then reached through the session of that call.
pub proof fn lemma_registry_after_calls(calls: Seq<RegistryCall>, id: Seq<char>)
    ensures
        match last_call_on(calls, id) {
            Some(c) => after_calls(Map::empty(), calls).contains_key(id) == c.0 && (c.0
                ==> after_calls(Map::empty(), calls)[id] == c.2),
            None => !after_calls(Map::empty(), calls).contains_key(id),
        },
    decreases calls.len(),
{
    if calls.len() > 0 {
        lemma_registry_after_calls(calls.drop_last(), id);
    }
}

} // verus!
