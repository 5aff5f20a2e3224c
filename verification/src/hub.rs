use std::collections::{HashMap, HashSet};
use std::sync::Arc;
use std::time::SystemTime;

use tokio::sync::{mpsc, watch};
use vstd::prelude::*;

use crate::channel::{close_signal, offer, outbound_queue, signal_close, Delivery, MAX_QUEUE_CAPACITY};
use crate::id::{ConversationId, UserId};
use crate::realtime::{CloseDirective, RealtimeSettings};

verus! {

/// Identifies a realtime connection within one hub.
#[derive(Clone, Copy, Debug, PartialEq, Eq, Hash, Structural)]
pub struct ConnectionId {
    value: u64,
}

impl View for ConnectionId {
    type V = u64;

    closed spec fn view(&self) -> u64 {
        self.value
    }
}

impl ConnectionId {
    /// Returns the numeric value of this ID.
    pub fn get(self) -> (r: u64)
        ensures
            r == self@,
    {
        self.value
    }

    /// Returns the decimal representation of this ID.
    pub fn to_string(&self) -> (r: String)
        ensures
            r@ == crate::decimal::decimal_of(self@ as nat),
    {
        crate::decimal::format_u64(self.value)
    }
}

/// A digest that identifies the session a connection was opened with,
/// without holding the session secret itself.
#[derive(Clone, Copy, Debug, PartialEq, Eq)]
pub struct SessionFingerprint {
    bytes: [u8; 32],
}

impl View for SessionFingerprint {
    type V = Seq<u8>;

    closed spec fn view(&self) -> Seq<u8> {
        self.bytes@
    }
}

impl SessionFingerprint {
    /// Wraps a 32-byte digest.
    pub fn new(bytes: [u8; 32]) -> (r: Self)
        ensures
            r@ == bytes@,
    {
        SessionFingerprint { bytes }
    }

    /// Returns the digest.
    pub fn bytes(&self) -> (r: [u8; 32])
        ensures
            r@ == self@,
    {
        self.bytes
    }

    /// Whether two fingerprints hold the same digest.
    pub fn same_as(&self, other: &SessionFingerprint) -> (r: bool)
        ensures
            r == (self@ == other@),
    {
        let mut i: usize = 0;
        while i < 32
            invariant
                i <= 32,
                self.bytes@.len() == 32,
                other.bytes@.len() == 32,
                forall|j: int| 0 <= j < i ==> self.bytes@[j] == other.bytes@[j],
            decreases 32 - i,
        {
            if self.bytes[i] != other.bytes[i] {
                return false;
            }
            i = i + 1;
        }
        assert(self.bytes@ =~= other.bytes@);
        true
    }
}

/// Why a connection could not be reserved.
#[derive(Clone, Copy, Debug, PartialEq, Eq, Structural)]
pub enum CapacityError {
    /// The hub is shutting down.
    ShuttingDown,
    /// The hub holds as many registrations as it may.
    GlobalLimit,
    /// The user holds as many registrations as they may.
    UserLimit,
}

/// What a subscription request did.
#[derive(Clone, Copy, Debug, PartialEq, Eq, Structural)]
pub enum SubscribeResult {
    /// The subscription was added.
    Added,
    /// The connection was already subscribed.
    AlreadySubscribed,
    /// The connection holds as many subscriptions as it may.
    LimitReached,
    /// The connection is no longer registered.
    ConnectionClosed,
}

/// A connection as contracts speak of it.
#[verifier::ext_equal]
pub struct ConnectionView {
    pub user_id: i64,
    pub session: Seq<u8>,
    pub subscriptions: Set<i64>,
}

/// One open connection: its owner, its session, the channels to its task and
/// the conversations it follows.
pub struct ConnectionEntry {
    user_id: UserId,
    session: SessionFingerprint,
    outbound: mpsc::Sender<Arc<str>>,
    close: watch::Sender<Option<CloseDirective>>,
    subscriptions: HashSet<i64>,
}

impl View for ConnectionEntry {
    type V = ConnectionView;

    closed spec fn view(&self) -> ConnectionView {
        ConnectionView {
            user_id: self.user_id@,
            session: self.session@,
            subscriptions: self.subscriptions@,
        }
    }
}

/// The hub's registry as contracts speak of it: the open connections by
/// ID, the index of connections by user and by subscribed conversation, the
/// registration counts and the allocation cursor for connection IDs.
#[verifier::ext_equal]
pub struct HubView {
    pub settings: RealtimeSettings,
    pub shutting_down: bool,
    pub next_connection_id: u64,
    pub connections: Map<u64, ConnectionView>,
    pub users: Map<i64, Set<u64>>,
    pub subscriptions: Map<i64, Set<u64>>,
    pub user_registrations: Map<i64, usize>,
    pub registrations: usize,
}

/// The connections of `user_id`.
pub open spec fn connections_of_user(connections: Map<u64, ConnectionView>, user_id: i64) -> Set<u64> {
    Set::new(|c: u64| connections.contains_key(c) && connections[c].user_id == user_id)
}

/// The connections subscribed to `conversation_id`.
pub open spec fn subscribers_of(connections: Map<u64, ConnectionView>, conversation_id: i64) -> Set<u64> {
    Set::new(
        |c: u64| connections.contains_key(c) && connections[c].subscriptions.contains(conversation_id),
    )
}

/// The connections opened with `session`.
pub open spec fn connections_of_session(connections: Map<u64, ConnectionView>, session: Seq<u8>) -> Set<u64> {
    Set::new(|c: u64| connections.contains_key(c) && connections[c].session == session)
}

/// The index after `c` leaves the entry for `key`; an entry left empty is
/// dropped.
pub open spec fn index_without(index: Map<i64, Set<u64>>, key: i64, c: u64) -> Map<i64, Set<u64>> {
    if index.contains_key(key) {
        if index[key].remove(c).is_empty() {
            index.remove(key)
        } else {
            index.insert(key, index[key].remove(c))
        }
    } else {
        index
    }
}

/// The index after `c` joins the entry for `key`.
pub open spec fn index_with(index: Map<i64, Set<u64>>, key: i64, c: u64) -> Map<i64, Set<u64>> {
    if index.contains_key(key) {
        index.insert(key, index[key].insert(c))
    } else {
        index.insert(key, set![c])
    }
}

/// The ID after `id` in allocation order: IDs run through the positive
/// `u64` values and wrap around to 1.
pub open spec fn following_id(id: u64) -> u64 {
    if id == u64::MAX {
        1
    } else {
        (id + 1) as u64
    }
}

/// Whether `x` lies in the cyclic run of IDs that starts at `start` and
/// stops before `end`.
pub open spec fn in_cyclic_run(x: u64, start: u64, end: u64) -> bool {
    if start <= end {
        start <= x < end
    } else {
        x >= start || (1 <= x < end)
    }
}

impl HubView {
    /// The indexes mirror the connection table: a user's entry holds exactly
    /// that user's connections, a conversation's entry exactly its
    /// subscribers, and no entry is empty.
    pub open spec fn indexes_consistent(self) -> bool {
        &&& forall|c: u64| #[trigger]
            self.connections.contains_key(c) ==> self.users.contains_key(
                self.connections[c].user_id,
            ) && self.users[self.connections[c].user_id].contains(c)
        &&& forall|u: i64, c: u64|
            self.users.contains_key(u) && #[trigger] self.users[u].contains(c)
                ==> self.connections.contains_key(c) && self.connections[c].user_id == u
        &&& forall|u: i64| #[trigger] self.users.contains_key(u) ==> !self.users[u].is_empty()
        &&& forall|c: u64, k: i64|
            self.connections.contains_key(c) && #[trigger] self.connections[c].subscriptions.contains(
                k,
            ) ==> self.subscriptions.contains_key(k) && self.subscriptions[k].contains(c)
        &&& forall|k: i64, c: u64|
            self.subscriptions.contains_key(k) && #[trigger] self.subscriptions[k].contains(c)
                ==> self.connections.contains_key(c) && self.connections[c].subscriptions.contains(k)
        &&& forall|k: i64| #[trigger]
            self.subscriptions.contains_key(k) ==> !self.subscriptions[k].is_empty()
    }

    /// The registry's invariant.
    pub open spec fn wf(self) -> bool {
        &&& self.indexes_consistent()
        &&& self.next_connection_id >= 1
        &&& forall|c: u64| #[trigger] self.connections.contains_key(c) ==> c >= 1
        &&& forall|c: u64| #[trigger]
            self.connections.contains_key(c) ==> self.connections[c].subscriptions.finite()
                && self.connections[c].subscriptions.len()
                <= self.settings.max_subscriptions_per_connection
        &&& forall|u: i64| #[trigger]
            self.user_registrations.contains_key(u) ==> self.user_registrations[u] > 0
    }
}

/// The registry of a realtime hub: which connections are open, whose they
/// are, what they follow, and how many registrations are held.
pub struct HubState {
    settings: RealtimeSettings,
    shutting_down: bool,
    next_connection_id: u64,
    connections: HashMap<u64, ConnectionEntry>,
    users: HashMap<i64, HashSet<u64>>,
    subscriptions: HashMap<i64, HashSet<u64>>,
    user_registrations: HashMap<i64, usize>,
    registrations: usize,
    offered: Ghost<Seq<(u64, Arc<str>)>>,
    signalled: Ghost<Seq<(u64, CloseDirective)>>,
}

/// The close signals of `directive` to each connection in `ids`, in that
/// order.
pub open spec fn closes_to(ids: Seq<u64>, directive: CloseDirective) -> Seq<(u64, CloseDirective)> {
    ids.map_values(|c: u64| (c, directive))
}

/// The record `after` extends `before` by one close signal of `directive`
/// to each connection in `targets`, in some order.
pub open spec fn signalled_once_to_each(
    after: Seq<(u64, CloseDirective)>,
    before: Seq<(u64, CloseDirective)>,
    targets: Set<u64>,
    directive: CloseDirective,
) -> bool {
    exists|order: Seq<u64>|
        #![trigger closes_to(order, directive)]
        order.no_duplicates() && order.to_set() == targets && after == before + closes_to(
            order,
            directive,
        )
}

/// The offers of `message` to each connection in `ids`, in that order.
pub open spec fn offers_to(ids: Seq<u64>, message: Arc<str>) -> Seq<(u64, Arc<str>)> {
    ids.map_values(|c: u64| (c, message))
}

/// The views of the sets in an index.
pub open spec fn index_view(index: Map<i64, HashSet<u64>>) -> Map<i64, Set<u64>> {
    index.map_values(|s: HashSet<u64>| s@)
}

/// The views of the entries of a connection table.
pub open spec fn table_view(table: Map<u64, ConnectionEntry>) -> Map<u64, ConnectionView> {
    table.map_values(|e: ConnectionEntry| e@)
}

impl View for HubState {
    type V = HubView;

    closed spec fn view(&self) -> HubView {
        HubView {
            settings: self.settings,
            shutting_down: self.shutting_down,
            next_connection_id: self.next_connection_id,
            connections: table_view(self.connections@),
            users: index_view(self.users@),
            subscriptions: index_view(self.subscriptions@),
            user_registrations: self.user_registrations@,
            registrations: self.registrations,
        }
    }
}

/// Removes `c` from the entry for `key`, dropping the entry if it empties.
fn remove_from_index(index: &mut HashMap<i64, HashSet<u64>>, key: i64, c: u64)
    ensures
        index_view(final(index)@) == index_without(index_view(old(index)@), key, c),
{
    match index.remove(&key) {
        Some(mut ids) => {
            ids.remove(&c);
            if !ids.is_empty() {
                index.insert(key, ids);
                assert(index_view(index@) =~= index_without(index_view(old(index)@), key, c));
            } else {
                assert(index_view(index@) =~= index_without(index_view(old(index)@), key, c));
            }
        },
        None => {
            assert(index_view(index@) =~= index_without(index_view(old(index)@), key, c));
        },
    }
}

/// Adds `c` to the entry for `key`.
fn add_to_index(index: &mut HashMap<i64, HashSet<u64>>, key: i64, c: u64)
    ensures
        index_view(final(index)@) == index_with(index_view(old(index)@), key, c),
{
    let mut ids = match index.remove(&key) {
        Some(ids) => ids,
        None => HashSet::new(),
    };
    ids.insert(c);
    index.insert(key, ids);
    assert(index_view(index@) =~= index_with(index_view(old(index)@), key, c));
}

} // verus!

verus! {

/// The members of a set, each once, in the set's iteration order.
fn set_items<T: Copy + Eq + std::hash::Hash>(s: &HashSet<T>) -> (v: Vec<T>)
    requires
        vstd::std_specs::hash::obeys_key_model::<T>(),
    ensures
        v@.to_set() == s@,
        v@.no_duplicates(),
{
    let mut v: Vec<T> = Vec::new();
    for x in it: s.iter()
        invariant
            v@.len() == it.index(),
            forall|j: int| 0 <= j < it.index() ==> v@[j] == *it.seq()[j],
    {
        v.push(*x);
    }
    proof {
        let items = vstd::std_specs::iter::IteratorSpec::remaining(&vstd::std_specs::hash::spec_hash_keys_iter(s));
        assert(v@ =~= items.unref());
    }
    v
}

} // verus!

verus! {

/// The IDs of a connection table, each once.
fn table_ids(table: &HashMap<u64, ConnectionEntry>) -> (v: Vec<u64>)
    ensures
        v@.to_set() == table@.dom(),
        v@.no_duplicates(),
{
    let mut v: Vec<u64> = Vec::new();
    for x in it: table.keys()
        invariant
            v@.len() == it.index(),
            forall|j: int| 0 <= j < it.index() ==> v@[j] == *it.seq()[j],
    {
        v.push(*x);
    }
    proof {
        let items = vstd::std_specs::iter::IteratorSpec::remaining(
            &vstd::std_specs::hash::spec_keys_iter(table),
        );
        assert(v@ =~= items.unref());
    }
    v
}

} // verus!

verus! {

/// The index after `c` leaves the entries of every key in `keys`; entries
/// left empty are dropped.
pub open spec fn index_without_all(index: Map<i64, Set<u64>>, keys: Set<i64>, c: u64) -> Map<
    i64,
    Set<u64>,
> {
    Map::new(
        |k: i64| index.contains_key(k) && !(keys.contains(k) && index[k].remove(c).is_empty()),
        |k: i64|
            if keys.contains(k) {
                index[k].remove(c)
            } else {
                index[k]
            },
    )
}

/// The registry left when connection `c` is dropped from a consistent one.
pub open spec fn without_connection(v: HubView, c: u64) -> HubView {
    if v.connections.contains_key(c) {
        HubView {
            connections: v.connections.remove(c),
            users: index_without(v.users, v.connections[c].user_id, c),
            subscriptions: index_without_all(v.subscriptions, v.connections[c].subscriptions, c),
            ..v
        }
    } else {
        v
    }
}

proof fn lemma_without_connection_wf(v: HubView, c: u64)
    requires
        v.wf(),
    ensures
        without_connection(v, c).wf(),
        without_connection(v, c).connections == v.connections.remove(c),
{
    if v.connections.contains_key(c) {
        let w = without_connection(v, c);
        let e = v.connections[c];
        assert forall|c2: u64| #[trigger] w.connections.contains_key(c2) implies w.users.contains_key(
            w.connections[c2].user_id,
        ) && w.users[w.connections[c2].user_id].contains(c2) by {
            let u = v.connections[c2].user_id;
            assert(v.users[u].contains(c2));
            assert(v.users[u].remove(c).contains(c2));
        }
        assert forall|u: i64, c2: u64| w.users.contains_key(u) && #[trigger] w.users[u].contains(
            c2,
        ) implies w.connections.contains_key(c2) && w.connections[c2].user_id == u by {
            assert(v.users[u].contains(c2));
        }
        assert forall|c2: u64, k: i64| w.connections.contains_key(c2) && #[trigger] w.connections[c2].subscriptions.contains(
            k,
        ) implies w.subscriptions.contains_key(k) && w.subscriptions[k].contains(c2) by {
            assert(v.subscriptions[k].contains(c2));
            assert(v.subscriptions[k].remove(c).contains(c2));
        }
        assert forall|k: i64, c2: u64| w.subscriptions.contains_key(k) && #[trigger] w.subscriptions[k].contains(
            c2,
        ) implies w.connections.contains_key(c2) && w.connections[c2].subscriptions.contains(k) by {
            assert(v.subscriptions[k].contains(c2));
            if c2 == c {
                assert(e.subscriptions.contains(k));
            }
        }
        assert forall|k: i64| #[trigger] w.subscriptions.contains_key(k) implies !w.subscriptions[k].is_empty() by {
            if !e.subscriptions.contains(k) {
                assert(!v.subscriptions[k].is_empty());
            }
        }
        assert(w.wf());
    } else {
        assert(v.connections.remove(c) =~= v.connections);
    }
}

impl HubState {
    /// The registry's invariant.
    pub closed spec fn wf(&self) -> bool {
        self@.wf()
    }

    /// Every message offered to an outbound queue so far, each with the
    /// connection it was offered to, in the order of the offers, as recorded
    /// by the delivery step beside each offer it makes.
    pub closed spec fn offered(&self) -> Seq<(u64, Arc<str>)> {
        self.offered@
    }

    /// Every close signal sent to a connection so far, each with the
    /// connection it was sent to, in the order sent, as recorded by the close
    /// steps beside each signal they send.
    pub closed spec fn signalled(&self) -> Seq<(u64, CloseDirective)> {
        self.signalled@
    }

    /// Creates an empty registry with `settings`.
    pub fn new(settings: RealtimeSettings) -> (r: Self)
        ensures
            r.wf(),
            r.offered() == Seq::<(u64, Arc<str>)>::empty(),
            r.signalled() == Seq::<(u64, CloseDirective)>::empty(),
            r@.settings == settings,
            !r@.shutting_down,
            r@.next_connection_id == 1,
            r@.connections == Map::<u64, ConnectionView>::empty(),
            r@.user_registrations == Map::<i64, usize>::empty(),
            r@.registrations == 0,
    {
        let r = HubState {
            settings,
            shutting_down: false,
            next_connection_id: 1,
            connections: HashMap::new(),
            users: HashMap::new(),
            subscriptions: HashMap::new(),
            user_registrations: HashMap::new(),
            registrations: 0,
            offered: Ghost(Seq::empty()),
            signalled: Ghost(Seq::empty()),
        };
        assert(r@.connections =~= Map::<u64, ConnectionView>::empty());
        assert(r@.users =~= Map::<i64, Set<u64>>::empty());
        assert(r@.subscriptions =~= Map::<i64, Set<u64>>::empty());
        r
    }

    /// Returns the settings the hub was created with.
    pub fn settings(&self) -> (r: RealtimeSettings)
        ensures
            r == self@.settings,
    {
        self.settings
    }

    /// Returns how many registrations are held.
    pub fn registrations(&self) -> (r: usize)
        ensures
            r == self@.registrations,
    {
        self.registrations
    }

    /// Whether the hub refuses new connections because it is shutting down.
    pub fn is_shutting_down(&self) -> (r: bool)
        ensures
            r == self@.shutting_down,
    {
        self.shutting_down
    }

    /// Drops connection `c` and its index entries.
    fn remove_connection(&mut self, c: u64)
        requires
            old(self).wf(),
        ensures
            final(self).wf(),
            final(self)@ == without_connection(old(self)@, c),
            final(self).offered() == old(self).offered(),
            final(self).signalled() == old(self).signalled(),
    {
        let ghost v0 = self@;
        proof {
            lemma_without_connection_wf(v0, c);
        }
        match self.connections.remove(&c) {
            None => {
                assert(table_view(self.connections@) =~= v0.connections);
            },
            Some(entry) => {
                assert(table_view(self.connections@) =~= v0.connections.remove(c));
                assert(v0.connections[c] == entry@);
                remove_from_index(&mut self.users, entry.user_id.get(), c);
                let keys = set_items(&entry.subscriptions);
                let ghost conns = self.connections@;
                let ghost users = self.users@;
                let mut i: usize = 0;
                assert(keys@.take(0).to_set() =~= Set::<i64>::empty());
                assert(index_without_all(v0.subscriptions, Set::<i64>::empty(), c)
                    =~= v0.subscriptions);
                while i < keys.len()
                    invariant
                        i <= keys@.len(),
                        keys@.no_duplicates(),
                        index_view(self.subscriptions@) == index_without_all(
                            v0.subscriptions,
                            keys@.take(i as int).to_set(),
                            c,
                        ),
                        self.connections@ == conns,
                        self.users@ == users,
                        self.settings == v0.settings,
                        self.shutting_down == v0.shutting_down,
                        self.next_connection_id == v0.next_connection_id,
                        self.user_registrations@ == v0.user_registrations,
                        self.registrations == v0.registrations,
                        self.offered@ == old(self).offered@,
                        self.signalled@ == old(self).signalled@,
                    decreases keys.len() - i,
                {
                    let k = keys[i];
                    proof {
                        let before = keys@.take(i as int).to_set();
                        assert(keys@.take(i + 1) =~= keys@.take(i as int).push(k));
                        broadcast use vstd::seq_lib::group_seq_properties;
                        assert(keys@.take(i + 1).to_set() =~= before.insert(k));
                        assert(!before.contains(k)) by {
                            if before.contains(k) {
                                let j = choose|j: int| 0 <= j < i && keys@[j] == k;
                                assert(keys@[j] == keys@[i as int]);
                            }
                        }
                        assert(index_without(index_without_all(v0.subscriptions, before, c), k, c)
                            =~= index_without_all(v0.subscriptions, before.insert(k), c));
                    }
                    remove_from_index(&mut self.subscriptions, k, c);
                    i = i + 1;
                }
                assert(keys@.take(keys@.len() as int) =~= keys@);
                assert(self@ == without_connection(v0, c));
            },
        }
    }
}

} // verus!

verus! {

/// How many registrations `user_id` holds.
pub open spec fn held_by(v: HubView, user_id: i64) -> usize {
    if v.user_registrations.contains_key(user_id) {
        v.user_registrations[user_id]
    } else {
        0
    }
}

/// The registry after connection `c` of `user_id`, opened with `session`,
/// joins it.
pub open spec fn with_new_connection(v: HubView, c: u64, user_id: i64, session: Seq<u8>) -> HubView {
    HubView {
        next_connection_id: following_id(c),
        connections: v.connections.insert(
            c,
            ConnectionView { user_id, session, subscriptions: Set::empty() },
        ),
        users: index_with(v.users, user_id, c),
        user_registrations: v.user_registrations.insert(user_id, (held_by(v, user_id) + 1) as usize),
        registrations: (v.registrations + 1) as usize,
        ..v
    }
}

/// The registry after connection `c` subscribes to `k`.
pub open spec fn with_subscription(v: HubView, c: u64, k: i64) -> HubView {
    HubView {
        connections: v.connections.insert(
            c,
            ConnectionView {
                subscriptions: v.connections[c].subscriptions.insert(k),
                ..v.connections[c]
            },
        ),
        subscriptions: index_with(v.subscriptions, k, c),
        ..v
    }
}

/// The registry after connection `c` drops its subscription to `k`, if it
/// had one.
pub open spec fn without_subscription(v: HubView, c: u64, k: i64) -> HubView {
    if v.connections.contains_key(c) && v.connections[c].subscriptions.contains(k) {
        HubView {
            connections: v.connections.insert(
                c,
                ConnectionView {
                    subscriptions: v.connections[c].subscriptions.remove(k),
                    ..v.connections[c]
                },
            ),
            subscriptions: index_without(v.subscriptions, k, c),
            ..v
        }
    } else {
        v
    }
}

/// The IDs whose delivery failed: their reader is gone or their queue is
/// full.
pub open spec fn failed_deliveries(outcomes: Seq<(u64, Delivery)>) -> Set<u64> {
    Set::new(|c: u64| exists|i: int| 0 <= i < outcomes.len() && outcomes[i].0 == c && outcomes[i].1 != Delivery::Queued)
}

/// The registry's fields other than the connection table and its indexes
/// are those of `v`.
pub open spec fn same_counters(w: HubView, v: HubView) -> bool {
    &&& w.settings == v.settings
    &&& w.shutting_down == v.shutting_down
    &&& w.next_connection_id == v.next_connection_id
    &&& w.user_registrations == v.user_registrations
    &&& w.registrations == v.registrations
}

/// In a consistent registry the indexes are functions of the connection
/// table: the entry of a user holds exactly that user's connections, the
/// entry of a conversation exactly its subscribers, and a user or
/// conversation without connections has no entry.
pub proof fn lemma_indexes_follow_connections(v: HubView)
    requires
        v.wf(),
    ensures
        forall|u: i64| #[trigger]
            v.users.contains_key(u) <==> !connections_of_user(v.connections, u).is_empty(),
        forall|u: i64| #[trigger]
            v.users.contains_key(u) ==> v.users[u] == connections_of_user(v.connections, u),
        forall|k: i64| #[trigger]
            v.subscriptions.contains_key(k) <==> !subscribers_of(v.connections, k).is_empty(),
        forall|k: i64| #[trigger]
            v.subscriptions.contains_key(k) ==> v.subscriptions[k] == subscribers_of(v.connections, k),
{
    assert forall|u: i64| #[trigger] v.users.contains_key(u) implies v.users[u]
        == connections_of_user(v.connections, u) by {
        assert(v.users[u] =~= connections_of_user(v.connections, u));
    }
    assert forall|u: i64| #[trigger] v.users.contains_key(u) <==> !connections_of_user(
        v.connections,
        u,
    ).is_empty() by {
        if v.users.contains_key(u) {
            assert(v.users[u] =~= connections_of_user(v.connections, u));
        }
        if !connections_of_user(v.connections, u).is_empty() {
            let c = choose|c: u64| connections_of_user(v.connections, u).contains(c);
            assert(v.connections.contains_key(c));
        }
    }
    assert forall|k: i64| #[trigger] v.subscriptions.contains_key(k) implies v.subscriptions[k]
        == subscribers_of(v.connections, k) by {
        assert(v.subscriptions[k] =~= subscribers_of(v.connections, k));
    }
    assert forall|k: i64| #[trigger] v.subscriptions.contains_key(k) <==> !subscribers_of(
        v.connections,
        k,
    ).is_empty() by {
        if v.subscriptions.contains_key(k) {
            assert(v.subscriptions[k] =~= subscribers_of(v.connections, k));
        }
        if !subscribers_of(v.connections, k).is_empty() {
            let c = choose|c: u64| subscribers_of(v.connections, k).contains(c);
            assert(v.connections.contains_key(c));
        }
    }
}

/// A subscription that was added and then dropped leaves the registry as
/// it was.
pub proof fn lemma_unsubscribe_undoes_subscribe(v: HubView, c: u64, k: i64)
    requires
        v.wf(),
        v.connections.contains_key(c),
        !v.connections[c].subscriptions.contains(k),
    ensures
        without_subscription(with_subscription(v, c, k), c, k) == v,
{
    let w = with_subscription(v, c, k);
    let x = without_subscription(w, c, k);
    assert(w.connections[c].subscriptions.contains(k));
    assert(v.connections[c].subscriptions.insert(k).remove(k) =~= v.connections[c].subscriptions);
    assert(x.connections =~= v.connections);
    if v.subscriptions.contains_key(k) {
        assert(!v.subscriptions[k].contains(c));
        assert(v.subscriptions[k].insert(c).remove(c) =~= v.subscriptions[k]);
    } else {
        assert(set![c].remove(c) =~= Set::<u64>::empty());
    }
    assert(x.subscriptions =~= v.subscriptions);
    assert(x =~= v);
}

} // verus!

verus! {

/// A reserved connection slot: who holds it, the session it was opened
/// with, when that session expires, and the receiving ends of its outbound
/// queue and close signal until the connection task takes them.
pub struct ConnectionRegistration {
    connection_id: ConnectionId,
    user_id: UserId,
    session: SessionFingerprint,
    expires_at: SystemTime,
    outbound: Option<mpsc::Receiver<Arc<str>>>,
    close: Option<watch::Receiver<Option<CloseDirective>>>,
}

/// A registration as contracts speak of it.
pub struct RegistrationView {
    pub connection_id: u64,
    pub user_id: i64,
    pub session: Seq<u8>,
    pub expires_at: SystemTime,
    pub has_channels: bool,
}

impl View for ConnectionRegistration {
    type V = RegistrationView;

    closed spec fn view(&self) -> RegistrationView {
        RegistrationView {
            connection_id: self.connection_id@,
            user_id: self.user_id@,
            session: self.session@,
            expires_at: self.expires_at,
            has_channels: self.outbound is Some && self.close is Some,
        }
    }
}

impl ConnectionRegistration {
    /// Returns the connection's ID.
    pub fn connection_id(&self) -> (r: ConnectionId)
        ensures
            r@ == self@.connection_id,
    {
        self.connection_id
    }

    /// Returns the connection's user.
    pub fn user_id(&self) -> (r: UserId)
        ensures
            r@ == self@.user_id,
    {
        self.user_id
    }

    /// Returns the fingerprint of the connection's session.
    pub fn session(&self) -> (r: SessionFingerprint)
        ensures
            r@ == self@.session,
    {
        self.session
    }

    /// Returns when the connection's session expires.
    pub fn expires_at(&self) -> (r: SystemTime)
        ensures
            r == self@.expires_at,
    {
        self.expires_at
    }

    /// Hands out the receiving ends of the outbound queue and close signal,
    /// once.
    pub fn take_channels(&mut self) -> (r: Option<
        (mpsc::Receiver<Arc<str>>, watch::Receiver<Option<CloseDirective>>),
    >)
        ensures
            r is Some <==> old(self)@.has_channels,
            final(self)@ == (RegistrationView { has_channels: false, ..old(self)@ }),
    {
        let outbound = self.outbound.take();
        let close = self.close.take();
        match (outbound, close) {
            (Some(o), Some(c)) => Some((o, c)),
            (o, c) => {
                self.outbound = o;
                self.close = c;
                let _ = self.outbound.take();
                let _ = self.close.take();
                None
            },
        }
    }
}

/// The number of positive `u64` values.
proof fn lemma_every_id_taken(dom: Set<u64>)
    requires
        dom.finite(),
        forall|x: u64| 1 <= x ==> dom.contains(x),
    ensures
        dom.len() >= u64::MAX,
{
    let all = Set::<u64>::new(|i: u64| 1 <= i < u64::MAX).insert(u64::MAX);
    <u64 as vstd::set_lib::FiniteRange>::range_properties(1, u64::MAX);
    assert(Set::<u64>::new(|i: u64| 1 <= i < u64::MAX) == <u64 as vstd::set_lib::FiniteRange>::range_set(1, u64::MAX));
    assert(!Set::<u64>::new(|i: u64| 1 <= i < u64::MAX).contains(u64::MAX));
    assert(all.len() == u64::MAX);
    assert(all.subset_of(dom));
    vstd::set_lib::lemma_len_subset(all, dom);
}

impl HubState {
    /// Picks the first free connection ID at or after the cursor, in
    /// allocation order, and moves the cursor past it.
    fn allocate_connection_id(&mut self) -> (c: u64)
        requires
            old(self).wf(),
            old(self)@.connections.len() < usize::MAX,
        ensures
            final(self).wf(),
            c >= 1,
            !old(self)@.connections.contains_key(c),
            forall|x: u64| #[trigger]
                in_cyclic_run(x, old(self)@.next_connection_id, c)
                    ==> old(self)@.connections.contains_key(x),
            final(self)@ == (HubView { next_connection_id: following_id(c), ..old(self)@ }),
    {
        let ghost v0 = self@;
        let ghost start = self.next_connection_id;
        let ghost mut wrapped = false;
        proof {
            assert(self.connections@.dom() =~= v0.connections.dom());
        }
        loop
            invariant
                old(self)@ == v0,
                v0.wf(),
                v0.connections.len() < usize::MAX,
                v0.connections.dom().finite(),
                start == v0.next_connection_id,
                self@ == (HubView { next_connection_id: self.next_connection_id, ..v0 }),
                self.connections@.dom() == v0.connections.dom(),
                self.next_connection_id >= 1,
                !wrapped ==> self.next_connection_id >= start,
                wrapped ==> self.next_connection_id < start,
                forall|x: u64| #[trigger]
                    in_cyclic_run(x, start, self.next_connection_id)
                        ==> v0.connections.contains_key(x),
            decreases
                if !wrapped {
                    (u64::MAX - self.next_connection_id) + start
                } else {
                    start - self.next_connection_id
                },
        {
            let id = self.next_connection_id;
            let next = if id == u64::MAX {
                1
            } else {
                id + 1
            };
            self.next_connection_id = next;
            if !self.connections.contains_key(&id) {
                assert(forall|x: u64| #[trigger]
                    in_cyclic_run(x, start, id) ==> v0.connections.contains_key(x));
                return id;
            }
            proof {
                assert(v0.connections.contains_key(id));
                assert forall|x: u64| #[trigger] in_cyclic_run(x, start, next) implies v0.connections.contains_key(
                    x,
                ) by {
                    if x != id {
                        assert(in_cyclic_run(x, start, id));
                    }
                }
                if next == start {
                    assert forall|x: u64| 1 <= x implies v0.connections.dom().contains(x) by {
                        if x != id {
                            assert(in_cyclic_run(x, start, id));
                        }
                    }
                    lemma_every_id_taken(v0.connections.dom());
                    assert(false);
                }
                if id == u64::MAX {
                    wrapped = true;
                }
            }
        }
    }
}

} // verus!

verus! {

impl HubState {
    /// Reserves a connection for `user_id`: refused while shutting down, when
    /// the hub holds `max_connections` registrations (or a table that
    /// already uses every possible connection ID), and when the user holds
    /// `max_connections_per_user`; otherwise a fresh ID joins the table with
    /// no subscriptions and both counts go up by one.
    pub fn reserve(&mut self, user_id: UserId, session: SessionFingerprint, expires_at: SystemTime) -> (r:
        Result<ConnectionRegistration, CapacityError>)
        requires
            old(self).wf(),
            0 < old(self)@.settings.outbound_queue_capacity <= MAX_QUEUE_CAPACITY,
        ensures
            final(self).wf(),
            old(self)@.shutting_down ==> r == Err::<ConnectionRegistration, CapacityError>(
                CapacityError::ShuttingDown,
            ),
            !old(self)@.shutting_down && (old(self)@.registrations
                >= old(self)@.settings.max_connections || old(self)@.connections.len()
                == usize::MAX) ==> r == Err::<ConnectionRegistration, CapacityError>(
                CapacityError::GlobalLimit,
            ),
            !old(self)@.shutting_down && old(self)@.registrations
                < old(self)@.settings.max_connections && old(self)@.connections.len() < usize::MAX
                && held_by(old(self)@, user_id@) >= old(self)@.settings.max_connections_per_user
                ==> r == Err::<ConnectionRegistration, CapacityError>(CapacityError::UserLimit),
            !old(self)@.shutting_down && old(self)@.registrations
                < old(self)@.settings.max_connections && old(self)@.connections.len() < usize::MAX
                && held_by(old(self)@, user_id@) < old(self)@.settings.max_connections_per_user
                ==> r is Ok,
            r is Err ==> final(self)@ == old(self)@,
            r is Ok ==> final(self)@.registrations <= final(self)@.settings.max_connections
                && held_by(final(self)@, user_id@) <= final(self)@.settings.max_connections_per_user,
            r matches Ok(reg) ==> {
                let c = reg@.connection_id;
                &&& c >= 1
                &&& !old(self)@.connections.contains_key(c)
                &&& forall|x: u64| #[trigger]
                    in_cyclic_run(x, old(self)@.next_connection_id, c)
                        ==> old(self)@.connections.contains_key(x)
                &&& final(self)@ == with_new_connection(old(self)@, c, user_id@, session@)
                &&& reg@.user_id == user_id@
                &&& reg@.session == session@
                &&& reg@.expires_at == expires_at
                &&& reg@.has_channels
            },
    {
        if self.shutting_down {
            return Err(CapacityError::ShuttingDown);
        }
        proof {
            assert(self.connections@.dom() =~= self@.connections.dom());
        }
        if self.registrations >= self.settings.max_connections || self.connections.len() == usize::MAX {
            return Err(CapacityError::GlobalLimit);
        }
        let u = user_id.get();
        let held: usize = match self.user_registrations.get(&u) {
            Some(n) => *n,
            None => 0,
        };
        if held >= self.settings.max_connections_per_user {
            return Err(CapacityError::UserLimit);
        }
        let ghost v0 = self@;
        let c = self.allocate_connection_id();
        let ghost v1 = self@;
        let (outbound_tx, outbound_rx) = outbound_queue(self.settings.outbound_queue_capacity);
        let (close_tx, close_rx) = close_signal();
        let entry = ConnectionEntry {
            user_id,
            session,
            outbound: outbound_tx,
            close: close_tx,
            subscriptions: HashSet::new(),
        };
        assert(entry@.subscriptions =~= Set::<i64>::empty());
        self.connections.insert(c, entry);
        add_to_index(&mut self.users, u, c);
        self.user_registrations.insert(u, held + 1);
        self.registrations = self.registrations + 1;
        proof {
            let w = with_new_connection(v0, c, u, session@);
            assert(table_view(self.connections@) =~= w.connections);
            assert(self@ =~= w);
            assert(w.wf()) by {
                assert forall|c2: u64| #[trigger] w.connections.contains_key(c2) implies w.users.contains_key(
                    w.connections[c2].user_id,
                ) && w.users[w.connections[c2].user_id].contains(c2) by {
                    if c2 != c {
                        assert(v0.users[v0.connections[c2].user_id].contains(c2));
                    }
                }
                assert forall|u2: i64, c2: u64| w.users.contains_key(u2) && #[trigger] w.users[u2].contains(
                    c2,
                ) implies w.connections.contains_key(c2) && w.connections[c2].user_id == u2 by {
                    if c2 != c {
                        assert(v0.users[u2].contains(c2));
                    }
                }
                assert forall|k: i64, c2: u64| w.subscriptions.contains_key(k) && #[trigger] w.subscriptions[k].contains(
                    c2,
                ) implies w.connections.contains_key(c2) && w.connections[c2].subscriptions.contains(
                    k,
                ) by {
                    assert(v0.connections.contains_key(c2));
                }
                assert forall|u2: i64| #[trigger] w.users.contains_key(u2) implies !w.users[u2].is_empty() by {
                    if u2 == u {
                        assert(w.users[u2].contains(c));
                    }
                }
            }
        }
        Ok(
            ConnectionRegistration {
                connection_id: ConnectionId { value: c },
                user_id,
                session,
                expires_at,
                outbound: Some(outbound_rx),
                close: Some(close_rx),
            },
        )
    }

    /// Subscribes connection `connection_id` to `conversation_id`, unless the
    /// connection is gone, already subscribed, or at its subscription limit.
    pub fn subscribe(&mut self, connection_id: ConnectionId, conversation_id: ConversationId) -> (r:
        SubscribeResult)
        requires
            old(self).wf(),
        ensures
            final(self).wf(),
            ({
                let v = old(self)@;
                let c = connection_id@;
                let k = conversation_id@;
                if !v.connections.contains_key(c) {
                    r == SubscribeResult::ConnectionClosed && final(self)@ == v
                } else if v.connections[c].subscriptions.contains(k) {
                    r == SubscribeResult::AlreadySubscribed && final(self)@ == v
                } else if v.connections[c].subscriptions.len()
                    >= v.settings.max_subscriptions_per_connection {
                    r == SubscribeResult::LimitReached && final(self)@ == v
                } else {
                    r == SubscribeResult::Added && final(self)@ == with_subscription(v, c, k)
                }
            }),
    {
        let ghost v0 = self@;
        let c = connection_id.get();
        let k = conversation_id.get();
        match self.connections.remove(&c) {
            None => {
                assert(table_view(self.connections@) =~= v0.connections);
                SubscribeResult::ConnectionClosed
            },
            Some(mut entry) => {
                assert(entry@ == v0.connections[c]);
                let result = if entry.subscriptions.contains(&k) {
                    SubscribeResult::AlreadySubscribed
                } else if entry.subscriptions.len() >= self.settings.max_subscriptions_per_connection {
                    SubscribeResult::LimitReached
                } else {
                    entry.subscriptions.insert(k);
                    SubscribeResult::Added
                };
                self.connections.insert(c, entry);
                if result == SubscribeResult::Added {
                    add_to_index(&mut self.subscriptions, k, c);
                    proof {
                        let w = with_subscription(v0, c, k);
                        assert(table_view(self.connections@) =~= w.connections);
                        assert(self@ =~= w);
                        assert(w.wf()) by {
                            assert forall|c2: u64, k2: i64| w.connections.contains_key(c2)
                                && #[trigger] w.connections[c2].subscriptions.contains(
                                k2,
                            ) implies w.subscriptions.contains_key(k2) && w.subscriptions[k2].contains(
                                c2,
                            ) by {
                                if c2 != c || k2 != k {
                                    assert(v0.subscriptions[k2].contains(c2));
                                }
                            }
                            assert forall|k2: i64, c2: u64| w.subscriptions.contains_key(k2)
                                && #[trigger] w.subscriptions[k2].contains(
                                c2,
                            ) implies w.connections.contains_key(c2)
                                && w.connections[c2].subscriptions.contains(k2) by {
                                if c2 != c || k2 != k {
                                    assert(v0.subscriptions[k2].contains(c2));
                                }
                            }
                            assert forall|k2: i64| #[trigger] w.subscriptions.contains_key(
                                k2,
                            ) implies !w.subscriptions[k2].is_empty() by {
                                if k2 == k {
                                    assert(w.subscriptions[k2].contains(c));
                                }
                            }
                            assert forall|c2: u64| #[trigger] w.connections.contains_key(
                                c2,
                            ) implies w.connections[c2].subscriptions.len()
                                <= w.settings.max_subscriptions_per_connection by {
                                if c2 == c {
                                    assert(v0.connections[c].subscriptions.finite());
                                }
                            }
                        }
                    }
                } else {
                    assert(table_view(self.connections@) =~= v0.connections);
                    assert(self@ =~= v0);
                }
                result
            },
        }
    }

    /// Drops the subscription of connection `connection_id` to
    /// `conversation_id`, if it has one; returns whether the connection is
    /// still registered.
    pub fn unsubscribe(&mut self, connection_id: ConnectionId, conversation_id: ConversationId) -> (r:
        bool)
        requires
            old(self).wf(),
        ensures
            final(self).wf(),
            r == old(self)@.connections.contains_key(connection_id@),
            final(self)@ == without_subscription(old(self)@, connection_id@, conversation_id@),
    {
        let ghost v0 = self@;
        let c = connection_id.get();
        let k = conversation_id.get();
        match self.connections.remove(&c) {
            None => {
                assert(table_view(self.connections@) =~= v0.connections);
                false
            },
            Some(mut entry) => {
                assert(entry@ == v0.connections[c]);
                let removed = entry.subscriptions.remove(&k);
                assert(removed || entry.subscriptions@ =~= v0.connections[c].subscriptions);
                self.connections.insert(c, entry);
                if removed {
                    remove_from_index(&mut self.subscriptions, k, c);
                    proof {
                        let w = without_subscription(v0, c, k);
                        assert(table_view(self.connections@) =~= w.connections);
                        assert(self@ =~= w);
                        assert(w.wf()) by {
                            assert forall|c2: u64, k2: i64| w.connections.contains_key(c2)
                                && #[trigger] w.connections[c2].subscriptions.contains(
                                k2,
                            ) implies w.subscriptions.contains_key(k2) && w.subscriptions[k2].contains(
                                c2,
                            ) by {
                                assert(v0.subscriptions[k2].contains(c2));
                                if k2 == k {
                                    assert(v0.subscriptions[k2].remove(c).contains(c2));
                                }
                            }
                            assert forall|k2: i64, c2: u64| w.subscriptions.contains_key(k2)
                                && #[trigger] w.subscriptions[k2].contains(
                                c2,
                            ) implies w.connections.contains_key(c2)
                                && w.connections[c2].subscriptions.contains(k2) by {
                                assert(v0.subscriptions[k2].contains(c2));
                            }
                            assert forall|c2: u64| #[trigger] w.connections.contains_key(
                                c2,
                            ) implies w.connections[c2].subscriptions.len()
                                <= w.settings.max_subscriptions_per_connection by {
                                if c2 == c {
                                    assert(v0.connections[c].subscriptions.finite());
                                }
                            }
                        }
                    }
                } else {
                    assert(table_view(self.connections@) =~= v0.connections);
                    assert(self@ =~= v0);
                }
                true
            },
        }
    }
}

} // verus!

verus! {

/// The connections of `connections` that the outcomes report as full and
/// never as closed: those told to close as slow consumers.
pub open spec fn slow_consumers(outcomes: Seq<(u64, Delivery)>, connections: Map<u64, ConnectionView>) -> Set<u64> {
    Set::new(
        |c: u64|
            reported(outcomes, outcomes.len() as int, Delivery::Full).contains(c)
                && connections.contains_key(c) && !reported(
                outcomes,
                outcomes.len() as int,
                Delivery::Closed,
            ).contains(c),
    )
}

/// The IDs that the first `n` outcomes report with `d`.
pub open spec fn reported(outcomes: Seq<(u64, Delivery)>, n: int, d: Delivery) -> Set<u64> {
    Set::new(|c: u64| exists|j: int| 0 <= j < n && outcomes[j].0 == c && outcomes[j].1 == d)
}

/// The registry after the user's registration for connection `c` is
/// released: the connection leaves the table, the user's count drops by one
/// (and disappears at zero), and the hub's count drops by one, wrapping as
/// an atomic counter does.
pub open spec fn after_release(v: HubView, c: u64, user_id: i64) -> HubView {
    HubView {
        user_registrations: if v.user_registrations.contains_key(user_id) {
            if v.user_registrations[user_id] == 1 {
                v.user_registrations.remove(user_id)
            } else {
                v.user_registrations.insert(user_id, (v.user_registrations[user_id] - 1) as usize)
            }
        } else {
            v.user_registrations
        },
        registrations: if v.registrations == 0 {
            usize::MAX
        } else {
            (v.registrations - 1) as usize
        },
        ..without_connection(v, c)
    }
}

/// What holds after messages were offered to the connections in `targets`,
/// whatever each queue answered: some targets may have left the table,
/// every other connection stays as it was.
pub open spec fn delivered_to(w: HubView, v: HubView, targets: Set<u64>) -> bool {
    &&& w.connections.dom().subset_of(v.connections.dom())
    &&& forall|c: u64| #[trigger] w.connections.contains_key(c) ==> w.connections[c] == v.connections[c]
    &&& forall|c: u64| #[trigger]
        v.connections.contains_key(c) && !targets.contains(c) ==> w.connections.contains_key(c)
    &&& same_counters(w, v)
}

impl HubState {
    /// Tells each connection in `ids` that is registered to close with
    /// `directive`, in the order of `ids`, and drops it. The `signalled`
    /// record is ghost state written next to each call of `signal_close`; it
    /// records the signals this code sends, not what the connection's task
    /// does with them.
    fn close_connections(&mut self, ids: &Vec<u64>, directive: CloseDirective)
        requires
            old(self).wf(),
            ids@.no_duplicates(),
        ensures
            final(self).wf(),
            final(self)@.connections == old(self)@.connections.remove_keys(ids@.to_set()),
            same_counters(final(self)@, old(self)@),
            final(self).signalled() == old(self).signalled() + closes_to(
                ids@.filter(|c: u64| old(self)@.connections.contains_key(c)),
                directive,
            ),
    {
        let ghost v0 = self@;
        let ghost log0 = self.signalled@;
        let ghost registered = |c: u64| v0.connections.contains_key(c);
        let mut i: usize = 0;
        assert(v0.connections.remove_keys(ids@.take(0).to_set()) =~= v0.connections);
        assert(ids@.take(0).filter(registered) =~= Seq::<u64>::empty()) by {
            reveal(Seq::filter);
        }
        assert(closes_to(Seq::<u64>::empty(), directive) =~= Seq::<(u64, CloseDirective)>::empty());
        while i < ids.len()
            invariant
                i <= ids@.len(),
                ids@.no_duplicates(),
                self.wf(),
                self@.connections == v0.connections.remove_keys(ids@.take(i as int).to_set()),
                same_counters(self@, v0),
                registered == (|c: u64| v0.connections.contains_key(c)),
                self.signalled@ == log0 + closes_to(ids@.take(i as int).filter(registered), directive),
            decreases ids.len() - i,
        {
            let c = ids[i];
            proof {
                crate::store_reads::lemma_filter_take_step(ids@, i as int, registered);
                assert(!ids@.take(i as int).to_set().contains(c)) by {
                    if ids@.take(i as int).to_set().contains(c) {
                        assert(ids@.take(i as int).contains(c));
                        let j = choose|j: int| 0 <= j < i && ids@.take(i as int)[j] == c;
                        assert(ids@[j] == ids@[i as int]);
                    }
                }
                assert(table_view(self.connections@).contains_key(c) == self.connections@.contains_key(c));
            }
            let ghost sent = ids@.take(i as int).filter(registered);
            match self.connections.get(&c) {
                Some(entry) => {
                    signal_close(&entry.close, directive);
                    proof {
                        self.signalled@ = self.signalled@.push((c, directive));
                        assert(closes_to(sent.push(c), directive) =~= closes_to(sent, directive).push(
                            (c, directive),
                        ));
                    }
                },
                None => {},
            }
            let ghost before = self@;
            self.remove_connection(c);
            proof {
                lemma_without_connection_wf(before, c);
                assert(ids@.take(i + 1) =~= ids@.take(i as int).push(c));
                broadcast use vstd::seq_lib::group_seq_properties;

                assert(ids@.take(i + 1).to_set() =~= ids@.take(i as int).to_set().insert(c));
                assert(self@.connections =~= v0.connections.remove_keys(
                    ids@.take(i + 1).to_set(),
                ));
            }
            i = i + 1;
        }
        assert(ids@.take(ids@.len() as int) =~= ids@);
    }

    /// Closes every connection opened with `session`: each is told to close
    /// with `directive` and dropped.
    pub fn close_session(&mut self, session: &SessionFingerprint, directive: CloseDirective)
        requires
            old(self).wf(),
        ensures
            final(self).wf(),
            final(self)@.connections == old(self)@.connections.remove_keys(
                connections_of_session(old(self)@.connections, session@),
            ),
            same_counters(final(self)@, old(self)@),
            signalled_once_to_each(
                final(self).signalled(),
                old(self).signalled(),
                connections_of_session(old(self)@.connections, session@),
                directive,
            ),
    {
        let ghost v0 = self@;
        let all = table_ids(&self.connections);
        let mut matching: Vec<u64> = Vec::new();
        let mut i: usize = 0;
        while i < all.len()
            invariant
                i <= all@.len(),
                self@ == v0,
                all@.to_set() == self.connections@.dom(),
                all@.no_duplicates(),
                matching@.no_duplicates(),
                forall|c: u64| #[trigger]
                    matching@.contains(c) <==> all@.take(i as int).contains(c)
                        && v0.connections[c].session == session@,
            decreases all.len() - i,
        {
            let c = all[i];
            assert(all@.to_set().contains(c));
            match self.connections.get(&c) {
                Some(entry) => {
                    assert(v0.connections[c] == entry@);
                    if entry.session.same_as(session) {
                        proof {
                            assert(!matching@.contains(c)) by {
                                if matching@.contains(c) {
                                    assert(all@.take(i as int).contains(c));
                                    let j = choose|j: int| 0 <= j < i && all@.take(i as int)[j] == c;
                                    assert(all@[j] == all@[i as int]);
                                }
                            }
                        }
                        matching.push(c);
                    }
                },
                None => {},
            }
            proof {
                broadcast use vstd::seq_lib::group_seq_properties;

                assert(all@.take(i + 1) =~= all@.take(i as int).push(c));
            }
            i = i + 1;
        }
        proof {
            assert(all@.take(all@.len() as int) =~= all@);
            assert(matching@.to_set() =~= connections_of_session(v0.connections, session@)) by {
                assert forall|c: u64| #[trigger]
                    matching@.to_set().contains(c) <==> connections_of_session(
                        v0.connections,
                        session@,
                    ).contains(c) by {
                    if connections_of_session(v0.connections, session@).contains(c) {
                        assert(self.connections@.dom().contains(c));
                        assert(all@.to_set().contains(c));
                    }
                }
            }
        }
        let ghost log0 = self.signalled@;
        let ghost registered = |c: u64| v0.connections.contains_key(c);
        proof {
            assert forall|j: int| 0 <= j < matching@.len() implies registered(#[trigger] matching@[j]) by {
                assert(matching@.to_set().contains(matching@[j]));
            }
            lemma_filter_keeps_all(matching@, registered);
        }
        let ghost order = matching@;
        self.close_connections(&matching, directive);
        assert(self.signalled() == log0 + closes_to(order, directive));
    }

    /// Starts shutting down: new reservations are refused and every open
    /// connection is told the server is shutting down and dropped.
    pub fn shutdown(&mut self)
        requires
            old(self).wf(),
        ensures
            final(self).wf(),
            final(self)@.shutting_down,
            final(self)@.connections == Map::<u64, ConnectionView>::empty(),
            final(self)@.settings == old(self)@.settings,
            final(self)@.next_connection_id == old(self)@.next_connection_id,
            final(self)@.user_registrations == old(self)@.user_registrations,
            final(self)@.registrations == old(self)@.registrations,
            signalled_once_to_each(
                final(self).signalled(),
                old(self).signalled(),
                old(self)@.connections.dom(),
                CloseDirective::server_shutdown_spec(),
            ),
    {
        let ghost v0 = self@;
        self.shutting_down = true;
        assert(self@ =~= (HubView { shutting_down: true, ..v0 }));
        let ids = table_ids(&self.connections);
        let ghost log0 = self.signalled@;
        let ghost registered = |c: u64| v0.connections.contains_key(c);
        proof {
            assert(self.connections@.dom() =~= v0.connections.dom());
            assert forall|j: int| 0 <= j < ids@.len() implies registered(#[trigger] ids@[j]) by {
                assert(ids@.to_set().contains(ids@[j]));
            }
            lemma_filter_keeps_all(ids@, registered);
        }
        let directive = CloseDirective::server_shutdown();
        self.close_connections(&ids, directive);
        assert(self@.connections =~= Map::<u64, ConnectionView>::empty());
        assert(self.signalled() == log0 + closes_to(ids@, directive));
    }

    /// Acts on what the outbound queues answered: a connection whose reader
    /// is gone is dropped; one whose queue is full is told to close as a slow
    /// consumer and dropped.
    pub fn apply_deliveries(&mut self, outcomes: &Vec<(u64, Delivery)>)
        requires
            old(self).wf(),
        ensures
            final(self).wf(),
            final(self)@.connections == old(self)@.connections.remove_keys(
                failed_deliveries(outcomes@),
            ),
            same_counters(final(self)@, old(self)@),
            final(self).offered() == old(self).offered(),
            signalled_once_to_each(
                final(self).signalled(),
                old(self).signalled(),
                slow_consumers(outcomes@, old(self)@.connections),
                CloseDirective::slow_consumer_spec(),
            ),
    {
        let ghost v0 = self@;
        let mut i: usize = 0;
        assert(v0.connections.remove_keys(reported(outcomes@, 0, Delivery::Closed)) =~= v0.connections);
        while i < outcomes.len()
            invariant
                i <= outcomes@.len(),
                self.wf(),
                self@.connections == v0.connections.remove_keys(
                    reported(outcomes@, i as int, Delivery::Closed),
                ),
                same_counters(self@, v0),
                self.offered() == old(self).offered(),
                self.signalled() == old(self).signalled(),
            decreases outcomes.len() - i,
        {
            let (c, d) = outcomes[i];
            let ghost before = self@;
            if d == Delivery::Closed {
                self.remove_connection(c);
                proof {
                    lemma_without_connection_wf(before, c);
                }
            }
            proof {
                assert(self@.connections =~= v0.connections.remove_keys(
                    reported(outcomes@, i + 1, Delivery::Closed),
                )) by {
                    assert forall|x: u64| #[trigger]
                        reported(outcomes@, i + 1, Delivery::Closed).contains(x)
                            <==> reported(outcomes@, i as int, Delivery::Closed).contains(x) || (
                        x == c && d == Delivery::Closed) by {
                        if reported(outcomes@, i + 1, Delivery::Closed).contains(x) {
                            let j = choose|j: int|
                                0 <= j < i + 1 && outcomes@[j].0 == x && outcomes@[j].1
                                    == Delivery::Closed;
                            if j < i {
                                assert(reported(outcomes@, i as int, Delivery::Closed).contains(x));
                            }
                        }
                        if x == c && d == Delivery::Closed {
                            assert(outcomes@[i as int].0 == x);
                        }
                    }
                }
            }
            i = i + 1;
        }
        let ghost v1 = self@;
        let ghost log0 = self.signalled@;
        let ghost mut order: Seq<u64> = Seq::empty();
        let mut i: usize = 0;
        assert(v1.connections.remove_keys(reported(outcomes@, 0, Delivery::Full)) =~= v1.connections);
        assert(order.to_set() =~= Set::new(
            |x: u64| reported(outcomes@, 0, Delivery::Full).contains(x) && v1.connections.contains_key(x),
        ));
        assert(closes_to(order, CloseDirective::slow_consumer_spec()) =~= Seq::<(u64, CloseDirective)>::empty());
        while i < outcomes.len()
            invariant
                i <= outcomes@.len(),
                self.wf(),
                self@.connections == v1.connections.remove_keys(
                    reported(outcomes@, i as int, Delivery::Full),
                ),
                same_counters(self@, v1),
                self.offered() == old(self).offered(),
                order.no_duplicates(),
                order.to_set() == Set::new(
                    |x: u64| reported(outcomes@, i as int, Delivery::Full).contains(x)
                        && v1.connections.contains_key(x),
                ),
                self.signalled@ == log0 + closes_to(order, CloseDirective::slow_consumer_spec()),
            decreases outcomes.len() - i,
        {
            let (c, d) = outcomes[i];
            let ghost before = self@;
            let ghost order_before = order;
            proof {
                assert(outcomes@[i as int] == (c, d));
                assert(table_view(self.connections@).contains_key(c) == self.connections@.contains_key(c));
                broadcast use vstd::seq_lib::group_seq_properties;
            }
            if d == Delivery::Full {
                match self.connections.get(&c) {
                    Some(entry) => {
                        let directive = CloseDirective::slow_consumer();
                        signal_close(&entry.close, directive);
                        proof {
                            assert(!order.contains(c)) by {
                                if order.contains(c) {
                                    assert(order.to_set().contains(c));
                                }
                            }
                            self.signalled@ = self.signalled@.push((c, directive));
                            assert(closes_to(order.push(c), directive) =~= closes_to(order, directive).push(
                                (c, directive),
                            ));
                            order = order.push(c);
                        }
                    },
                    None => {},
                }
                self.remove_connection(c);
                proof {
                    lemma_without_connection_wf(before, c);
                }
            }
            proof {
                assert(self@.connections =~= v1.connections.remove_keys(
                    reported(outcomes@, i + 1, Delivery::Full),
                )) by {
                    assert forall|x: u64| #[trigger]
                        reported(outcomes@, i + 1, Delivery::Full).contains(x)
                            <==> reported(outcomes@, i as int, Delivery::Full).contains(x) || (x
                            == c && d == Delivery::Full) by {
                        if reported(outcomes@, i + 1, Delivery::Full).contains(x) {
                            let j = choose|j: int|
                                0 <= j < i + 1 && outcomes@[j].0 == x && outcomes@[j].1
                                    == Delivery::Full;
                            if j < i {
                                assert(reported(outcomes@, i as int, Delivery::Full).contains(x));
                            }
                        }
                        if x == c && d == Delivery::Full {
                            assert(outcomes@[i as int].0 == x);
                        }
                    }
                }
            }
            proof {
                assert(order.to_set() =~= Set::new(
                    |x: u64| reported(outcomes@, i + 1, Delivery::Full).contains(x)
                        && v1.connections.contains_key(x),
                )) by {
                    assert forall|x: u64| #[trigger] reported(outcomes@, i + 1, Delivery::Full).contains(x)
                        <==> reported(outcomes@, i as int, Delivery::Full).contains(x) || (x == c && d
                        == Delivery::Full) by {
                        if reported(outcomes@, i + 1, Delivery::Full).contains(x) {
                            let j = choose|j: int|
                                0 <= j < i + 1 && outcomes@[j].0 == x && outcomes@[j].1
                                    == Delivery::Full;
                            if j < i {
                                assert(reported(outcomes@, i as int, Delivery::Full).contains(x));
                            }
                        }
                    }
                    let was_there = before.connections.contains_key(c);
                    assert(order == if d == Delivery::Full && was_there {
                        order_before.push(c)
                    } else {
                        order_before
                    });
                    assert forall|x: u64| #[trigger] order.to_set().contains(x) <==> (reported(
                        outcomes@,
                        i + 1,
                        Delivery::Full,
                    ).contains(x) && v1.connections.contains_key(x)) by {
                        assert(order_before.to_set().contains(x) <==> (reported(
                            outcomes@,
                            i as int,
                            Delivery::Full,
                        ).contains(x) && v1.connections.contains_key(x)));
                        if d == Delivery::Full && was_there {
                            assert(order_before.push(c).to_set() =~= order_before.to_set().insert(c));
                        }
                    }
                }
            }
            i = i + 1;
        }
        proof {
            let n = outcomes@.len() as int;
            assert(order.to_set() =~= slow_consumers(outcomes@, v0.connections));
            assert forall|x: u64| #[trigger] failed_deliveries(outcomes@).contains(x) <==> (
            reported(outcomes@, n, Delivery::Closed).contains(x) || reported(
                outcomes@,
                n,
                Delivery::Full,
            ).contains(x)) by {
                if failed_deliveries(outcomes@).contains(x) {
                    let j = choose|j: int|
                        0 <= j < n && outcomes@[j].0 == x && outcomes@[j].1 != Delivery::Queued;
                    if outcomes@[j].1 == Delivery::Closed {
                        assert(reported(outcomes@, n, Delivery::Closed).contains(x));
                    } else {
                        assert(reported(outcomes@, n, Delivery::Full).contains(x));
                    }
                }
            }
            assert(self@.connections =~= v0.connections.remove_keys(failed_deliveries(outcomes@)));
        }
    }
}

} // verus!

verus! {

/// Filtering keeps a sequence whole when every item passes.
proof fn lemma_filter_keeps_all<T>(s: Seq<T>, pred: spec_fn(T) -> bool)
    requires
        forall|j: int| 0 <= j < s.len() ==> pred(#[trigger] s[j]),
    ensures
        s.filter(pred) == s,
    decreases s.len(),
{
    reveal(Seq::filter);
    if s.len() > 0 {
        lemma_filter_keeps_all(s.drop_last(), pred);
        assert(s.drop_last().push(s.last()) =~= s);
    }
}

/// What publishing `message` to `targets` offers: the message goes once to
/// each target, in some order.
pub open spec fn offered_once_to_each(
    after: Seq<(u64, Arc<str>)>,
    before: Seq<(u64, Arc<str>)>,
    targets: Set<u64>,
    message: Arc<str>,
) -> bool {
    exists|order: Seq<u64>|
        #![trigger offers_to(order, message)]
        order.no_duplicates() && order.to_set() == targets && after == before + offers_to(
            order,
            message,
        )
}

impl HubState {
    /// Offers `message` to the outbound queue of each connection in `ids`
    /// that is still registered, in the order of `ids`, then acts on the
    /// answers.
    ///
    /// The `offered` record is ghost state that this loop writes next to
    /// each call of `offer`. It records the offers this code makes, not what
    /// the queues hold: whether a message reaches the connection's task
    /// depends on that task.
    fn deliver(&mut self, ids: &Vec<u64>, message: Arc<str>)
        requires
            old(self).wf(),
        ensures
            final(self).wf(),
            delivered_to(final(self)@, old(self)@, ids@.to_set()),
            final(self).offered() == old(self).offered() + offers_to(
                ids@.filter(|c: u64| old(self)@.connections.contains_key(c)),
                message,
            ),
    {
        let ghost v0 = self@;
        let ghost log0 = self.offered@;
        let ghost registered = |c: u64| v0.connections.contains_key(c);
        let mut outcomes: Vec<(u64, Delivery)> = Vec::new();
        let mut i: usize = 0;
        while i < ids.len()
            invariant
                i <= ids@.len(),
                self@ == v0,
                registered == (|c: u64| v0.connections.contains_key(c)),
                self.offered@ == log0 + offers_to(ids@.take(i as int).filter(registered), message),
                forall|j: int| 0 <= j < outcomes@.len() ==> #[trigger] ids@.contains(outcomes@[j].0),
            decreases ids.len() - i,
        {
            let c = ids[i];
            proof {
                crate::store_reads::lemma_filter_take_step(ids@, i as int, registered);
                assert(self.connections@.contains_key(c) == v0.connections.contains_key(c));
            }
            let ghost sent = ids@.take(i as int).filter(registered);
            match self.connections.get(&c) {
                Some(entry) => {
                    let d = offer(&entry.outbound, message.clone());
                    proof {
                        self.offered@ = self.offered@.push((c, message));
                        assert(offers_to(sent.push(c), message) =~= offers_to(sent, message).push(
                            (c, message),
                        ));
                    }
                    outcomes.push((c, d));
                    assert(ids@[i as int] == c);
                },
                None => {},
            }
            i = i + 1;
        }
        assert(ids@.take(ids@.len() as int) =~= ids@);
        self.apply_deliveries(&outcomes);
        proof {
            assert forall|c: u64| #[trigger] failed_deliveries(outcomes@).contains(c) implies ids@.to_set().contains(c) by {
                let j = choose|j: int|
                    0 <= j < outcomes@.len() && outcomes@[j].0 == c && outcomes@[j].1
                        != Delivery::Queued;
                assert(ids@.contains(outcomes@[j].0));
            }
        }
    }

    /// Sends `message` to every connection of `user_id`. Connections whose
    /// reader is gone or whose queue is full are dropped, the latter after
    /// being told to close as slow consumers.
    pub fn publish_to_user(&mut self, user_id: UserId, message: Arc<str>)
        requires
            old(self).wf(),
        ensures
            final(self).wf(),
            delivered_to(
                final(self)@,
                old(self)@,
                connections_of_user(old(self)@.connections, user_id@),
            ),
            offered_once_to_each(
                final(self).offered(),
                old(self).offered(),
                connections_of_user(old(self)@.connections, user_id@),
                message,
            ),
    {
        let ghost v0 = self@;
        proof {
            lemma_indexes_follow_connections(v0);
        }
        let u = user_id.get();
        let targets = match self.users.get(&u) {
            Some(ids) => {
                assert(v0.users.contains_key(u) && v0.users[u] == ids@);
                set_items(ids)
            },
            None => {
                assert(!v0.users.contains_key(u));
                assert(connections_of_user(v0.connections, u) =~= Set::<u64>::empty());
                Vec::new()
            },
        };
        assert(targets@.to_set() =~= connections_of_user(v0.connections, u));
        let ghost registered = |c: u64| v0.connections.contains_key(c);
        proof {
            assert forall|j: int| 0 <= j < targets@.len() implies registered(#[trigger] targets@[j]) by {
                assert(targets@.to_set().contains(targets@[j]));
            }
            lemma_filter_keeps_all(targets@, registered);
        }
        let ghost log0 = self.offered@;
        self.deliver(&targets, message);
        assert(self.offered() == log0 + offers_to(targets@, message));
    }

    /// Sends `message` to every connection subscribed to `conversation_id`,
    /// with the same handling of failed deliveries.
    pub fn publish_to_conversation(&mut self, conversation_id: ConversationId, message: Arc<str>)
        requires
            old(self).wf(),
        ensures
            final(self).wf(),
            delivered_to(
                final(self)@,
                old(self)@,
                subscribers_of(old(self)@.connections, conversation_id@),
            ),
            offered_once_to_each(
                final(self).offered(),
                old(self).offered(),
                subscribers_of(old(self)@.connections, conversation_id@),
                message,
            ),
    {
        let ghost v0 = self@;
        proof {
            lemma_indexes_follow_connections(v0);
        }
        let k = conversation_id.get();
        let targets = match self.subscriptions.get(&k) {
            Some(ids) => {
                assert(v0.subscriptions.contains_key(k) && v0.subscriptions[k] == ids@);
                set_items(ids)
            },
            None => {
                assert(!v0.subscriptions.contains_key(k));
                assert(subscribers_of(v0.connections, k) =~= Set::<u64>::empty());
                Vec::new()
            },
        };
        assert(targets@.to_set() =~= subscribers_of(v0.connections, k));
        let ghost registered = |c: u64| v0.connections.contains_key(c);
        proof {
            assert forall|j: int| 0 <= j < targets@.len() implies registered(#[trigger] targets@[j]) by {
                assert(targets@.to_set().contains(targets@[j]));
            }
            lemma_filter_keeps_all(targets@, registered);
        }
        let ghost log0 = self.offered@;
        self.deliver(&targets, message);
        assert(self.offered() == log0 + offers_to(targets@, message));
    }

    /// Releases the registration of connection `connection_id`, held by
    /// `user_id`: the connection leaves the table and both counts drop by
    /// one. Returns whether that was the last registration, so that a
    /// shutdown waiting for the hub to drain can proceed.
    pub fn release_registration(&mut self, connection_id: ConnectionId, user_id: UserId) -> (r: bool)
        requires
            old(self).wf(),
        ensures
            final(self).wf(),
            final(self)@ == after_release(old(self)@, connection_id@, user_id@),
            r == (old(self)@.registrations == 1),
    {
        let ghost v0 = self@;
        let c = connection_id.get();
        let u = user_id.get();
        proof {
            lemma_without_connection_wf(v0, c);
        }
        self.remove_connection(c);
        match self.user_registrations.remove(&u) {
            Some(n) => {
                if n > 1 {
                    self.user_registrations.insert(u, n - 1);
                }
            },
            None => {},
        }
        let before = self.registrations;
        self.registrations = if before == 0 {
            usize::MAX
        } else {
            before - 1
        };
        assert(self@ =~= after_release(v0, c, u));
        before == 1
    }
}

} // verus!
