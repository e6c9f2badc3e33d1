//! The message bus: the registry of event types and the broadcast channel
//! events are published on.
use vstd::prelude::*;

use crate::clock::{system_time_now, unix_seconds};
use crate::models::{Event, EventType};
use crate::response::ApiResponse;
use crate::text::{decimal, u64_to_decimal};

verus! {

/// A concurrent hash map.
#[verifier::external_type_specification]
#[verifier::external_body]
#[verifier::reject_recursive_types(K)]
#[verifier::reject_recursive_types(V)]
#[verifier::reject_recursive_types(S)]
pub struct ExDashMap<K, V, S>(dashmap::DashMap<K, V, S>);

/// The sending half of a broadcast channel.
#[verifier::external_type_specification]
#[verifier::external_body]
#[verifier::reject_recursive_types(T)]
pub struct ExBroadcastSender<T>(tokio::sync::broadcast::Sender<T>);

/// The event types a registry holds, by key.
pub uninterp spec fn registry_entries(m: dashmap::DashMap<String, EventType>) -> Map<
    Seq<char>,
    EventType,
>;

/// The contents of an empty registry.
pub open spec fn no_event_types() -> Map<Seq<char>, EventType> {
    Map::empty()
}

/// `values` holds each event type of `entries` once per key, in some order.
pub open spec fn lists_registry(values: Seq<EventType>, entries: Map<Seq<char>, EventType>) -> bool {
    exists|keys: Seq<Seq<char>>|
        #![trigger keys.to_set()]
        keys.no_duplicates() && keys.to_set() == entries.dom() && values == keys.map_values(
            |k: Seq<char>| entries[k],
        )
}

/// An empty registry: `DashMap::new`.
#[verifier::external_body]
fn registry_new() -> (r: dashmap::DashMap<String, EventType>)
    ensures
        registry_entries(r) == no_event_types(),
{
    dashmap::DashMap::new()
}

/// Stores `value` under `key`, replacing what was stored under it:
/// `DashMap::insert`.
#[verifier::external_body]
fn registry_insert(m: &mut dashmap::DashMap<String, EventType>, key: String, value: EventType)
    ensures
        registry_entries(*final(m)) == registry_entries(*old(m)).insert(key@, value),
{
    m.insert(key, value);
}

/// A copy of each stored event type, once per key, in the order the map is
/// walked (`DashMap::iter`, cloning each value); the order is not stated.
#[verifier::external_body]
fn registry_values(m: &dashmap::DashMap<String, EventType>) -> (r: Vec<EventType>)
    ensures
        lists_registry(r@, registry_entries(*m)),
{
    m.iter().map(|e| e.value().clone()).collect()
}

/// The number of stored event types: `DashMap::len`.
#[verifier::external_body]
fn registry_len(m: &dashmap::DashMap<String, EventType>) -> (count: usize)
    ensures
        count == registry_entries(*m).dom().len(),
{
    m.len()
}

/// The capacity a broadcast channel was made with.
pub uninterp spec fn broadcast_capacity(s: tokio::sync::broadcast::Sender<Event>) -> nat;

/// A broadcast channel of the given capacity, keeping its sending half:
/// `tokio::sync::broadcast::channel`, which panics on a capacity of 0 or
/// above `usize::MAX / 2`. The receiving half it returns is dropped. How many
/// receivers a sender has changes as subscribers come and go, so nothing is
/// stated of it.
#[verifier::external_body]
fn event_channel(capacity: usize) -> (r: tokio::sync::broadcast::Sender<Event>)
    requires
        0 < capacity <= usize::MAX / 2,
    ensures
        broadcast_capacity(r) == capacity,
{
    let (sender, _) = tokio::sync::broadcast::channel(capacity);
    sender
}

/// Sends a copy of `event` to every current subscriber (`Sender::send`) and
/// hands `event` back. The flag is true when some subscriber was there to
/// receive it; that depends on the subscribers, so nothing is claimed of it.
#[verifier::external_body]
fn event_send(sender: &tokio::sync::broadcast::Sender<Event>, event: Event) -> (r: (bool, Event))
    ensures
        r.1 == event,
{
    let delivered = sender.send(event.clone()).is_ok();
    (delivered, event)
}

/// The timestamp of an event: the Unix time in whole seconds, in decimal;
/// `0` when the clock could not be read as seconds since the epoch.
pub fn timestamp_text(secs: Option<u64>) -> (r: String)
    ensures
        r@ == decimal(
            match secs {
                Some(s) => s as nat,
                None => 0,
            },
        ),
{
    match secs {
        Some(s) => u64_to_decimal(s),
        None => u64_to_decimal(0),
    }
}

/// The current Unix time in whole seconds, in decimal; 0 when the clock reads
/// earlier than the epoch.
pub fn chrono_now() -> (r: String)
    ensures
        exists|secs: u64| r@ == #[trigger] decimal(secs as nat),
{
    let secs = unix_seconds(system_time_now()).ok();
    let r = timestamp_text(secs);
    assert(r@ == decimal(
        match secs {
            Some(s) => s as nat,
            None => 0,
        },
    ));
    r
}

/// The key an event type is registered under: its source, a colon and its name.
pub open spec fn event_type_key(source_id: Seq<char>, name: Seq<char>) -> Seq<char> {
    source_id + ":"@ + name
}

/// Law: the key of an event type is its whole source, a colon and its whole
/// name: the key's length is the sum of theirs plus one, it starts with the
/// source followed by a colon, and what follows is the name.
pub proof fn law_type_key_parts(source_id: Seq<char>, name: Seq<char>)
    ensures
        event_type_key(source_id, name).len() == source_id.len() + 1 + name.len(),
        event_type_key(source_id, name).take(source_id.len() as int) == source_id,
        event_type_key(source_id, name)[source_id.len() as int] == ':',
        event_type_key(source_id, name).skip(source_id.len() as int + 1) == name,
{
    reveal_strlit(":");
    let k = event_type_key(source_id, name);
    assert(k.take(source_id.len() as int) =~= source_id);
    assert(k.skip(source_id.len() as int + 1) =~= name);
}

/// Law: event types from one source with different names never share a key.
pub proof fn law_type_key_distinguishes_names(source_id: Seq<char>, n1: Seq<char>, n2: Seq<char>)
    requires
        n1 != n2,
    ensures
        event_type_key(source_id, n1) != event_type_key(source_id, n2),
{
    law_type_key_parts(source_id, n1);
    law_type_key_parts(source_id, n2);
}

/// Law: event types with the same name from different sources never share a
/// key.
pub proof fn law_type_key_distinguishes_sources(s1: Seq<char>, s2: Seq<char>, name: Seq<char>)
    requires
        s1 != s2,
    ensures
        event_type_key(s1, name) != event_type_key(s2, name),
{
    law_type_key_parts(s1, name);
    law_type_key_parts(s2, name);
    let k1 = event_type_key(s1, name);
    let k2 = event_type_key(s2, name);
    if k1 == k2 {
        assert(s1.len() == s2.len());
        assert(s1 =~= k1.take(s1.len() as int));
    }
}

/// Law: registering two event types from one source with different names
/// keeps both, each under its own key.
pub proof fn law_distinct_types_both_registered(
    m: Map<Seq<char>, EventType>,
    a: EventType,
    b: EventType,
)
    requires
        a.source_id@ == b.source_id@,
        a.name@ != b.name@,
    ensures
        register_all(m, seq![a, b])[event_type_key(a.source_id@, a.name@)] == a,
        register_all(m, seq![a, b])[event_type_key(b.source_id@, b.name@)] == b,
        register_all(m, seq![a, b]).contains_key(event_type_key(a.source_id@, a.name@)),
        register_all(m, seq![a, b]).contains_key(event_type_key(b.source_id@, b.name@)),
{
    law_type_key_distinguishes_names(a.source_id@, a.name@, b.name@);
    let types = seq![a, b];
    assert(types[0] == a);
    assert(types[1] == b);
    law_last_registration_wins(m, types, 0);
    law_last_registration_wins(m, types, 1);
}

/// The key of an event type.
pub fn type_key(et: &EventType) -> (r: String)
    ensures
        r@ == event_type_key(et.source_id@, et.name@),
{
    let mut s = et.source_id.clone();
    s.append(":");
    s.append(et.name.as_str());
    s
}

/// The registry after registering `types` in order, each under its key.
pub open spec fn register_all(m: Map<Seq<char>, EventType>, types: Seq<EventType>) -> Map<
    Seq<char>,
    EventType,
>
    decreases types.len(),
{
    if types.len() == 0 {
        m
    } else {
        register_all(m, types.drop_last()).insert(
            event_type_key(types.last().source_id@, types.last().name@),
            types.last(),
        )
    }
}

/// Law: after registering a list of event types, each key holds the last
/// type registered under it.
pub proof fn law_last_registration_wins(
    m: Map<Seq<char>, EventType>,
    types: Seq<EventType>,
    i: int,
)
    requires
        0 <= i < types.len(),
        forall|j: int|
            i < j < types.len() ==> event_type_key(types[j].source_id@, types[j].name@)
                != event_type_key(types[i].source_id@, types[i].name@),
    ensures
        register_all(m, types).contains_key(event_type_key(types[i].source_id@, types[i].name@)),
        register_all(m, types)[event_type_key(types[i].source_id@, types[i].name@)] == types[i],
    decreases types.len(),
{
    if i < types.len() - 1 {
        let t = types.drop_last();
        assert forall|j: int| i < j < t.len() implies event_type_key(t[j].source_id@, t[j].name@)
            != event_type_key(t[i].source_id@, t[i].name@) by {
            assert(t[j] == types[j]);
        }
        law_last_registration_wins(m, t, i);
        assert(t[i] == types[i]);
    }
}

/// Law: registering types leaves the types stored under other keys as they were.
pub proof fn law_registration_keeps_other_keys(
    m: Map<Seq<char>, EventType>,
    types: Seq<EventType>,
    k: Seq<char>,
)
    requires
        forall|j: int|
            0 <= j < types.len() ==> event_type_key(types[j].source_id@, types[j].name@) != k,
    ensures
        register_all(m, types).contains_key(k) == m.contains_key(k),
        m.contains_key(k) ==> register_all(m, types)[k] == m[k],
    decreases types.len(),
{
    if types.len() > 0 {
        let t = types.drop_last();
        assert forall|j: int| 0 <= j < t.len() implies event_type_key(t[j].source_id@, t[j].name@)
            != k by {
            assert(t[j] == types[j]);
        }
        law_registration_keeps_other_keys(m, t, k);
    }
}

/// Shared state for the message bus: the event type registry (key:
/// `source_id:name`) and the broadcast channel events are published on.
pub struct BusState {
    /// Registry of event types, by key.
    pub event_types: dashmap::DashMap<String, EventType>,
    /// Broadcast channel for publishing events.
    pub sender: tokio::sync::broadcast::Sender<Event>,
}

/// The capacity of the bus's broadcast channel.
pub const CHANNEL_CAPACITY: usize = 1024;

/// The event published from `source_id` named `name` with these properties at `timestamp`.
pub fn make_event(
    source_id: String,
    name: String,
    properties: serde_json::Value,
    timestamp: String,
) -> (r: Event)
    ensures
        r.source_id == source_id,
        r.name == name,
        r.properties == properties,
        r.timestamp == timestamp,
{
    Event { source_id, name, properties, timestamp }
}

impl BusState {
    /// The registered event types, by key.
    pub open spec fn registry(&self) -> Map<Seq<char>, EventType> {
        registry_entries(self.event_types)
    }

    /// New bus state: an empty registry and a broadcast channel of capacity 1024.
    pub fn new() -> (r: Self)
        ensures
            r.registry() == no_event_types(),
            broadcast_capacity(r.sender) == 1024,
    {
        let event_types = registry_new();
        let sender = event_channel(CHANNEL_CAPACITY);
        BusState { event_types, sender }
    }

    /// The number of registered event types.
    pub fn type_count(&self) -> (r: usize)
        ensures
            r == self.registry().dom().len(),
    {
        registry_len(&self.event_types)
    }

    /// Registers event types, each under its key, later ones replacing earlier
    /// ones with the same key; answers `200 ok`.
    pub fn register_event_types(&mut self, types: Vec<EventType>) -> (r: ApiResponse<()>)
        ensures
            final(self).registry() == register_all(old(self).registry(), types@),
            r.success == 200,
            r.message@ == "ok"@,
            r.data is None,
    {
        let ghost start = self.registry();
        let ghost all = types@;
        let mut rest = types;
        let n = rest.len();
        let mut i: usize = 0;
        assert(all.subrange(0, 0) =~= Seq::<EventType>::empty());
        assert(all.subrange(0, n as int) =~= all);
        while i < n
            invariant
                n == all.len(),
                i <= n,
                rest@ == all.subrange(i as int, n as int),
                self.registry() == register_all(start, all.subrange(0, i as int)),
            decreases n - i,
        {
            let et = rest.remove(0);
            assert(et == all[i as int]);
            let key = type_key(&et);
            registry_insert(&mut self.event_types, key, et);
            assert(all.subrange(0, i + 1).drop_last() =~= all.subrange(0, i as int));
            assert(rest@ =~= all.subrange(i + 1, n as int));
            i = i + 1;
        }
        assert(all.subrange(0, n as int) =~= all);
        ApiResponse::ok_empty()
    }

    /// Answers `200 ok` with every registered event type, once per key, in no
    /// particular order.
    pub fn list_event_types(&self) -> (r: ApiResponse<Vec<EventType>>)
        ensures
            r.success == 200,
            r.message@ == "ok"@,
            r.data matches Some(types) && lists_registry(types@, self.registry()),
    {
        ApiResponse::ok(registry_values(&self.event_types))
    }

    /// Publishes an event from `source_id` named `name` with `properties`,
    /// stamped with the current time, to every subscriber; answers `200 ok`
    /// whether or not anyone was subscribed, and hands back the event it
    /// published. The registry is not consulted.
    pub fn publish_event(
        &self,
        source_id: String,
        name: String,
        properties: serde_json::Value,
    ) -> (r: (ApiResponse<()>, Event))
        ensures
            r.0.success == 200,
            r.0.message@ == "ok"@,
            r.0.data is None,
            r.1.source_id == source_id,
            r.1.name == name,
            r.1.properties == properties,
            exists|secs: u64| r.1.timestamp@ == #[trigger] decimal(secs as nat),
    {
        let event = make_event(source_id, name, properties, chrono_now());
        let (_delivered, event) = event_send(&self.sender, event);
        (ApiResponse::ok_empty(), event)
    }
}

} // verus!
