//! Loading gateway configuration from the cache and watching it for change.
//!
//! The cache itself is read by the caller. This module holds what is decided
//! on the way: which keys are read, how a change trigger is taken apart, which
//! triggers were seen before, and what a trigger asks of the running gateways.
use crate::basic::error::{ErrorKind, GatewayError, GatewayErrorView};
use crate::basic::text::{chars_of, str_eq};
use vstd::prelude::*;
use vstd::string::*;

verus! {

/// Hash whose fields are gateway names and whose values are gateway
/// descriptors.
pub const CONF_GATEWAY_KEY: &'static str = "conf:gateway";

/// Prefix of the lists that hold a gateway's routes; the gateway's name
/// follows.
pub const CONF_HTTP_ROUTE_KEY: &'static str = "conf:route:http:";

/// Prefix of the keys that announce a change; `unique##obj##gateway_name`
/// follows.
pub const CONF_CHANGE_TRIGGER: &'static str = "conf:change:trigger:";

/// The keys that match this pattern are the change triggers.
pub const CONF_CHANGE_TRIGGER_PATTERN: &'static str = "conf:change:trigger:*";

/// Message of the error that reports an empty gateway hash.
pub const GATEWAY_NOT_FOUND: &'static str = "[SG.Config] Gateway Config not found in conf:gateway";

/// How many trigger uniques the watcher remembers.
pub const CHANGE_CACHE_CAPACITY: usize = 100;

// ---------------------------------------------------------------------------
// Initial load
// ---------------------------------------------------------------------------

/// The key of the list that holds the routes of the gateway `name`.
pub open spec fn spec_route_key(name: Seq<char>) -> Seq<char> {
    CONF_HTTP_ROUTE_KEY@ + name
}

/// The key of the list that holds the routes of the gateway `name`.
pub fn route_key(name: &str) -> (key: String)
    ensures
        key@ == spec_route_key(name@),
{
    let mut key = String::from_str(CONF_HTTP_ROUTE_KEY);
    key.append(name);
    key
}

/// The route keys of the gateways `names`, in their order.
pub open spec fn spec_route_keys(names: Seq<Seq<char>>) -> Seq<Seq<char>> {
    Seq::new(names.len(), |i: int| spec_route_key(names[i]))
}

/// The first step of loading: given the names of the gateways found in
/// [`CONF_GATEWAY_KEY`], says which route lists are to be read, one per
/// gateway and in the same order. Where no gateway is stored the load fails
/// with `NotFound`.
pub fn init(gateway_names: &Vec<String>) -> (keys: Result<Vec<String>, GatewayError>)
    ensures
        gateway_names.len() == 0 <==> keys is Err,
        keys matches Err(e) ==> e@ == (GatewayErrorView {
            kind: ErrorKind::NotFound,
            message: GATEWAY_NOT_FOUND@,
        }),
        keys matches Ok(k) ==> k.deep_view() == spec_route_keys(gateway_names.deep_view()),
{
    if gateway_names.len() == 0 {
        return Err(GatewayError::not_found(GATEWAY_NOT_FOUND));
    }
    let mut keys: Vec<String> = Vec::new();
    let mut i: usize = 0;
    while i < gateway_names.len()
        invariant
            i <= gateway_names.len(),
            keys.len() == i,
            forall|j: int| 0 <= j < i ==> (#[trigger] keys[j])@ == spec_route_key(gateway_names[j]@),
        decreases gateway_names.len() - i,
    {
        keys.push(route_key(gateway_names[i].as_str()));
        i += 1;
    }
    assert(keys.deep_view() =~= spec_route_keys(gateway_names.deep_view()));
    Ok(keys)
}

// ---------------------------------------------------------------------------
// Change triggers
// ---------------------------------------------------------------------------

/// A change trigger taken apart.
#[derive(Debug)]
pub struct ChangeTrigger {
    /// Told apart from every other trigger by this token.
    pub unique: String,
    /// What changed: `gateway` or `httproute`.
    pub obj: String,
    /// The gateway that the change belongs to.
    pub gateway_name: String,
}

/// The mathematical content of a [`ChangeTrigger`].
pub struct ChangeTriggerView {
    pub unique: Seq<char>,
    pub obj: Seq<char>,
    pub gateway_name: Seq<char>,
}

impl View for ChangeTrigger {
    type V = ChangeTriggerView;

    open spec fn view(&self) -> ChangeTriggerView {
        ChangeTriggerView {
            unique: self.unique@,
            obj: self.obj@,
            gateway_name: self.gateway_name@,
        }
    }
}

/// Whether the separator `##` stands at index `i` of `s`.
pub open spec fn sep_at(s: Seq<char>, i: int) -> bool {
    0 <= i && i + 1 < s.len() && s[i] == '#' && s[i + 1] == '#'
}

/// The index of the first separator of `s` at or after `from`, or the length
/// of `s` where there is none.
pub open spec fn next_sep(s: Seq<char>, from: int) -> int
    decreases s.len() - from,
{
    if from >= s.len() {
        s.len() as int
    } else if sep_at(s, from) {
        from
    } else {
        next_sep(s, from + 1)
    }
}

/// `next_sep` finds a separator, and the first one: none stands between
/// `from` and the index it gives.
pub proof fn lemma_next_sep(s: Seq<char>, from: int)
    requires
        0 <= from <= s.len(),
    ensures
        from <= next_sep(s, from) <= s.len(),
        next_sep(s, from) < s.len() ==> sep_at(s, next_sep(s, from)),
        forall|j: int| from <= j < next_sep(s, from) ==> !sep_at(s, j),
    decreases s.len() - from,
{
    if from < s.len() && !sep_at(s, from) {
        lemma_next_sep(s, from + 1);
    }
}

/// The first three fields of `body` split at `##`, where it has that many.
/// A fourth field and what follows it are left aside.
pub open spec fn spec_fields(body: Seq<char>) -> Option<ChangeTriggerView> {
    let first = next_sep(body, 0);
    let second = next_sep(body, first + 2);
    let end = next_sep(body, second + 2);
    if first < body.len() && second < body.len() {
        Some(
            ChangeTriggerView {
                unique: body.subrange(0, first),
                obj: body.subrange(first + 2, second),
                gateway_name: body.subrange(second + 2, end),
            },
        )
    } else {
        None
    }
}

/// What a key says as a change trigger: it starts with
/// [`CONF_CHANGE_TRIGGER`], and the rest holds at least three fields.
pub open spec fn spec_parse_trigger(key: Seq<char>) -> Option<ChangeTriggerView> {
    let prefix = CONF_CHANGE_TRIGGER@;
    if prefix.is_prefix_of(key) {
        spec_fields(key.skip(prefix.len() as int))
    } else {
        None
    }
}

fn starts_with(s: &Vec<char>, prefix: &Vec<char>) -> (yes: bool)
    ensures
        yes == prefix@.is_prefix_of(s@),
{
    if prefix.len() > s.len() {
        return false;
    }
    let mut i: usize = 0;
    while i < prefix.len()
        invariant
            i <= prefix.len() <= s.len(),
            forall|j: int| 0 <= j < i ==> s@[j] == prefix@[j],
        decreases prefix.len() - i,
    {
        if s[i] != prefix[i] {
            assert(s@.subrange(0, prefix.len() as int)[i as int] != prefix@[i as int]);
            return false;
        }
        i += 1;
    }
    assert(prefix@ =~= s@.subrange(0, prefix.len() as int));
    true
}

fn find_sep(s: &Vec<char>, from: usize) -> (p: usize)
    requires
        from <= s.len(),
    ensures
        p == next_sep(s@, from as int),
        from <= p <= s.len(),
        p < s.len() ==> p + 2 <= s.len(),
{
    let mut i: usize = from;
    while i < s.len()
        invariant
            from <= i <= s.len(),
            next_sep(s@, from as int) == next_sep(s@, i as int),
        decreases s.len() - i,
    {
        if i + 1 < s.len() && s[i] == '#' && s[i + 1] == '#' {
            return i;
        }
        i += 1;
    }
    i
}

/// Takes a trigger key apart. `None` where the key does not start with
/// [`CONF_CHANGE_TRIGGER`] or holds fewer than three fields.
pub fn parse_trigger(key: &str) -> (trigger: Option<ChangeTrigger>)
    ensures
        trigger is Some <==> spec_parse_trigger(key@) is Some,
        trigger matches Some(t) ==> Some(t@) == spec_parse_trigger(key@),
{
    let whole = chars_of(key);
    let prefix = chars_of(CONF_CHANGE_TRIGGER);
    if !starts_with(&whole, &prefix) {
        return None;
    }
    let rest = key.substring_char(prefix.len(), whole.len());
    let body = chars_of(rest);
    let first = find_sep(&body, 0);
    if first >= body.len() {
        return None;
    }
    let second = find_sep(&body, first + 2);
    if second >= body.len() {
        return None;
    }
    let end = find_sep(&body, second + 2);
    Some(
        ChangeTrigger {
            unique: String::from_str(rest.substring_char(0, first)),
            obj: String::from_str(rest.substring_char(first + 2, second)),
            gateway_name: String::from_str(rest.substring_char(second + 2, end)),
        },
    )
}

// ---------------------------------------------------------------------------
// Remembering the triggers that were seen
// ---------------------------------------------------------------------------

/// `lru::LruCache`, a map that forgets the entry used least recently once it
/// is full. Nothing is known of a value of it but through [`lru_keys`] and
/// [`lru_cap`].
#[verifier::external_type_specification]
#[verifier::external_body]
#[verifier::reject_recursive_types(K)]
#[verifier::reject_recursive_types(V)]
#[verifier::reject_recursive_types(S)]
pub struct ExLruCache<K, V, S>(lru::LruCache<K, V, S>);

/// `lru::DefaultHasher`, the hasher of an [`lru::LruCache`] that is given no
/// other.
#[verifier::external_type_specification]
#[verifier::external_body]
pub struct ExLruHasher(lru::DefaultHasher);

/// The keys that an LRU cache holds, the most recently used first.
pub uninterp spec fn lru_keys(cache: lru::LruCache<String, bool>) -> Seq<Seq<char>>;

/// The number of entries that an LRU cache was made to hold at most.
pub uninterp spec fn lru_cap(cache: lru::LruCache<String, bool>) -> nat;

/// The keys of an LRU cache of capacity `cap` after `k` was put into it:
/// `k` comes to the front; where it is new and the cache is full, the key
/// that was used least recently leaves.
pub open spec fn spec_put(keys: Seq<Seq<char>>, cap: nat, k: Seq<char>) -> Seq<Seq<char>> {
    if keys.contains(k) {
        seq![k] + keys.remove(keys.index_of(k))
    } else if keys.len() == cap {
        seq![k] + keys.drop_last()
    } else {
        seq![k] + keys
    }
}

/// `lru::LruCache::new`: an empty cache that holds at most `cap` entries.
/// It does not take a capacity of zero, and reserves room for `cap` entries
/// at once, so `cap` is kept small.
#[verifier::external_body]
fn lru_new(cap: usize) -> (cache: lru::LruCache<String, bool>)
    requires
        0 < cap <= 0x1_0000,
    ensures
        lru_keys(cache) == Seq::<Seq<char>>::empty(),
        lru_cap(cache) == cap,
{
    lru::LruCache::new(std::num::NonZeroUsize::new(cap).unwrap())
}

/// `lru::LruCache::put`: returns the old value where the key was held, and
/// `None` where it was not; either way the key is then the most recently used
/// one. A new key in a full cache takes the place of the least recently used
/// one. The capacity stays.
#[verifier::external_body]
fn lru_put(cache: &mut lru::LruCache<String, bool>, key: String, value: bool) -> (held: Option<bool>)
    ensures
        held is Some <==> lru_keys(*old(cache)).contains(key@),
        lru_keys(*final(cache)) == spec_put(lru_keys(*old(cache)), lru_cap(*old(cache)), key@),
        lru_cap(*final(cache)) == lru_cap(*old(cache)),
{
    cache.put(key, value)
}

/// Putting a key keeps the keys distinct and within the capacity, and brings
/// the key to the front.
pub proof fn lemma_put_keeps_order(keys: Seq<Seq<char>>, cap: nat, k: Seq<char>)
    requires
        keys.no_duplicates(),
        keys.len() <= cap,
        cap >= 1,
    ensures
        spec_put(keys, cap, k).no_duplicates(),
        spec_put(keys, cap, k).len() <= cap,
        spec_put(keys, cap, k).len() >= 1,
        spec_put(keys, cap, k)[0] == k,
        forall|x: Seq<char>| keys.contains(x) && !spec_put(keys, cap, k).contains(x) ==> {
            &&& !keys.contains(k)
            &&& keys.len() == cap
            &&& x == keys.last()
        },
{
    let out = spec_put(keys, cap, k);
    if keys.contains(k) {
        let i = keys.index_of(k);
        let rest = keys.remove(i);
        assert forall|a: int, b: int| 0 <= a < out.len() && 0 <= b < out.len() && a != b implies out[a]
            != out[b] by {
            let ka = if a == 0 { i } else if a - 1 < i { a - 1 } else { a };
            let kb = if b == 0 { i } else if b - 1 < i { b - 1 } else { b };
            assert(out[a] == keys[ka]);
            assert(out[b] == keys[kb]);
        }
        assert forall|x: Seq<char>| keys.contains(x) implies out.contains(x) by {
            let j = keys.index_of(x);
            if j == i {
                assert(out[0] == x);
            } else if j < i {
                assert(out[j + 1] == x);
            } else {
                assert(out[j] == x);
            }
        }
    } else if keys.len() == cap {
        let rest = keys.drop_last();
        assert forall|a: int, b: int| 0 <= a < out.len() && 0 <= b < out.len() && a != b implies out[a]
            != out[b] by {
            if a > 0 {
                assert(out[a] == keys[a - 1]);
            }
            if b > 0 {
                assert(out[b] == keys[b - 1]);
            }
        }
        assert forall|x: Seq<char>| keys.contains(x) && !out.contains(x) implies x == keys.last() by {
            let j = keys.index_of(x);
            if j < keys.len() - 1 {
                assert(out[j + 1] == x);
            }
        }
    } else {
        assert forall|a: int, b: int| 0 <= a < out.len() && 0 <= b < out.len() && a != b implies out[a]
            != out[b] by {
            if a > 0 {
                assert(out[a] == keys[a - 1]);
            }
            if b > 0 {
                assert(out[b] == keys[b - 1]);
            }
        }
        assert forall|x: Seq<char>| keys.contains(x) implies out.contains(x) by {
            let j = keys.index_of(x);
            assert(out[j + 1] == x);
        }
    }
}

/// The trigger uniques that the watcher has seen, the latest first. It holds
/// at most [`CHANGE_CACHE_CAPACITY`] of them and forgets by capacity alone.
pub struct ChangeCache {
    cache: lru::LruCache<String, bool>,
}

impl ChangeCache {
    /// The uniques that are remembered, the most recently seen first.
    pub closed spec fn view(&self) -> Seq<Seq<char>> {
        lru_keys(self.cache)
    }

    /// The number of uniques that this cache remembers at most.
    pub closed spec fn capacity(&self) -> nat {
        lru_cap(self.cache)
    }

    /// No unique is remembered twice, and no more of them than the capacity.
    pub open spec fn wf(&self) -> bool {
        &&& self.capacity() == CHANGE_CACHE_CAPACITY
        &&& self@.no_duplicates()
        &&& self@.len() <= CHANGE_CACHE_CAPACITY
    }

    /// A cache that has seen nothing.
    pub fn new() -> (cache: ChangeCache)
        ensures
            cache.wf(),
            cache@ == Seq::<Seq<char>>::empty(),
    {
        ChangeCache { cache: lru_new(CHANGE_CACHE_CAPACITY) }
    }

    /// Records that the trigger `unique` was met, and says whether it is new.
    /// A unique that is remembered is not new; it becomes the latest again.
    pub fn observe(&mut self, unique: &str) -> (fresh: bool)
        requires
            old(self).wf(),
        ensures
            final(self).wf(),
            fresh == !old(self)@.contains(unique@),
            final(self)@ == spec_put(old(self)@, CHANGE_CACHE_CAPACITY as nat, unique@),
    {
        proof {
            lemma_put_keeps_order(self@, CHANGE_CACHE_CAPACITY as nat, unique@);
        }
        let held = lru_put(&mut self.cache, String::from_str(unique), true);
        held.is_none()
    }
}

/// The keys of an LRU cache after each key of `ks` was put into it in turn.
pub open spec fn spec_put_all(keys: Seq<Seq<char>>, cap: nat, ks: Seq<Seq<char>>) -> Seq<Seq<char>>
    decreases ks.len(),
{
    if ks.len() == 0 {
        keys
    } else {
        spec_put_all(spec_put(keys, cap, ks.first()), cap, ks.drop_first())
    }
}

/// A key that stands at index `at` of an LRU cache is still held after
/// `others` were put, as long as `at + others.len()` stays below the
/// capacity.
pub proof fn lemma_key_survives(
    keys: Seq<Seq<char>>,
    cap: nat,
    u: Seq<char>,
    at: int,
    others: Seq<Seq<char>>,
)
    requires
        keys.no_duplicates(),
        keys.len() <= cap,
        0 <= at < keys.len(),
        keys[at] == u,
        at + others.len() < cap,
    ensures
        spec_put_all(keys, cap, others).contains(u),
    decreases others.len(),
{
    if others.len() > 0 {
        let k = others.first();
        let next = spec_put(keys, cap, k);
        lemma_put_keeps_order(keys, cap, k);
        let at2: int = if k == u {
            0
        } else if keys.contains(k) {
            if keys.index_of(k) < at {
                at
            } else {
                at + 1
            }
        } else {
            at + 1
        };
        assert(0 <= at2 < next.len() && next[at2] == u) by {
            if k != u {
                if keys.contains(k) {
                    let i = keys.index_of(k);
                    if i < at {
                        assert(next[at] == keys.remove(i)[at - 1]);
                    } else {
                        assert(next[at + 1] == keys.remove(i)[at]);
                    }
                } else if keys.len() == cap {
                    assert(next[at + 1] == keys.drop_last()[at]);
                } else {
                    assert(next[at + 1] == keys[at]);
                }
            }
        }
        lemma_key_survives(next, cap, u, at2, others.drop_first());
    }
}

/// At most one effect for each unique: once `u` was observed, it is still
/// remembered, and so not taken for new, after any `others` were observed,
/// as long as these are fewer than the capacity. (A burst of a hundred or
/// more other uniques between two sightings of `u` pushes it out.)
pub proof fn lemma_observed_once(keys: Seq<Seq<char>>, cap: nat, u: Seq<char>, others: Seq<Seq<char>>)
    requires
        keys.no_duplicates(),
        keys.len() <= cap,
        others.len() < cap,
    ensures
        spec_put_all(spec_put(keys, cap, u), cap, others).contains(u),
{
    lemma_put_keeps_order(keys, cap, u);
    lemma_key_survives(spec_put(keys, cap, u), cap, u, 0, others);
}

// ---------------------------------------------------------------------------
// What a trigger asks for
// ---------------------------------------------------------------------------

/// What the watcher does to the running gateways for one trigger.
#[derive(Debug, Clone, Copy, PartialEq, Eq, Structural)]
pub enum WatchAction {
    /// Shut the gateway down, then start it with the stored configuration.
    Restart,
    /// Hand the stored configuration to the route table of the gateway.
    ReinitRoutes,
    /// Shut the gateway down: its configuration is gone.
    Shutdown,
    /// Leave everything as it is.
    Ignore,
}

/// The action for a change of `obj`, given whether the gateway's
/// configuration is `stored`.
pub open spec fn spec_dispatch(obj: Seq<char>, stored: bool) -> WatchAction {
    if obj == "gateway"@ {
        if stored {
            WatchAction::Restart
        } else {
            WatchAction::Shutdown
        }
    } else if obj == "httproute"@ && stored {
        WatchAction::ReinitRoutes
    } else {
        WatchAction::Ignore
    }
}

/// The action for a change of `obj`, given whether the gateway's
/// configuration is `stored`.
pub fn dispatch(obj: &str, stored: bool) -> (action: WatchAction)
    ensures
        action == spec_dispatch(obj@, stored),
{
    if str_eq(obj, "gateway") {
        if stored {
            WatchAction::Restart
        } else {
            WatchAction::Shutdown
        }
    } else if stored && str_eq(obj, "httproute") {
        WatchAction::ReinitRoutes
    } else {
        WatchAction::Ignore
    }
}

/// What the watcher does with one key of the scan.
#[derive(Debug)]
pub enum TriggerStep {
    /// The key is no trigger.
    Malformed,
    /// The trigger was seen before and is passed over.
    Seen,
    /// The trigger is new: look the gateway up and [`dispatch`].
    Fetch(ChangeTrigger),
}

/// The first half of handling one key of the scan: takes it apart and, where
/// it is a trigger, records its unique. Only a trigger that is new asks for
/// the gateway to be looked up.
pub fn on_trigger(seen: &mut ChangeCache, key: &str) -> (step: TriggerStep)
    requires
        old(seen).wf(),
    ensures
        final(seen).wf(),
        match spec_parse_trigger(key@) {
            None => step is Malformed && final(seen)@ == old(seen)@,
            Some(t) => {
                &&& final(seen)@ == spec_put(old(seen)@, CHANGE_CACHE_CAPACITY as nat, t.unique)
                &&& if old(seen)@.contains(t.unique) {
                    step is Seen
                } else {
                    step matches TriggerStep::Fetch(found) && found@ == t
                }
            },
        },
{
    match parse_trigger(key) {
        None => TriggerStep::Malformed,
        Some(trigger) => {
            if seen.observe(trigger.unique.as_str()) {
                TriggerStep::Fetch(trigger)
            } else {
                TriggerStep::Seen
            }
        },
    }
}

} // verus!
