//! Per-peer request budgets: fixed windows and token buckets, counted per
//! route and peer.

use vstd::prelude::*;
use crate::app_config::Ratelimit;
use crate::text::same_text;

verus! {

/// The count kept for one route and peer. Under a fixed window, `since` is
/// the start of the window and `amount` the requests admitted in it; under
/// a token bucket, `since` is the instant up to which tokens were restored
/// and `amount` the tokens left.
#[derive(Clone, Copy, Debug, PartialEq, Eq, Structural)]
pub struct Counter {
    pub since: u64,
    pub amount: u64,
}

/// The window that a request at `now` falls into: the recorded one while it
/// lasts, a fresh one otherwise.
pub open spec fn current_window(state: Option<Counter>, window_ms: u64, now: u64) -> Counter {
    match state {
        Some(c) => if c.since <= now && now - c.since < window_ms {
            c
        } else {
            Counter { since: now, amount: 0 }
        },
        None => Counter { since: now, amount: 0 },
    }
}

/// The bucket as it stands at `now`: a new bucket is full; a recorded one
/// has gained a token for every `refill_ms` milliseconds that passed, up to
/// `capacity`. With `refill_ms` zero the bucket is always full.
pub open spec fn refilled(state: Option<Counter>, capacity: u64, refill_ms: u64, now: u64) -> Counter {
    match state {
        None => Counter { since: now, amount: capacity },
        Some(c) => if refill_ms == 0 {
            Counter { since: now, amount: capacity }
        } else if now < c.since {
            Counter { since: now, amount: if c.amount < capacity {
                c.amount
            } else {
                capacity
            } }
        } else {
            let gained = (now - c.since) / (refill_ms as int);
            if c.amount + gained >= capacity {
                Counter { since: now, amount: capacity }
            } else {
                Counter {
                    since: (c.since + gained * refill_ms) as u64,
                    amount: (c.amount + gained) as u64,
                }
            }
        },
    }
}

/// Whether a request at `now` is within budget, and the count afterwards.
pub open spec fn limit_step(policy: Ratelimit, state: Option<Counter>, now: u64) -> (
    bool,
    Counter,
) {
    match policy {
        Ratelimit::FixedWindow { limit, window_ms } => {
            let cur = current_window(state, window_ms, now);
            if cur.amount < limit {
                (true, Counter { since: cur.since, amount: (cur.amount + 1) as u64 })
            } else {
                (false, cur)
            }
        },
        Ratelimit::TokenBucket { capacity, refill_ms } => {
            let cur = refilled(state, capacity, refill_ms, now);
            if cur.amount > 0 {
                (true, Counter { since: cur.since, amount: (cur.amount - 1) as u64 })
            } else {
                (false, cur)
            }
        },
    }
}

/// Applies one request to a count.
pub fn step_counter(policy: Ratelimit, state: Option<Counter>, now: u64) -> (r: (bool, Counter))
    ensures
        r == limit_step(policy, state, now),
{
    match policy {
        Ratelimit::FixedWindow { limit, window_ms } => {
            let cur = match state {
                Some(c) => {
                    if c.since <= now && now - c.since < window_ms {
                        c
                    } else {
                        Counter { since: now, amount: 0 }
                    }
                },
                None => Counter { since: now, amount: 0 },
            };
            if cur.amount < limit {
                (true, Counter { since: cur.since, amount: cur.amount + 1 })
            } else {
                (false, cur)
            }
        },
        Ratelimit::TokenBucket { capacity, refill_ms } => {
            let cur = match state {
                None => Counter { since: now, amount: capacity },
                Some(c) => {
                    if refill_ms == 0 {
                        Counter { since: now, amount: capacity }
                    } else if now < c.since {
                        Counter {
                            since: now,
                            amount: if c.amount < capacity {
                                c.amount
                            } else {
                                capacity
                            },
                        }
                    } else {
                        let gained: u64 = (now - c.since) / refill_ms;
                        if (c.amount as u128) + (gained as u128) >= capacity as u128 {
                            Counter { since: now, amount: capacity }
                        } else {
                            assert(gained * refill_ms <= now - c.since) by (nonlinear_arith)
                                requires
                                    gained == (now - c.since) / (refill_ms as int),
                                    refill_ms > 0,
                                    now - c.since >= 0,
                            ;
                            Counter { since: c.since + gained * refill_ms, amount: c.amount + gained }
                        }
                    }
                },
            };
            if cur.amount > 0 {
                (true, Counter { since: cur.since, amount: cur.amount - 1 })
            } else {
                (false, cur)
            }
        },
    }
}

/// A fixed window never admits more requests than its limit, and a bucket
/// never holds more tokens than its capacity.
pub proof fn lemma_budget_respected(policy: Ratelimit, state: Option<Counter>, now: u64)
    ensures
        match policy {
            Ratelimit::FixedWindow { limit, window_ms } => (state is Some ==> state->Some_0.amount
                <= limit) ==> limit_step(policy, state, now).1.amount <= limit,
            Ratelimit::TokenBucket { capacity, refill_ms } => limit_step(
                policy,
                state,
                now,
            ).1.amount <= capacity,
        },
{
}

/// The count of one route and peer.
#[derive(Debug, PartialEq, Eq)]
pub struct RateEntry {
    pub route_id: String,
    pub identity: String,
    pub counter: Counter,
}

pub struct RateEntryView {
    pub route_id: Seq<char>,
    pub identity: Seq<char>,
    pub counter: Counter,
}

impl DeepView for RateEntry {
    type V = RateEntryView;

    open spec fn deep_view(&self) -> RateEntryView {
        RateEntryView { route_id: self.route_id@, identity: self.identity@, counter: self.counter }
    }
}

impl View for RateEntry {
    type V = RateEntryView;

    open spec fn view(&self) -> RateEntryView {
        self.deep_view()
    }
}

impl Clone for RateEntry {
    fn clone(&self) -> (r: Self)
        ensures
            r@ == self@,
    {
        RateEntry {
            route_id: self.route_id.clone(),
            identity: self.identity.clone(),
            counter: self.counter,
        }
    }
}

/// The count recorded for a route and peer: that of the first entry naming
/// both.
pub open spec fn recorded(entries: Seq<RateEntryView>, route_id: Seq<char>, identity: Seq<char>) -> Option<
    Counter,
>
    decreases entries.len(),
{
    if entries.len() == 0 {
        None
    } else if entries[0].route_id == route_id && entries[0].identity == identity {
        Some(entries[0].counter)
    } else {
        recorded(entries.drop_first(), route_id, identity)
    }
}

/// The counts of all routes and peers seen so far.
#[derive(Debug, PartialEq, Eq)]
pub struct RateBook {
    pub entries: Vec<RateEntry>,
}

impl View for RateBook {
    type V = Map<(Seq<char>, Seq<char>), Counter>;

    open spec fn view(&self) -> Map<(Seq<char>, Seq<char>), Counter> {
        Map::new(
            |k: (Seq<char>, Seq<char>)| recorded(self.entries.deep_view(), k.0, k.1) is Some,
            |k: (Seq<char>, Seq<char>)| recorded(self.entries.deep_view(), k.0, k.1)->Some_0,
        )
    }
}

/// The count of a route and peer in a book, if one is recorded.
pub open spec fn count_of(
    book: Map<(Seq<char>, Seq<char>), Counter>,
    route_id: Seq<char>,
    identity: Seq<char>,
) -> Option<Counter> {
    if book.dom().contains((route_id, identity)) {
        Some(book[(route_id, identity)])
    } else {
        None
    }
}

/// The first entry naming a route and peer sits at `at`.
pub open spec fn first_at(
    entries: Seq<RateEntryView>,
    route_id: Seq<char>,
    identity: Seq<char>,
    at: int,
) -> bool {
    &&& 0 <= at < entries.len()
    &&& entries[at].route_id == route_id
    &&& entries[at].identity == identity
    &&& forall|j: int|
        0 <= j < at ==> !((#[trigger] entries[j]).route_id == route_id && entries[j].identity
            == identity)
}

proof fn lemma_recorded_at(
    entries: Seq<RateEntryView>,
    route_id: Seq<char>,
    identity: Seq<char>,
    at: int,
)
    requires
        first_at(entries, route_id, identity, at),
    ensures
        recorded(entries, route_id, identity) == Some(entries[at].counter),
    decreases at,
{
    if at > 0 {
        let rest = entries.drop_first();
        assert forall|j: int| 0 <= j < at - 1 implies !((#[trigger] rest[j]).route_id == route_id
            && rest[j].identity == identity) by {
        }
        lemma_recorded_at(rest, route_id, identity, at - 1);
    }
}

proof fn lemma_recorded_none(entries: Seq<RateEntryView>, route_id: Seq<char>, identity: Seq<char>)
    requires
        forall|j: int|
            0 <= j < entries.len() ==> !((#[trigger] entries[j]).route_id == route_id
                && entries[j].identity == identity),
    ensures
        recorded(entries, route_id, identity) is None,
    decreases entries.len(),
{
    if entries.len() > 0 {
        let rest = entries.drop_first();
        assert forall|j: int| 0 <= j < rest.len() implies !((#[trigger] rest[j]).route_id
            == route_id && rest[j].identity == identity) by {
        }
        lemma_recorded_none(rest, route_id, identity);
    }
}

/// Replacing the counter of an entry changes the count recorded for that
/// entry's route and peer when it is their first entry, and no other.
proof fn lemma_recorded_update(
    entries: Seq<RateEntryView>,
    at: int,
    counter: Counter,
    route_id: Seq<char>,
    identity: Seq<char>,
)
    requires
        0 <= at < entries.len(),
    ensures
        recorded(
            entries.update(at, RateEntryView { counter, ..entries[at] }),
            route_id,
            identity,
        ) == if first_at(entries, route_id, identity, at) {
            Some(counter)
        } else {
            recorded(entries, route_id, identity)
        },
    decreases entries.len(),
{
    let changed = entries.update(at, RateEntryView { counter, ..entries[at] });
    if at == 0 {
        assert(changed.drop_first() =~= entries.drop_first());
    } else {
        let rest = entries.drop_first();
        assert(changed.drop_first() =~= rest.update(
            at - 1,
            RateEntryView { counter, ..rest[at - 1] },
        ));
        lemma_recorded_update(rest, at - 1, counter, route_id, identity);
        if first_at(entries, route_id, identity, at) {
            assert forall|j: int| 0 <= j < at - 1 implies !((#[trigger] rest[j]).route_id
                == route_id && rest[j].identity == identity) by {
            }
        }
        if first_at(rest, route_id, identity, at - 1) && !(entries[0].route_id == route_id
            && entries[0].identity == identity) {
            assert forall|j: int| 0 <= j < at implies !((#[trigger] entries[j]).route_id
                == route_id && entries[j].identity == identity) by {
                if j > 0 {
                    assert(rest[j - 1] == entries[j]);
                }
            }
        }
    }
}

/// Appending an entry records its count for its route and peer when they
/// had none, and changes no recorded count.
proof fn lemma_recorded_push(
    entries: Seq<RateEntryView>,
    entry: RateEntryView,
    route_id: Seq<char>,
    identity: Seq<char>,
)
    ensures
        recorded(entries.push(entry), route_id, identity) == if recorded(
            entries,
            route_id,
            identity,
        ) is Some {
            recorded(entries, route_id, identity)
        } else if entry.route_id == route_id && entry.identity == identity {
            Some(entry.counter)
        } else {
            None
        },
    decreases entries.len(),
{
    let longer = entries.push(entry);
    if entries.len() == 0 {
        assert(longer.drop_first() =~= entries);
    } else {
        assert(longer.drop_first() =~= entries.drop_first().push(entry));
        lemma_recorded_push(entries.drop_first(), entry, route_id, identity);
    }
}

impl RateBook {
    /// A book without counts.
    pub fn new() -> (r: Self)
        ensures
            r@ == Map::<(Seq<char>, Seq<char>), Counter>::empty(),
    {
        let r = RateBook { entries: Vec::new() };
        r
    }

    /// The position of the first entry for a route and peer.
    fn position(&self, route_id: &str, identity: &str) -> (r: Option<usize>)
        ensures
            match r {
                Some(at) => first_at(self.entries.deep_view(), route_id@, identity@, at as int),
                None => forall|j: int|
                    0 <= j < self.entries.len() ==> !((#[trigger] self.entries.deep_view()[j]).route_id
                        == route_id@ && self.entries.deep_view()[j].identity == identity@),
            },
    {
        let mut i: usize = 0;
        while i < self.entries.len()
            invariant
                i <= self.entries.len(),
                forall|j: int|
                    0 <= j < i ==> !((#[trigger] self.entries.deep_view()[j]).route_id
                        == route_id@ && self.entries.deep_view()[j].identity == identity@),
            decreases self.entries.len() - i,
        {
            if same_text(self.entries[i].route_id.as_str(), route_id) && same_text(
                self.entries[i].identity.as_str(),
                identity,
            ) {
                return Some(i);
            }
            i += 1;
        }
        None
    }

    /// Counts one request of `identity` on the route `route_id` at `now`
    /// and says whether it is within the budget that `policy` sets.
    pub fn allow(&mut self, route_id: &str, identity: &str, policy: Ratelimit, now: u64) -> (r:
        bool)
        ensures
            r == limit_step(policy, count_of(old(self)@, route_id@, identity@), now).0,
            final(self)@ == old(self)@.insert(
                (route_id@, identity@),
                limit_step(policy, count_of(old(self)@, route_id@, identity@), now).1,
            ),
    {
        let ghost before = self.entries.deep_view();
        match self.position(route_id, identity) {
            Some(at) => {
                proof {
                    lemma_recorded_at(before, route_id@, identity@, at as int);
                }
                let entry = &self.entries[at];
                let (ok, counter) = step_counter(policy, Some(entry.counter), now);
                let updated = RateEntry {
                    route_id: entry.route_id.clone(),
                    identity: entry.identity.clone(),
                    counter,
                };
                self.entries.set(at, updated);
                proof {
                    let after = self.entries.deep_view();
                    assert(after =~= before.update(
                        at as int,
                        RateEntryView { counter, ..before[at as int] },
                    ));
                    assert forall|k: (Seq<char>, Seq<char>)|
                        recorded(after, k.0, k.1) == if k == (route_id@, identity@) {
                            Some(counter)
                        } else {
                            recorded(before, k.0, k.1)
                        } by {
                        lemma_recorded_update(before, at as int, counter, k.0, k.1);
                    }
                }
                ok
            },
            None => {
                proof {
                    lemma_recorded_none(before, route_id@, identity@);
                }
                let (ok, counter) = step_counter(policy, None, now);
                let added = RateEntry {
                    route_id: route_id.to_owned(),
                    identity: identity.to_owned(),
                    counter,
                };
                self.entries.push(added);
                proof {
                    let after = self.entries.deep_view();
                    assert(after =~= before.push(added@));
                    assert forall|k: (Seq<char>, Seq<char>)|
                        recorded(after, k.0, k.1) == if k == (route_id@, identity@) {
                            Some(counter)
                        } else {
                            recorded(before, k.0, k.1)
                        } by {
                        lemma_recorded_push(before, added@, k.0, k.1);
                    }
                }
                ok
            },
        }
    }
}

} // verus!
