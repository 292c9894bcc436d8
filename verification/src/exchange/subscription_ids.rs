//! The map from each [`SubscriptionId`] to the [`Subscription`] it was made for.

use crate::error::SocketError;
use crate::model::{Instrument, Subscription, SubscriptionId};
use vstd::prelude::*;

verus! {

/// Map of each [`SubscriptionId`] actioned with an exchange to the Barter
/// [`Subscription`] it identifies. Used to find the [`Instrument`] that a message
/// received over the socket belongs to.
pub struct SubscriptionIds {
    entries: Vec<(SubscriptionId, Subscription)>,
    contents: Ghost<Map<Seq<char>, Subscription>>,
}

impl SubscriptionIds {
    /// The subscriptions held, keyed by the text of their [`SubscriptionId`].
    pub closed spec fn view(&self) -> Map<Seq<char>, Subscription> {
        self.contents@
    }

    closed spec fn key(&self, i: int) -> Seq<char> {
        self.entries@[i].0.text()
    }

    /// The entries have distinct ids and agree with the map they represent.
    pub closed spec fn wf(&self) -> bool {
        &&& forall|i: int, j: int|
            0 <= i < j < self.entries@.len() ==> self.key(i) != self.key(j)
        &&& forall|i: int|
            0 <= i < self.entries@.len() ==> #[trigger] self.contents@.contains_key(self.key(i))
                && self.contents@[self.key(i)] == self.entries@[i].1
        &&& forall|k: Seq<char>|
            #[trigger] self.contents@.contains_key(k) ==> exists|i: int|
                0 <= i < self.entries@.len() && self.key(i) == k
    }

    /// An empty map.
    pub fn new() -> (r: SubscriptionIds)
        ensures
            r.wf(),
            r@ == Map::<Seq<char>, Subscription>::empty(),
    {
        SubscriptionIds { entries: Vec::new(), contents: Ghost(Map::empty()) }
    }

    /// The number of subscriptions held.
    pub fn len(&self) -> (r: usize)
        requires
            self.wf(),
        ensures
            r == self@.len(),
    {
        proof {
            self.lemma_len();
        }
        self.entries.len()
    }

    proof fn lemma_len(&self)
        requires
            self.wf(),
        ensures
            self@.dom().finite(),
            self@.len() == self.entries@.len(),
        decreases self.entries@.len(),
    {
        let keys = Seq::new(self.entries@.len(), |i: int| self.key(i));
        assert forall|k: Seq<char>| self@.dom().contains(k) <==> keys.to_set().contains(k) by {
            if self@.dom().contains(k) {
                let i = choose|i: int| 0 <= i < self.entries@.len() && self.key(i) == k;
                assert(keys[i] == k);
            }
            if keys.to_set().contains(k) {
                let i = choose|i: int| 0 <= i < keys.len() && keys[i] == k;
                assert(self.contents@.contains_key(self.key(i)));
            }
        }
        assert(self@.dom() =~= keys.to_set());
        keys.unique_seq_to_set();
    }

    /// Position of the entry with key `k`, if any.
    fn position(&self, k: &SubscriptionId) -> (r: Option<usize>)
        ensures
            match r {
                Some(i) => i < self.entries@.len() && self.key(i as int) == k.text(),
                None => forall|i: int| 0 <= i < self.entries@.len() ==> self.key(i) != k.text(),
            },
    {
        let mut i: usize = 0;
        while i < self.entries.len()
            invariant
                i <= self.entries@.len(),
                forall|j: int| 0 <= j < i ==> self.key(j) != k.text(),
            decreases self.entries@.len() - i,
        {
            if self.entries[i].0.0 == k.0 {
                return Some(i);
            }
            i = i + 1;
        }
        None
    }

    /// Insert `sub` under `id`, replacing any subscription held under the same id.
    pub fn insert(&mut self, id: SubscriptionId, sub: Subscription)
        requires
            old(self).wf(),
        ensures
            final(self).wf(),
            final(self)@ == old(self)@.insert(id.text(), sub),
    {
        let ghost k = id.text();
        let ghost new_contents = self.contents@.insert(k, sub);
        match self.position(&id) {
            Some(i) => {
                let ghost old_entries = self.entries@;
                self.entries.set(i, (id, sub));
                self.contents = Ghost(new_contents);
                proof {
                    assert forall|a: int, b: int|
                        0 <= a < b < self.entries@.len() implies self.key(a) != self.key(b) by {
                        if a != i && b != i {
                            assert(old(self).key(a) != old(self).key(b));
                        } else if a == i {
                            assert(old(self).key(i as int) != old(self).key(b));
                        } else {
                            assert(old(self).key(a) != old(self).key(i as int));
                        }
                    }
                    assert forall|j: int| 0 <= j < self.entries@.len() implies
                        #[trigger] self.contents@.contains_key(self.key(j))
                        && self.contents@[self.key(j)] == self.entries@[j].1 by {
                        if j != i {
                            assert(old(self).key(j) != old(self).key(i as int));
                        }
                    }
                    assert forall|kk: Seq<char>|
                        #[trigger] self.contents@.contains_key(kk) implies exists|a: int|
                        0 <= a < self.entries@.len() && self.key(a) == kk by {
                        if kk != k {
                            let a = choose|a: int|
                                0 <= a < old_entries.len() && old_entries[a].0.text() == kk;
                            assert(self.key(a) == kk);
                        } else {
                            assert(self.key(i as int) == kk);
                        }
                    }
                }
            },
            None => {
                let ghost old_entries = self.entries@;
                self.entries.push((id, sub));
                self.contents = Ghost(new_contents);
                proof {
                    let n = old_entries.len() as int;
                    assert forall|a: int, b: int|
                        0 <= a < b < self.entries@.len() implies self.key(a) != self.key(b) by {
                        if b < n {
                            assert(old(self).key(a) != old(self).key(b));
                        } else {
                            assert(old(self).key(a) != k);
                        }
                    }
                    assert forall|j: int| 0 <= j < self.entries@.len() implies
                        #[trigger] self.contents@.contains_key(self.key(j))
                        && self.contents@[self.key(j)] == self.entries@[j].1 by {
                        if j < n {
                            assert(old(self).key(j) != k);
                        }
                    }
                    assert forall|kk: Seq<char>|
                        #[trigger] self.contents@.contains_key(kk) implies exists|a: int|
                        0 <= a < self.entries@.len() && self.key(a) == kk by {
                        if kk != k {
                            let a = choose|a: int|
                                0 <= a < old_entries.len() && old_entries[a].0.text() == kk;
                            assert(self.key(a) == kk);
                        } else {
                            assert(self.key(n) == kk);
                        }
                    }
                }
            },
        }
    }

    /// Find the [`Instrument`] of the subscription made under `id`.
    ///
    /// Fails with [`SocketError::Unidentifiable`] if no subscription was made under `id`.
    pub fn find_instrument(&self, id: &SubscriptionId) -> (r: Result<Instrument, SocketError>)
        requires
            self.wf(),
        ensures
            r == lookup(self@, *id),
    {
        match self.position(id) {
            Some(i) => Ok(self.entries[i].1.instrument.duplicate()),
            None => Err(SocketError::Unidentifiable(id.duplicate())),
        }
    }
}

/// The map built by inserting `subs[i]` under `keys[i]` in order: a later subscription
/// under the same key replaces an earlier one.
pub open spec fn ids_map(keys: Seq<Seq<char>>, subs: Seq<Subscription>) -> Map<Seq<char>, Subscription>
    decreases keys.len(),
{
    if keys.len() == 0 || subs.len() == 0 {
        Map::empty()
    } else {
        ids_map(keys.drop_last(), subs.drop_last()).insert(keys.last(), subs.last())
    }
}

/// Extending the inserted prefixes by one entry inserts that entry.
pub proof fn lemma_ids_map_step(keys: Seq<Seq<char>>, subs: Seq<Subscription>, i: int)
    requires
        0 <= i < keys.len(),
        i < subs.len(),
    ensures
        ids_map(keys.take(i + 1), subs.take(i + 1)) == ids_map(keys.take(i), subs.take(i)).insert(
            keys[i],
            subs[i],
        ),
{
    assert(keys.take(i + 1).drop_last() =~= keys.take(i));
    assert(subs.take(i + 1).drop_last() =~= subs.take(i));
}

/// The identifiers, subscription requests and expected number of responses of a batch of
/// subscriptions to one exchange.
pub struct SubscriptionMeta<R> {
    pub ids: SubscriptionIds,
    pub expected_responses: usize,
    pub subscriptions: Vec<R>,
}

/// What a lookup of `id` in the subscriptions `ids` finds: the [`Instrument`] of the
/// subscription held under the text of `id`, or an [`SocketError::Unidentifiable`] error.
pub open spec fn lookup(ids: Map<Seq<char>, Subscription>, id: SubscriptionId) -> Result<
    Instrument,
    SocketError,
> {
    if ids.contains_key(id.text()) {
        Ok(ids[id.text()].instrument)
    } else {
        Err(SocketError::Unidentifiable(id))
    }
}

/// A subscription inserted under an id is what a later lookup of that id finds, and a
/// lookup of any other id finds what it found before.
pub proof fn lemma_lookup_after_insert(
    ids: Map<Seq<char>, Subscription>,
    id: SubscriptionId,
    sub: Subscription,
    other: SubscriptionId,
)
    ensures
        lookup(ids.insert(id.text(), sub), id) == Ok::<Instrument, SocketError>(sub.instrument),
        other.text() != id.text() ==> lookup(ids.insert(id.text(), sub), other) == lookup(ids, other),
{
}

/// After a batch of subscriptions is mapped by their ids, every id of the batch is found,
/// with the subscription mapped last under it.
pub proof fn lemma_ids_map_finds(keys: Seq<Seq<char>>, subs: Seq<Subscription>, i: int)
    requires
        keys.len() == subs.len(),
        0 <= i < keys.len(),
    ensures
        ids_map(keys, subs).contains_key(keys[i]),
        (forall|j: int| i < j < keys.len() ==> keys[j] != keys[i]) ==> ids_map(keys, subs)[keys[i]]
            == subs[i],
    decreases keys.len(),
{
    let n = keys.len() - 1;
    if i < n {
        lemma_ids_map_finds(keys.drop_last(), subs.drop_last(), i);
        assert(keys.drop_last()[i] == keys[i]);
        assert(subs.drop_last()[i] == subs[i]);
    }
}

} // verus!
