//! [`Okx`](super::Okx) order book messages, and the sequence keeping of its perpetual
//! futures level 2 order book updater.
//!
//! The first message of the level 2 stream is a snapshot; every later one is a delta
//! whose `prevSeqId` must equal the `seqId` of the message applied before it. A delta
//! with `prevSeqId == seqId` and no levels is a heartbeat, sent when the book has not
//! changed for a while.
//!
//! [`OkxFuturesBookUpdater::update`] decides, message by message, what the local book
//! does with each data item ([`OkxBookStep`]) and what the update yields
//! ([`OkxBookOutcome`]); the levels themselves are applied by the caller.

use crate::error::DataError;
use crate::model::SubscriptionId;
use crate::Identifier;
use vstd::prelude::*;
use vstd::string::StringSliceAdditionalSpecFns;

verus! {

/// Whether an order book message replaces the book or updates it.
#[allow(non_camel_case_types)]
#[derive(Clone, Copy, Debug, PartialEq, Eq, Structural)]
pub enum OkxOrderBookAction {
    /// `"snapshot"`: the full book.
    SNAPSHOT,
    /// `"update"`: changed levels since the previous message.
    UPDATE,
}

/// One data item of an [`Okx`](super::Okx) level 2 order book message: its time, the
/// ask and bid levels, a checksum of the book, and the sequence ids of the message before
/// it and of itself.
#[derive(Clone, Debug)]
pub struct OkxOrderBookData<L, T> {
    pub time: T,
    pub asks: Vec<L>,
    pub bids: Vec<L>,
    pub checksum: i64,
    pub prev_seq_id: i64,
    pub seq_id: i64,
}

/// An [`Okx`](super::Okx) perpetual futures level 2 order book message.
#[derive(Clone, Debug)]
pub struct OkxFuturesOrderBookDelta<L, T> {
    pub subscription_id: SubscriptionId,
    pub action: OkxOrderBookAction,
    pub data: Vec<OkxOrderBookData<L, T>>,
}

impl<L, T> Identifier<Option<SubscriptionId>> for OkxFuturesOrderBookDelta<L, T> {
    open spec fn identifies(&self, id: Option<SubscriptionId>) -> bool {
        id == Some(self.subscription_id)
    }

    fn id(&self) -> (r: Option<SubscriptionId>) {
        Some(self.subscription_id.duplicate())
    }
}

/// One data item of an [`Okx`](super::Okx) level 1 (top of book) message.
#[derive(Clone, Debug)]
pub struct OkxOrderBookDataL1<L, T> {
    pub time: T,
    pub asks: Vec<L>,
    pub bids: Vec<L>,
    pub seq_id: i64,
}

/// An [`Okx`](super::Okx) level 1 (top of book) message.
#[derive(Clone, Debug)]
pub struct OkxOrderBookL1<L, T> {
    pub subscription_id: SubscriptionId,
    pub data: Vec<OkxOrderBookDataL1<L, T>>,
}

impl<L, T> Identifier<Option<SubscriptionId>> for OkxOrderBookL1<L, T> {
    open spec fn identifies(&self, id: Option<SubscriptionId>) -> bool {
        id == Some(self.subscription_id)
    }

    fn id(&self) -> (r: Option<SubscriptionId>) {
        Some(self.subscription_id.duplicate())
    }
}

/// What the local book does with one data item of a level 2 message.
#[derive(Clone, Copy, Debug, PartialEq, Eq, Structural)]
pub enum OkxBookStep {
    /// Replace the whole book by the item's levels.
    Replace,
    /// Upsert the item's bid and ask levels, leaving the sides unsorted.
    Upsert,
    /// Upsert the item's bid and ask levels, then sort both sides.
    UpsertSorted,
}

/// What a level 2 message yields once its steps are applied.
#[derive(Clone, Copy, Debug, PartialEq, Eq, Structural)]
pub enum OkxBookOutcome {
    /// A snapshot of the updated book.
    Snapshot,
    /// Nothing: the message was a heartbeat.
    Unchanged,
    /// An error: the message did not follow on from the last one applied.
    Failed(DataError),
}

/// The steps of a level 2 message, one per data item processed (in order, from the
/// first item), and its outcome.
#[derive(Debug)]
pub struct OkxBookPlan {
    pub steps: Vec<OkxBookStep>,
    pub outcome: OkxBookOutcome,
}

/// The steps, the outcome and the new last applied sequence id of processing `data`
/// under `action`, when `prev` is the sequence id of the last message applied.
///
/// A snapshot item replaces the book. An update item is upserted; then, if its
/// `prev_seq_id` is not `prev`, processing stops with an invalid sequence error
/// (`prev` and the item's `seq_id`, as `u64`); else, if it is a heartbeat
/// (`seq_id == prev_seq_id`), processing stops and nothing is yielded; else both sides
/// are sorted. Each item that does not stop processing becomes the last applied one.
pub open spec fn okx_plan<L, T>(
    prev: i64,
    action: OkxOrderBookAction,
    data: Seq<OkxOrderBookData<L, T>>,
) -> (Seq<OkxBookStep>, OkxBookOutcome, i64)
    decreases data.len(),
{
    if data.len() == 0 {
        (Seq::empty(), OkxBookOutcome::Snapshot, prev)
    } else {
        let d = data[0];
        if action == OkxOrderBookAction::SNAPSHOT {
            let rest = okx_plan(d.seq_id, action, data.drop_first());
            (seq![OkxBookStep::Replace] + rest.0, rest.1, rest.2)
        } else if prev != d.prev_seq_id {
            (
                seq![OkxBookStep::Upsert],
                OkxBookOutcome::Failed(
                    DataError::InvalidSequence {
                        prev_last_update_id: #[verifier::truncate] (prev as u64),
                        first_update_id: #[verifier::truncate] (d.seq_id as u64),
                    },
                ),
                prev,
            )
        } else if d.seq_id == d.prev_seq_id {
            (seq![OkxBookStep::Upsert], OkxBookOutcome::Unchanged, prev)
        } else {
            let rest = okx_plan(d.seq_id, action, data.drop_first());
            (seq![OkxBookStep::UpsertSorted] + rest.0, rest.1, rest.2)
        }
    }
}

/// Whether `data` continues the sequence that ended at `prev` without gaps or
/// heartbeats: each item's `prev_seq_id` is the `seq_id` before it, and differs from its
/// own `seq_id`.
pub open spec fn okx_chain<L, T>(prev: i64, data: Seq<OkxOrderBookData<L, T>>) -> bool
    decreases data.len(),
{
    data.len() == 0 || (data[0].prev_seq_id == prev && data[0].seq_id != prev && okx_chain(
        data[0].seq_id,
        data.drop_first(),
    ))
}

/// The sequence id of the last item of `data`, or `prev` if there is none.
pub open spec fn okx_last_seq_id<L, T>(prev: i64, data: Seq<OkxOrderBookData<L, T>>) -> i64 {
    if data.len() == 0 {
        prev
    } else {
        data.last().seq_id
    }
}

/// A snapshot message replaces the book once per data item, yields a snapshot of the
/// book, and leaves the sequence id of its last item as the last applied one.
pub proof fn lemma_okx_snapshot_replaces<L, T>(prev: i64, data: Seq<OkxOrderBookData<L, T>>)
    ensures
        okx_plan(prev, OkxOrderBookAction::SNAPSHOT, data) == (
            Seq::new(data.len(), |i: int| OkxBookStep::Replace),
            OkxBookOutcome::Snapshot,
            okx_last_seq_id(prev, data),
        ),
    decreases data.len(),
{
    if data.len() > 0 {
        let rest = data.drop_first();
        lemma_okx_snapshot_replaces(data[0].seq_id, rest);
        assert(seq![OkxBookStep::Replace] + Seq::new(rest.len(), |i: int| OkxBookStep::Replace)
            =~= Seq::new(data.len(), |i: int| OkxBookStep::Replace));
        if rest.len() > 0 {
            assert(rest.last() == data.last());
        }
    } else {
        assert(Seq::<OkxBookStep>::empty() =~= Seq::new(data.len(), |i: int| OkxBookStep::Replace));
    }
}

/// An update message that continues the sequence without gaps or heartbeats is applied
/// item by item (upserted, then both sides sorted), yields a snapshot of the book, and
/// leaves the sequence id of its last item as the last applied one.
pub proof fn lemma_okx_chain_accepted<L, T>(prev: i64, data: Seq<OkxOrderBookData<L, T>>)
    requires
        okx_chain(prev, data),
    ensures
        okx_plan(prev, OkxOrderBookAction::UPDATE, data) == (
            Seq::new(data.len(), |i: int| OkxBookStep::UpsertSorted),
            OkxBookOutcome::Snapshot,
            okx_last_seq_id(prev, data),
        ),
    decreases data.len(),
{
    if data.len() > 0 {
        let rest = data.drop_first();
        lemma_okx_chain_accepted(data[0].seq_id, rest);
        assert(seq![OkxBookStep::UpsertSorted] + Seq::new(
            rest.len(),
            |i: int| OkxBookStep::UpsertSorted,
        ) =~= Seq::new(data.len(), |i: int| OkxBookStep::UpsertSorted));
        if rest.len() > 0 {
            assert(rest.last() == data.last());
        }
    } else {
        assert(Seq::<OkxBookStep>::empty() =~= Seq::new(
            data.len(),
            |i: int| OkxBookStep::UpsertSorted,
        ));
    }
}

/// An update message whose first item does not follow on from the last applied sequence
/// id is rejected with an invalid sequence error carrying both ids (as `u64`), after
/// that item alone was upserted; the last applied sequence id stays as it was.
pub proof fn lemma_okx_gap_rejected<L, T>(prev: i64, data: Seq<OkxOrderBookData<L, T>>)
    requires
        data.len() > 0,
        data[0].prev_seq_id != prev,
    ensures
        okx_plan(prev, OkxOrderBookAction::UPDATE, data) == (
            seq![OkxBookStep::Upsert],
            OkxBookOutcome::Failed(
                DataError::InvalidSequence {
                    prev_last_update_id: #[verifier::truncate] (prev as u64),
                    first_update_id: #[verifier::truncate] (data[0].seq_id as u64),
                },
            ),
            prev,
        ),
{
}

/// A heartbeat (an update item with `seq_id == prev_seq_id` that follows on from the last
/// applied sequence id) yields nothing and leaves the last applied sequence id as it was.
pub proof fn lemma_okx_heartbeat_unchanged<L, T>(prev: i64, data: Seq<OkxOrderBookData<L, T>>)
    requires
        data.len() > 0,
        data[0].prev_seq_id == prev,
        data[0].seq_id == prev,
    ensures
        okx_plan(prev, OkxOrderBookAction::UPDATE, data) == (
            seq![OkxBookStep::Upsert],
            OkxBookOutcome::Unchanged,
            prev,
        ),
{
}

/// Whatever a message holds: one step is taken per item processed, processing stops only
/// at the item an error or a heartbeat is found in (its step an unsorted upsert), and the
/// last applied sequence id is that of the last item processed before it (or the one
/// before the message). Only a message processed to its end yields a snapshot.
pub proof fn lemma_okx_plan_shape<L, T>(
    prev: i64,
    action: OkxOrderBookAction,
    data: Seq<OkxOrderBookData<L, T>>,
)
    ensures
        ({
            let plan = okx_plan(prev, action, data);
            &&& plan.0.len() <= data.len()
            &&& plan.1 is Snapshot ==> plan.0.len() == data.len() && plan.2 == okx_last_seq_id(
                prev,
                data,
            )
            &&& !(plan.1 is Snapshot) ==> {
                &&& action == OkxOrderBookAction::UPDATE
                &&& 1 <= plan.0.len()
                &&& plan.0.last() == OkxBookStep::Upsert
                &&& plan.2 == okx_last_seq_id(prev, data.take(plan.0.len() - 1))
            }
        }),
    decreases data.len(),
{
    if data.len() > 0 {
        let rest = data.drop_first();
        let d = data[0];
        if action == OkxOrderBookAction::SNAPSHOT || (prev == d.prev_seq_id && d.seq_id
            != d.prev_seq_id) {
            lemma_okx_plan_shape(d.seq_id, action, rest);
            let sub = okx_plan(d.seq_id, action, rest);
            if rest.len() > 0 {
                assert(rest.last() == data.last());
            }
            if !(sub.1 is Snapshot) {
                let k = sub.0.len();
                assert(data.take(k as int) == seq![d] + rest.take(k - 1));
                if k > 1 {
                    assert(rest.take(k - 1).last() == data.take(k as int).last());
                }
            }
        } else {
            assert(data.take(0) =~= Seq::<OkxOrderBookData<L, T>>::empty());
        }
    }
}

/// The CRC-32 (IEEE) checksum of `bytes`: a name for what `crc32fast::hash` returns.
pub uninterp spec fn spec_crc32(bytes: Seq<u8>) -> u32;

/// `crc32fast::hash`. The contract claims only that the checksum is a function of the
/// bytes (named `spec_crc32`); the CRC-32 arithmetic is left unsaid.
#[verifier::external_body]
fn crc32(bytes: &[u8]) -> (r: u32)
    ensures
        r == spec_crc32(bytes@),
{
    crc32fast::hash(bytes)
}

/// The checksum [`Okx`](super::Okx) gives a book, from the text of its top levels
/// (`"{bid price}:{bid amount}:{ask price}:{ask amount}"` per level, joined by `":"`):
/// the CRC-32 of the text's UTF-8 bytes, read as a signed 32 bit integer.
pub fn okx_checksum(text: &str) -> (r: i32)
    ensures
        r == #[verifier::truncate] (spec_crc32(text.spec_bytes()) as i32),
{
    let c = crc32(text.as_bytes());
    #[verifier::truncate] (c as i32)
}

/// Sequence keeping of an [`Okx`](super::Okx) perpetual futures level 2 order book:
/// the sequence id of the last message applied.
#[derive(Clone, Copy, Debug, PartialEq, Eq, Structural)]
pub struct OkxFuturesBookUpdater {
    pub prev_seq_id: i64,
}

impl OkxFuturesBookUpdater {
    /// An updater that has applied nothing yet (sequence id 0).
    pub fn new() -> (r: OkxFuturesBookUpdater)
        ensures
            r.prev_seq_id == 0,
    {
        OkxFuturesBookUpdater { prev_seq_id: 0 }
    }

    /// Decide what the local book does with each data item of `update`, what the update
    /// yields, and keep the sequence id of the last item applied (see [`okx_plan`]).
    pub fn update<L, T>(&mut self, update: &OkxFuturesOrderBookDelta<L, T>) -> (r: OkxBookPlan)
        ensures
            okx_plan(old(self).prev_seq_id, update.action, update.data@) == (
                r.steps@,
                r.outcome,
                final(self).prev_seq_id,
            ),
    {
        let ghost prev0 = self.prev_seq_id;
        let ghost all = update.data@;
        let mut steps: Vec<OkxBookStep> = Vec::new();
        let mut i: usize = 0;
        proof {
            assert(all.skip(0) =~= all);
            let ghost p = okx_plan(prev0, update.action, all);
            assert(steps@ + p.0 =~= p.0);
        }
        while i < update.data.len()
            invariant
                i <= all.len(),
                all == update.data@,
                prev0 == old(self).prev_seq_id,
                okx_plan(prev0, update.action, all) == (
                    steps@ + okx_plan(self.prev_seq_id, update.action, all.skip(i as int)).0,
                    okx_plan(self.prev_seq_id, update.action, all.skip(i as int)).1,
                    okx_plan(self.prev_seq_id, update.action, all.skip(i as int)).2,
                ),
            decreases all.len() - i,
        {
            let data = &update.data[i];
            let ghost rest = all.skip(i as int);
            let ghost before = steps@;
            proof {
                assert(rest[0] == all[i as int]);
                assert(rest.drop_first() =~= all.skip(i + 1));
            }
            match update.action {
                OkxOrderBookAction::SNAPSHOT => {
                    steps.push(OkxBookStep::Replace);
                },
                OkxOrderBookAction::UPDATE => {
                    if self.prev_seq_id != data.prev_seq_id {
                        steps.push(OkxBookStep::Upsert);
                        proof {
                            assert(steps@ =~= before + seq![OkxBookStep::Upsert]);
                        }
                        return OkxBookPlan {
                            steps,
                            outcome: OkxBookOutcome::Failed(
                                DataError::InvalidSequence {
                                    prev_last_update_id: #[verifier::truncate] (self.prev_seq_id as u64),
                                    first_update_id: #[verifier::truncate] (data.seq_id as u64),
                                },
                            ),
                        };
                    }
                    if data.seq_id == data.prev_seq_id {
                        steps.push(OkxBookStep::Upsert);
                        proof {
                            assert(steps@ =~= before + seq![OkxBookStep::Upsert]);
                        }
                        return OkxBookPlan { steps, outcome: OkxBookOutcome::Unchanged };
                    }
                    steps.push(OkxBookStep::UpsertSorted);
                },
            }
            proof {
                let ghost tail = okx_plan(data.seq_id, update.action, all.skip(i + 1));
                assert(steps@ =~= before.push(steps@.last()));
                assert(before + (seq![steps@.last()] + tail.0) =~= steps@ + tail.0);
            }
            self.prev_seq_id = data.seq_id;
            i = i + 1;
        }
        proof {
            assert(all.skip(i as int) =~= Seq::<OkxOrderBookData<L, T>>::empty());
            assert(steps@ + Seq::<OkxBookStep>::empty() =~= steps@);
        }
        OkxBookPlan { steps, outcome: OkxBookOutcome::Snapshot }
    }
}

} // verus!
