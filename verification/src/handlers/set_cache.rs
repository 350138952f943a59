//! The decisions of the set-cache handler, which stores the values that
//! arrive on a queue and reports the messages it could not store.

use vstd::prelude::*;
use crate::dtos::batch_item_failures::{BatchItemFailures, ItemIdentifier};
use crate::dtos::set_cache_request::SetCacheRequest;
use crate::dtos::warmup_request::{WarmUpCachBuilder, WarmUpCachBuilderView};

verus! {

/// What became of one message of a batch.
#[derive(Debug, Clone, Copy, PartialEq, Eq, Structural)]
pub enum RecordOutcome {
    /// The message had no body, or its body was no cache request.
    Skipped,
    /// The request was stored.
    Stored,
    /// Storing the request failed.
    StoreFailed,
}

/// The identifiers of the messages whose request could not be stored, in
/// the order of the outcomes.
pub open spec fn failed_ids(outcomes: Seq<(Seq<char>, RecordOutcome)>) -> Seq<Seq<char>>
    decreases outcomes.len(),
{
    if outcomes.len() == 0 {
        Seq::empty()
    } else {
        failed_ids(outcomes.drop_last()) + if outcomes.last().1 == RecordOutcome::StoreFailed {
            seq![outcomes.last().0]
        } else {
            Seq::empty()
        }
    }
}

/// The mathematical value of a list of outcomes.
pub open spec fn outcomes_view(outcomes: Seq<(String, RecordOutcome)>) -> Seq<(Seq<char>, RecordOutcome)> {
    outcomes.map_values(|o: (String, RecordOutcome)| (o.0@, o.1))
}

/// The warm-up for a stored request: the CDN at `endpoint`, the request's
/// key and its two max-ages.
pub fn warm_up_for(endpoint: String, request: &SetCacheRequest) -> (r: WarmUpCachBuilder)
    ensures
        r@ == (WarmUpCachBuilderView {
            endpoint: endpoint@,
            key: request.key@,
            cdn_ttl: request.cdn_ttl,
            client_tll: request.client_tll,
        }),
{
    WarmUpCachBuilder::new().set_endpoint(endpoint).set_key(request.key.clone()).set_client_cache_seconds(
        request.client_tll,
    ).set_cdn_cache_seconds(request.cdn_ttl)
}

/// The outcome of a message whose request was handed to the table: stored
/// when the write succeeded, failed otherwise.
pub fn store_outcome(written: bool) -> (r: RecordOutcome)
    ensures
        r == (if written { RecordOutcome::Stored } else { RecordOutcome::StoreFailed }),
{
    if written {
        RecordOutcome::Stored
    } else {
        RecordOutcome::StoreFailed
    }
}

/// The handler's reply: the messages whose request could not be stored.
pub fn batch_item_failures(outcomes: &Vec<(String, RecordOutcome)>) -> (r: BatchItemFailures)
    ensures
        r@ == failed_ids(outcomes_view(outcomes@)),
{
    let ghost all = outcomes_view(outcomes@);
    let mut failures: Vec<ItemIdentifier> = Vec::new();
    let mut i: usize = 0;
    assert(all.take(0) =~= Seq::<(Seq<char>, RecordOutcome)>::empty());
    while i < outcomes.len()
        invariant
            i <= outcomes.len(),
            all == outcomes_view(outcomes@),
            failures@.map_values(|f: ItemIdentifier| f.item_identifier@) == failed_ids(all.take(i as int)),
        decreases outcomes.len() - i,
    {
        assert(all.take(i + 1).drop_last() =~= all.take(i as int));
        if outcomes[i].1 == RecordOutcome::StoreFailed {
            failures.push(ItemIdentifier { item_identifier: outcomes[i].0.clone() });
        }
        assert(failures@.map_values(|f: ItemIdentifier| f.item_identifier@) =~= failed_ids(
            all.take(i + 1),
        ));
        i = i + 1;
    }
    assert(all.take(i as int) =~= all);
    BatchItemFailures { batch_item_failures: failures }
}

} // verus!
