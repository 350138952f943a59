//! The reply of the set-cache handler: the messages to deliver again.

use vstd::prelude::*;

verus! {

/// The identifier of one message that failed.
#[derive(Debug, Clone, PartialEq, Eq)]
pub struct ItemIdentifier {
    pub item_identifier: String,
}

/// The messages of a batch that failed, so that the queue delivers them again.
#[derive(Debug, Clone, PartialEq, Eq)]
pub struct BatchItemFailures {
    pub batch_item_failures: Vec<ItemIdentifier>,
}

impl View for BatchItemFailures {
    type V = Seq<Seq<char>>;

    /// The identifiers, in order.
    open spec fn view(&self) -> Seq<Seq<char>> {
        self.batch_item_failures@.map_values(|i: ItemIdentifier| i.item_identifier@)
    }
}

} // verus!
