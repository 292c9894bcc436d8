//! Normalised market data streams from cryptocurrency exchanges: the subscription
//! identifiers, channel and market names, subscription requests and response checks
//! of each supported exchange.

pub mod endpoint;
pub mod error;
pub mod exchange;
pub mod model;
pub mod stream;
pub mod text;
pub mod time;

use vstd::prelude::*;

verus! {

/// Something that can derive an identifier of kind `T` from itself.
pub trait Identifier<T> {
    /// Whether `id` is the identifier of `self`.
    spec fn identifies(&self, id: T) -> bool;

    fn id(&self) -> (r: T)
        ensures
            self.identifies(r),
    ;
}

} // verus!
