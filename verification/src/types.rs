//! Shared record shapes around the actor.

use vstd::prelude::*;

verus! {

/// The receipt an order placement is answered with.
#[derive(Clone, Debug)]
pub struct OrderResult {
    pub order_id: String,
    pub symbol: String,
    pub side: String,
    pub status: String,
}

} // verus!
