//! Market provider records.

use vstd::prelude::*;

verus! {

/// A market provider (exchange, broker or data vendor).
#[derive(Debug, Clone, PartialEq)]
pub struct MarketProvider {
    /// Provider id.
    pub id: u16,
    /// Provider name.
    pub name: String,
}

} // verus!
