//! The price resource.

use vstd::prelude::*;

verus! {

/// A price that can be billed on a subscription, resulting in a charge on an
/// invoice in the form of an invoice line item.
///
/// Only the identifiers are modelled. The remote service reports further
/// fields, which this record does not keep.
#[derive(Debug, Clone, PartialEq, Eq, Hash)]
pub struct Price {
    /// The unique identifier for the price.
    pub id: String,
    /// The external identifier for the price, where the caller gave one.
    pub external_price_id: Option<String>,
}

/// The mathematical value of a [`Price`].
pub struct PriceView {
    pub id: Seq<char>,
    pub external_price_id: Option<Seq<char>>,
}

impl View for Price {
    type V = PriceView;

    open spec fn view(&self) -> PriceView {
        PriceView {
            id: self.id@,
            external_price_id: match self.external_price_id {
                Some(s) => Some(s@),
                None => None,
            },
        }
    }
}

} // verus!
