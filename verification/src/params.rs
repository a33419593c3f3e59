//! The filter a client subscribes with.
use vstd::prelude::*;

verus! {

/// The texts of a list of strings, in order.
pub open spec fn texts(strings: Seq<String>) -> Seq<Seq<char>> {
    strings.map_values(|s: String| s@)
}

/// The contract addresses a subscription asks for: one address or several.
#[derive(Debug, Clone, PartialEq, Eq)]
pub enum AddressRepresentation {
    Single(String),
    Multiple(Vec<String>),
}

/// Mathematical model of an [`AddressRepresentation`].
pub enum AddressFilter {
    Single(Seq<char>),
    Multiple(Seq<Seq<char>>),
}

impl View for AddressRepresentation {
    type V = AddressFilter;

    open spec fn view(&self) -> AddressFilter {
        match self {
            AddressRepresentation::Single(address) => AddressFilter::Single(address@),
            AddressRepresentation::Multiple(addresses) => AddressFilter::Multiple(
                texts(addresses@),
            ),
        }
    }
}

/// The raw filter of one subscription.
///
/// `address` is absent where logs of any address are wanted. `topics` is the
/// ordered list of topic filters, each in its textual form: a concrete topic
/// value or the wildcard. The engine never interprets either field; it hands
/// the parameters, unchanged, to query mediation for every block, and a
/// malformed entry is mediation's error.
#[derive(Debug, Clone, PartialEq, Eq)]
pub struct SubscribeParameters {
    pub address: Option<AddressRepresentation>,
    pub topics: Option<Vec<String>>,
}

/// Mathematical model of [`SubscribeParameters`].
pub struct SubscribeParametersView {
    pub address: Option<AddressFilter>,
    pub topics: Option<Seq<Seq<char>>>,
}

impl View for SubscribeParameters {
    type V = SubscribeParametersView;

    open spec fn view(&self) -> SubscribeParametersView {
        SubscribeParametersView {
            address: match self.address {
                Some(address) => Some(address@),
                None => None,
            },
            topics: match self.topics {
                Some(topics) => Some(texts(topics@)),
                None => None,
            },
        }
    }
}

} // verus!
