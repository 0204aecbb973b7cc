//! The serialized order-gateway protocol.
//!
//! A single gateway task owns the broker session and is the only writer of
//! broker-side order state.  Monitors hand it [`APIThreadReq`] values over a
//! channel, one reply channel per request; the gateway answers each request
//! with an [`APIThreadRes`] and then republishes the broker's authoritative
//! cash figure to the shared ledger.  The channel plumbing and the broker
//! calls live in the surrounding binary; this module holds the protocol
//! values and the gateway's own decision steps.

use vstd::prelude::*;

use crate::price::{cash_wf, MAX_QTY};

verus! {

/// An order a monitor asks the gateway to place.
#[derive(Clone)]
pub enum APIThreadReq {
    ApiBuyStock { symbol: String, quantity: usize },
    ApiSellStock { symbol: String, quantity: usize },
}

/// The gateway's reply to one request.
pub enum APIThreadRes {
    ApiProcessed,
    ApiError { error: String },
}

/// Which side of the book a broker order goes to.
#[derive(Clone, Copy, Debug, PartialEq, Eq, Structural)]
pub enum OrderSide {
    Buy,
    Sell,
}

/// The plain parameters of one market order, ready for the broker client.
pub struct BrokerOrder {
    pub symbol: String,
    pub side: OrderSide,
    pub quantity: usize,
}

impl APIThreadReq {
    /// A request is well-formed when its share count is a positive, bounded
    /// whole number.
    pub open spec fn wf(self) -> bool {
        match self {
            APIThreadReq::ApiBuyStock { quantity, .. } => 1 <= quantity <= MAX_QTY,
            APIThreadReq::ApiSellStock { quantity, .. } => 1 <= quantity <= MAX_QTY,
        }
    }

    /// The two requests name the same symbol, side and share count.
    pub open spec fn matches(self, other: APIThreadReq) -> bool {
        match (self, other) {
            (
                APIThreadReq::ApiBuyStock { symbol: s1, quantity: q1 },
                APIThreadReq::ApiBuyStock { symbol: s2, quantity: q2 },
            ) => s1@ == s2@ && q1 == q2,
            (
                APIThreadReq::ApiSellStock { symbol: s1, quantity: q1 },
                APIThreadReq::ApiSellStock { symbol: s2, quantity: q2 },
            ) => s1@ == s2@ && q1 == q2,
            _ => false,
        }
    }

    /// Turn a request into the market-order parameters the gateway places:
    /// a buy request becomes a buy order and a sell request a sell order,
    /// for the same symbol and share count.
    pub fn to_order(self) -> (o: BrokerOrder)
        ensures
            o.symbol@ == self.spec_symbol(),
            o.quantity == self.spec_quantity(),
            o.side == (if self is ApiBuyStock {
                OrderSide::Buy
            } else {
                OrderSide::Sell
            }),
    {
        match self {
            APIThreadReq::ApiBuyStock { symbol, quantity } => BrokerOrder {
                symbol,
                side: OrderSide::Buy,
                quantity,
            },
            APIThreadReq::ApiSellStock { symbol, quantity } => BrokerOrder {
                symbol,
                side: OrderSide::Sell,
                quantity,
            },
        }
    }

    pub open spec fn spec_symbol(self) -> Seq<char> {
        match self {
            APIThreadReq::ApiBuyStock { symbol, .. } => symbol@,
            APIThreadReq::ApiSellStock { symbol, .. } => symbol@,
        }
    }

    pub open spec fn spec_quantity(self) -> usize {
        match self {
            APIThreadReq::ApiBuyStock { quantity, .. } => quantity,
            APIThreadReq::ApiSellStock { quantity, .. } => quantity,
        }
    }
}

/// After every processed order the gateway re-fetches the broker's cash
/// figure and republishes it to the shared ledger.  A fetch that failed, or
/// reported a figure outside the ledger's range, leaves the ledger alone —
/// the ledger is never guessed at.
pub fn refresh_ledger(assets: &mut i64, fetched: Option<i64>)
    requires
        cash_wf(*old(assets)),
    ensures
        cash_wf(*final(assets)),
        match fetched {
            Some(v) => *final(assets) == (if cash_wf(v) {
                v
            } else {
                *old(assets)
            }),
            None => *final(assets) == *old(assets),
        },
{
    if let Some(v) = fetched {
        if 0 <= v && v <= crate::price::MAX_CASH {
            *assets = v;
        }
    }
}

} // verus!
