//! Reading the order book of a token: its best price on a side and the
//! top and depth of each side.

use vstd::prelude::*;

use crate::types::{BookEntry, OrderBook, OrderSide};

verus! {

/// The side of the book an order on `side` is filled from: a buy takes
/// the asks, a sell takes the bids.
pub open spec fn opposite_levels(book: OrderBook, side: OrderSide) -> Seq<BookEntry> {
    match side {
        OrderSide::Buy => book.asks@,
        OrderSide::Sell => book.bids@,
    }
}

/// The price and size of the first level of the side of `book` an order
/// on `side` is filled from, or nothing when that side is empty.
pub fn best_price(order_book: &OrderBook, side: OrderSide) -> (r: (Option<String>, Option<String>))
    ensures
        opposite_levels(*order_book, side).len() == 0 ==> r.0 is None && r.1 is None,
        opposite_levels(*order_book, side).len() > 0 ==> {
            let best = opposite_levels(*order_book, side)[0];
            &&& r.0 matches Some(p) && p@ == best.price@
            &&& r.1 matches Some(s) && s@ == best.size@
        },
{
    let levels = match side {
        OrderSide::Buy => &order_book.asks,
        OrderSide::Sell => &order_book.bids,
    };
    if levels.len() == 0 {
        (None, None)
    } else {
        (Some(levels[0].price.clone()), Some(levels[0].size.clone()))
    }
}

/// The price of the first level of `levels`, if any.
pub open spec fn top_price(levels: Seq<BookEntry>) -> Option<Seq<char>> {
    if levels.len() == 0 {
        None
    } else {
        Some(levels[0].price@)
    }
}

/// The views of an optional string slice.
pub open spec fn opt_view(o: Option<&str>) -> Option<Seq<char>> {
    match o {
        Some(s) => Some(s@),
        None => None,
    }
}

/// The best bid, the best ask, and the number of bid and ask levels of
/// `order_book`.
pub fn order_book_levels(order_book: &OrderBook) -> (r: (Option<&str>, Option<&str>, usize, usize))
    ensures
        opt_view(r.0) == top_price(order_book.bids@),
        opt_view(r.1) == top_price(order_book.asks@),
        r.2 == order_book.bids@.len(),
        r.3 == order_book.asks@.len(),
{
    let best_bid = if order_book.bids.len() == 0 {
        None
    } else {
        Some(order_book.bids[0].price.as_str())
    };
    let best_ask = if order_book.asks.len() == 0 {
        None
    } else {
        Some(order_book.asks[0].price.as_str())
    };
    (best_bid, best_ask, order_book.bids.len(), order_book.asks.len())
}

} // verus!
