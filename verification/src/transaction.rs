//! Trade transactions, and the three that a symbol offers: buy, sell and
//! close.

use crate::number::Number;
use crate::types::{OrderId, OrderSide, OrderType, PositionId, Symbol};
use vstd::prelude::*;

verus! {

/// What a trade transaction asks for.
#[derive(Debug)]
pub struct Transaction<'a> {
    pub kind: Option<OrderType>,
    pub side: Option<OrderSide>,
    pub symbol: Option<&'a str>,
    pub order: OrderId,
    pub volume: Number,
    pub comment: Option<&'a str>,
    pub typ: usize,
    pub expiration: u64,
    pub offset: usize,
    pub tp: Number,
    pub sl: Number,
    pub price: Number,
}

/// The model of a transaction.
pub struct TransactionView {
    pub kind: Option<OrderType>,
    pub side: Option<OrderSide>,
    pub symbol: Option<Seq<char>>,
    pub order: OrderId,
    pub volume: Seq<char>,
    pub comment: Option<Seq<char>>,
    pub typ: usize,
    pub expiration: u64,
    pub offset: usize,
    pub tp: Seq<char>,
    pub sl: Seq<char>,
    pub price: Seq<char>,
}

/// The view of an optional text.
pub open spec fn optional_text(text: Option<&str>) -> Option<Seq<char>> {
    match text {
        Some(t) => Some(t@),
        None => None,
    }
}

impl<'a> View for Transaction<'a> {
    type V = TransactionView;

    open spec fn view(&self) -> TransactionView {
        TransactionView {
            kind: self.kind,
            side: self.side,
            symbol: optional_text(self.symbol),
            order: self.order,
            volume: self.volume@,
            comment: optional_text(self.comment),
            typ: self.typ,
            expiration: self.expiration,
            offset: self.offset,
            tp: self.tp@,
            sl: self.sl@,
            price: self.price@,
        }
    }
}

/// The transaction of the given kind and side on a symbol, with every other
/// field at its default.
pub open spec fn plain_transaction(
    symbol: Seq<char>,
    kind: OrderType,
    side: OrderSide,
    order: OrderId,
    volume: Seq<char>,
) -> TransactionView {
    TransactionView {
        kind: Some(kind),
        side: Some(side),
        symbol: Some(symbol),
        order,
        volume,
        comment: None,
        typ: 0,
        expiration: 0,
        offset: 0,
        tp: "0.0"@,
        sl: "0.0"@,
        price: "0.0"@,
    }
}

impl<'a> Default for Transaction<'a> {
    fn default() -> (transaction: Transaction<'a>)
        ensures
            transaction@ == (TransactionView {
                kind: None,
                side: None,
                symbol: None,
                order: OrderId(0),
                volume: "0.0"@,
                comment: None,
                typ: 0,
                expiration: 0,
                offset: 0,
                tp: "0.0"@,
                sl: "0.0"@,
                price: "0.0"@,
            }),
    {
        Transaction {
            kind: None,
            side: None,
            symbol: None,
            order: OrderId(0),
            volume: Number::zero(),
            comment: None,
            typ: 0,
            expiration: 0,
            offset: 0,
            tp: Number::zero(),
            sl: Number::zero(),
            price: Number::zero(),
        }
    }
}

impl Symbol {
    /// The transaction that opens a buy position of the volume on the symbol.
    pub fn buy(&self, volume: Number) -> (transaction: Transaction<'_>)
        ensures
            transaction@ == plain_transaction(
                self@,
                OrderType::Open,
                OrderSide::Buy,
                OrderId(0),
                volume@,
            ),
    {
        Transaction {
            kind: Some(OrderType::Open),
            side: Some(OrderSide::Buy),
            symbol: Some(self.0.as_str()),
            order: OrderId(0),
            volume,
            comment: None,
            typ: 0,
            expiration: 0,
            offset: 0,
            tp: Number::zero(),
            sl: Number::zero(),
            price: Number::zero(),
        }
    }

    /// The transaction that opens a sell position of the volume on the
    /// symbol.
    pub fn sell(&self, volume: Number) -> (transaction: Transaction<'_>)
        ensures
            transaction@ == plain_transaction(
                self@,
                OrderType::Open,
                OrderSide::Sell,
                OrderId(0),
                volume@,
            ),
    {
        Transaction {
            kind: Some(OrderType::Open),
            side: Some(OrderSide::Sell),
            symbol: Some(self.0.as_str()),
            order: OrderId(0),
            volume,
            comment: None,
            typ: 0,
            expiration: 0,
            offset: 0,
            tp: Number::zero(),
            sl: Number::zero(),
            price: Number::zero(),
        }
    }

    /// The transaction that closes the volume of a position on the symbol.
    /// It names the position as its order.
    pub fn close(&self, position: PositionId, volume: Number) -> (transaction: Transaction<'_>)
        ensures
            transaction@ == plain_transaction(
                self@,
                OrderType::Close,
                OrderSide::Sell,
                OrderId(position.0),
                volume@,
            ),
    {
        Transaction {
            kind: Some(OrderType::Close),
            side: Some(OrderSide::Sell),
            symbol: Some(self.0.as_str()),
            order: OrderId(position.0),
            volume,
            comment: None,
            typ: 0,
            expiration: 0,
            offset: 0,
            tp: Number::zero(),
            sl: Number::zero(),
            price: Number::zero(),
        }
    }
}

} // verus!
