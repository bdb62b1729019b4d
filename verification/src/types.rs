//! The value objects of the protocol: order sides and kinds, identifiers,
//! symbols.

use crate::codec::{
    doc_u64, doc_usize, json_of_u64, lemma_u64_doc_round_trip, member_decodes, member_is,
    optional_member_decodes, optional_member_is, read_member, read_optional_member, read_u64,
    read_usize, u64_doc, Defaulted, FromJson, RoundTrip, ToJson,
};
use crate::json::{Doc, Json};
use crate::number::Number;
use vstd::prelude::*;
use vstd::std_specs::convert::FromSpecImpl;

verus! {

/// The side of an order. On the wire it is its number, from 0 for `Buy` to 5
/// for `SellStop`.
#[derive(Clone, Copy, Debug, PartialEq, Eq, Structural)]
pub enum OrderSide {
    Buy,
    Sell,
    BuyLimit,
    SellLimit,
    BuyStop,
    SellStop,
}

impl Default for OrderSide {
    fn default() -> (side: OrderSide)
        ensures
            side == OrderSide::Buy,
    {
        OrderSide::Buy
    }
}

impl OrderSide {
    /// The number of the side on the wire.
    pub open spec fn code(self) -> u64 {
        match self {
            OrderSide::Buy => 0,
            OrderSide::Sell => 1,
            OrderSide::BuyLimit => 2,
            OrderSide::SellLimit => 3,
            OrderSide::BuyStop => 4,
            OrderSide::SellStop => 5,
        }
    }

    /// The side of a number on the wire.
    pub open spec fn of_code(code: u64) -> Option<OrderSide> {
        if code == 0 {
            Some(OrderSide::Buy)
        } else if code == 1 {
            Some(OrderSide::Sell)
        } else if code == 2 {
            Some(OrderSide::BuyLimit)
        } else if code == 3 {
            Some(OrderSide::SellLimit)
        } else if code == 4 {
            Some(OrderSide::BuyStop)
        } else if code == 5 {
            Some(OrderSide::SellStop)
        } else {
            None
        }
    }

    /// The number of the side on the wire.
    pub fn to_code(&self) -> (code: u64)
        ensures
            code == self.code(),
    {
        match self {
            OrderSide::Buy => 0,
            OrderSide::Sell => 1,
            OrderSide::BuyLimit => 2,
            OrderSide::SellLimit => 3,
            OrderSide::BuyStop => 4,
            OrderSide::SellStop => 5,
        }
    }

    /// The side of a number on the wire; `None` if no side has that number.
    pub fn from_code(code: u64) -> (side: Option<OrderSide>)
        ensures
            side == OrderSide::of_code(code),
    {
        if code == 0 {
            Some(OrderSide::Buy)
        } else if code == 1 {
            Some(OrderSide::Sell)
        } else if code == 2 {
            Some(OrderSide::BuyLimit)
        } else if code == 3 {
            Some(OrderSide::SellLimit)
        } else if code == 4 {
            Some(OrderSide::BuyStop)
        } else if code == 5 {
            Some(OrderSide::SellStop)
        } else {
            None
        }
    }
}

impl ToJson for OrderSide {
    open spec fn doc(&self) -> Doc {
        u64_doc(self.code())
    }

    fn to_json(&self) -> (json: Json) {
        json_of_u64(self.to_code())
    }
}

impl FromJson for OrderSide {
    open spec fn decodes(doc: Doc) -> bool {
        doc_u64(doc) matches Some(code) && OrderSide::of_code(code) is Some
    }

    open spec fn is_value_of(&self, doc: Doc) -> bool {
        doc_u64(doc) == Some(self.code())
    }

    fn from_json(json: &Json) -> (value: Option<OrderSide>) {
        match read_u64(json) {
            Some(code) => OrderSide::from_code(code),
            None => None,
        }
    }
}

/// The kind of an order. On the wire it is its number, from 0 for `Open` to
/// 4 for `Delete`.
#[derive(Clone, Copy, Debug, PartialEq, Eq, Structural)]
pub enum OrderType {
    Open,
    Pending,
    Close,
    Modify,
    Delete,
}

impl Default for OrderType {
    fn default() -> (kind: OrderType)
        ensures
            kind == OrderType::Open,
    {
        OrderType::Open
    }
}

impl OrderType {
    /// The number of the kind on the wire.
    pub open spec fn code(self) -> u64 {
        match self {
            OrderType::Open => 0,
            OrderType::Pending => 1,
            OrderType::Close => 2,
            OrderType::Modify => 3,
            OrderType::Delete => 4,
        }
    }

    /// The kind of a number on the wire.
    pub open spec fn of_code(code: u64) -> Option<OrderType> {
        if code == 0 {
            Some(OrderType::Open)
        } else if code == 1 {
            Some(OrderType::Pending)
        } else if code == 2 {
            Some(OrderType::Close)
        } else if code == 3 {
            Some(OrderType::Modify)
        } else if code == 4 {
            Some(OrderType::Delete)
        } else {
            None
        }
    }

    /// The number of the kind on the wire.
    pub fn to_code(&self) -> (code: u64)
        ensures
            code == self.code(),
    {
        match self {
            OrderType::Open => 0,
            OrderType::Pending => 1,
            OrderType::Close => 2,
            OrderType::Modify => 3,
            OrderType::Delete => 4,
        }
    }

    /// The kind of a number on the wire; `None` if no kind has that number.
    pub fn from_code(code: u64) -> (kind: Option<OrderType>)
        ensures
            kind == OrderType::of_code(code),
    {
        if code == 0 {
            Some(OrderType::Open)
        } else if code == 1 {
            Some(OrderType::Pending)
        } else if code == 2 {
            Some(OrderType::Close)
        } else if code == 3 {
            Some(OrderType::Modify)
        } else if code == 4 {
            Some(OrderType::Delete)
        } else {
            None
        }
    }
}

impl ToJson for OrderType {
    open spec fn doc(&self) -> Doc {
        u64_doc(self.code())
    }

    fn to_json(&self) -> (json: Json) {
        json_of_u64(self.to_code())
    }
}

impl FromJson for OrderType {
    open spec fn decodes(doc: Doc) -> bool {
        doc_u64(doc) matches Some(code) && OrderType::of_code(code) is Some
    }

    open spec fn is_value_of(&self, doc: Doc) -> bool {
        doc_u64(doc) == Some(self.code())
    }

    fn from_json(json: &Json) -> (value: Option<OrderType>) {
        match read_u64(json) {
            Some(code) => OrderType::from_code(code),
            None => None,
        }
    }
}

/// The identifier of an order.
#[derive(Clone, Copy, Debug, PartialEq, Eq, Structural)]
pub struct OrderId(pub usize);

impl Default for OrderId {
    fn default() -> (id: OrderId)
        ensures
            id == OrderId(0),
    {
        OrderId(0)
    }
}

impl From<usize> for OrderId {
    fn from(value: usize) -> (id: OrderId) {
        OrderId(value)
    }
}

impl FromSpecImpl<usize> for OrderId {
    open spec fn obeys_from_spec() -> bool {
        true
    }

    open spec fn from_spec(value: usize) -> OrderId {
        OrderId(value)
    }
}

impl From<OrderId> for usize {
    fn from(id: OrderId) -> (value: usize) {
        id.0
    }
}

impl FromSpecImpl<OrderId> for usize {
    open spec fn obeys_from_spec() -> bool {
        true
    }

    open spec fn from_spec(id: OrderId) -> usize {
        id.0
    }
}

impl ToJson for OrderId {
    open spec fn doc(&self) -> Doc {
        u64_doc(self.0 as u64)
    }

    fn to_json(&self) -> (json: Json) {
        json_of_u64(self.0 as u64)
    }
}

impl FromJson for OrderId {
    open spec fn decodes(doc: Doc) -> bool {
        doc_usize(doc) is Some
    }

    open spec fn is_value_of(&self, doc: Doc) -> bool {
        doc_usize(doc) == Some(self.0)
    }

    fn from_json(json: &Json) -> (value: Option<OrderId>) {
        match read_usize(json) {
            Some(n) => Some(OrderId(n)),
            None => None,
        }
    }
}

/// The identifier of a position.
#[derive(Clone, Copy, Debug, PartialEq, Eq, Structural)]
pub struct PositionId(pub usize);

impl Default for PositionId {
    fn default() -> (id: PositionId)
        ensures
            id == PositionId(0),
    {
        PositionId(0)
    }
}

impl From<usize> for PositionId {
    fn from(value: usize) -> (id: PositionId) {
        PositionId(value)
    }
}

impl FromSpecImpl<usize> for PositionId {
    open spec fn obeys_from_spec() -> bool {
        true
    }

    open spec fn from_spec(value: usize) -> PositionId {
        PositionId(value)
    }
}

impl From<PositionId> for usize {
    fn from(id: PositionId) -> (value: usize) {
        id.0
    }
}

impl FromSpecImpl<PositionId> for usize {
    open spec fn obeys_from_spec() -> bool {
        true
    }

    open spec fn from_spec(id: PositionId) -> usize {
        id.0
    }
}

impl ToJson for PositionId {
    open spec fn doc(&self) -> Doc {
        u64_doc(self.0 as u64)
    }

    fn to_json(&self) -> (json: Json) {
        json_of_u64(self.0 as u64)
    }
}

impl FromJson for PositionId {
    open spec fn decodes(doc: Doc) -> bool {
        doc_usize(doc) is Some
    }

    open spec fn is_value_of(&self, doc: Doc) -> bool {
        doc_usize(doc) == Some(self.0)
    }

    fn from_json(json: &Json) -> (value: Option<PositionId>) {
        match read_usize(json) {
            Some(n) => Some(PositionId(n)),
            None => None,
        }
    }
}

/// The name of an instrument, such as `EURUSD`.
#[derive(Debug, PartialEq, Eq)]
pub struct Symbol(pub String);

impl View for Symbol {
    type V = Seq<char>;

    open spec fn view(&self) -> Seq<char> {
        self.0@
    }
}

impl Symbol {
    /// The symbol of the given name.
    pub fn new(symbol: &str) -> (made: Symbol)
        ensures
            made@ == symbol@,
    {
        Symbol(symbol.to_owned())
    }
}

impl From<&str> for Symbol {
    fn from(value: &str) -> (made: Symbol)
        ensures
            made@ == value@,
    {
        Symbol(value.to_owned())
    }
}

impl FromSpecImpl<&str> for Symbol {
    /// The conversion allocates, so its result is stated by view, on `from`.
    open spec fn obeys_from_spec() -> bool {
        false
    }

    open spec fn from_spec(value: &str) -> Symbol {
        arbitrary()
    }
}

impl From<String> for Symbol {
    fn from(value: String) -> (made: Symbol) {
        Symbol(value)
    }
}

impl FromSpecImpl<String> for Symbol {
    open spec fn obeys_from_spec() -> bool {
        true
    }

    open spec fn from_spec(value: String) -> Symbol {
        Symbol(value)
    }
}

impl RoundTrip for OrderSide {
    open spec fn same(&self, other: &OrderSide) -> bool {
        *self == *other
    }

    proof fn lemma_round_trip(&self, read: &OrderSide) {
        lemma_u64_doc_round_trip(self.code());
    }
}

impl RoundTrip for OrderType {
    open spec fn same(&self, other: &OrderType) -> bool {
        *self == *other
    }

    proof fn lemma_round_trip(&self, read: &OrderType) {
        lemma_u64_doc_round_trip(self.code());
    }
}

impl RoundTrip for OrderId {
    open spec fn same(&self, other: &OrderId) -> bool {
        *self == *other
    }

    proof fn lemma_round_trip(&self, read: &OrderId) {
        lemma_u64_doc_round_trip(self.0 as u64);
    }
}

impl RoundTrip for PositionId {
    open spec fn same(&self, other: &PositionId) -> bool {
        *self == *other
    }

    proof fn lemma_round_trip(&self, read: &PositionId) {
        lemma_u64_doc_round_trip(self.0 as u64);
    }
}

impl Defaulted for OrderSide {
    open spec fn is_default(&self) -> bool {
        *self == OrderSide::Buy
    }

    fn default_value() -> (value: OrderSide) {
        OrderSide::Buy
    }
}

impl Defaulted for OrderType {
    open spec fn is_default(&self) -> bool {
        *self == OrderType::Open
    }

    fn default_value() -> (value: OrderType) {
        OrderType::Open
    }
}

impl Defaulted for OrderId {
    open spec fn is_default(&self) -> bool {
        self.0 == 0
    }

    fn default_value() -> (value: OrderId) {
        OrderId(0)
    }
}

impl Defaulted for PositionId {
    open spec fn is_default(&self) -> bool {
        self.0 == 0
    }

    fn default_value() -> (value: PositionId) {
        PositionId(0)
    }
}

/// A trade as the server reports it. Every member may be left out of the
/// document; a member left out takes its default: zero, `0.0`, `false`, the
/// empty text, `Buy`, `Open`, or nothing for a member that may be `null`.
#[derive(Clone, Debug)]
pub struct TradeRecord {
    pub close_price: Number,
    pub close_time: Option<u64>,
    pub close_time_string: Option<String>,
    pub closed: bool,
    pub side: OrderSide,
    pub comment: Option<String>,
    pub commission: Number,
    pub custom_comment: Option<String>,
    pub digits: usize,
    pub expiration: Option<u64>,
    pub expiration_string: Option<String>,
    pub margin_rate: Number,
    pub offset: u64,
    pub open_price: Number,
    pub open_time: Option<u64>,
    pub open_time_string: Option<String>,
    pub order: Option<OrderId>,
    pub order2: OrderId,
    pub position: PositionId,
    pub profit: Option<Number>,
    pub sl: Number,
    pub storage: Number,
    pub symbol: String,
    pub timestamp: u64,
    pub tp: Number,
    pub volume: Number,
    pub kind: OrderType,
    pub nominal_value: Option<Number>,
    pub spread: usize,
    pub taxes: Number,
    pub state: String,
}

impl FromJson for TradeRecord {
    open spec fn decodes(doc: Doc) -> bool {
        &&& doc is Object
        &&& optional_member_decodes::<Number>(doc, "close_price"@)
        &&& optional_member_decodes::<Option<u64>>(doc, "close_time"@)
        &&& optional_member_decodes::<Option<String>>(doc, "close_timeString"@)
        &&& optional_member_decodes::<bool>(doc, "closed"@)
        &&& optional_member_decodes::<OrderSide>(doc, "cmd"@)
        &&& optional_member_decodes::<Option<String>>(doc, "comment"@)
        &&& optional_member_decodes::<Number>(doc, "commission"@)
        &&& optional_member_decodes::<Option<String>>(doc, "customComment"@)
        &&& optional_member_decodes::<usize>(doc, "digits"@)
        &&& optional_member_decodes::<Option<u64>>(doc, "expiration"@)
        &&& optional_member_decodes::<Option<String>>(doc, "expirationString"@)
        &&& optional_member_decodes::<Number>(doc, "margin_rate"@)
        &&& optional_member_decodes::<u64>(doc, "offset"@)
        &&& optional_member_decodes::<Number>(doc, "open_price"@)
        &&& optional_member_decodes::<Option<u64>>(doc, "open_time"@)
        &&& optional_member_decodes::<Option<String>>(doc, "open_timeString"@)
        &&& optional_member_decodes::<Option<OrderId>>(doc, "order"@)
        &&& optional_member_decodes::<OrderId>(doc, "order2"@)
        &&& optional_member_decodes::<PositionId>(doc, "position"@)
        &&& optional_member_decodes::<Option<Number>>(doc, "profit"@)
        &&& optional_member_decodes::<Number>(doc, "sl"@)
        &&& optional_member_decodes::<Number>(doc, "storage"@)
        &&& optional_member_decodes::<String>(doc, "symbol"@)
        &&& optional_member_decodes::<u64>(doc, "timestamp"@)
        &&& optional_member_decodes::<Number>(doc, "tp"@)
        &&& optional_member_decodes::<Number>(doc, "volume"@)
        &&& optional_member_decodes::<OrderType>(doc, "type"@)
        &&& optional_member_decodes::<Option<Number>>(doc, "nominalValue"@)
        &&& optional_member_decodes::<usize>(doc, "spread"@)
        &&& optional_member_decodes::<Number>(doc, "taxes"@)
        &&& optional_member_decodes::<String>(doc, "state"@)
    }

    open spec fn is_value_of(&self, doc: Doc) -> bool {
        &&& optional_member_is(self.close_price, doc, "close_price"@)
        &&& optional_member_is(self.close_time, doc, "close_time"@)
        &&& optional_member_is(self.close_time_string, doc, "close_timeString"@)
        &&& optional_member_is(self.closed, doc, "closed"@)
        &&& optional_member_is(self.side, doc, "cmd"@)
        &&& optional_member_is(self.comment, doc, "comment"@)
        &&& optional_member_is(self.commission, doc, "commission"@)
        &&& optional_member_is(self.custom_comment, doc, "customComment"@)
        &&& optional_member_is(self.digits, doc, "digits"@)
        &&& optional_member_is(self.expiration, doc, "expiration"@)
        &&& optional_member_is(self.expiration_string, doc, "expirationString"@)
        &&& optional_member_is(self.margin_rate, doc, "margin_rate"@)
        &&& optional_member_is(self.offset, doc, "offset"@)
        &&& optional_member_is(self.open_price, doc, "open_price"@)
        &&& optional_member_is(self.open_time, doc, "open_time"@)
        &&& optional_member_is(self.open_time_string, doc, "open_timeString"@)
        &&& optional_member_is(self.order, doc, "order"@)
        &&& optional_member_is(self.order2, doc, "order2"@)
        &&& optional_member_is(self.position, doc, "position"@)
        &&& optional_member_is(self.profit, doc, "profit"@)
        &&& optional_member_is(self.sl, doc, "sl"@)
        &&& optional_member_is(self.storage, doc, "storage"@)
        &&& optional_member_is(self.symbol, doc, "symbol"@)
        &&& optional_member_is(self.timestamp, doc, "timestamp"@)
        &&& optional_member_is(self.tp, doc, "tp"@)
        &&& optional_member_is(self.volume, doc, "volume"@)
        &&& optional_member_is(self.kind, doc, "type"@)
        &&& optional_member_is(self.nominal_value, doc, "nominalValue"@)
        &&& optional_member_is(self.spread, doc, "spread"@)
        &&& optional_member_is(self.taxes, doc, "taxes"@)
        &&& optional_member_is(self.state, doc, "state"@)
    }

    fn from_json(json: &Json) -> (value: Option<TradeRecord>) {
        if !json.is_object() {
            return None;
        }
        let close_price: Number = read_optional_member(json, "close_price")?;
        let close_time: Option<u64> = read_optional_member(json, "close_time")?;
        let close_time_string: Option<String> = read_optional_member(json, "close_timeString")?;
        let closed: bool = read_optional_member(json, "closed")?;
        let side: OrderSide = read_optional_member(json, "cmd")?;
        let comment: Option<String> = read_optional_member(json, "comment")?;
        let commission: Number = read_optional_member(json, "commission")?;
        let custom_comment: Option<String> = read_optional_member(json, "customComment")?;
        let digits: usize = read_optional_member(json, "digits")?;
        let expiration: Option<u64> = read_optional_member(json, "expiration")?;
        let expiration_string: Option<String> = read_optional_member(json, "expirationString")?;
        let margin_rate: Number = read_optional_member(json, "margin_rate")?;
        let offset: u64 = read_optional_member(json, "offset")?;
        let open_price: Number = read_optional_member(json, "open_price")?;
        let open_time: Option<u64> = read_optional_member(json, "open_time")?;
        let open_time_string: Option<String> = read_optional_member(json, "open_timeString")?;
        let order: Option<OrderId> = read_optional_member(json, "order")?;
        let order2: OrderId = read_optional_member(json, "order2")?;
        let position: PositionId = read_optional_member(json, "position")?;
        let profit: Option<Number> = read_optional_member(json, "profit")?;
        let sl: Number = read_optional_member(json, "sl")?;
        let storage: Number = read_optional_member(json, "storage")?;
        let symbol: String = read_optional_member(json, "symbol")?;
        let timestamp: u64 = read_optional_member(json, "timestamp")?;
        let tp: Number = read_optional_member(json, "tp")?;
        let volume: Number = read_optional_member(json, "volume")?;
        let kind: OrderType = read_optional_member(json, "type")?;
        let nominal_value: Option<Number> = read_optional_member(json, "nominalValue")?;
        let spread: usize = read_optional_member(json, "spread")?;
        let taxes: Number = read_optional_member(json, "taxes")?;
        let state: String = read_optional_member(json, "state")?;
        Some(TradeRecord {
            close_price,
            close_time,
            close_time_string,
            closed,
            side,
            comment,
            commission,
            custom_comment,
            digits,
            expiration,
            expiration_string,
            margin_rate,
            offset,
            open_price,
            open_time,
            open_time_string,
            order,
            order2,
            position,
            profit,
            sl,
            storage,
            symbol,
            timestamp,
            tp,
            volume,
            kind,
            nominal_value,
            spread,
            taxes,
            state,
        })
    }
}

/// The balance of the account as the server reports it. Every member is
/// required.
#[derive(Clone, Debug)]
pub struct BalanceRecord {
    pub balance: Number,
    pub credit: Number,
    pub equity: Number,
    pub margin: Number,
    pub margin_free: Number,
    pub margin_level: Number,
}

impl FromJson for BalanceRecord {
    open spec fn decodes(doc: Doc) -> bool {
        &&& doc is Object
        &&& member_decodes::<Number>(doc, "balance"@)
        &&& member_decodes::<Number>(doc, "credit"@)
        &&& member_decodes::<Number>(doc, "equity"@)
        &&& member_decodes::<Number>(doc, "margin"@)
        &&& member_decodes::<Number>(doc, "marginFree"@)
        &&& member_decodes::<Number>(doc, "marginLevel"@)
    }

    open spec fn is_value_of(&self, doc: Doc) -> bool {
        &&& member_is(self.balance, doc, "balance"@)
        &&& member_is(self.credit, doc, "credit"@)
        &&& member_is(self.equity, doc, "equity"@)
        &&& member_is(self.margin, doc, "margin"@)
        &&& member_is(self.margin_free, doc, "marginFree"@)
        &&& member_is(self.margin_level, doc, "marginLevel"@)
    }

    fn from_json(json: &Json) -> (value: Option<BalanceRecord>) {
        if !json.is_object() {
            return None;
        }
        let balance: Number = read_member(json, "balance")?;
        let credit: Number = read_member(json, "credit")?;
        let equity: Number = read_member(json, "equity")?;
        let margin: Number = read_member(json, "margin")?;
        let margin_free: Number = read_member(json, "marginFree")?;
        let margin_level: Number = read_member(json, "marginLevel")?;
        Some(BalanceRecord {
            balance,
            credit,
            equity,
            margin,
            margin_free,
            margin_level,
        })
    }
}

impl Default for TradeRecord {
    /// The record whose every member has its default: what an empty object
    /// denotes.
    fn default() -> (record: TradeRecord)
        ensures
            record.close_price.is_default(),
            record.close_time.is_default(),
            record.close_time_string.is_default(),
            record.closed.is_default(),
            record.side.is_default(),
            record.comment.is_default(),
            record.commission.is_default(),
            record.custom_comment.is_default(),
            record.digits.is_default(),
            record.expiration.is_default(),
            record.expiration_string.is_default(),
            record.margin_rate.is_default(),
            record.offset.is_default(),
            record.open_price.is_default(),
            record.open_time.is_default(),
            record.open_time_string.is_default(),
            record.order.is_default(),
            record.order2.is_default(),
            record.position.is_default(),
            record.profit.is_default(),
            record.sl.is_default(),
            record.storage.is_default(),
            record.symbol.is_default(),
            record.timestamp.is_default(),
            record.tp.is_default(),
            record.volume.is_default(),
            record.kind.is_default(),
            record.nominal_value.is_default(),
            record.spread.is_default(),
            record.taxes.is_default(),
            record.state.is_default(),
    {
        TradeRecord {
            close_price: Defaulted::default_value(),
            close_time: Defaulted::default_value(),
            close_time_string: Defaulted::default_value(),
            closed: Defaulted::default_value(),
            side: Defaulted::default_value(),
            comment: Defaulted::default_value(),
            commission: Defaulted::default_value(),
            custom_comment: Defaulted::default_value(),
            digits: Defaulted::default_value(),
            expiration: Defaulted::default_value(),
            expiration_string: Defaulted::default_value(),
            margin_rate: Defaulted::default_value(),
            offset: Defaulted::default_value(),
            open_price: Defaulted::default_value(),
            open_time: Defaulted::default_value(),
            open_time_string: Defaulted::default_value(),
            order: Defaulted::default_value(),
            order2: Defaulted::default_value(),
            position: Defaulted::default_value(),
            profit: Defaulted::default_value(),
            sl: Defaulted::default_value(),
            storage: Defaulted::default_value(),
            symbol: Defaulted::default_value(),
            timestamp: Defaulted::default_value(),
            tp: Defaulted::default_value(),
            volume: Defaulted::default_value(),
            kind: Defaulted::default_value(),
            nominal_value: Defaulted::default_value(),
            spread: Defaulted::default_value(),
            taxes: Defaulted::default_value(),
            state: Defaulted::default_value(),
        }
    }
}

impl Default for BalanceRecord {
    /// The record of an account without funds.
    fn default() -> (record: BalanceRecord)
        ensures
            record.balance.is_default(),
            record.credit.is_default(),
            record.equity.is_default(),
            record.margin.is_default(),
            record.margin_free.is_default(),
            record.margin_level.is_default(),
    {
        BalanceRecord {
            balance: Defaulted::default_value(),
            credit: Defaulted::default_value(),
            equity: Defaulted::default_value(),
            margin: Defaulted::default_value(),
            margin_free: Defaulted::default_value(),
            margin_level: Defaulted::default_value(),
        }
    }
}

/// An object without members is a trade, and it is the one whose every
/// member has its default.
pub proof fn lemma_empty_object_is_default_trade(record: TradeRecord)
    requires
        record.is_value_of(Doc::Object(Map::empty())),
    ensures
        TradeRecord::decodes(Doc::Object(Map::empty())),
        record.close_price@ == "0.0"@,
        record.close_time is None,
        record.closed == false,
        record.side == OrderSide::Buy,
        record.order is None,
        record.order2 == OrderId(0),
        record.position == PositionId(0),
        record.profit is None,
        record.symbol@.len() == 0,
        record.volume@ == "0.0"@,
        record.kind == OrderType::Open,
{
}

} // verus!
