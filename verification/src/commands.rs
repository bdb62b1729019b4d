//! The commands that go to the server, the replies that come back, and the
//! events that the server streams.

use crate::codec::{
    json_object, json_of_number, json_of_str, json_of_u64, member_decodes, member_is, push_member,
    read_member, u64_doc, FromJson, RoundTrip, ToJson,
};
use crate::json::{members_map, Doc, Json, Member};
use crate::number::Number;
use crate::text::str_eq;
use crate::transaction::{Transaction, TransactionView};
use crate::types::{BalanceRecord, OrderId, OrderSide, OrderType, PositionId, TradeRecord};
use vstd::prelude::*;

verus! {

/// Marks what can be sent as a command.
pub trait Command {

}

/// Marks what can come back as a reply.
pub trait CResponse {

}

/// A command: its name and its arguments.
pub struct BaseCommand<S: ToJson> {
    pub command: &'static str,
    pub arguments: S,
}

impl<S: ToJson> Command for BaseCommand<S> {

}

/// The document of a command of the given name and arguments.
pub open spec fn command_doc(name: Seq<char>, arguments: Doc) -> Doc {
    Doc::Object(Map::empty().insert("command"@, Doc::Text(name)).insert("arguments"@, arguments))
}

impl<S: ToJson> ToJson for BaseCommand<S> {
    open spec fn doc(&self) -> Doc {
        command_doc(self.command@, self.arguments.doc())
    }

    fn to_json(&self) -> (json: Json) {
        let mut members: Vec<Member> = Vec::new();
        assert(members_map(members@) == Map::<Seq<char>, Doc>::empty());
        push_member(&mut members, "command", json_of_str(self.command));
        push_member(&mut members, "arguments", self.arguments.to_json());
        json_object(members)
    }
}

/// The arguments of the command that asks for the records of given orders.
pub struct GetTradeRecordsArguments {
    pub orders: Vec<OrderId>,
}

impl ToJson for GetTradeRecordsArguments {
    open spec fn doc(&self) -> Doc {
        Doc::Object(Map::empty().insert("orders"@, self.orders.doc()))
    }

    fn to_json(&self) -> (json: Json) {
        let mut members: Vec<Member> = Vec::new();
        assert(members_map(members@) == Map::<Seq<char>, Doc>::empty());
        push_member(&mut members, "orders", self.orders.to_json());
        json_object(members)
    }
}

pub type GetTradeRecordsCommand = BaseCommand<GetTradeRecordsArguments>;

impl BaseCommand<GetTradeRecordsArguments> {
    /// The command `getTradeRecords` for the given orders.
    pub fn new(orders: Vec<OrderId>) -> (command: Self)
        ensures
            command.command@ == "getTradeRecords"@,
            command.arguments.orders == orders,
    {
        BaseCommand {
            command: "getTradeRecords",
            arguments: GetTradeRecordsArguments { orders },
        }
    }
}

/// The arguments of the command that asks for the trades of the account.
/// On the wire the flag is named `openedOnly`.
pub struct GetTradesArguments {
    pub opened_only: bool,
}

impl ToJson for GetTradesArguments {
    open spec fn doc(&self) -> Doc {
        Doc::Object(Map::empty().insert("openedOnly"@, Doc::Bool(self.opened_only)))
    }

    fn to_json(&self) -> (json: Json) {
        let mut members: Vec<Member> = Vec::new();
        assert(members_map(members@) == Map::<Seq<char>, Doc>::empty());
        push_member(&mut members, "openedOnly", Json::Bool(self.opened_only));
        json_object(members)
    }
}

pub type GetTradesCommand = BaseCommand<GetTradesArguments>;

impl BaseCommand<GetTradesArguments> {
    /// The command `getTrades`.
    pub fn new(opened_only: bool) -> (command: Self)
        ensures
            command.command@ == "getTrades"@,
            command.arguments.opened_only == opened_only,
    {
        BaseCommand { command: "getTrades", arguments: GetTradesArguments { opened_only } }
    }
}

/// What a trade transaction carries on the wire.
pub struct TradeTransInfo {
    pub cmd: OrderSide,
    pub custom_comment: String,
    pub expiration: Option<u64>,
    pub offset: usize,
    pub order: OrderId,
    pub price: Number,
    pub sl: Number,
    pub symbol: String,
    pub tp: Number,
    pub typ: OrderType,
    pub volume: Number,
}

/// The expiration that every trade transaction is sent with.
pub const TRANSACTION_EXPIRATION: u64 = 9999999999999;

impl ToJson for TradeTransInfo {
    open spec fn doc(&self) -> Doc {
        Doc::Object(
            Map::empty().insert("cmd"@, self.cmd.doc()).insert(
                "customComment"@,
                Doc::Text(self.custom_comment@),
            ).insert("expiration"@, self.expiration.doc()).insert(
                "offset"@,
                u64_doc(self.offset as u64),
            ).insert("order"@, self.order.doc()).insert("price"@, Doc::Number(self.price@)).insert(
                "sl"@,
                Doc::Number(self.sl@),
            ).insert("symbol"@, Doc::Text(self.symbol@)).insert(
                "tp"@,
                Doc::Number(self.tp@),
            ).insert("type"@, self.typ.doc()).insert("volume"@, Doc::Number(self.volume@)),
        )
    }

    fn to_json(&self) -> (json: Json) {
        let mut members: Vec<Member> = Vec::new();
        assert(members_map(members@) == Map::<Seq<char>, Doc>::empty());
        push_member(&mut members, "cmd", self.cmd.to_json());
        push_member(&mut members, "customComment", json_of_str(self.custom_comment.as_str()));
        push_member(&mut members, "expiration", self.expiration.to_json());
        push_member(&mut members, "offset", json_of_u64(self.offset as u64));
        push_member(&mut members, "order", self.order.to_json());
        push_member(&mut members, "price", json_of_number(&self.price));
        push_member(&mut members, "sl", json_of_number(&self.sl));
        push_member(&mut members, "symbol", json_of_str(self.symbol.as_str()));
        push_member(&mut members, "tp", json_of_number(&self.tp));
        push_member(&mut members, "type", self.typ.to_json());
        push_member(&mut members, "volume", json_of_number(&self.volume));
        json_object(members)
    }
}

/// The arguments of the command `tradeTransaction`.
pub struct TradeTransactionArguments {
    pub trade_trans_info: TradeTransInfo,
}

impl ToJson for TradeTransactionArguments {
    open spec fn doc(&self) -> Doc {
        Doc::Object(Map::empty().insert("tradeTransInfo"@, self.trade_trans_info.doc()))
    }

    fn to_json(&self) -> (json: Json) {
        let mut members: Vec<Member> = Vec::new();
        assert(members_map(members@) == Map::<Seq<char>, Doc>::empty());
        push_member(&mut members, "tradeTransInfo", self.trade_trans_info.to_json());
        json_object(members)
    }
}

pub type TradeTransactionCommand = BaseCommand<TradeTransactionArguments>;

/// The text of an optional text, empty where there is none.
pub open spec fn text_or_empty(text: Option<Seq<char>>) -> Seq<char> {
    match text {
        Some(t) => t,
        None => Seq::empty(),
    }
}

/// The side of a transaction on the wire: `Buy` where none is given.
pub open spec fn side_or_buy(side: Option<OrderSide>) -> OrderSide {
    match side {
        Some(s) => s,
        None => OrderSide::Buy,
    }
}

/// What the transaction carries on the wire. Whatever the transaction says,
/// the offset is 0, the price `1.0`, stop loss and take profit `0.0`, and the
/// expiration the fixed one.
pub open spec fn trade_info_doc(order: TransactionView) -> Doc {
    Doc::Object(
        Map::empty().insert("cmd"@, u64_doc(side_or_buy(order.side).code())).insert(
            "customComment"@,
            Doc::Text(text_or_empty(order.comment)),
        ).insert("expiration"@, u64_doc(TRANSACTION_EXPIRATION)).insert(
            "offset"@,
            u64_doc(0),
        ).insert(
            "order"@,
            u64_doc(order.order.0 as u64),
        ).insert("price"@, Doc::Number("1.0"@)).insert("sl"@, Doc::Number("0.0"@)).insert(
            "symbol"@,
            Doc::Text(text_or_empty(order.symbol)),
        ).insert("tp"@, Doc::Number("0.0"@)).insert(
            "type"@,
            u64_doc(order.kind->Some_0.code()),
        ).insert(
            "volume"@,
            Doc::Number(order.volume),
        ),
    )
}

/// The document of the command `tradeTransaction` for a transaction.
pub open spec fn trade_transaction_doc(order: TransactionView) -> Doc {
    command_doc(
        "tradeTransaction"@,
        Doc::Object(Map::empty().insert("tradeTransInfo"@, trade_info_doc(order))),
    )
}

impl BaseCommand<TradeTransactionArguments> {
    /// The command `tradeTransaction` for a transaction, which must name its
    /// kind.
    pub fn new(order: Transaction) -> (command: Self)
        requires
            order.kind is Some,
        ensures
            command.doc() == trade_transaction_doc(order@),
    {
        let cmd = match order.side {
            Some(side) => side,
            None => OrderSide::Buy,
        };
        let custom_comment = match order.comment {
            Some(comment) => comment.to_owned(),
            None => String::new(),
        };
        let symbol = match order.symbol {
            Some(symbol) => symbol.to_owned(),
            None => String::new(),
        };
        let typ = match order.kind {
            Some(kind) => kind,
            None => OrderType::Open,
        };
        BaseCommand {
            command: "tradeTransaction",
            arguments: TradeTransactionArguments {
                trade_trans_info: TradeTransInfo {
                    cmd,
                    custom_comment,
                    expiration: Some(TRANSACTION_EXPIRATION),
                    offset: 0,
                    order: order.order,
                    price: Number::one(),
                    sl: Number::zero(),
                    symbol,
                    tp: Number::zero(),
                    typ,
                    volume: order.volume,
                },
            },
        }
    }
}

/// What the server returns for a trade transaction: the order it made.
#[derive(Debug)]
pub struct TradeTransactionResponse {
    pub order: OrderId,
}

impl FromJson for TradeTransactionResponse {
    open spec fn decodes(doc: Doc) -> bool {
        &&& doc is Object
        &&& member_decodes::<OrderId>(doc, "order"@)
    }

    open spec fn is_value_of(&self, doc: Doc) -> bool {
        &&& member_is(self.order, doc, "order"@)
    }

    fn from_json(json: &Json) -> (value: Option<TradeTransactionResponse>) {
        if !json.is_object() {
            return None;
        }
        let order: OrderId = read_member(json, "order")?;
        Some(TradeTransactionResponse {
            order,
        })
    }
}

/// The arguments of the command `login`. On the wire the members are named
/// `userId`, `password` and `appName`.
pub struct LoginArguments<'a> {
    pub user_id: usize,
    pub password: &'a str,
    pub app_name: &'a str,
}

impl<'a> ToJson for LoginArguments<'a> {
    open spec fn doc(&self) -> Doc {
        Doc::Object(
            Map::empty().insert("userId"@, u64_doc(self.user_id as u64)).insert(
                "password"@,
                Doc::Text(self.password@),
            ).insert("appName"@, Doc::Text(self.app_name@)),
        )
    }

    fn to_json(&self) -> (json: Json) {
        let mut members: Vec<Member> = Vec::new();
        assert(members_map(members@) == Map::<Seq<char>, Doc>::empty());
        push_member(&mut members, "userId", json_of_u64(self.user_id as u64));
        push_member(&mut members, "password", json_of_str(self.password));
        push_member(&mut members, "appName", json_of_str(self.app_name));
        json_object(members)
    }
}

pub type LoginCommand<'a> = BaseCommand<LoginArguments<'a>>;

/// The document of the command `login` for a user: the arguments `userId`
/// and `password`, and an empty `appName`.
pub open spec fn login_doc(user_id: usize, password: Seq<char>) -> Doc {
    command_doc(
        "login"@,
        Doc::Object(
            Map::empty().insert("userId"@, u64_doc(user_id as u64)).insert(
                "password"@,
                Doc::Text(password),
            ).insert("appName"@, Doc::Text(Seq::empty())),
        ),
    )
}

impl<'a> BaseCommand<LoginArguments<'a>> {
    /// The command `login` for a user, with an empty application name.
    pub fn new(user_id: usize, password: &'a str) -> (command: Self)
        ensures
            command.command@ == "login"@,
            command.arguments.user_id == user_id,
            command.arguments.password@ == password@,
            command.arguments.app_name@ == Seq::<char>::empty(),
            command.doc() == login_doc(user_id, password@),
    {
        proof {
            reveal_strlit("");
        }
        BaseCommand {
            command: "login",
            arguments: LoginArguments { user_id, password, app_name: "" },
        }
    }
}

/// The profit of a position as the server streams it.
#[derive(Debug)]
pub struct StreamingProfitRecord {
    pub order: OrderId,
    pub order2: OrderId,
    pub position: PositionId,
    pub profit: Number,
}

impl FromJson for StreamingProfitRecord {
    open spec fn decodes(doc: Doc) -> bool {
        &&& doc is Object
        &&& member_decodes::<OrderId>(doc, "order"@)
        &&& member_decodes::<OrderId>(doc, "order2"@)
        &&& member_decodes::<PositionId>(doc, "position"@)
        &&& member_decodes::<Number>(doc, "profit"@)
    }

    open spec fn is_value_of(&self, doc: Doc) -> bool {
        &&& member_is(self.order, doc, "order"@)
        &&& member_is(self.order2, doc, "order2"@)
        &&& member_is(self.position, doc, "position"@)
        &&& member_is(self.profit, doc, "profit"@)
    }

    fn from_json(json: &Json) -> (value: Option<StreamingProfitRecord>) {
        if !json.is_object() {
            return None;
        }
        let order: OrderId = read_member(json, "order")?;
        let order2: OrderId = read_member(json, "order2")?;
        let position: PositionId = read_member(json, "position")?;
        let profit: Number = read_member(json, "profit")?;
        Some(StreamingProfitRecord {
            order,
            order2,
            position,
            profit,
        })
    }
}

/// A candle as the server streams it.
#[derive(Debug)]
pub struct StreamingCandleRecord {
    pub close: Number,
    pub ctm: u64,
    pub ctm_string: String,
    pub high: Number,
    pub low: Number,
    pub open: Number,
    pub quote_id: u64,
    pub symbol: String,
    pub vol: Number,
}

impl FromJson for StreamingCandleRecord {
    open spec fn decodes(doc: Doc) -> bool {
        &&& doc is Object
        &&& member_decodes::<Number>(doc, "close"@)
        &&& member_decodes::<u64>(doc, "ctm"@)
        &&& member_decodes::<String>(doc, "ctmString"@)
        &&& member_decodes::<Number>(doc, "high"@)
        &&& member_decodes::<Number>(doc, "low"@)
        &&& member_decodes::<Number>(doc, "open"@)
        &&& member_decodes::<u64>(doc, "quoteId"@)
        &&& member_decodes::<String>(doc, "symbol"@)
        &&& member_decodes::<Number>(doc, "vol"@)
    }

    open spec fn is_value_of(&self, doc: Doc) -> bool {
        &&& member_is(self.close, doc, "close"@)
        &&& member_is(self.ctm, doc, "ctm"@)
        &&& member_is(self.ctm_string, doc, "ctmString"@)
        &&& member_is(self.high, doc, "high"@)
        &&& member_is(self.low, doc, "low"@)
        &&& member_is(self.open, doc, "open"@)
        &&& member_is(self.quote_id, doc, "quoteId"@)
        &&& member_is(self.symbol, doc, "symbol"@)
        &&& member_is(self.vol, doc, "vol"@)
    }

    fn from_json(json: &Json) -> (value: Option<StreamingCandleRecord>) {
        if !json.is_object() {
            return None;
        }
        let close: Number = read_member(json, "close")?;
        let ctm: u64 = read_member(json, "ctm")?;
        let ctm_string: String = read_member(json, "ctmString")?;
        let high: Number = read_member(json, "high")?;
        let low: Number = read_member(json, "low")?;
        let open: Number = read_member(json, "open")?;
        let quote_id: u64 = read_member(json, "quoteId")?;
        let symbol: String = read_member(json, "symbol")?;
        let vol: Number = read_member(json, "vol")?;
        Some(StreamingCandleRecord {
            close,
            ctm,
            ctm_string,
            high,
            low,
            open,
            quote_id,
            symbol,
            vol,
        })
    }
}

/// A reply of the server. The wire has no tag for the variant: it follows
/// from the members that the reply has.
#[derive(Debug)]
pub enum Response<D> {
    /// `status` and `returnData`.
    Success { status: bool, return_data: D },
    /// `status`, `errorCode` and `errorDescr`.
    Error { status: bool, error_code: String, error_desc: String },
    /// `status` and `streamSessionId`: the reply to a login.
    LoginSuccess { status: bool, stream_session_id: String },
}

impl<D> CResponse for Response<D> {

}

/// Whether the document has the shape of the reply to a login: a boolean
/// `status` and a string `streamSessionId`.
pub open spec fn is_login_reply(doc: Doc) -> bool {
    member_decodes::<bool>(doc, "status"@) && member_decodes::<String>(doc, "streamSessionId"@)
}

/// Whether the document has the shape of a reply with data: a boolean
/// `status` and a `returnData` of the shape of a `D`.
pub open spec fn is_data_reply<D: FromJson>(doc: Doc) -> bool {
    member_decodes::<bool>(doc, "status"@) && member_decodes::<D>(doc, "returnData"@)
}

/// Whether the document has the shape of a rejection: a boolean `status`
/// and the strings `errorCode` and `errorDescr`.
pub open spec fn is_error_reply(doc: Doc) -> bool {
    member_decodes::<bool>(doc, "status"@) && member_decodes::<String>(doc, "errorCode"@)
        && member_decodes::<String>(doc, "errorDescr"@)
}

/// The three kinds of reply.
pub enum ReplyKind {
    LoginSuccess,
    Success,
    Error,
}

/// The kind of reply that a document is read as: the first of login reply,
/// reply with data and rejection whose shape it has; `None` if it has none
/// of the three shapes.
pub open spec fn reply_kind<D: FromJson>(doc: Doc) -> Option<ReplyKind> {
    if is_login_reply(doc) {
        Some(ReplyKind::LoginSuccess)
    } else if is_data_reply::<D>(doc) {
        Some(ReplyKind::Success)
    } else if is_error_reply(doc) {
        Some(ReplyKind::Error)
    } else {
        None
    }
}

impl<D> Response<D> {
    /// The kind of the reply.
    pub open spec fn kind(self) -> ReplyKind {
        match self {
            Response::LoginSuccess { .. } => ReplyKind::LoginSuccess,
            Response::Success { .. } => ReplyKind::Success,
            Response::Error { .. } => ReplyKind::Error,
        }
    }
}

impl<D: FromJson> FromJson for Response<D> {
    open spec fn decodes(doc: Doc) -> bool {
        reply_kind::<D>(doc) is Some
    }

    open spec fn is_value_of(&self, doc: Doc) -> bool {
        &&& reply_kind::<D>(doc) == Some(self.kind())
        &&& match self {
            Response::LoginSuccess { status, stream_session_id } => {
                &&& member_is(*status, doc, "status"@)
                &&& member_is(*stream_session_id, doc, "streamSessionId"@)
            },
            Response::Success { status, return_data } => {
                &&& member_is(*status, doc, "status"@)
                &&& member_is(*return_data, doc, "returnData"@)
            },
            Response::Error { status, error_code, error_desc } => {
                &&& member_is(*status, doc, "status"@)
                &&& member_is(*error_code, doc, "errorCode"@)
                &&& member_is(*error_desc, doc, "errorDescr"@)
            },
        }
    }

    fn from_json(json: &Json) -> (value: Option<Response<D>>) {
        let status: bool = read_member(json, "status")?;
        let session: Option<String> = read_member(json, "streamSessionId");
        if let Some(stream_session_id) = session {
            return Some(Response::LoginSuccess { status, stream_session_id });
        }
        let data: Option<D> = read_member(json, "returnData");
        if let Some(return_data) = data {
            return Some(Response::Success { status, return_data });
        }
        let error_code: String = read_member(json, "errorCode")?;
        let error_desc: String = read_member(json, "errorDescr")?;
        Some(Response::Error { status, error_code, error_desc })
    }
}

/// An event that the server streams. The member `command` of the document
/// names the variant, the member `data` holds its record.
#[derive(Debug)]
#[allow(inconsistent_fields)]
pub enum StreamingMessage {
    /// `balance`
    Balance { data: BalanceRecord },
    /// `trade`
    Trade { data: TradeRecord },
    /// `profit`
    Profit { data: StreamingProfitRecord },
    /// `candles`
    Candles { data: StreamingCandleRecord },
}

/// The four kinds of event.
pub enum EventKind {
    Balance,
    Trade,
    Profit,
    Candles,
}

/// The kind of event that a value of `command` names; `None` for a value
/// that names none.
pub open spec fn event_kind(tag: Seq<char>) -> Option<EventKind> {
    if tag == "balance"@ {
        Some(EventKind::Balance)
    } else if tag == "trade"@ {
        Some(EventKind::Trade)
    } else if tag == "profit"@ {
        Some(EventKind::Profit)
    } else if tag == "candles"@ {
        Some(EventKind::Candles)
    } else {
        None
    }
}

/// The kind of event of a document: what its string member `command` names.
pub open spec fn event_kind_of(doc: Doc) -> Option<EventKind> {
    match doc.text_member("command"@) {
        Some(tag) => event_kind(tag),
        None => None,
    }
}

impl StreamingMessage {
    /// The kind of the event.
    pub open spec fn kind(self) -> EventKind {
        match self {
            StreamingMessage::Balance { .. } => EventKind::Balance,
            StreamingMessage::Trade { .. } => EventKind::Trade,
            StreamingMessage::Profit { .. } => EventKind::Profit,
            StreamingMessage::Candles { .. } => EventKind::Candles,
        }
    }
}

impl FromJson for StreamingMessage {
    open spec fn decodes(doc: Doc) -> bool {
        match event_kind_of(doc) {
            Some(EventKind::Balance) => member_decodes::<BalanceRecord>(doc, "data"@),
            Some(EventKind::Trade) => member_decodes::<TradeRecord>(doc, "data"@),
            Some(EventKind::Profit) => member_decodes::<StreamingProfitRecord>(doc, "data"@),
            Some(EventKind::Candles) => member_decodes::<StreamingCandleRecord>(doc, "data"@),
            None => false,
        }
    }

    open spec fn is_value_of(&self, doc: Doc) -> bool {
        &&& event_kind_of(doc) == Some(self.kind())
        &&& match self {
            StreamingMessage::Balance { data } => member_is(*data, doc, "data"@),
            StreamingMessage::Trade { data } => member_is(*data, doc, "data"@),
            StreamingMessage::Profit { data } => member_is(*data, doc, "data"@),
            StreamingMessage::Candles { data } => member_is(*data, doc, "data"@),
        }
    }

    fn from_json(json: &Json) -> (value: Option<StreamingMessage>) {
        let tag = match json.get_text("command") {
            Some(tag) => tag,
            None => {
                return None;
            },
        };
        if str_eq(tag.as_str(), "balance") {
            let data: BalanceRecord = read_member(json, "data")?;
            Some(StreamingMessage::Balance { data })
        } else if str_eq(tag.as_str(), "trade") {
            let data: TradeRecord = read_member(json, "data")?;
            Some(StreamingMessage::Trade { data })
        } else if str_eq(tag.as_str(), "profit") {
            let data: StreamingProfitRecord = read_member(json, "data")?;
            Some(StreamingMessage::Profit { data })
        } else if str_eq(tag.as_str(), "candles") {
            let data: StreamingCandleRecord = read_member(json, "data")?;
            Some(StreamingMessage::Candles { data })
        } else {
            None
        }
    }
}

/// What a streaming command asks for.
#[derive(Debug)]
pub enum StreamingCommandType {
    /// `getBalance`
    GetBalance,
    /// `stopBalance`
    StopBalance,
    /// `getTrades`
    GetTrades,
    /// `getCandles`, for a symbol
    GetCandles { symbol: String },
    /// `getProfits`
    GetProfits,
}

impl StreamingCommandType {
    /// The name of the command on the wire.
    pub open spec fn name(self) -> Seq<char> {
        match self {
            StreamingCommandType::GetBalance => "getBalance"@,
            StreamingCommandType::StopBalance => "stopBalance"@,
            StreamingCommandType::GetTrades => "getTrades"@,
            StreamingCommandType::GetCandles { .. } => "getCandles"@,
            StreamingCommandType::GetProfits => "getProfits"@,
        }
    }

    /// The name of the command on the wire.
    pub fn wire_name(&self) -> (name: &'static str)
        ensures
            name@ == self.name(),
    {
        match self {
            StreamingCommandType::GetBalance => "getBalance",
            StreamingCommandType::StopBalance => "stopBalance",
            StreamingCommandType::GetTrades => "getTrades",
            StreamingCommandType::GetCandles { .. } => "getCandles",
            StreamingCommandType::GetProfits => "getProfits",
        }
    }
}

/// A command on the streaming channel: what it asks for, and the session
/// token that the login returned.
#[derive(Debug)]
pub struct StreamingCommand {
    pub command: StreamingCommandType,
    pub stream_session_id: String,
}

/// The document of a streaming command: its name as `command`, the session
/// token as `streamSessionId` and, for `getCandles`, the symbol as `symbol`.
pub open spec fn streaming_command_doc(
    command: StreamingCommandType,
    stream_session_id: Seq<char>,
) -> Doc {
    let base = Map::empty().insert("command"@, Doc::Text(command.name())).insert(
        "streamSessionId"@,
        Doc::Text(stream_session_id),
    );
    match command {
        StreamingCommandType::GetCandles { symbol } => Doc::Object(
            base.insert("symbol"@, Doc::Text(symbol@)),
        ),
        _ => Doc::Object(base),
    }
}

impl ToJson for StreamingCommand {
    open spec fn doc(&self) -> Doc {
        streaming_command_doc(self.command, self.stream_session_id@)
    }

    fn to_json(&self) -> (json: Json) {
        let mut members: Vec<Member> = Vec::new();
        assert(members_map(members@) == Map::<Seq<char>, Doc>::empty());
        push_member(&mut members, "command", json_of_str(self.command.wire_name()));
        push_member(&mut members, "streamSessionId", json_of_str(self.stream_session_id.as_str()));
        match &self.command {
            StreamingCommandType::GetCandles { symbol } => {
                push_member(&mut members, "symbol", json_of_str(symbol.as_str()));
            },
            _ => {},
        }
        json_object(members)
    }
}

/// Whether the text is the name of a streaming command on the wire.
pub open spec fn is_streaming_command_name(name: Seq<char>) -> bool {
    name == "getBalance"@ || name == "stopBalance"@ || name == "getTrades"@ || name
        == "getCandles"@ || name == "getProfits"@
}

/// The names of the five streaming commands differ from each other.
pub proof fn lemma_streaming_command_names()
    ensures
        "getBalance"@ != "stopBalance"@,
        "getBalance"@ != "getTrades"@,
        "getBalance"@ != "getCandles"@,
        "getBalance"@ != "getProfits"@,
        "stopBalance"@ != "getTrades"@,
        "stopBalance"@ != "getCandles"@,
        "stopBalance"@ != "getProfits"@,
        "getTrades"@ != "getCandles"@,
        "getTrades"@ != "getProfits"@,
        "getCandles"@ != "getProfits"@,
{
    reveal_strlit("getBalance");
    reveal_strlit("stopBalance");
    reveal_strlit("getTrades");
    reveal_strlit("getCandles");
    reveal_strlit("getProfits");
    assert("getBalance"@.len() == 10 && "getBalance"@[3] == 'B');
    assert("stopBalance"@.len() == 11);
    assert("getTrades"@.len() == 9);
    assert("getCandles"@.len() == 10 && "getCandles"@[3] == 'C');
    assert("getProfits"@.len() == 10 && "getProfits"@[3] == 'P');
}

impl FromJson for StreamingCommand {
    open spec fn decodes(doc: Doc) -> bool {
        &&& member_decodes::<String>(doc, "streamSessionId"@)
        &&& doc.text_member("command"@) matches Some(name)
        &&& is_streaming_command_name(name)
        &&& name == "getCandles"@ ==> member_decodes::<String>(doc, "symbol"@)
    }

    open spec fn is_value_of(&self, doc: Doc) -> bool {
        &&& member_is(self.stream_session_id, doc, "streamSessionId"@)
        &&& doc.text_member("command"@) == Some(self.command.name())
        &&& self.command matches StreamingCommandType::GetCandles { symbol } ==> member_is(
            symbol,
            doc,
            "symbol"@,
        )
    }

    fn from_json(json: &Json) -> (value: Option<StreamingCommand>) {
        proof {
            lemma_streaming_command_names();
        }
        let stream_session_id: String = read_member(json, "streamSessionId")?;
        let name = match json.get_text("command") {
            Some(name) => name,
            None => {
                return None;
            },
        };
        let command = if str_eq(name.as_str(), "getBalance") {
            StreamingCommandType::GetBalance
        } else if str_eq(name.as_str(), "stopBalance") {
            StreamingCommandType::StopBalance
        } else if str_eq(name.as_str(), "getTrades") {
            StreamingCommandType::GetTrades
        } else if str_eq(name.as_str(), "getCandles") {
            let symbol: String = read_member(json, "symbol")?;
            StreamingCommandType::GetCandles { symbol }
        } else if str_eq(name.as_str(), "getProfits") {
            StreamingCommandType::GetProfits
        } else {
            return None;
        };
        Some(StreamingCommand { command, stream_session_id })
    }
}

impl StreamingCommandType {
    /// Whether the two ask for the same: the same command and, for
    /// `getCandles`, the same symbol.
    pub open spec fn same(self, other: StreamingCommandType) -> bool {
        match (self, other) {
            (StreamingCommandType::GetBalance, StreamingCommandType::GetBalance) => true,
            (StreamingCommandType::StopBalance, StreamingCommandType::StopBalance) => true,
            (StreamingCommandType::GetTrades, StreamingCommandType::GetTrades) => true,
            (StreamingCommandType::GetProfits, StreamingCommandType::GetProfits) => true,
            (
                StreamingCommandType::GetCandles { symbol: first },
                StreamingCommandType::GetCandles { symbol: second },
            ) => first@ == second@,
            _ => false,
        }
    }
}

impl RoundTrip for StreamingCommand {
    open spec fn same(&self, other: &StreamingCommand) -> bool {
        self.command.same(other.command) && self.stream_session_id@ == other.stream_session_id@
    }

    proof fn lemma_round_trip(&self, read: &StreamingCommand) {
        reveal_strlit("command");
        reveal_strlit("streamSessionId");
        reveal_strlit("symbol");
        assert("command"@.len() == 7 && "streamSessionId"@.len() == 15 && "symbol"@.len() == 6);
        lemma_streaming_command_names();
        let doc = self.doc();
        assert(doc.member("streamSessionId"@) == Some(Doc::Text(self.stream_session_id@)));
        assert(doc.member("command"@) == Some(Doc::Text(self.command.name())));
        match self.command {
            StreamingCommandType::GetCandles { symbol } => {
                assert(doc.member("symbol"@) == Some(Doc::Text(symbol@)));
            },
            _ => {},
        }
    }
}

impl StreamingCommand {
    /// The command that asks for `command` in the session of the token.
    pub fn new(command: StreamingCommandType, stream_session_id: String) -> (made: Self)
        ensures
            made.command == command,
            made.stream_session_id == stream_session_id,
    {
        StreamingCommand { command, stream_session_id }
    }

    /// Subscribes to the balance.
    pub fn get_balance(stream_session_id: String) -> (made: Self)
        ensures
            made.command == StreamingCommandType::GetBalance,
            made.stream_session_id == stream_session_id,
    {
        Self::new(StreamingCommandType::GetBalance, stream_session_id)
    }

    /// Subscribes to the trades.
    pub fn get_trades(stream_session_id: String) -> (made: Self)
        ensures
            made.command == StreamingCommandType::GetTrades,
            made.stream_session_id == stream_session_id,
    {
        Self::new(StreamingCommandType::GetTrades, stream_session_id)
    }

    /// Subscribes to the candles of a symbol.
    pub fn get_candles(stream_session_id: String, symbol: String) -> (made: Self)
        ensures
            made.command == (StreamingCommandType::GetCandles { symbol }),
            made.stream_session_id == stream_session_id,
    {
        Self::new(StreamingCommandType::GetCandles { symbol }, stream_session_id)
    }

    /// Subscribes to the profits.
    pub fn get_profits(stream_session_id: String) -> (made: Self)
        ensures
            made.command == StreamingCommandType::GetProfits,
            made.stream_session_id == stream_session_id,
    {
        Self::new(StreamingCommandType::GetProfits, stream_session_id)
    }

    /// Ends the subscription to the balance.
    pub fn stop_balance(stream_session_id: String) -> (made: Self)
        ensures
            made.command == StreamingCommandType::StopBalance,
            made.stream_session_id == stream_session_id,
    {
        Self::new(StreamingCommandType::StopBalance, stream_session_id)
    }
}

} // verus!
