//! Client-side transport logic for the xAPI trading protocol: line framing,
//! the JSON codec of commands, replies and streamed events, and the state
//! machines of the command channel and of the streaming engine.
//!
//! The library performs no I/O. A caller owns the sockets, hands received
//! bytes in and sends what the library hands out.

pub mod channel;
pub mod codec;
pub mod commands;
pub mod endpoint;
pub mod error;
pub mod framing;
pub mod json;
pub mod laws;
pub mod number;
pub mod session;
pub mod stream;
pub mod text;
pub mod transaction;
pub mod types;
pub mod wire;

pub use commands::{
    BaseCommand, CResponse, Command, LoginArguments, LoginCommand, Response, StreamingCandleRecord,
    StreamingCommand, StreamingCommandType, StreamingMessage, StreamingProfitRecord,
    TradeTransactionArguments, TradeTransactionCommand, TradeTransactionResponse,
};
pub use error::{DecodeError, ErrorKind, Result, TransportFault};
pub use number::Number;
pub use transaction::Transaction;
pub use types::{
    BalanceRecord, OrderId, OrderSide, OrderType, PositionId, Symbol, TradeRecord,
};

use vstd::prelude::*;

verus! {

/// Host of the trading platform.
pub const DEFAULT_XAPI_ADDRESS: &'static str = "xapi.xtb.com";

/// Port of the request/response endpoint of the demo platform.
pub const DEFAULT_XAPI_DEMO_PORT: usize = 5124;

/// Port of the streaming endpoint of the demo platform.
pub const DEFAULT_XAPI_DEMO_STREAMING_PORT: usize = 5125;

} // verus!
