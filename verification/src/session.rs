//! The session: the login, the commands of the request channel and the
//! subscriptions of the streaming channel.
//!
//! A session performs no I/O. It hands out the text of each command for its
//! caller to send, and takes in the frames that the caller received.

use crate::codec::{decode, encode, encoded, is_decoded_frame, FromJson};
use crate::commands::{
    login_doc, streaming_command_doc, trade_transaction_doc, LoginCommand, Response,
    StreamingCommand, StreamingCommandType, StreamingMessage, TradeTransactionCommand,
    TradeTransactionResponse,
};
use crate::error::ErrorKind;
use crate::number::Number;
use crate::stream::{EngineState, StreamEngine};
use crate::transaction::{plain_transaction, Transaction};
use crate::types::{OrderId, OrderSide, OrderType, PositionId, Symbol};
use crate::wire::json_text;
use vstd::prelude::*;

verus! {

/// What a call that expects data makes of a reply: the data of a reply with
/// data, `ApiError` with the code and description of a rejection, and
/// `InvalidResponse` for the reply to a login.
pub open spec fn is_data_outcome<D>(outcome: Result<D, ErrorKind>, reply: Response<D>) -> bool {
    match reply {
        Response::Success { return_data, .. } => outcome == Ok::<D, ErrorKind>(return_data),
        Response::Error { error_code, error_desc, .. } => outcome == Err::<D, ErrorKind>(
            ErrorKind::ApiError(error_code, error_desc),
        ),
        Response::LoginSuccess { .. } => outcome == Err::<D, ErrorKind>(ErrorKind::InvalidResponse),
    }
}

/// What a login makes of a reply: the session token of the reply to a
/// login, `ApiError` with the code and description of a rejection, and
/// `InvalidResponse` for a reply with data.
pub open spec fn is_login_outcome<D>(
    outcome: Result<String, ErrorKind>,
    reply: Response<D>,
) -> bool {
    match reply {
        Response::LoginSuccess { stream_session_id, .. } => outcome == Ok::<String, ErrorKind>(
            stream_session_id,
        ),
        Response::Error { error_code, error_desc, .. } => outcome == Err::<String, ErrorKind>(
            ErrorKind::ApiError(error_code, error_desc),
        ),
        Response::Success { .. } => outcome == Err::<String, ErrorKind>(ErrorKind::InvalidResponse),
    }
}

/// Takes the data out of a reply to a call that expects data.
pub fn expect_data<D>(reply: Response<D>) -> (outcome: Result<D, ErrorKind>)
    ensures
        is_data_outcome(outcome, reply),
{
    match reply {
        Response::Success { return_data, .. } => Ok(return_data),
        Response::Error { error_code, error_desc, .. } => Err(
            ErrorKind::ApiError(error_code, error_desc),
        ),
        Response::LoginSuccess { .. } => Err(ErrorKind::InvalidResponse),
    }
}

/// Takes the session token out of a reply to a login.
pub fn expect_login<D>(reply: Response<D>) -> (outcome: Result<String, ErrorKind>)
    ensures
        is_login_outcome(outcome, reply),
{
    match reply {
        Response::LoginSuccess { stream_session_id, .. } => Ok(stream_session_id),
        Response::Error { error_code, error_desc, .. } => Err(
            ErrorKind::ApiError(error_code, error_desc),
        ),
        Response::Success { .. } => Err(ErrorKind::InvalidResponse),
    }
}

/// Whether `outcome` is what the frame of a reply gives a call that expects
/// a `D`: the error of decoding the frame as a reply, or what the call makes
/// of the reply.
pub open spec fn is_data_reply_outcome<D: FromJson>(
    outcome: Result<D, ErrorKind>,
    frame: Seq<u8>,
) -> bool {
    exists|decoded: Result<Response<D>, ErrorKind>| #[trigger]
        is_decoded_frame(decoded, frame) && match decoded {
            Ok(reply) => is_data_outcome(outcome, reply),
            Err(error) => outcome == Err::<D, ErrorKind>(error),
        }
}

/// Whether `outcome` is what the frame of a reply gives a login: the error
/// of decoding the frame as a reply, or what the login makes of the reply.
pub open spec fn is_login_reply_outcome(
    outcome: Result<String, ErrorKind>,
    frame: Seq<u8>,
) -> bool {
    exists|decoded: Result<Response<()>, ErrorKind>| #[trigger]
        is_decoded_frame(decoded, frame) && match decoded {
            Ok(reply) => is_login_outcome(outcome, reply),
            Err(error) => outcome == Err::<String, ErrorKind>(error),
        }
}

/// Reads the frame of a reply for a call that expects a `D`.
pub fn read_data_reply<D: FromJson>(frame: &[u8]) -> (outcome: Result<D, ErrorKind>)
    ensures
        is_data_reply_outcome(outcome, frame@),
{
    let decoded: Result<Response<D>, ErrorKind> = decode(frame);
    assert(is_decoded_frame(decoded, frame@));
    match decoded {
        Ok(reply) => expect_data(reply),
        Err(error) => Err(error),
    }
}

/// Reads the frame of the reply to a login.
pub fn read_login_reply(frame: &[u8]) -> (outcome: Result<String, ErrorKind>)
    ensures
        is_login_reply_outcome(outcome, frame@),
{
    let decoded: Result<Response<()>, ErrorKind> = decode(frame);
    assert(is_decoded_frame(decoded, frame@));
    match decoded {
        Ok(reply) => expect_login(reply),
        Err(error) => Err(error),
    }
}

/// Whether `text` is what starting a request gives: the text of the command,
/// or `InternalError` where a reply was outstanding already.
pub open spec fn is_request(
    text: Result<Vec<u8>, ErrorKind>,
    was_awaiting: bool,
    command: Seq<u8>,
) -> bool {
    match text {
        Ok(bytes) => !was_awaiting && bytes@ == command,
        Err(ErrorKind::InternalError) => was_awaiting,
        Err(_) => false,
    }
}

/// The request channel: at most one request is outstanding at a time.
pub struct CommandChannel {
    awaiting: bool,
}

impl CommandChannel {
    /// Whether a request is outstanding.
    pub closed spec fn awaiting_reply(&self) -> bool {
        self.awaiting
    }

    /// A channel without an outstanding request.
    pub fn new() -> (channel: CommandChannel)
        ensures
            !channel.awaiting_reply(),
    {
        CommandChannel { awaiting: false }
    }

    /// Whether a request is outstanding.
    pub fn is_awaiting_reply(&self) -> (awaiting: bool)
        ensures
            awaiting == self.awaiting_reply(),
    {
        self.awaiting
    }

    /// Starts a request: hands out the text to send and notes that its
    /// reply is outstanding. While a reply is outstanding no request starts:
    /// the result is `InternalError`, and the channel stays as it is.
    pub fn request<S: crate::codec::ToJson>(&mut self, command: &S) -> (text: Result<
        Vec<u8>,
        ErrorKind,
    >)
        ensures
            final(self).awaiting_reply(),
            is_request(text, old(self).awaiting_reply(), encoded(*command)),
    {
        if self.awaiting {
            Err(ErrorKind::InternalError)
        } else {
            self.awaiting = true;
            Ok(encode(command))
        }
    }

    /// Takes in what the attempt to receive the reply gave, for a call that
    /// expects a `D`. Without an outstanding request there is no reply to
    /// take: the result is `InternalError`. Afterwards no request is
    /// outstanding.
    pub fn reply<D: FromJson>(&mut self, received: Result<Vec<u8>, ErrorKind>) -> (outcome: Result<
        D,
        ErrorKind,
    >)
        ensures
            !final(self).awaiting_reply(),
            !old(self).awaiting_reply() ==> outcome matches Err(ErrorKind::InternalError),
            old(self).awaiting_reply() ==> match received {
                Ok(frame) => is_data_reply_outcome(outcome, frame@),
                Err(error) => outcome == Err::<D, ErrorKind>(error),
            },
    {
        if !self.awaiting {
            return Err(ErrorKind::InternalError);
        }
        self.awaiting = false;
        match received {
            Ok(frame) => read_data_reply(frame.as_slice()),
            Err(error) => Err(error),
        }
    }
}

/// A session after a successful login.
pub struct Session {
    streaming_id: String,
    requests: CommandChannel,
    engine: StreamEngine,
}

impl Session {
    /// The session token that the login returned.
    pub closed spec fn token(&self) -> Seq<char> {
        self.streaming_id@
    }

    /// The streaming engine of the session.
    pub closed spec fn stream(&self) -> StreamEngine {
        self.engine
    }

    /// The request channel of the session.
    pub closed spec fn channel(&self) -> CommandChannel {
        self.requests
    }

    /// The text of the command that logs a user in.
    pub fn login_request(user_id: usize, password: &str) -> (text: Vec<u8>)
        ensures
            text@ == json_text(login_doc(user_id, password@)),
    {
        let command = LoginCommand::new(user_id, password);
        encode(&command)
    }

    /// Opens the session from the frame of the reply to the login. The
    /// session has no outstanding request, and its streaming engine has no
    /// connection yet.
    pub fn open(reply: &[u8]) -> (opened: Result<Session, ErrorKind>)
        ensures
            exists|outcome: Result<String, ErrorKind>| #[trigger]
                is_login_reply_outcome(outcome, reply@) && match outcome {
                    Ok(token) => opened matches Ok(session) && session.token() == token@
                        && !session.channel().awaiting_reply() && session.stream()@.state
                        == EngineState::Disconnected && session.stream()@.queue.len() == 0,
                    Err(error) => opened matches Err(e) && e == error,
                },
    {
        let outcome = read_login_reply(reply);
        assert(is_login_reply_outcome(outcome, reply@));
        match outcome {
            Ok(token) => Ok(
                Session {
                    streaming_id: token,
                    requests: CommandChannel::new(),
                    engine: StreamEngine::new(),
                },
            ),
            Err(error) => Err(error),
        }
    }

    /// The session token.
    pub fn streaming_id(&self) -> (token: &str)
        ensures
            token@ == self.token(),
    {
        self.streaming_id.as_str()
    }

    /// The streaming engine, for the caller that polls the streaming
    /// connection.
    pub fn engine(&mut self) -> (engine: &mut StreamEngine)
        ensures
            *engine == old(self).stream(),
            final(self).stream() == *final(engine),
            final(self).token() == old(self).token(),
            final(self).channel() == old(self).channel(),
    {
        &mut self.engine
    }

    /// The text of a streaming command in this session.
    pub fn subscription(&self, command: StreamingCommandType) -> (text: Vec<u8>)
        ensures
            text@ == json_text(streaming_command_doc(command, self.token())),
    {
        let command = StreamingCommand::new(command, self.streaming_id.clone());
        encode(&command)
    }

    /// The text of the command that subscribes to the balance.
    pub fn start_balance(&self) -> (text: Vec<u8>)
        ensures
            text@ == json_text(
                streaming_command_doc(StreamingCommandType::GetBalance, self.token()),
            ),
    {
        let command = StreamingCommand::get_balance(self.streaming_id.clone());
        encode(&command)
    }

    /// The text of the command that subscribes to the trades.
    pub fn start_trades(&self) -> (text: Vec<u8>)
        ensures
            text@ == json_text(
                streaming_command_doc(StreamingCommandType::GetTrades, self.token()),
            ),
    {
        let command = StreamingCommand::get_trades(self.streaming_id.clone());
        encode(&command)
    }

    /// Hands out the events queued, oldest first, without waiting.
    pub fn messages(&mut self) -> (events: Vec<StreamingMessage>)
        ensures
            events@ == old(self).stream()@.queue,
            final(self).stream()@.queue.len() == 0,
            final(self).stream()@.state == old(self).stream()@.state,
            final(self).token() == old(self).token(),
            final(self).channel() == old(self).channel(),
    {
        self.engine.drain_available()
    }

    /// Calls the handler once for each event queued, oldest first, without
    /// waiting.
    pub fn handle_messages<F: Fn(StreamingMessage)>(&mut self, cb: F) -> (done: Result<
        (),
        ErrorKind,
    >)
        requires
            forall|event: StreamingMessage| cb.requires((event,)),
        ensures
            done is Ok,
            final(self).stream()@.queue.len() == 0,
            final(self).stream()@.state == old(self).stream()@.state,
            final(self).token() == old(self).token(),
            final(self).channel() == old(self).channel(),
            forall|i: int|
                0 <= i < old(self).stream()@.queue.len() ==> cb.ensures(
                    (#[trigger] old(self).stream()@.queue[i],),
                    (),
                ),
    {
        self.engine.handle_available(cb);
        Ok(())
    }

    /// Starts a trade transaction, which must name its kind: hands out the
    /// text of the command. While a reply is outstanding the result is
    /// `InternalError`.
    pub fn send_transaction(&mut self, transaction: Transaction) -> (text: Result<
        Vec<u8>,
        ErrorKind,
    >)
        requires
            transaction.kind is Some,
        ensures
            final(self).channel().awaiting_reply(),
            final(self).token() == old(self).token(),
            final(self).stream() == old(self).stream(),
            is_request(
                text,
                old(self).channel().awaiting_reply(),
                json_text(trade_transaction_doc(transaction@)),
            ),
    {
        let command = TradeTransactionCommand::new(transaction);
        self.requests.request(&command)
    }

    /// Takes in what the attempt to receive the reply to a trade
    /// transaction gave, and hands out the order that the server made.
    pub fn transaction_reply(&mut self, received: Result<Vec<u8>, ErrorKind>) -> (outcome: Result<
        OrderId,
        ErrorKind,
    >)
        ensures
            !final(self).channel().awaiting_reply(),
            final(self).token() == old(self).token(),
            final(self).stream() == old(self).stream(),
            !old(self).channel().awaiting_reply() ==> outcome matches Err(ErrorKind::InternalError),
            old(self).channel().awaiting_reply() ==> exists|
                reply: Result<TradeTransactionResponse, ErrorKind>,
            |
                #[trigger] is_transaction_reply(reply, received) && match reply {
                    Ok(data) => outcome == Ok::<OrderId, ErrorKind>(data.order),
                    Err(error) => outcome == Err::<OrderId, ErrorKind>(error),
                },
    {
        let reply: Result<TradeTransactionResponse, ErrorKind> = self.requests.reply(received);
        proof {
            if old(self).channel().awaiting_reply() {
                assert(is_transaction_reply(reply, received));
            }
        }
        match reply {
            Ok(data) => Ok(data.order),
            Err(error) => Err(error),
        }
    }

    /// Starts the transaction that buys the volume of a symbol.
    pub fn buy(&mut self, symbol: &Symbol, volume: Number) -> (text: Result<Vec<u8>, ErrorKind>)
        ensures
            final(self).channel().awaiting_reply(),
            final(self).token() == old(self).token(),
            final(self).stream() == old(self).stream(),
            is_request(text, old(self).channel().awaiting_reply(), json_text(
                trade_transaction_doc(
                    plain_transaction(
                        symbol@,
                        OrderType::Open,
                        OrderSide::Buy,
                        OrderId(0),
                        volume@,
                    ),
                ),
            )),
    {
        self.send_transaction(symbol.buy(volume))
    }

    /// Starts the transaction that sells the volume of a symbol.
    pub fn sell(&mut self, symbol: &Symbol, volume: Number) -> (text: Result<Vec<u8>, ErrorKind>)
        ensures
            final(self).channel().awaiting_reply(),
            final(self).token() == old(self).token(),
            final(self).stream() == old(self).stream(),
            is_request(text, old(self).channel().awaiting_reply(), json_text(
                trade_transaction_doc(
                    plain_transaction(
                        symbol@,
                        OrderType::Open,
                        OrderSide::Sell,
                        OrderId(0),
                        volume@,
                    ),
                ),
            )),
    {
        self.send_transaction(symbol.sell(volume))
    }

    /// Starts the transaction that closes the volume of a position of a
    /// symbol.
    pub fn close(&mut self, symbol: &Symbol, position: PositionId, volume: Number) -> (text: Result<
        Vec<u8>,
        ErrorKind,
    >)
        ensures
            final(self).channel().awaiting_reply(),
            final(self).token() == old(self).token(),
            final(self).stream() == old(self).stream(),
            is_request(text, old(self).channel().awaiting_reply(), json_text(
                trade_transaction_doc(
                    plain_transaction(
                        symbol@,
                        OrderType::Close,
                        OrderSide::Sell,
                        OrderId(position.0),
                        volume@,
                    ),
                ),
            )),
    {
        self.send_transaction(symbol.close(position, volume))
    }
}

/// Whether `reply` is what an attempt to receive the reply to a trade
/// transaction gives: the error of the attempt, or what the frame gives a
/// call that expects the order made.
pub open spec fn is_transaction_reply(
    reply: Result<TradeTransactionResponse, ErrorKind>,
    received: Result<Vec<u8>, ErrorKind>,
) -> bool {
    match received {
        Ok(frame) => is_data_reply_outcome(reply, frame@),
        Err(error) => reply == Err::<TradeTransactionResponse, ErrorKind>(error),
    }
}

} // verus!
