use xtb_rs::session::{expect_data, expect_login, read_data_reply, CommandChannel, Session};
use xtb_rs::stream::EngineState;
use xtb_rs::{
    DecodeError, ErrorKind, LoginCommand, Number, OrderId, PositionId, Response,
    StreamingCommandType, Symbol, TradeTransactionResponse,
};

fn text(bytes: Vec<u8>) -> String {
    String::from_utf8(bytes).unwrap()
}

fn volume(literal: &str) -> Number {
    Number::parse(literal).unwrap()
}

fn logged_in() -> Session {
    Session::open(br#"{"status":true,"streamSessionId":"abc"}"#).unwrap()
}

#[test]
fn login_with_valid_credentials() {
    assert_eq!(
        text(Session::login_request(1337, "password")),
        r#"{"arguments":{"appName":"","password":"password","userId":1337},"command":"login"}"#
    );
    let mut session = logged_in();
    assert_eq!(session.streaming_id(), "abc");
    assert_eq!(session.engine().state(), EngineState::Disconnected);
    assert_eq!(session.messages().len(), 0);
}

#[test]
fn login_rejected() {
    let opened =
        Session::open(br#"{"status":false,"errorCode":"BE001","errorDescr":"bad login"}"#);
    match opened {
        Err(ErrorKind::ApiError(code, description)) => {
            assert_eq!(code, "BE001");
            assert_eq!(description, "bad login");
        }
        _ => panic!("the login was not rejected"),
    }
}

#[test]
fn login_answered_with_data_is_an_invalid_response() {
    let opened = Session::open(br#"{"status":true,"returnData":null}"#);
    assert!(matches!(opened, Err(ErrorKind::InvalidResponse)));
}

#[test]
fn login_answered_with_garbage_is_a_decode_error() {
    assert!(matches!(
        Session::open(b"garbage"),
        Err(ErrorKind::JsonError(DecodeError::Syntax(_)))
    ));
    assert!(matches!(
        Session::open(br#"{"status":true}"#),
        Err(ErrorKind::JsonError(DecodeError::Shape))
    ));
}

#[test]
fn buy_returns_the_order() {
    let mut session = logged_in();
    let request = session.buy(&Symbol::new("EURUSD"), volume("0.01")).unwrap();
    assert!(text(request).contains(r#""symbol":"EURUSD","tp":0.0,"type":0,"volume":0.01"#));
    let order =
        session.transaction_reply(Ok(br#"{"status":true,"returnData":{"order":42}}"#.to_vec()));
    assert!(matches!(order, Ok(OrderId(42))));
}

#[test]
fn sell_and_close_ask_for_their_transactions() {
    let mut session = logged_in();
    let request = text(session.sell(&Symbol::new("EURUSD"), volume("0.5")).unwrap());
    assert!(request.contains(r#""cmd":1,"#));
    assert!(request.contains(r#""type":0,"volume":0.5"#));
    assert!(matches!(
        session.transaction_reply(Ok(br#"{"status":true,"returnData":{"order":1}}"#.to_vec())),
        Ok(OrderId(1))
    ));
    let request =
        text(session.close(&Symbol::new("EURUSD"), PositionId(77), volume("0.5")).unwrap());
    assert!(request.contains(r#""cmd":1,"#));
    assert!(request.contains(r#""order":77,"#));
    assert!(request.contains(r#""type":2,"volume":0.5"#));
}

#[test]
fn a_rejected_transaction_is_an_api_error() {
    let mut session = logged_in();
    session.buy(&Symbol::new("EURUSD"), volume("0.01")).unwrap();
    let order = session.transaction_reply(Ok(
        br#"{"status":false,"errorCode":"BE002","errorDescr":"no money"}"#.to_vec(),
    ));
    match order {
        Err(ErrorKind::ApiError(code, description)) => {
            assert_eq!(code, "BE002");
            assert_eq!(description, "no money");
        }
        _ => panic!("the transaction was not rejected"),
    }
}

#[test]
fn a_transaction_answered_like_a_login_is_an_invalid_response() {
    let mut session = logged_in();
    session.buy(&Symbol::new("EURUSD"), volume("0.01")).unwrap();
    let order =
        session.transaction_reply(Ok(br#"{"status":true,"streamSessionId":"x"}"#.to_vec()));
    assert!(matches!(order, Err(ErrorKind::InvalidResponse)));
}

#[test]
fn a_failed_receive_is_handed_on() {
    let mut session = logged_in();
    session.buy(&Symbol::new("EURUSD"), volume("0.01")).unwrap();
    let failure = std::io::Error::from(std::io::ErrorKind::ConnectionReset);
    let order = session.transaction_reply(Err(ErrorKind::Disconnected(failure)));
    match order {
        Err(ErrorKind::Disconnected(error)) => {
            assert_eq!(error.kind(), std::io::ErrorKind::ConnectionReset)
        }
        _ => panic!("the failure was not handed on"),
    }
}

#[test]
fn one_request_at_a_time() {
    let mut session = logged_in();
    assert!(session.buy(&Symbol::new("EURUSD"), volume("0.01")).is_ok());
    assert!(matches!(
        session.sell(&Symbol::new("EURUSD"), volume("0.01")),
        Err(ErrorKind::InternalError)
    ));
    assert!(session
        .transaction_reply(Ok(br#"{"status":true,"returnData":{"order":42}}"#.to_vec()))
        .is_ok());
    assert!(matches!(
        session.transaction_reply(Ok(br#"{"status":true,"returnData":{"order":42}}"#.to_vec())),
        Err(ErrorKind::InternalError)
    ));
    assert!(session.sell(&Symbol::new("EURUSD"), volume("0.01")).is_ok());
}

#[test]
fn the_command_channel_alone() {
    let mut channel = CommandChannel::new();
    assert!(!channel.is_awaiting_reply());
    let command = LoginCommand::new(1, "p");
    assert!(channel.request(&command).is_ok());
    assert!(channel.is_awaiting_reply());
    assert!(matches!(channel.request(&command), Err(ErrorKind::InternalError)));
    let reply: Result<TradeTransactionResponse, ErrorKind> =
        channel.reply(Ok(br#"{"status":true,"returnData":{"order":3}}"#.to_vec()));
    assert_eq!(reply.unwrap().order, OrderId(3));
    assert!(!channel.is_awaiting_reply());
}

#[test]
fn subscriptions_carry_the_session_token() {
    let session = logged_in();
    assert_eq!(
        text(session.start_balance()),
        r#"{"command":"getBalance","streamSessionId":"abc"}"#
    );
    assert_eq!(
        text(session.start_trades()),
        r#"{"command":"getTrades","streamSessionId":"abc"}"#
    );
    assert_eq!(
        text(session.subscription(StreamingCommandType::GetCandles { symbol: "GOLD".to_string() })),
        r#"{"command":"getCandles","streamSessionId":"abc","symbol":"GOLD"}"#
    );
    assert_eq!(
        text(session.subscription(StreamingCommandType::StopBalance)),
        r#"{"command":"stopBalance","streamSessionId":"abc"}"#
    );
    assert_eq!(
        text(session.subscription(StreamingCommandType::GetProfits)),
        r#"{"command":"getProfits","streamSessionId":"abc"}"#
    );
}

#[test]
fn what_a_call_makes_of_each_kind_of_reply() {
    let data: Response<u64> = Response::Success { status: true, return_data: 5 };
    assert!(matches!(expect_data(data), Ok(5)));
    let data: Response<u64> = Response::Success { status: true, return_data: 5 };
    assert!(matches!(expect_login(data), Err(ErrorKind::InvalidResponse)));
    let login: Response<u64> =
        Response::LoginSuccess { status: true, stream_session_id: "t".to_string() };
    assert!(matches!(expect_data(login), Err(ErrorKind::InvalidResponse)));
    let login: Response<u64> =
        Response::LoginSuccess { status: true, stream_session_id: "t".to_string() };
    assert_eq!(expect_login(login).unwrap(), "t");
    let error = || -> Response<u64> {
        Response::Error {
            status: false,
            error_code: "E".to_string(),
            error_desc: "d".to_string(),
        }
    };
    assert!(matches!(expect_data(error()), Err(ErrorKind::ApiError(c, d)) if c == "E" && d == "d"));
    assert!(matches!(expect_login(error()), Err(ErrorKind::ApiError(c, d)) if c == "E" && d == "d"));
    let read: Result<u64, ErrorKind> = read_data_reply(br#"{"status":true,"returnData":8}"#);
    assert!(matches!(read, Ok(8)));
}
