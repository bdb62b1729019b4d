use xtb_rs::codec::{decode, encode};
use xtb_rs::commands::{GetTradeRecordsCommand, GetTradesCommand};
use xtb_rs::json::Json;
use xtb_rs::{
    DecodeError, ErrorKind, LoginCommand, Number, OrderId, OrderSide, OrderType, PositionId,
    Response, StreamingCommand, StreamingCommandType, Symbol, TradeTransactionCommand,
    TradeTransactionResponse, Transaction,
};

fn text(bytes: Vec<u8>) -> String {
    String::from_utf8(bytes).unwrap()
}

fn volume(literal: &str) -> Number {
    Number::parse(literal).unwrap()
}

#[test]
fn login_command_on_the_wire() {
    let command = LoginCommand::new(1337, "password");
    assert_eq!(command.command, "login");
    assert_eq!(command.arguments.user_id, 1337);
    assert_eq!(command.arguments.password, "password");
    assert_eq!(command.arguments.app_name, "");
    assert_eq!(
        text(encode(&command)),
        r#"{"arguments":{"appName":"","password":"password","userId":1337},"command":"login"}"#
    );
}

#[test]
fn get_trades_command_renames_its_flag() {
    let command = GetTradesCommand::new(true);
    assert_eq!(
        text(encode(&command)),
        r#"{"arguments":{"openedOnly":true},"command":"getTrades"}"#
    );
}

#[test]
fn get_trade_records_command_lists_its_orders() {
    let command = GetTradeRecordsCommand::new(vec![OrderId(1), OrderId(22)]);
    assert_eq!(
        text(encode(&command)),
        r#"{"arguments":{"orders":[1,22]},"command":"getTradeRecords"}"#
    );
    let none = GetTradeRecordsCommand::new(Vec::new());
    assert_eq!(
        text(encode(&none)),
        r#"{"arguments":{"orders":[]},"command":"getTradeRecords"}"#
    );
}

#[test]
fn buy_transaction_on_the_wire() {
    let symbol = Symbol::new("EURUSD");
    let command = TradeTransactionCommand::new(symbol.buy(volume("0.01")));
    assert_eq!(
        text(encode(&command)),
        concat_all(&[
            r#"{"arguments":{"tradeTransInfo":{"cmd":0,"customComment":"","#,
            r#""expiration":9999999999999,"offset":0,"order":0,"price":1.0,"sl":0.0,"#,
            r#""symbol":"EURUSD","tp":0.0,"type":0,"volume":0.01}},"#,
            r#""command":"tradeTransaction"}"#,
        ])
    );
}

fn concat_all(parts: &[&str]) -> String {
    let mut all = String::new();
    for part in parts {
        all.push_str(part);
    }
    all
}

#[test]
fn the_three_transactions_of_a_symbol() {
    let symbol = Symbol::new("EURUSD");
    let buy = symbol.buy(volume("0.01"));
    assert_eq!(buy.symbol, Some("EURUSD"));
    assert_eq!(buy.kind, Some(OrderType::Open));
    assert_eq!(buy.side, Some(OrderSide::Buy));
    assert_eq!(buy.order, OrderId(0));
    assert_eq!(buy.volume, volume("0.01"));
    assert_eq!(buy.comment, None);
    let sell = symbol.sell(volume("2.5"));
    assert_eq!(sell.kind, Some(OrderType::Open));
    assert_eq!(sell.side, Some(OrderSide::Sell));
    assert_eq!(sell.volume, volume("2.5"));
    let close = symbol.close(PositionId(77), volume("0.01"));
    assert_eq!(close.kind, Some(OrderType::Close));
    assert_eq!(close.side, Some(OrderSide::Sell));
    assert_eq!(close.order, OrderId(77));
    assert_eq!(close.symbol, Some("EURUSD"));
}

#[test]
fn a_transaction_without_side_symbol_or_comment() {
    let transaction = Transaction { kind: Some(OrderType::Delete), ..Transaction::default() };
    let command = TradeTransactionCommand::new(transaction);
    let info = &command.arguments.trade_trans_info;
    assert_eq!(info.cmd, OrderSide::Buy);
    assert_eq!(info.custom_comment, "");
    assert_eq!(info.symbol, "");
    assert_eq!(info.typ, OrderType::Delete);
    assert_eq!(info.expiration, Some(9999999999999));
    assert_eq!(info.offset, 0);
    assert_eq!(info.price, Number::one());
    assert_eq!(info.sl, Number::zero());
    assert_eq!(info.tp, Number::zero());
    assert_eq!(info.volume, Number::zero());
}

#[test]
fn a_transaction_keeps_its_comment_and_ignores_its_own_price() {
    let transaction = Transaction {
        kind: Some(OrderType::Close),
        side: Some(OrderSide::SellStop),
        symbol: Some("GOLD"),
        order: OrderId(9),
        volume: volume("3"),
        comment: Some("by hand"),
        typ: 4,
        expiration: 5,
        offset: 6,
        tp: volume("7.0"),
        sl: volume("8.0"),
        price: volume("9.0"),
    };
    let command = TradeTransactionCommand::new(transaction);
    assert_eq!(
        text(encode(&command)),
        concat_all(&[
            r#"{"arguments":{"tradeTransInfo":{"cmd":5,"customComment":"by hand","#,
            r#""expiration":9999999999999,"offset":0,"order":9,"price":1.0,"sl":0.0,"#,
            r#""symbol":"GOLD","tp":0.0,"type":2,"volume":3}},"#,
            r#""command":"tradeTransaction"}"#,
        ])
    );
}

#[test]
fn streaming_commands_on_the_wire() {
    let id = || "abc".to_string();
    assert_eq!(
        text(encode(&StreamingCommand::get_balance(id()))),
        r#"{"command":"getBalance","streamSessionId":"abc"}"#
    );
    assert_eq!(
        text(encode(&StreamingCommand::stop_balance(id()))),
        r#"{"command":"stopBalance","streamSessionId":"abc"}"#
    );
    assert_eq!(
        text(encode(&StreamingCommand::get_trades(id()))),
        r#"{"command":"getTrades","streamSessionId":"abc"}"#
    );
    assert_eq!(
        text(encode(&StreamingCommand::get_profits(id()))),
        r#"{"command":"getProfits","streamSessionId":"abc"}"#
    );
    assert_eq!(
        text(encode(&StreamingCommand::get_candles(id(), "EURUSD".to_string()))),
        r#"{"command":"getCandles","streamSessionId":"abc","symbol":"EURUSD"}"#
    );
    let made = StreamingCommand::new(StreamingCommandType::GetProfits, id());
    assert!(matches!(made.command, StreamingCommandType::GetProfits));
    assert_eq!(made.stream_session_id, "abc");
}

#[test]
fn text_is_escaped_by_the_printer() {
    let command = LoginCommand::new(1, "a\"b\\c\n");
    assert_eq!(
        text(encode(&command)),
        r#"{"arguments":{"appName":"","password":"a\"b\\c\n","userId":1},"command":"login"}"#
    );
}

#[test]
fn a_reply_with_data() {
    let reply: Response<TradeTransactionResponse> =
        decode(br#"{"status":true,"returnData":{"order":42}}"#).unwrap();
    match reply {
        Response::Success { status, return_data } => {
            assert!(status);
            assert_eq!(return_data.order, OrderId(42));
        }
        _ => panic!("not a reply with data"),
    }
}

#[test]
fn a_rejection() {
    let reply: Response<TradeTransactionResponse> =
        decode(br#"{"status":false,"errorCode":"BE001","errorDescr":"bad login"}"#).unwrap();
    match reply {
        Response::Error { status, error_code, error_desc } => {
            assert!(!status);
            assert_eq!(error_code, "BE001");
            assert_eq!(error_desc, "bad login");
        }
        _ => panic!("not a rejection"),
    }
}

#[test]
fn the_reply_to_a_login() {
    let reply: Response<()> = decode(br#"{"status":true,"streamSessionId":"abc"}"#).unwrap();
    match reply {
        Response::LoginSuccess { status, stream_session_id } => {
            assert!(status);
            assert_eq!(stream_session_id, "abc");
        }
        _ => panic!("not the reply to a login"),
    }
}

#[test]
fn the_first_shape_that_fits_decides() {
    let all = br#"{"status":true,"streamSessionId":"abc","returnData":{"order":1},"errorCode":"E","errorDescr":"d"}"#;
    let reply: Response<TradeTransactionResponse> = decode(all).unwrap();
    assert!(matches!(reply, Response::LoginSuccess { .. }));
    let two = br#"{"status":true,"returnData":{"order":1},"errorCode":"E","errorDescr":"d"}"#;
    let reply: Response<TradeTransactionResponse> = decode(two).unwrap();
    assert!(matches!(reply, Response::Success { .. }));
    let data_of_another_shape = br#"{"status":true,"returnData":{"order":"x"},"errorCode":"E","errorDescr":"d"}"#;
    let reply: Response<TradeTransactionResponse> = decode(data_of_another_shape).unwrap();
    assert!(matches!(reply, Response::Error { .. }));
    let session_of_another_shape = br#"{"status":true,"streamSessionId":5,"returnData":{"order":1}}"#;
    let reply: Response<TradeTransactionResponse> = decode(session_of_another_shape).unwrap();
    assert!(matches!(reply, Response::Success { .. }));
}

#[test]
fn a_reply_of_no_shape_is_a_decode_error() {
    for frame in [
        &br#"{"status":true}"#[..],
        &br#"{"returnData":{"order":1}}"#[..],
        &br#"{"status":"yes","returnData":{"order":1}}"#[..],
        &br#"{"status":false,"errorCode":"BE001"}"#[..],
        &br#"[]"#[..],
        &br#"null"#[..],
    ] {
        let reply: Result<Response<TradeTransactionResponse>, ErrorKind> = decode(frame);
        assert!(matches!(reply, Err(ErrorKind::JsonError(DecodeError::Shape))));
    }
}

#[test]
fn a_frame_that_is_no_json_is_a_decode_error() {
    for frame in [&b""[..], &b"{"[..], &b"{\"status\":tru"[..], &b"\xff"[..]] {
        let reply: Result<Response<TradeTransactionResponse>, ErrorKind> = decode(frame);
        assert!(matches!(reply, Err(ErrorKind::JsonError(DecodeError::Syntax(_)))));
    }
}

#[test]
fn the_reply_to_a_login_carries_no_data() {
    let reply: Response<()> = decode(br#"{"status":true,"returnData":null}"#).unwrap();
    assert!(matches!(reply, Response::Success { status: true, return_data: () }));
    let reply: Result<Response<()>, ErrorKind> = decode(br#"{"status":true,"returnData":1}"#);
    assert!(matches!(reply, Err(ErrorKind::JsonError(DecodeError::Shape))));
}

#[test]
fn echoed_arguments_come_back_as_they_went() {
    let symbol = Symbol::new("EURUSD");
    let command = TradeTransactionCommand::new(symbol.sell(volume("0.25")));
    let sent = xtb_rs::wire::read_document(&encode(&command)).unwrap();
    let arguments = sent.get("arguments").unwrap();
    let echoed = Json::Object(vec![
        xtb_rs::json::Member { name: "status".to_string(), value: Json::Bool(true) },
        xtb_rs::json::Member {
            name: "returnData".to_string(),
            value: arguments.duplicate(),
        },
    ]);
    let frame = xtb_rs::wire::write_document(&echoed).unwrap();
    let reply: Response<Json> = decode(&frame).unwrap();
    match reply {
        Response::Success { status, return_data } => {
            assert!(status);
            assert_eq!(&return_data, arguments);
            assert_eq!(
                return_data.get("tradeTransInfo").unwrap().get("volume"),
                Some(&Json::Number("0.25".to_string()))
            );
            assert_eq!(
                return_data.get("tradeTransInfo").unwrap().get("symbol"),
                Some(&Json::Text("EURUSD".to_string()))
            );
        }
        _ => panic!("not a reply with data"),
    }
}

#[test]
fn a_streaming_command_read_back_is_the_command_sent() {
    let commands = [
        StreamingCommand::get_balance("abc".to_string()),
        StreamingCommand::stop_balance("abc".to_string()),
        StreamingCommand::get_trades("".to_string()),
        StreamingCommand::get_profits("x y".to_string()),
        StreamingCommand::get_candles("abc".to_string(), "EURUSD".to_string()),
    ];
    for command in commands.iter() {
        let read: StreamingCommand = decode(&encode(command)).unwrap();
        assert_eq!(read.stream_session_id, command.stream_session_id);
        match (&read.command, &command.command) {
            (StreamingCommandType::GetBalance, StreamingCommandType::GetBalance) => {}
            (StreamingCommandType::StopBalance, StreamingCommandType::StopBalance) => {}
            (StreamingCommandType::GetTrades, StreamingCommandType::GetTrades) => {}
            (StreamingCommandType::GetProfits, StreamingCommandType::GetProfits) => {}
            (
                StreamingCommandType::GetCandles { symbol: read },
                StreamingCommandType::GetCandles { symbol: sent },
            ) => assert_eq!(read, sent),
            _ => panic!("another command came back"),
        }
        assert_eq!(encode(&read), encode(command));
    }
}

#[test]
fn what_is_no_streaming_command_is_not_read_as_one() {
    for frame in [
        &br#"{"command":"getBalance"}"#[..],
        &br#"{"streamSessionId":"abc"}"#[..],
        &br#"{"command":"getNews","streamSessionId":"abc"}"#[..],
        &br#"{"command":"getCandles","streamSessionId":"abc"}"#[..],
        &br#"{"command":"getCandles","streamSessionId":"abc","symbol":5}"#[..],
        &br#"{"command":{"getCandles":{"symbol":"EURUSD"}},"streamSessionId":"abc"}"#[..],
    ] {
        let read: Result<StreamingCommand, ErrorKind> = decode(frame);
        assert!(matches!(read, Err(ErrorKind::JsonError(DecodeError::Shape))));
    }
}

#[test]
fn decoding_twice_gives_the_same_variant() {
    for frame in [
        &br#"{"status":true,"streamSessionId":"abc"}"#[..],
        &br#"{"status":true,"returnData":{"order":42}}"#[..],
        &br#"{"status":false,"errorCode":"BE001","errorDescr":"bad login"}"#[..],
    ] {
        let first: Response<TradeTransactionResponse> = decode(frame).unwrap();
        let second: Response<TradeTransactionResponse> = decode(frame).unwrap();
        assert_eq!(std::mem::discriminant(&first), std::mem::discriminant(&second));
    }
}

fn echo(sent: &[u8]) -> Vec<u8> {
    let read = xtb_rs::wire::read_document(sent).unwrap();
    let arguments = read.get("arguments").unwrap();
    let reply = Json::Object(vec![
        xtb_rs::json::Member { name: "status".to_string(), value: Json::Bool(true) },
        xtb_rs::json::Member { name: "returnData".to_string(), value: arguments.duplicate() },
    ]);
    xtb_rs::wire::write_document(&reply).unwrap()
}

#[test]
fn echoed_arguments_come_back_as_the_value_sent() {
    let command = xtb_rs::BaseCommand { command: "order", arguments: OrderId(42) };
    match decode::<Response<OrderId>>(&echo(&encode(&command))).unwrap() {
        Response::Success { status: true, return_data } => assert_eq!(return_data, OrderId(42)),
        _ => panic!("not the reply with the order"),
    }
    let command = xtb_rs::BaseCommand { command: "side", arguments: OrderSide::SellStop };
    match decode::<Response<OrderSide>>(&echo(&encode(&command))).unwrap() {
        Response::Success { status: true, return_data } => {
            assert_eq!(return_data, OrderSide::SellStop)
        }
        _ => panic!("not the reply with the side"),
    }
    let command = xtb_rs::BaseCommand { command: "text", arguments: "a \"b\"\n".to_string() };
    match decode::<Response<String>>(&echo(&encode(&command))).unwrap() {
        Response::Success { status: true, return_data } => assert_eq!(return_data, "a \"b\"\n"),
        _ => panic!("not the reply with the text"),
    }
    let command = xtb_rs::BaseCommand {
        command: "stream",
        arguments: StreamingCommand::get_candles("abc".to_string(), "EURUSD".to_string()),
    };
    match decode::<Response<StreamingCommand>>(&echo(&encode(&command))).unwrap() {
        Response::Success { status: true, return_data } => {
            assert_eq!(return_data.stream_session_id, "abc");
            assert!(matches!(
                return_data.command,
                StreamingCommandType::GetCandles { symbol } if symbol == "EURUSD"
            ));
        }
        _ => panic!("not the reply with the command"),
    }
}
