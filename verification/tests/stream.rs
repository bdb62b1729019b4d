use xtb_rs::stream::{EngineState, PollAction, StreamEngine, POLL_INTERVAL_MS};
use xtb_rs::{ErrorKind, OrderId, OrderSide, OrderType, PositionId, StreamingMessage};

const PROFIT: &[u8] =
    br#"{"command":"profit","data":{"order":1,"order2":2,"position":3,"profit":10.5}}"#;

fn polling() -> StreamEngine {
    let mut engine = StreamEngine::new();
    assert_eq!(engine.state(), EngineState::Disconnected);
    assert!(engine.connected());
    assert_eq!(engine.state(), EngineState::Subscribing);
    assert!(engine.start_polling());
    assert_eq!(engine.state(), EngineState::Polling);
    engine
}

#[test]
fn the_states_follow_each_other() {
    let mut engine = StreamEngine::new();
    assert!(!engine.start_polling());
    assert_eq!(engine.state(), EngineState::Disconnected);
    assert!(engine.connected());
    assert!(!engine.connected());
    assert!(engine.start_polling());
    assert!(!engine.start_polling());
    assert!(!engine.connected());
    engine.close();
    assert_eq!(engine.state(), EngineState::Closed);
    assert!(!engine.connected());
    assert!(!engine.start_polling());
    assert_eq!(engine.state(), EngineState::Closed);
}

#[test]
fn a_profit_event_is_queued() {
    let mut engine = polling();
    assert_eq!(engine.poll_once(Ok(PROFIT.to_vec())), PollAction::Continue);
    let events = engine.drain_available();
    assert_eq!(events.len(), 1);
    match &events[0] {
        StreamingMessage::Profit { data } => {
            assert_eq!(data.order, OrderId(1));
            assert_eq!(data.order2, OrderId(2));
            assert_eq!(data.position, PositionId(3));
            assert_eq!(data.profit.as_str(), "10.5");
            assert_eq!(data.profit.as_str().parse::<f64>().unwrap(), 10.5);
        }
        _ => panic!("not a profit event"),
    }
    assert_eq!(engine.drain_available().len(), 0);
    assert_eq!(engine.state(), EngineState::Polling);
}

#[test]
fn an_unknown_command_closes_the_engine() {
    let mut engine = polling();
    assert_eq!(engine.poll_once(Ok(PROFIT.to_vec())), PollAction::Continue);
    let unknown = br#"{"command":"news","data":{}}"#.to_vec();
    assert_eq!(engine.poll_once(Ok(unknown)), PollAction::Stop);
    assert_eq!(engine.state(), EngineState::Closed);
    assert_eq!(engine.poll_once(Ok(PROFIT.to_vec())), PollAction::Stop);
    assert_eq!(engine.poll_once(Err(ErrorKind::WouldBlock)), PollAction::Stop);
    assert_eq!(engine.queued(), 1);
    let events = engine.drain_available();
    assert_eq!(events.len(), 1);
    assert!(matches!(events[0], StreamingMessage::Profit { .. }));
    assert_eq!(engine.state(), EngineState::Closed);
    assert_eq!(engine.poll_once(Ok(PROFIT.to_vec())), PollAction::Stop);
    assert_eq!(engine.drain_available().len(), 0);
}

#[test]
fn would_block_only_asks_for_a_pause() {
    let mut engine = polling();
    assert_eq!(POLL_INTERVAL_MS, 100);
    for _ in 0..3 {
        assert_eq!(engine.poll_once(Err(ErrorKind::WouldBlock)), PollAction::Sleep(100));
        assert_eq!(engine.state(), EngineState::Polling);
        assert_eq!(engine.queued(), 0);
    }
    assert!(!ErrorKind::WouldBlock.fatal());
    assert!(ErrorKind::InvalidResponse.fatal());
    assert_eq!(engine.poll_once(Ok(PROFIT.to_vec())), PollAction::Continue);
    assert_eq!(engine.poll_once(Err(ErrorKind::WouldBlock)), PollAction::Sleep(100));
    assert_eq!(engine.queued(), 1);
}

#[test]
fn a_transport_error_closes_the_engine() {
    let mut engine = polling();
    let failure = std::io::Error::from(std::io::ErrorKind::ConnectionReset);
    assert_eq!(engine.poll_once(Err(ErrorKind::Disconnected(failure))), PollAction::Stop);
    assert_eq!(engine.state(), EngineState::Closed);
}

#[test]
fn a_frame_that_is_no_json_closes_the_engine() {
    let mut engine = polling();
    assert_eq!(engine.poll_once(Ok(b"{".to_vec())), PollAction::Stop);
    assert_eq!(engine.state(), EngineState::Closed);
}

#[test]
fn an_engine_that_does_not_poll_takes_nothing() {
    let mut engine = StreamEngine::new();
    assert_eq!(engine.poll_once(Ok(PROFIT.to_vec())), PollAction::Stop);
    assert_eq!(engine.state(), EngineState::Disconnected);
    assert_eq!(engine.queued(), 0);
    engine.connected();
    assert_eq!(engine.poll_once(Ok(PROFIT.to_vec())), PollAction::Stop);
    assert_eq!(engine.state(), EngineState::Subscribing);
    assert_eq!(engine.queued(), 0);
}

#[test]
fn events_come_out_in_the_order_of_their_arrival() {
    let mut engine = polling();
    let balance = br#"{"command":"balance","data":{"balance":1000.5,"credit":0,"equity":1000.5,"margin":0.0,"marginFree":1000.5,"marginLevel":0}}"#;
    let candle = br#"{"command":"candles","data":{"close":4.1,"ctm":1378369375000,"ctmString":"Sep 05, 2013","high":4.2,"low":4.0,"open":4.05,"quoteId":2,"symbol":"EURUSD","vol":1.5}}"#;
    let trade = br#"{"command":"trade","data":{"cmd":1,"order":7,"order2":8,"position":9,"symbol":"EURUSD","type":2,"volume":0.1,"profit":null,"closed":true}}"#;
    assert_eq!(engine.poll_once(Ok(balance.to_vec())), PollAction::Continue);
    assert_eq!(engine.poll_once(Ok(PROFIT.to_vec())), PollAction::Continue);
    assert_eq!(engine.poll_once(Ok(candle.to_vec())), PollAction::Continue);
    assert_eq!(engine.poll_once(Ok(trade.to_vec())), PollAction::Continue);
    let events = engine.drain_available();
    assert_eq!(events.len(), 4);
    match &events[0] {
        StreamingMessage::Balance { data } => {
            assert_eq!(data.balance.as_str(), "1000.5");
            assert_eq!(data.credit.as_str(), "0");
            assert_eq!(data.margin_free.as_str(), "1000.5");
            assert_eq!(data.margin_level.as_str(), "0");
        }
        _ => panic!("not a balance event"),
    }
    assert!(matches!(events[1], StreamingMessage::Profit { .. }));
    match &events[2] {
        StreamingMessage::Candles { data } => {
            assert_eq!(data.ctm, 1378369375000);
            assert_eq!(data.ctm_string, "Sep 05, 2013");
            assert_eq!(data.quote_id, 2);
            assert_eq!(data.symbol, "EURUSD");
            assert_eq!(data.vol.as_str(), "1.5");
        }
        _ => panic!("not a candle event"),
    }
    match &events[3] {
        StreamingMessage::Trade { data } => {
            assert_eq!(data.side, OrderSide::Sell);
            assert_eq!(data.order, Some(OrderId(7)));
            assert_eq!(data.order2, OrderId(8));
            assert_eq!(data.position, PositionId(9));
            assert_eq!(data.symbol, "EURUSD");
            assert_eq!(data.kind, OrderType::Close);
            assert_eq!(data.volume.as_str(), "0.1");
            assert_eq!(data.profit, None);
            assert!(data.closed);
            assert_eq!(data.close_price.as_str(), "0.0");
            assert_eq!(data.close_time, None);
            assert_eq!(data.comment, None);
            assert_eq!(data.digits, 0);
            assert_eq!(data.state, "");
            assert_eq!(data.timestamp, 0);
        }
        _ => panic!("not a trade event"),
    }
}

#[test]
fn an_event_without_its_record_closes_the_engine() {
    for frame in [
        &br#"{"command":"profit"}"#[..],
        &br#"{"command":"profit","data":{"order":1,"order2":2,"position":3}}"#[..],
        &br#"{"command":"profit","data":{"order":1,"order2":2,"position":3,"profit":"x"}}"#[..],
        &br#"{"command":"balance","data":{"balance":1}}"#[..],
        &br#"{"command":"trade","data":{"cmd":9}}"#[..],
        &br#"{"command":"trade","data":[]}"#[..],
        &br#"{"command":5,"data":{}}"#[..],
        &br#"{"data":{}}"#[..],
    ] {
        let mut engine = polling();
        assert_eq!(engine.poll_once(Ok(frame.to_vec())), PollAction::Stop);
        assert_eq!(engine.state(), EngineState::Closed);
        assert_eq!(engine.queued(), 0);
    }
}
