use xtb_rs::codec::{decode, encode};
use xtb_rs::{OrderId, OrderSide, OrderType, PositionId, Symbol};

#[test]
fn order_sides_have_their_numbers() {
    let sides = [
        OrderSide::Buy,
        OrderSide::Sell,
        OrderSide::BuyLimit,
        OrderSide::SellLimit,
        OrderSide::BuyStop,
        OrderSide::SellStop,
    ];
    for (code, side) in sides.iter().enumerate() {
        assert_eq!(side.to_code(), code as u64);
        assert_eq!(OrderSide::from_code(code as u64), Some(*side));
        assert_eq!(encode(side), code.to_string().into_bytes());
        assert_eq!(decode::<OrderSide>(code.to_string().as_bytes()).unwrap(), *side);
    }
    assert_eq!(OrderSide::from_code(6), None);
    assert!(decode::<OrderSide>(b"6").is_err());
    assert_eq!(OrderSide::default(), OrderSide::Buy);
}

#[test]
fn order_kinds_have_their_numbers() {
    let kinds = [
        OrderType::Open,
        OrderType::Pending,
        OrderType::Close,
        OrderType::Modify,
        OrderType::Delete,
    ];
    for (code, kind) in kinds.iter().enumerate() {
        assert_eq!(kind.to_code(), code as u64);
        assert_eq!(OrderType::from_code(code as u64), Some(*kind));
        assert_eq!(encode(kind), code.to_string().into_bytes());
        assert_eq!(decode::<OrderType>(code.to_string().as_bytes()).unwrap(), *kind);
    }
    assert_eq!(OrderType::from_code(5), None);
    assert!(decode::<OrderType>(b"5").is_err());
    assert_eq!(OrderType::default(), OrderType::Open);
}

#[test]
fn identifiers_are_plain_numbers() {
    assert_eq!(encode(&OrderId(42)), b"42".to_vec());
    assert_eq!(encode(&PositionId(7)), b"7".to_vec());
    assert_eq!(decode::<OrderId>(b"42").unwrap(), OrderId(42));
    assert_eq!(decode::<PositionId>(b"7").unwrap(), PositionId(7));
    assert!(decode::<OrderId>(b"-1").is_err());
    assert!(decode::<OrderId>(b"4.0").is_err());
    assert!(decode::<OrderId>(b"\"4\"").is_err());
    assert!(decode::<OrderId>(b"null").is_err());
}

#[test]
fn identifiers_convert_to_and_from_numbers() {
    assert_eq!(OrderId::from(5), OrderId(5));
    assert_eq!(PositionId::from(6), PositionId(6));
    let order: usize = OrderId(5).into();
    let position: usize = PositionId(6).into();
    assert_eq!(order, 5);
    assert_eq!(position, 6);
    assert_eq!(OrderId::default(), OrderId(0));
    assert_eq!(PositionId::default(), PositionId(0));
}

#[test]
fn symbols_are_made_of_their_name() {
    assert_eq!(Symbol::new("EURUSD"), Symbol("EURUSD".to_string()));
    assert_eq!(Symbol::from("EURUSD"), Symbol("EURUSD".to_string()));
    assert_eq!(Symbol::from("EURUSD".to_string()), Symbol("EURUSD".to_string()));
}

#[test]
fn an_empty_object_is_the_default_trade() {
    let read: xtb_rs::TradeRecord = decode(b"{}").unwrap();
    let default = xtb_rs::TradeRecord::default();
    assert_eq!(read.close_price, default.close_price);
    assert_eq!(read.close_price.as_str(), "0.0");
    assert_eq!(read.side, OrderSide::Buy);
    assert_eq!(read.kind, OrderType::Open);
    assert_eq!(read.order, None);
    assert_eq!(read.order2, OrderId(0));
    assert_eq!(read.position, PositionId(0));
    assert_eq!(read.symbol, "");
    assert_eq!(read.volume, default.volume);
    assert_eq!(read.profit, None);
    assert_eq!(default.clone().timestamp, 0);
    assert!(decode::<xtb_rs::TradeRecord>(b"[]").is_err());
    assert!(decode::<xtb_rs::TradeRecord>(b"{\"volume\":null}").is_err());
    assert!(decode::<xtb_rs::BalanceRecord>(b"{}").is_err());
    assert_eq!(xtb_rs::BalanceRecord::default().balance.as_str(), "0.0");
}
