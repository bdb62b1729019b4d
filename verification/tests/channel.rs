use xtb_rs::channel::FramedChannel;
use xtb_rs::endpoint::Endpoint;
use xtb_rs::{
    ErrorKind, LoginCommand, StreamingMessage, DEFAULT_XAPI_ADDRESS, DEFAULT_XAPI_DEMO_PORT,
    DEFAULT_XAPI_DEMO_STREAMING_PORT,
};

#[test]
fn a_channel_hands_out_frames_as_they_complete() {
    let mut channel = FramedChannel::new();
    assert!(channel.is_open());
    assert!(!channel.is_non_blocking());
    assert!(matches!(channel.receive_frame(), Err(ErrorKind::WouldBlock)));
    channel.feed(b"{\"status\"").unwrap();
    assert!(matches!(channel.receive_frame(), Err(ErrorKind::WouldBlock)));
    channel.feed(b":true}\n\nrest").unwrap();
    assert_eq!(channel.receive_frame().unwrap(), b"{\"status\":true}".to_vec());
    assert!(matches!(channel.receive_frame(), Err(ErrorKind::WouldBlock)));
}

#[test]
fn a_channel_decodes_what_it_receives() {
    let mut channel = FramedChannel::new();
    channel
        .feed(b"{\"command\":\"profit\",\"data\":{\"order\":1,\"order2\":2,\"position\":3,\"profit\":-1}}\n\n")
        .unwrap();
    let event: StreamingMessage = channel.recv().unwrap();
    assert!(matches!(event, StreamingMessage::Profit { .. }));
    let none: Result<StreamingMessage, ErrorKind> = channel.recv();
    assert!(matches!(none, Err(ErrorKind::WouldBlock)));
}

#[test]
fn a_closed_channel_fails_every_operation() {
    let mut channel = FramedChannel::new();
    channel.feed(b"frame\n\n").unwrap();
    channel.close();
    assert!(!channel.is_open());
    assert!(matches!(channel.receive_frame(), Err(ErrorKind::Disconnected(_))));
    assert!(matches!(channel.feed(b"more"), Err(ErrorKind::Disconnected(_))));
    assert!(matches!(channel.send(&LoginCommand::new(1, "p")), Err(ErrorKind::Disconnected(_))));
    let none: Result<StreamingMessage, ErrorKind> = channel.recv();
    assert!(matches!(none, Err(ErrorKind::Disconnected(_))));
}

#[test]
fn a_failed_transport_closes_the_channel() {
    let mut channel = FramedChannel::new();
    let reported = channel.fail(std::io::Error::from(std::io::ErrorKind::BrokenPipe));
    match reported {
        ErrorKind::Disconnected(error) => assert_eq!(error.kind(), std::io::ErrorKind::BrokenPipe),
        _ => panic!("the failure was not reported"),
    }
    assert!(!channel.is_open());
}

#[test]
fn a_channel_notes_its_mode_and_encodes_what_it_sends() {
    let mut channel = FramedChannel::new();
    channel.set_nonblocking(true);
    assert!(channel.is_non_blocking());
    assert!(channel.is_open());
    let text = channel.send(&LoginCommand::new(1, "p")).unwrap();
    assert_eq!(
        String::from_utf8(text).unwrap(),
        r#"{"arguments":{"appName":"","password":"p","userId":1},"command":"login"}"#
    );
}

#[test]
fn the_endpoints_of_the_demo_platform() {
    let requests = Endpoint::new(DEFAULT_XAPI_ADDRESS, DEFAULT_XAPI_DEMO_PORT).unwrap();
    assert_eq!(requests.host(), "xapi.xtb.com");
    assert_eq!(requests.port(), 5124);
    assert_eq!(requests.address(), "xapi.xtb.com:5124");
    let streaming = Endpoint::new(DEFAULT_XAPI_ADDRESS, DEFAULT_XAPI_DEMO_STREAMING_PORT).unwrap();
    assert_eq!(streaming.address(), "xapi.xtb.com:5125");
}

#[test]
fn an_invalid_host_is_a_transport_error() {
    for host in ["", "bad host", "not a host", "host:5124", "-host.example", "h\u{f6}st.example"] {
        match Endpoint::new(host, 1) {
            Err(ErrorKind::Disconnected(error)) => {
                assert_eq!(error.kind(), std::io::ErrorKind::InvalidInput)
            }
            _ => panic!("{:?} was taken for a host", host),
        }
    }
    assert!(Endpoint::new("localhost", 0).is_ok());
    assert_eq!(Endpoint::new("localhost", 0).unwrap().address(), "localhost:0");
}

#[test]
fn a_read_that_would_block_is_no_failure() {
    let mut channel = FramedChannel::new();
    channel.read_gave(b"half a fra").unwrap();
    let blocked = std::io::Error::from(std::io::ErrorKind::WouldBlock);
    assert!(matches!(channel.read_failed(true, blocked), ErrorKind::WouldBlock));
    assert!(channel.is_open());
    assert!(!ErrorKind::WouldBlock.fatal());
    channel.read_gave(b"me\n\n").unwrap();
    assert_eq!(channel.receive_frame().unwrap(), b"half a frame".to_vec());
}

#[test]
fn a_failed_read_closes_the_channel() {
    let mut channel = FramedChannel::new();
    let reset = std::io::Error::from(std::io::ErrorKind::ConnectionReset);
    match channel.read_failed(false, reset) {
        ErrorKind::Disconnected(error) => {
            assert_eq!(error.kind(), std::io::ErrorKind::ConnectionReset)
        }
        _ => panic!("the failure was not reported"),
    }
    assert!(!channel.is_open());
    assert!(matches!(channel.receive_frame(), Err(ErrorKind::Disconnected(_))));
}

#[test]
fn a_read_without_bytes_is_the_end_of_the_connection() {
    let mut channel = FramedChannel::new();
    channel.read_gave(b"frame\n\nhalf").unwrap();
    match channel.read_gave(b"") {
        Err(ErrorKind::Disconnected(error)) => {
            assert_eq!(error.kind(), std::io::ErrorKind::UnexpectedEof)
        }
        _ => panic!("the end was not reported"),
    }
    assert!(!channel.is_open());
    match channel.read_gave(b"more") {
        Err(ErrorKind::Disconnected(error)) => {
            assert_eq!(error.kind(), std::io::ErrorKind::NotConnected)
        }
        _ => panic!("a closed channel took bytes"),
    }
    assert!(matches!(channel.receive_frame(), Err(ErrorKind::Disconnected(_))));
}
