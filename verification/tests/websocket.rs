use xous_services::websocket_api::{Opcode, Return, WebsocketConfig, WsError, SERVER_NAME_WEBSOCKET};

#[test]
fn opcode_numbers() {
    assert_eq!(Opcode::Close.to_usize(), 1);
    assert_eq!(Opcode::Quit.to_usize(), 5);
    assert_eq!(Opcode::from_usize(0), None);
    assert_eq!(Opcode::from_usize(6), None);
    for op in [Opcode::Close, Opcode::Open, Opcode::Send, Opcode::State, Opcode::Quit] {
        assert_eq!(Opcode::from_usize(op.to_usize()), Some(op));
    }
}

#[test]
fn ws_error_numbers() {
    assert_eq!(WsError::Scalar.to_usize(), 0);
    assert_eq!(WsError::from_usize(5), Some(WsError::ProtocolError));
    assert_eq!(WsError::from_usize(6), None);
}

#[test]
fn server_name() {
    assert_eq!(SERVER_NAME_WEBSOCKET, "_Websocket Service_");
}

fn config() -> WebsocketConfig {
    WebsocketConfig {
        certificate_authority: None,
        base_url: "wss://example.org".to_string(),
        path: "/socket".to_string(),
        sub_protocols: ["chat".to_string(), String::new(), String::new()],
        use_credentials: false,
        login: String::new(),
        password: String::new(),
        cid: 1,
        opcode: 2,
    }
}

#[test]
fn config_limits() {
    assert!(config().within_limits());
    let mut c = config();
    c.sub_protocols[2] = "x".repeat(24);
    assert!(c.within_limits());
    c.sub_protocols[2] = "x".repeat(25);
    assert!(!c.within_limits());
    let mut c = config();
    // twelve two-byte characters fill the 24 bytes, a thirteenth does not fit
    c.sub_protocols[1] = "\u{e9}".repeat(12);
    assert!(c.within_limits());
    c.sub_protocols[1] = "\u{e9}".repeat(13);
    assert!(!c.within_limits());
    let mut c = config();
    c.certificate_authority = Some("a".repeat(1403));
    assert!(!c.within_limits());
    c.certificate_authority = Some("a".repeat(1402));
    assert!(c.within_limits());
    let mut c = config();
    c.password = "p".repeat(129);
    assert!(!c.within_limits());
}

#[test]
fn return_limits() {
    assert!(Return::SubProtocol("x".repeat(24)).within_limits());
    assert!(!Return::SubProtocol("x".repeat(25)).within_limits());
    assert!(Return::Failure("x".repeat(128)).within_limits());
    assert!(!Return::Failure("x".repeat(129)).within_limits());
}
