use net_transport::protocol::NetworkProtocol;

#[test]
fn scheme_names_are_lower_case() {
    assert_eq!(NetworkProtocol::UDP.as_str(), "udp");
    assert_eq!(NetworkProtocol::TCP.as_str(), "tcp");
    assert_eq!(NetworkProtocol::SSL.as_str(), "ssl");
    assert_eq!(NetworkProtocol::WS.as_str(), "ws");
    assert_eq!(NetworkProtocol::WSS.as_str(), "wss");
}

#[test]
fn protocols_are_ordered_as_declared() {
    assert!(NetworkProtocol::UDP < NetworkProtocol::TCP);
    assert!(NetworkProtocol::TCP < NetworkProtocol::SSL);
    assert!(NetworkProtocol::SSL < NetworkProtocol::WS);
    assert!(NetworkProtocol::WS < NetworkProtocol::WSS);
    assert_eq!(NetworkProtocol::TCP, NetworkProtocol::TCP);
    assert_ne!(NetworkProtocol::TCP, NetworkProtocol::UDP);
}
