use net_transport::addr::SocketAddress;
use net_transport::error::{ErrorKind, NetworkError};
use net_transport::packet::NetworkRawPacket;

#[test]
fn packet_holds_a_copy_of_the_bytes() {
    let mut data = vec![1u8, 2, 3, 4];
    let peer = SocketAddress::v4(10, 0, 0, 1, 9);
    let packet = NetworkRawPacket::new(Some(peer), &data);
    data[0] = 99;
    assert_eq!(packet.socket, Some(peer));
    assert_eq!(packet.len(), 4);
    assert_eq!(packet.payload(), &[1u8, 2, 3, 4][..]);
}

#[test]
fn empty_packet_has_no_bytes() {
    let packet = NetworkRawPacket::new(None, &[]);
    assert_eq!(packet.socket, None);
    assert_eq!(packet.len(), 0);
    assert!(packet.payload().is_empty());
}

#[test]
fn duplicate_has_the_same_address_and_bytes() {
    let peer = SocketAddress::v4(10, 0, 0, 1, 9);
    let packet = NetworkRawPacket::new(Some(peer), &[5, 6]);
    let copy = packet.duplicate();
    assert_eq!(copy, packet);
    assert_eq!(copy.payload(), &[5u8, 6][..]);
}

#[test]
fn error_kinds_are_fatal_but_for_a_failed_write() {
    assert!(ErrorKind::BindFailed.fatal());
    assert!(ErrorKind::ResolveFailed.fatal());
    assert!(ErrorKind::ConnectFailed.fatal());
    assert!(ErrorKind::ReadFailed.fatal());
    assert!(ErrorKind::ChannelClosed.fatal());
    assert!(!ErrorKind::WriteFailed.fatal());
}

#[test]
fn errors_keep_kind_and_detail() {
    let e = NetworkError::new(ErrorKind::ReadFailed, "reset".to_string());
    assert_eq!(e.kind(), ErrorKind::ReadFailed);
    assert_eq!(e.detail, "reset");
    let c = NetworkError::channel_closed();
    assert_eq!(c.kind(), ErrorKind::ChannelClosed);
    assert_eq!(c.detail, "");
}
