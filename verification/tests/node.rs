use net_transport::addr::{IpAddress, SocketAddress};
use net_transport::error::{ErrorKind, NetworkError};
use net_transport::node::{NetworkNode, DEFAULT_MAX_PACKET_SIZE};
use net_transport::protocol::NetworkProtocol;

fn local() -> SocketAddress {
    SocketAddress::v4(127, 0, 0, 1, 8080)
}

#[test]
fn new_node_is_idle_with_defaults() {
    let node = NetworkNode::new(NetworkProtocol::TCP, local(), None);
    assert!(!node.running);
    assert!(!node.is_running());
    assert!(!node.is_cancelled());
    assert!(node.auto_start);
    assert_eq!(node.max_packet_size, 65535);
    assert_eq!(DEFAULT_MAX_PACKET_SIZE, 65535);
    assert_eq!(node.local_addr, local());
    assert_eq!(node.peer_addr, None);
    assert_eq!(node.protocol(), NetworkProtocol::TCP);
    assert!(node.try_recv().unwrap().is_none());
    assert!(node.try_recv_error().unwrap().is_none());
}

#[test]
fn start_and_stop_toggle_flag_and_running() {
    let mut node = NetworkNode::new(NetworkProtocol::UDP, local(), None);
    node.stop();
    assert!(!node.is_running());
    assert!(node.is_cancelled());
    node.start();
    assert!(node.is_running());
    assert!(!node.is_cancelled());
    node.stop();
    assert!(!node.is_running());
    assert!(node.is_cancelled());
    assert_eq!(node.local_addr, local());
    assert_eq!(node.protocol(), NetworkProtocol::UDP);
}

#[test]
fn stop_is_seen_through_a_shared_flag() {
    let mut node = NetworkNode::new(NetworkProtocol::TCP, local(), None);
    let flag = node.cancel_flag.clone();
    node.start();
    assert!(!flag.load(std::sync::atomic::Ordering::Relaxed));
    node.stop();
    assert!(flag.load(std::sync::atomic::Ordering::Relaxed));
}

#[test]
fn send_queues_one_packet_for_the_peer() {
    let peer = SocketAddress::v4(10, 0, 0, 2, 9000);
    let node = NetworkNode::new(NetworkProtocol::TCP, local(), Some(peer));
    assert!(node.send(&[1, 2, 3]).is_ok());
    let packet = node.send_channel().try_recv().unwrap().unwrap();
    assert_eq!(packet.socket, Some(peer));
    assert_eq!(packet.payload(), &[1u8, 2, 3][..]);
    assert!(node.send_channel().try_recv().unwrap().is_none());
}

#[test]
fn send_keeps_enqueue_order() {
    let node = NetworkNode::new(NetworkProtocol::TCP, local(), None);
    node.send(&[1]).unwrap();
    node.send(&[2, 2]).unwrap();
    node.send(&[3, 3, 3]).unwrap();
    let queued = node.send_channel().drain().unwrap();
    let payloads: Vec<Vec<u8>> = queued.iter().map(|p| p.payload().to_vec()).collect();
    assert_eq!(payloads, vec![vec![1u8], vec![2, 2], vec![3, 3, 3]]);
}

#[test]
fn send_on_a_closed_channel_fails() {
    let node = NetworkNode::new(NetworkProtocol::TCP, local(), None);
    node.send_channel().sender.close().unwrap();
    let err = node.send(&[1]).unwrap_err();
    assert_eq!(err.kind(), ErrorKind::ChannelClosed);
    let again = node.send(&[1]).unwrap_err();
    assert_eq!(again, err);
}

#[test]
fn send_to_overrides_the_peer_with_the_first_resolved_address() {
    let peer = SocketAddress::v4(10, 0, 0, 2, 9000);
    let first = SocketAddress::v4(10, 0, 0, 3, 1);
    let second = SocketAddress::v4(10, 0, 0, 4, 2);
    let node = NetworkNode::new(NetworkProtocol::UDP, local(), Some(peer));
    node.send_to(&[9, 8], &[first, second]).unwrap();
    let packet = node.send_channel().try_recv().unwrap().unwrap();
    assert_eq!(packet.socket, Some(first));
    assert_eq!(packet.payload(), &[9u8, 8][..]);
}

#[test]
fn send_to_nothing_resolved_fails_and_queues_nothing() {
    let node = NetworkNode::new(NetworkProtocol::UDP, local(), None);
    let err = node.send_to(&[9], &[]).unwrap_err();
    assert_eq!(err.kind(), ErrorKind::ResolveFailed);
    assert!(node.send_channel().try_recv().unwrap().is_none());
    assert_eq!(NetworkNode::outbound_to(&[9], &[]).unwrap_err().kind(), ErrorKind::ResolveFailed);
}

#[test]
fn send_to_on_a_closed_channel_fails() {
    let node = NetworkNode::new(NetworkProtocol::UDP, local(), None);
    node.send_channel().receiver.close().unwrap();
    let err = node.send_to(&[9], &[local()]).unwrap_err();
    assert_eq!(err.kind(), ErrorKind::ChannelClosed);
}

#[test]
fn outbound_copies_bytes_and_peer() {
    let peer = SocketAddress::v4(10, 0, 0, 2, 9000);
    let node = NetworkNode::new(NetworkProtocol::TCP, local(), Some(peer));
    let packet = node.outbound(&[4, 5, 6]);
    assert_eq!(packet.socket, Some(peer));
    assert_eq!(packet.payload(), &[4u8, 5, 6][..]);
}

#[test]
fn reported_errors_arrive_in_order() {
    let node = NetworkNode::new(NetworkProtocol::TCP, local(), None);
    node.report(NetworkError::new(ErrorKind::ReadFailed, "a".to_string())).unwrap();
    node.report(NetworkError::new(ErrorKind::WriteFailed, "b".to_string())).unwrap();
    let first = node.try_recv_error().unwrap().unwrap();
    let second = node.try_recv_error().unwrap().unwrap();
    assert_eq!((first.kind(), first.detail.as_str()), (ErrorKind::ReadFailed, "a"));
    assert_eq!((second.kind(), second.detail.as_str()), (ErrorKind::WriteFailed, "b"));
    assert!(node.try_recv_error().unwrap().is_none());
}

#[test]
fn received_packets_arrive_in_order() {
    let node = NetworkNode::new(NetworkProtocol::TCP, local(), None);
    node.recv_channel().try_send(node.outbound(&[1])).unwrap();
    node.recv_channel().try_send(node.outbound(&[2])).unwrap();
    assert_eq!(node.try_recv().unwrap().unwrap().payload(), &[1u8][..]);
    assert_eq!(node.try_recv().unwrap().unwrap().payload(), &[2u8][..]);
    assert!(node.try_recv().unwrap().is_none());
}

#[test]
fn schema_is_protocol_ip_port() {
    let node = NetworkNode::new(NetworkProtocol::TCP, local(), None);
    assert_eq!(node.schema(), "tcp://127.0.0.1:8080");
    let wss = NetworkNode::new(NetworkProtocol::WSS, SocketAddress::v4(0, 0, 0, 0, 0), None);
    assert_eq!(wss.schema(), "wss://0.0.0.0:0");
    let v6 = SocketAddress::new(IpAddress::V6([0, 0, 0, 0, 0, 0, 0, 1]), 65535);
    let udp = NetworkNode::new(NetworkProtocol::UDP, v6, None);
    assert_eq!(udp.schema(), "udp://::1:65535");
}

#[test]
fn error_channel_handle_is_the_nodes_own() {
    let node = NetworkNode::new(NetworkProtocol::TCP, local(), None);
    node.error_channel().try_send(NetworkError::channel_closed()).unwrap();
    assert_eq!(node.try_recv_error().unwrap().unwrap().kind(), ErrorKind::ChannelClosed);
}
