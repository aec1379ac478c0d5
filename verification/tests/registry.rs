use net_transport::addr::SocketAddress;
use net_transport::node::NetworkNode;
use net_transport::protocol::NetworkProtocol;
use net_transport::registry::{NodeId, NodeRegistry};

fn node(port: u16) -> NetworkNode {
    NetworkNode::new(NetworkProtocol::TCP, SocketAddress::v4(127, 0, 0, 1, port), None)
}

#[test]
fn identities_are_given_in_order() {
    let mut registry = NodeRegistry::new();
    assert_eq!(registry.len(), 0);
    assert_eq!(registry.insert(node(1)), NodeId(0));
    assert_eq!(registry.insert(node(2)), NodeId(1));
    assert_eq!(registry.len(), 2);
    assert_eq!(registry.get(NodeId(1)).unwrap().local_addr.port, 2);
    assert!(registry.get(NodeId(2)).is_none());
    assert_eq!(registry.parent(NodeId(0)), None);
    assert_eq!(registry.parent(NodeId(9)), None);
}

#[test]
fn adopt_registers_under_the_parent() {
    let mut registry = NodeRegistry::new();
    let root = registry.insert(node(1));
    let other = registry.insert(node(2));
    let a = registry.adopt(root, node(3)).ok().unwrap();
    let b = registry.adopt(other, node(4)).ok().unwrap();
    let c = registry.adopt(root, node(5)).ok().unwrap();
    assert_eq!(registry.parent(a), Some(root));
    assert_eq!(registry.parent(b), Some(other));
    assert_eq!(registry.children(root), vec![a, c]);
    assert_eq!(registry.children(other), vec![b]);
    assert_eq!(registry.children(a), Vec::<NodeId>::new());
}

#[test]
fn adopt_under_an_unknown_parent_gives_the_node_back() {
    let mut registry = NodeRegistry::new();
    let back = registry.adopt(NodeId(0), node(7)).err().unwrap();
    assert_eq!(back.local_addr.port, 7);
    assert_eq!(registry.len(), 0);
}

#[test]
fn start_and_stop_reach_the_node_by_identity() {
    let mut registry = NodeRegistry::new();
    let a = registry.insert(node(1));
    let b = registry.insert(node(2));
    assert!(registry.start(b));
    assert!(!registry.get(a).unwrap().is_running());
    assert!(registry.get(b).unwrap().is_running());
    assert!(!registry.get(b).unwrap().is_cancelled());
    assert!(registry.stop(b));
    assert!(!registry.get(b).unwrap().is_running());
    assert!(registry.get(b).unwrap().is_cancelled());
    assert!(!registry.start(NodeId(9)));
    assert!(!registry.stop(NodeId(9)));
    assert_eq!(registry.len(), 2);
}
