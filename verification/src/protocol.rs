//! The protocol tag of a node.

use vstd::prelude::*;

verus! {

/// The transport a node speaks. The tag only selects the scheme of the
/// node's schema string; no behaviour branches on it.
#[derive(Debug, Clone, Copy, PartialEq, Eq, Structural, PartialOrd, Ord, Hash)]
pub enum NetworkProtocol {
    UDP,
    TCP,
    SSL,
    WS,
    WSS,
}

impl NetworkProtocol {
    /// The lower-case scheme name of the protocol.
    pub open spec fn scheme(self) -> Seq<char> {
        match self {
            NetworkProtocol::UDP => seq!['u', 'd', 'p'],
            NetworkProtocol::TCP => seq!['t', 'c', 'p'],
            NetworkProtocol::SSL => seq!['s', 's', 'l'],
            NetworkProtocol::WS => seq!['w', 's'],
            NetworkProtocol::WSS => seq!['w', 's', 's'],
        }
    }

    /// The scheme name as a string slice.
    pub fn as_str(&self) -> (name: &'static str)
        ensures
            name@ == self.scheme(),
    {
        proof {
            reveal_strlit("udp");
            reveal_strlit("tcp");
            reveal_strlit("ssl");
            reveal_strlit("ws");
            reveal_strlit("wss");
        }
        match self {
            NetworkProtocol::UDP => {
                assert("udp"@ =~= seq!['u', 'd', 'p']);
                "udp"
            },
            NetworkProtocol::TCP => {
                assert("tcp"@ =~= seq!['t', 'c', 'p']);
                "tcp"
            },
            NetworkProtocol::SSL => {
                assert("ssl"@ =~= seq!['s', 's', 'l']);
                "ssl"
            },
            NetworkProtocol::WS => {
                assert("ws"@ =~= seq!['w', 's']);
                "ws"
            },
            NetworkProtocol::WSS => {
                assert("wss"@ =~= seq!['w', 's', 's']);
                "wss"
            },
        }
    }
}

} // verus!
