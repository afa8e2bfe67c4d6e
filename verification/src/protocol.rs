use vstd::prelude::*;
use vstd::string::StringExecFns;

verus! {

/// The two transport kinds a payload can be sent over. Chosen once per run
/// and never changed afterwards.
#[derive(Clone, Copy, Debug, PartialEq, Eq, Structural)]
pub enum Protocol {
    /// Connection-oriented: one connection per send, the full payload written.
    Tcp,
    /// Connectionless: one datagram per send from an ephemeral local socket.
    Udp,
}

impl Default for Protocol {
    /// The default transport is TCP.
    fn default() -> (p: Self)
        ensures
            p == Protocol::Tcp,
    {
        Protocol::Tcp
    }
}

impl Protocol {
    /// The lower-case name of the transport, as it appears in addresses and
    /// log lines.
    pub open spec fn spec_name(self) -> Seq<char> {
        match self {
            Protocol::Tcp => "tcp"@,
            Protocol::Udp => "udp"@,
        }
    }

    /// Render the transport's name, `"tcp"` or `"udp"`.
    pub fn name(&self) -> (r: String)
        ensures
            r@ == self.spec_name(),
    {
        match self {
            Protocol::Tcp => String::from_str("tcp"),
            Protocol::Udp => String::from_str("udp"),
        }
    }

    /// Select a transport by name. Exactly `"tcp"`/`"TCP"` and `"udp"`/`"UDP"`
    /// are recognised; any other string selects nothing.
    pub fn from_name(value: &str) -> (r: Option<Protocol>)
        ensures
            r == Some(Protocol::Tcp) <==> (value@ == "tcp"@ || value@ == "TCP"@),
            r == Some(Protocol::Udp) <==> (value@ == "udp"@ || value@ == "UDP"@),
    {
        proof {
            reveal_strlit("tcp");
            reveal_strlit("TCP");
            reveal_strlit("udp");
            reveal_strlit("UDP");
        }
        let len = value.unicode_len();
        if len != 3 {
            return None;
        }
        let c0 = value.get_char(0);
        let c1 = value.get_char(1);
        let c2 = value.get_char(2);
        if c0 == 't' && c1 == 'c' && c2 == 'p' {
            proof {
                assert(value@ =~= "tcp"@);
            }
            Some(Protocol::Tcp)
        } else if c0 == 'T' && c1 == 'C' && c2 == 'P' {
            proof {
                assert(value@ =~= "TCP"@);
            }
            Some(Protocol::Tcp)
        } else if c0 == 'u' && c1 == 'd' && c2 == 'p' {
            proof {
                assert(value@ =~= "udp"@);
            }
            Some(Protocol::Udp)
        } else if c0 == 'U' && c1 == 'D' && c2 == 'P' {
            proof {
                assert(value@ =~= "UDP"@);
            }
            Some(Protocol::Udp)
        } else {
            None
        }
    }
}

} // verus!
