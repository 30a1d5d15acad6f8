//! The `:protocol` pseudo-header of extended CONNECT.

use vstd::prelude::*;
use vstd::string::StrSliceExecFns;

verus! {

/// One of the protocols that an extended CONNECT request can ask for.
#[derive(Copy, PartialEq, Debug, Clone)]
pub enum Protocol {
    /// WebTransport.
    WebTransport,
    /// Proxying UDP in HTTP.
    ConnectUdp,
    /// The connect-snap protocol.
    ConnectSnap,
}

/// The answer to a string that names no protocol.
#[derive(Debug)]
pub struct InvalidProtocol;

/// The protocol that `s` names, if it is one of the three canonical names,
/// letter for letter.
pub open spec fn protocol_named(s: Seq<char>) -> Option<Protocol> {
    if s == "webtransport"@ {
        Some(Protocol::WEB_TRANSPORT)
    } else if s == "connect-udp"@ {
        Some(Protocol::CONNECT_UDP)
    } else if s == "connect-snap"@ {
        Some(Protocol::CONNECT_SNAP)
    } else {
        None
    }
}

/// Whether two strings hold the same characters.
fn same_chars(a: &str, b: &str) -> (r: bool)
    ensures
        r == (a@ == b@),
{
    let n: usize = a.unicode_len();
    if n != b.unicode_len() {
        return false;
    }
    let mut i: usize = 0;
    while i < n
        invariant
            i <= n,
            n == a@.len(),
            n == b@.len(),
            forall|j: int| 0 <= j < i ==> a@[j] == b@[j],
        decreases n - i,
    {
        if a.get_char(i) != b.get_char(i) {
            return false;
        }
        i = i + 1;
    }
    assert(a@ =~= b@);
    true
}

impl Protocol {
    /// WebTransport.
    pub const WEB_TRANSPORT: Protocol = Protocol::WebTransport;

    /// Proxying UDP in HTTP.
    pub const CONNECT_UDP: Protocol = Protocol::ConnectUdp;

    /// The connect-snap protocol.
    pub const CONNECT_SNAP: Protocol = Protocol::ConnectSnap;

    /// The canonical name of the protocol.
    pub open spec fn name(&self) -> Seq<char> {
        match *self {
            Protocol::WebTransport => "webtransport"@,
            Protocol::ConnectUdp => "connect-udp"@,
            Protocol::ConnectSnap => "connect-snap"@,
        }
    }

    /// The value of the pseudo-header for this protocol.
    pub fn as_str(&self) -> (s: &'static str)
        ensures
            s@ == self.name(),
            protocol_named(s@) == Some(*self),
    {
        proof {
            lemma_protocol_round_trip(*self);
        }
        match *self {
            Protocol::WebTransport => "webtransport",
            Protocol::ConnectUdp => "connect-udp",
            Protocol::ConnectSnap => "connect-snap",
        }
    }

    /// The protocol that `s` names. Only the three canonical names are
    /// accepted, in lower case.
    pub fn from_str(s: &str) -> (r: Result<Protocol, InvalidProtocol>)
        ensures
            match protocol_named(s@) {
                Some(p) => r == Ok::<_, InvalidProtocol>(p),
                None => r.is_err(),
            },
    {
        if same_chars(s, "webtransport") {
            Ok(Protocol::WEB_TRANSPORT)
        } else if same_chars(s, "connect-udp") {
            Ok(Protocol::CONNECT_UDP)
        } else if same_chars(s, "connect-snap") {
            Ok(Protocol::CONNECT_SNAP)
        } else {
            Err(InvalidProtocol)
        }
    }
}

/// Parsing the name of a protocol gives the protocol back.
pub proof fn lemma_protocol_round_trip(p: Protocol)
    ensures
        protocol_named(p.name()) == Some(p),
{
    reveal_strlit("webtransport");
    reveal_strlit("connect-udp");
    reveal_strlit("connect-snap");
    assert("webtransport"@.len() == 12);
    assert("connect-udp"@.len() == 11);
    assert("connect-snap"@.len() == 12);
    assert("webtransport"@[0] == 'w');
    assert("connect-snap"@[0] == 'c');
}

impl std::str::FromStr for Protocol {
    type Err = InvalidProtocol;

    /// The protocol that `s` names, as the inherent `from_str` gives it:
    /// the three canonical names are accepted, and nothing else.
    fn from_str(s: &str) -> (r: Result<Self, Self::Err>)
        ensures
            match protocol_named(s@) {
                Some(p) => r == Ok::<_, InvalidProtocol>(p),
                None => r.is_err(),
            },
    {
        Protocol::from_str(s)
    }
}

} // verus!
