use vstd::prelude::*;
use crate::text::{dec_text, ipv4_text, ipv6_text, push_ipv4, push_ipv6, push_num, push_str};

verus! {

/// Size of the buffer that a negotiation must complete within.
pub const BUFFER_SIZE: usize = 4096;

/// The reply that selects "no authentication required".
pub open spec fn method_reply() -> Seq<u8> {
    seq![5u8, 0u8]
}

/// The success reply to a connect request, with a zeroed bound address.
pub open spec fn success_reply() -> Seq<u8> {
    seq![5u8, 0u8, 0u8, 1u8, 0u8, 0u8, 0u8, 0u8, 0u8, 0u8]
}

/// What UTF-8 decoding makes of a byte sequence, if it is valid.
pub uninterp spec fn utf8_decoding(b: Seq<u8>) -> Option<Seq<char>>;

/// Relies on `String::from_utf8`: `Ok` with the decoded text exactly when the
/// bytes are valid UTF-8.
#[verifier::external_body]
fn decode_utf8(b: Vec<u8>) -> (r: Option<String>)
    ensures
        match r {
            Some(s) => utf8_decoding(b@) == Some(s@),
            None => utf8_decoding(b@) is None,
        },
{
    String::from_utf8(b).ok()
}

/// The destination address of a request.
pub enum Dest {
    IPv4([u8; 4]),
    Domain(String),
    IPv6([u8; 16]),
    Invalid,
}

/// Abstract destination address.
pub enum DestModel {
    IPv4(Seq<u8>),
    Domain(Seq<char>),
    IPv6(Seq<u8>),
    Invalid,
}

impl Dest {
    pub open spec fn model(&self) -> DestModel {
        match self {
            Dest::IPv4(a) => DestModel::IPv4(a@),
            Dest::Domain(s) => DestModel::Domain(s@),
            Dest::IPv6(a) => DestModel::IPv6(a@),
            Dest::Invalid => DestModel::Invalid,
        }
    }
}

/// A parsed SOCKS5 connect request.
pub struct Request {
    pub addr: Dest,
    pub port: u16,
}

/// Errors of a SOCKS5 negotiation or of rendering its request.
#[derive(PartialEq, Eq, Structural, Debug, Clone, Copy)]
pub enum Socks5Error {
    ProtocolError,
    PeerClosed,
    BufferExhausted,
}

/// Host text of a destination; `None` for an invalid one.
pub open spec fn host_text(d: DestModel) -> Option<Seq<char>> {
    match d {
        DestModel::IPv4(a) => Some(ipv4_text(a)),
        DestModel::Domain(s) => Some(s),
        DestModel::IPv6(a) => Some(ipv6_text(a)),
        DestModel::Invalid => None,
    }
}

/// Routable `host:port` text of a destination, with IPv6 hosts in brackets.
pub open spec fn sock_addr_text(d: DestModel, port: u16) -> Option<Seq<char>> {
    match d {
        DestModel::IPv6(a) => Some(seq!['['] + ipv6_text(a) + seq![']', ':'] + dec_text(
            port as nat,
        )),
        DestModel::Invalid => None,
        _ => Some(host_text(d)->0 + seq![':'] + dec_text(port as nat)),
    }
}

impl Request {
    /// The host part of the destination.
    pub fn to_host_addr(&self) -> (r: Result<String, Socks5Error>)
        ensures
            match host_text(self.addr.model()) {
                Some(t) => r matches Ok(s) && s@ == t,
                None => r == Err::<String, Socks5Error>(Socks5Error::ProtocolError),
            },
    {
        let mut s = String::new();
        match &self.addr {
            Dest::IPv4(a) => {
                push_ipv4(&mut s, a);
                assert(s@ =~= ipv4_text(a@));
                Ok(s)
            },
            Dest::Domain(d) => Ok(d.clone()),
            Dest::IPv6(a) => {
                push_ipv6(&mut s, a);
                assert(s@ =~= ipv6_text(a@));
                Ok(s)
            },
            Dest::Invalid => Err(Socks5Error::ProtocolError),
        }
    }

    /// The destination as `host:port`, or `[host]:port` for IPv6.
    pub fn to_sock_addr(&self) -> (r: Result<String, Socks5Error>)
        ensures
            match sock_addr_text(self.addr.model(), self.port) {
                Some(t) => r matches Ok(s) && s@ == t,
                None => r == Err::<String, Socks5Error>(Socks5Error::ProtocolError),
            },
    {
        proof {
            reveal_strlit(":");
            reveal_strlit("[");
            reveal_strlit("]:");
        }
        match &self.addr {
            Dest::IPv6(a) => {
                let mut s = String::new();
                push_str(&mut s, "[");
                push_ipv6(&mut s, a);
                push_str(&mut s, "]:");
                push_num(&mut s, self.port as u64, 10);
                assert(s@ =~= sock_addr_text(self.addr.model(), self.port)->0);
                Ok(s)
            },
            Dest::Invalid => Err(Socks5Error::ProtocolError),
            _ => {
                let mut s = match self.to_host_addr() {
                    Ok(h) => h,
                    Err(e) => { return Err(e); },
                };
                push_str(&mut s, ":");
                push_num(&mut s, self.port as u64, 10);
                assert(s@ =~= sock_addr_text(self.addr.model(), self.port)->0);
                Ok(s)
            },
        }
    }
}

/// Length of a complete method-selection message at the start of `b`
/// (`0x05 <n> <n method bytes>`), if there is one.
pub open spec fn method_request_len(b: Seq<u8>) -> Option<int> {
    if b.len() >= 2 && b[0] == 5 && b.len() >= 2 + b[1] {
        Some(2 + b[1] as int)
    } else {
        None
    }
}

/// The address that follows the header of a connect request, and where it ends.
pub open spec fn address_part(b: Seq<u8>) -> Option<(DestModel, int)> {
    let family = b[3];
    if family == 1 {
        if b.len() >= 8 { Some((DestModel::IPv4(b.subrange(4, 8)), 8)) } else { None }
    } else if family == 3 {
        if b.len() >= 5 && b.len() >= 5 + b[4] {
            let end = 5 + b[4] as int;
            match utf8_decoding(b.subrange(5, end)) {
                Some(s) => Some((DestModel::Domain(s), end)),
                None => Some((DestModel::Invalid, end)),
            }
        } else {
            None
        }
    } else if family == 4 {
        if b.len() >= 20 { Some((DestModel::IPv6(b.subrange(4, 20)), 20)) } else { None }
    } else {
        Some((DestModel::Invalid, 4))
    }
}

/// A complete connect request at the start of `b`
/// (`0x05 0x01 0x00 <type> <address> <port>`): its address, port and length.
pub open spec fn connect_request(b: Seq<u8>) -> Option<(DestModel, u16, int)> {
    if b.len() >= 4 && b[0] == 5 && b[1] == 1 && b[2] == 0 {
        match address_part(b) {
            Some((d, end)) => if b.len() >= end + 2 {
                Some((d, (b[end] as int * 256 + b[end + 1] as int) as u16, end + 2))
            } else {
                None
            },
            None => None,
        }
    } else {
        None
    }
}

/// Parses a method-selection message at the start of `bytes`; returns its length.
pub fn parse_handshake_a(bytes: &[u8]) -> (r: Option<usize>)
    ensures
        match method_request_len(bytes@) {
            Some(n) => r == Some(n as usize),
            None => r is None,
        },
{
    if bytes.len() >= 2 && bytes[0] == 5 && bytes.len() - 2 >= bytes[1] as usize {
        Some(2 + bytes[1] as usize)
    } else {
        None
    }
}

fn copy_range(bytes: &[u8], lo: usize, hi: usize) -> (r: Vec<u8>)
    requires
        lo <= hi <= bytes@.len(),
    ensures
        r@ == bytes@.subrange(lo as int, hi as int),
{
    let mut v: Vec<u8> = Vec::new();
    let mut i: usize = lo;
    while i < hi
        invariant
            lo <= i <= hi <= bytes@.len(),
            v@ == bytes@.subrange(lo as int, i as int),
        decreases hi - i,
    {
        v.push(bytes[i]);
        i = i + 1;
        assert(v@ =~= bytes@.subrange(lo as int, i as int));
    }
    v
}

/// Parses a connect request at the start of `bytes`; returns it and its length.
pub fn parse_handshake_b(bytes: &[u8]) -> (r: Option<(Request, usize)>)
    ensures
        match connect_request(bytes@) {
            Some((d, port, n)) => r matches Some((req, m)) && req.addr.model() == d && req.port
                == port && m == n,
            None => r is None,
        },
{
    if !(bytes.len() >= 4 && bytes[0] == 5 && bytes[1] == 1 && bytes[2] == 0) {
        return None;
    }
    let family = bytes[3];
    let (addr, end): (Dest, usize) = if family == 1 {
        if bytes.len() < 8 {
            return None;
        }
        let a: [u8; 4] = [bytes[4], bytes[5], bytes[6], bytes[7]];
        assert(a@ =~= bytes@.subrange(4, 8));
        (Dest::IPv4(a), 8)
    } else if family == 3 {
        if !(bytes.len() >= 5 && bytes.len() - 5 >= bytes[4] as usize) {
            return None;
        }
        let end = 5 + bytes[4] as usize;
        match decode_utf8(copy_range(bytes, 5, end)) {
            Some(s) => (Dest::Domain(s), end),
            None => (Dest::Invalid, end),
        }
    } else if family == 4 {
        if bytes.len() < 20 {
            return None;
        }
        let a: [u8; 16] = [
            bytes[4], bytes[5], bytes[6], bytes[7], bytes[8], bytes[9], bytes[10], bytes[11],
            bytes[12], bytes[13], bytes[14], bytes[15], bytes[16], bytes[17], bytes[18], bytes[19],
        ];
        assert(a@ =~= bytes@.subrange(4, 20));
        (Dest::IPv6(a), 20)
    } else {
        (Dest::Invalid, 4)
    };
    assert(address_part(bytes@) == Some((addr.model(), end as int)));
    if bytes.len() - end < 2 {
        return None;
    }
    let port: u16 = bytes[end] as u16 * 256 + bytes[end + 1] as u16;
    Some((Request { addr, port }, end + 2))
}

/// Where a negotiation stands.
#[derive(PartialEq, Eq, Structural, Debug, Clone, Copy)]
pub enum Stage {
    PreAuth,
    PostAuth,
    Established,
    Failed,
}

/// What the caller does after handing bytes to a session.
pub enum Socks5Step {
    /// Read more bytes.
    Pending,
    /// Write these bytes to the client, then read more.
    Reply(Vec<u8>),
    /// Write these bytes to the client; the negotiation produced this request.
    Complete(Request, Vec<u8>),
    /// The negotiation failed.
    Failed(Socks5Error),
}

/// The state of one SOCKS5 negotiation, fed with the bytes read from a client.
pub struct Socks5Session {
    stage: Stage,
    buf: Vec<u8>,
}

impl Socks5Session {
    pub closed spec fn stage_of(&self) -> Stage {
        self.stage
    }

    pub closed spec fn buffered(&self) -> Seq<u8> {
        self.buf@
    }

    pub open spec fn wf(&self) -> bool {
        self.buffered().len() <= BUFFER_SIZE
    }

    /// A session waiting for the method-selection message.
    pub fn new() -> (r: Socks5Session)
        ensures
            r.wf(),
            r.stage_of() == Stage::PreAuth,
            r.buffered() == Seq::<u8>::empty(),
    {
        Socks5Session { stage: Stage::PreAuth, buf: Vec::new() }
    }

    /// The current stage.
    pub fn stage(&self) -> (r: Stage)
        ensures
            r == self.stage_of(),
    {
        self.stage
    }

    /// How many more bytes fit in the buffer; a read should ask for at most this many.
    pub fn space_left(&self) -> (r: usize)
        requires
            self.wf(),
        ensures
            r == BUFFER_SIZE - self.buffered().len(),
    {
        BUFFER_SIZE - self.buf.len()
    }

    /// Takes the result of one read. An empty read means the peer closed.
    /// The whole buffer is parsed again after each read.
    pub fn feed(&mut self, data: &[u8]) -> (r: Socks5Step)
        requires
            old(self).wf(),
            old(self).stage_of() == Stage::PreAuth || old(self).stage_of() == Stage::PostAuth,
        ensures
            final(self).wf(),
            ({
                let b = old(self).buffered() + data@;
                let st = old(self).stage_of();
                if data@.len() == 0 {
                    r matches Socks5Step::Failed(e) && e == Socks5Error::PeerClosed
                        && final(self).stage_of() == Stage::Failed
                } else if b.len() > BUFFER_SIZE {
                    r matches Socks5Step::Failed(e) && e == Socks5Error::BufferExhausted
                        && final(self).stage_of() == Stage::Failed
                } else if st == Stage::PreAuth && method_request_len(b) is Some {
                    r matches Socks5Step::Reply(v) && v@ == method_reply()
                        && final(self).stage_of() == Stage::PostAuth
                        && final(self).buffered().len() == 0
                } else if st == Stage::PostAuth && connect_request(b) is Some {
                    let (d, port, n) = connect_request(b)->0;
                    if n == b.len() {
                        r matches Socks5Step::Complete(req, v) && req.addr.model() == d
                            && req.port == port && v@ == success_reply()
                            && final(self).stage_of() == Stage::Established
                    } else {
                        r matches Socks5Step::Failed(e) && e == Socks5Error::ProtocolError
                            && final(self).stage_of() == Stage::Failed
                    }
                } else if b.len() == BUFFER_SIZE {
                    r matches Socks5Step::Failed(e) && e == Socks5Error::BufferExhausted
                        && final(self).stage_of() == Stage::Failed
                } else {
                    r is Pending && final(self).stage_of() == st && final(self).buffered() == b
                }
            }),
    {
        if data.len() == 0 {
            self.stage = Stage::Failed;
            return Socks5Step::Failed(Socks5Error::PeerClosed);
        }
        if data.len() > BUFFER_SIZE - self.buf.len() {
            self.stage = Stage::Failed;
            return Socks5Step::Failed(Socks5Error::BufferExhausted);
        }
        let ghost b0 = self.buf@;
        let mut i: usize = 0;
        while i < data.len()
            invariant
                0 <= i <= data@.len(),
                self.buf@ == b0 + data@.subrange(0, i as int),
                self.stage == old(self).stage,
            decreases data@.len() - i,
        {
            self.buf.push(data[i]);
            i = i + 1;
            assert(self.buf@ =~= b0 + data@.subrange(0, i as int));
        }
        assert(data@.subrange(0, data@.len() as int) =~= data@);
        if self.stage == Stage::PreAuth {
            if let Some(_) = parse_handshake_a(self.buf.as_slice()) {
                self.stage = Stage::PostAuth;
                self.buf = Vec::new();
                return Socks5Step::Reply(vec![5u8, 0u8]);
            }
        } else {
            if let Some((req, n)) = parse_handshake_b(self.buf.as_slice()) {
                if n != self.buf.len() {
                    self.stage = Stage::Failed;
                    return Socks5Step::Failed(Socks5Error::ProtocolError);
                }
                self.stage = Stage::Established;
                let reply = vec![5u8, 0u8, 0u8, 1u8, 0u8, 0u8, 0u8, 0u8, 0u8, 0u8];
                assert(reply@ =~= success_reply());
                return Socks5Step::Complete(req, reply);
            }
        }
        if self.buf.len() == BUFFER_SIZE {
            self.stage = Stage::Failed;
            return Socks5Step::Failed(Socks5Error::BufferExhausted);
        }
        Socks5Step::Pending
    }
}

/// A method-selection message offering no authentication is three bytes long;
/// a connect request for IPv4 address `a.b.c.d` with a big-endian port is ten
/// bytes long, whatever follows it, and renders as `a.b.c.d:port`.
pub proof fn lemma_ipv4_negotiation(a: u8, b: u8, c: u8, d: u8, hi: u8, lo: u8, rest: Seq<u8>)
    ensures
        method_request_len(seq![5u8, 1u8, 0u8] + rest) == Some(3int),
        connect_request(seq![5u8, 1u8, 0u8, 1u8, a, b, c, d, hi, lo] + rest) == Some(
            (DestModel::IPv4(seq![a, b, c, d]), (hi as int * 256 + lo as int) as u16, 10int),
        ),
        sock_addr_text(DestModel::IPv4(seq![a, b, c, d]), (hi as int * 256 + lo as int) as u16)
            == Some(ipv4_text(seq![a, b, c, d]) + seq![':'] + dec_text(
            (hi as int * 256 + lo as int) as nat,
        )),
{
    let m = seq![5u8, 1u8, 0u8, 1u8, a, b, c, d, hi, lo] + rest;
    assert(m.subrange(4, 8) =~= seq![a, b, c, d]);
    assert(m[3] == 1u8 && m[8] == hi && m[9] == lo);
    let h = seq![5u8, 1u8, 0u8] + rest;
    assert(h[0] == 5u8 && h[1] == 1u8);
    assert((hi as int * 256 + lo as int) < 65536);
}

/// A connect request with an address type other than IPv4, domain or IPv6
/// yields an invalid destination, and an invalid destination never renders.
pub proof fn lemma_unknown_family(m: Seq<u8>, port: u16)
    requires
        m.len() >= 4,
        m[3] != 1 && m[3] != 3 && m[3] != 4,
    ensures
        connect_request(m) matches Some((d, _, _)) ==> d is Invalid,
        sock_addr_text(DestModel::Invalid, port) is None,
        host_text(DestModel::Invalid) is None,
{
}

} // verus!
