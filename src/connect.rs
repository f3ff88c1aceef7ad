use vstd::prelude::*;
use crate::common::{accepted_name, json_string_from, Hello, HelloResponse};
use crate::dns::{IpAddress, IpModel};
use crate::text::push_str;

verus! {

/// The stage at which establishing a tunnel failed.
#[derive(PartialEq, Eq, Structural, Debug, Clone, Copy)]
pub enum EstablishError {
    ResolutionFailed,
    ConnectFailed,
    TlsFailed,
    WebSocketUpgradeFailed,
    HandshakeRejected,
}

/// Where establishing a tunnel stands.
#[derive(PartialEq, Eq, Structural, Debug, Clone, Copy)]
pub enum EstStage {
    Resolving,
    Connecting,
    Tls,
    Upgrading,
    AwaitingReply,
    Ready,
    Failed,
}

/// A message received on the tunnel's websocket.
pub enum WsMessage {
    Binary(Vec<u8>),
    Other,
    Closed,
}

/// What happened since the last action.
pub enum EstablishEvent {
    /// The proxy host resolved to these addresses, or the lookup failed.
    Resolved(Option<Vec<IpAddress>>),
    /// The connection attempt to the last requested address succeeded or not.
    Connected(bool),
    /// The TLS handshake succeeded or not.
    TlsDone(bool),
    /// The websocket upgrade succeeded or not.
    Upgraded(bool),
    /// The first message after the `Hello`.
    Reply(WsMessage),
}

/// What to do next.
pub enum EstablishAction {
    /// Resolve the proxy host.
    Resolve,
    /// Open a TCP connection to this address at the proxy port.
    Connect(IpAddress),
    /// Run a TLS handshake with the proxy host as server name.
    StartTls,
    /// Upgrade to a websocket with a request for this URL.
    UpgradeWebSocket(String),
    /// Send this message as a binary frame and wait for one reply.
    SendHello(Hello),
    /// The stream is ready for relaying.
    Ready,
    /// Give up.
    Fail(EstablishError),
}

/// Abstract event.
pub enum EventModel {
    Resolved(Option<Seq<IpModel>>),
    Connected(bool),
    TlsDone(bool),
    Upgraded(bool),
    Binary(Seq<u8>),
    Other,
    Closed,
}

/// Abstract action.
pub enum ActionModel {
    Resolve,
    Connect(IpModel),
    StartTls,
    UpgradeWebSocket(Seq<char>),
    SendHello(Seq<char>),
    Ready,
    Fail(EstablishError),
}

impl EstablishEvent {
    pub open spec fn model(&self) -> EventModel {
        match self {
            EstablishEvent::Resolved(None) => EventModel::Resolved(None),
            EstablishEvent::Resolved(Some(v)) => EventModel::Resolved(
                Some(v@.map_values(|a: IpAddress| a.model())),
            ),
            EstablishEvent::Connected(b) => EventModel::Connected(*b),
            EstablishEvent::TlsDone(b) => EventModel::TlsDone(*b),
            EstablishEvent::Upgraded(b) => EventModel::Upgraded(*b),
            EstablishEvent::Reply(WsMessage::Binary(v)) => EventModel::Binary(v@),
            EstablishEvent::Reply(WsMessage::Other) => EventModel::Other,
            EstablishEvent::Reply(WsMessage::Closed) => EventModel::Closed,
        }
    }
}

impl EstablishAction {
    pub open spec fn model(&self) -> ActionModel {
        match self {
            EstablishAction::Resolve => ActionModel::Resolve,
            EstablishAction::Connect(a) => ActionModel::Connect(a.model()),
            EstablishAction::StartTls => ActionModel::StartTls,
            EstablishAction::UpgradeWebSocket(u) => ActionModel::UpgradeWebSocket(u@),
            EstablishAction::SendHello(h) => ActionModel::SendHello(h.addr@),
            EstablishAction::Ready => ActionModel::Ready,
            EstablishAction::Fail(e) => ActionModel::Fail(*e),
        }
    }
}

/// Abstract state of an establishment: its stage, the candidate addresses and
/// the index of the one last tried.
pub struct EstModel {
    pub stage: EstStage,
    pub candidates: Seq<IpModel>,
    pub next: int,
}

/// The fixed parameters of an establishment.
pub struct EstConfig {
    pub host: Seq<char>,
    pub skip_tls: bool,
    pub dest: Seq<char>,
}

/// The websocket URL for a proxy host: `ws://<host>/connect`.
pub open spec fn ws_url(host: Seq<char>) -> Seq<char> {
    seq!['w', 's', ':', '/', '/'] + host + seq!['/', 'c', 'o', 'n', 'n', 'e', 'c', 't']
}

/// Whether `e` is the kind of event that stage `s` waits for.
pub open spec fn expects(s: EstStage, e: EventModel) -> bool {
    match s {
        EstStage::Resolving => e is Resolved,
        EstStage::Connecting => e is Connected,
        EstStage::Tls => e is TlsDone,
        EstStage::Upgrading => e is Upgraded,
        EstStage::AwaitingReply => e is Binary || e is Other || e is Closed,
        _ => false,
    }
}

pub open spec fn failed(m: EstModel, err: EstablishError) -> (EstModel, ActionModel) {
    (EstModel { stage: EstStage::Failed, ..m }, ActionModel::Fail(err))
}

/// The step after a successful TCP connection.
pub open spec fn after_connect(m: EstModel, c: EstConfig) -> (EstModel, ActionModel) {
    if c.skip_tls {
        (EstModel { stage: EstStage::Upgrading, ..m }, ActionModel::UpgradeWebSocket(ws_url(c.host)))
    } else {
        (EstModel { stage: EstStage::Tls, ..m }, ActionModel::StartTls)
    }
}

/// One transition: resolve, try each candidate in order, TLS unless skipped,
/// websocket upgrade, then the `Hello` exchange; each stage fails the whole.
pub open spec fn est_next(m: EstModel, c: EstConfig, e: EventModel) -> (EstModel, ActionModel) {
    match e {
        EventModel::Resolved(r) => match r {
            Some(ips) if ips.len() > 0 => (
                EstModel { stage: EstStage::Connecting, candidates: ips, next: 0 },
                ActionModel::Connect(ips[0]),
            ),
            _ => failed(m, EstablishError::ResolutionFailed),
        },
        EventModel::Connected(ok) => if ok {
            after_connect(m, c)
        } else if m.next + 1 < m.candidates.len() {
            (EstModel { next: m.next + 1, ..m }, ActionModel::Connect(m.candidates[m.next + 1]))
        } else {
            failed(m, EstablishError::ConnectFailed)
        },
        EventModel::TlsDone(ok) => if ok {
            (EstModel { stage: EstStage::Upgrading, ..m }, ActionModel::UpgradeWebSocket(ws_url(c.host)))
        } else {
            failed(m, EstablishError::TlsFailed)
        },
        EventModel::Upgraded(ok) => if ok {
            (EstModel { stage: EstStage::AwaitingReply, ..m }, ActionModel::SendHello(c.dest))
        } else {
            failed(m, EstablishError::WebSocketUpgradeFailed)
        },
        EventModel::Binary(b) => if json_string_from(b) == Some(accepted_name()) {
            (EstModel { stage: EstStage::Ready, ..m }, ActionModel::Ready)
        } else {
            failed(m, EstablishError::HandshakeRejected)
        },
        _ => failed(m, EstablishError::HandshakeRejected),
    }
}

/// The decisions of establishing a tunnel to a relay server; the caller performs
/// each action and reports back what came of it.
pub struct Establisher {
    stage: EstStage,
    candidates: Vec<IpAddress>,
    next: usize,
    host: String,
    port: u16,
    skip_tls: bool,
    dest: String,
}

impl Establisher {
    pub closed spec fn model(&self) -> EstModel {
        EstModel {
            stage: self.stage,
            candidates: self.candidates@.map_values(|a: IpAddress| a.model()),
            next: self.next as int,
        }
    }

    pub closed spec fn config(&self) -> EstConfig {
        EstConfig { host: self.host@, skip_tls: self.skip_tls, dest: self.dest@ }
    }

    pub closed spec fn port_of(&self) -> u16 {
        self.port
    }

    pub closed spec fn wf(&self) -> bool {
        self.stage == EstStage::Connecting ==> self.next < self.candidates@.len()
    }

    /// Starts establishing a tunnel through `host:port` to `dest`. When `host`
    /// is an IP literal, `literal` holds it and no lookup is made.
    pub fn new(host: String, port: u16, skip_tls: bool, dest: String, literal: Option<IpAddress>)
        -> (r: (Establisher, EstablishAction))
        ensures
            r.0.wf(),
            r.0.config() == (EstConfig { host: host@, skip_tls, dest: dest@ }),
            r.0.port_of() == port,
            match literal {
                None => r.0.model().stage == EstStage::Resolving && r.1.model() == ActionModel::Resolve,
                Some(ip) => r.0.model() == (EstModel {
                    stage: EstStage::Connecting,
                    candidates: seq![ip.model()],
                    next: 0,
                }) && r.1.model() == ActionModel::Connect(ip.model()),
            },
    {
        match literal {
            None => (
                Establisher { stage: EstStage::Resolving, candidates: Vec::new(), next: 0, host, port, skip_tls, dest },
                EstablishAction::Resolve,
            ),
            Some(ip) => {
                let first = ip.copy();
                let candidates = vec![ip];
                let e = Establisher { stage: EstStage::Connecting, candidates, next: 0, host, port, skip_tls, dest };
                assert(e.model().candidates =~= seq![first.model()]);
                (e, EstablishAction::Connect(first))
            },
        }
    }

    /// The port that every connection attempt uses.
    pub fn port(&self) -> (r: u16)
        ensures
            r == self.port_of(),
    {
        self.port
    }

    /// The current stage.
    pub fn stage(&self) -> (r: EstStage)
        ensures
            r == self.model().stage,
    {
        self.stage
    }

    /// Whether `event` is what the current stage waits for.
    pub fn expects_event(&self, event: &EstablishEvent) -> (r: bool)
        ensures
            r == expects(self.model().stage, event.model()),
    {
        match (self.stage, event) {
            (EstStage::Resolving, EstablishEvent::Resolved(_)) => true,
            (EstStage::Connecting, EstablishEvent::Connected(_)) => true,
            (EstStage::Tls, EstablishEvent::TlsDone(_)) => true,
            (EstStage::Upgrading, EstablishEvent::Upgraded(_)) => true,
            (EstStage::AwaitingReply, EstablishEvent::Reply(_)) => true,
            _ => false,
        }
    }

    fn url(&self) -> (r: String)
        ensures
            r@ == ws_url(self.host@),
    {
        proof {
            reveal_strlit("ws://");
            reveal_strlit("/connect");
        }
        let mut s = String::new();
        push_str(&mut s, "ws://");
        push_str(&mut s, self.host.as_str());
        push_str(&mut s, "/connect");
        assert(s@ =~= ws_url(self.host@));
        s
    }

    fn fail(&mut self, err: EstablishError) -> (r: EstablishAction)
        ensures
            final(self).model() == failed(old(self).model(), err).0,
            r.model() == failed(old(self).model(), err).1,
            final(self).config() == old(self).config(),
            final(self).port_of() == old(self).port_of(),
            final(self).candidates@ == old(self).candidates@,
            final(self).next == old(self).next,
    {
        self.stage = EstStage::Failed;
        EstablishAction::Fail(err)
    }

    /// Takes what came of the last action and decides the next one.
    pub fn step(&mut self, event: EstablishEvent) -> (r: EstablishAction)
        requires
            old(self).wf(),
            expects(old(self).model().stage, event.model()),
        ensures
            final(self).wf(),
            final(self).config() == old(self).config(),
            final(self).port_of() == old(self).port_of(),
            (final(self).model(), r.model()) == est_next(old(self).model(), old(self).config(), event.model()),
    {
        match event {
            EstablishEvent::Resolved(r) => match r {
                Some(ips) => {
                    if ips.len() == 0 {
                        return self.fail(EstablishError::ResolutionFailed);
                    }
                    let first = ips[0].copy();
                    self.candidates = ips;
                    self.next = 0;
                    self.stage = EstStage::Connecting;
                    EstablishAction::Connect(first)
                },
                None => self.fail(EstablishError::ResolutionFailed),
            },
            EstablishEvent::Connected(ok) => {
                if ok {
                    if self.skip_tls {
                        self.stage = EstStage::Upgrading;
                        EstablishAction::UpgradeWebSocket(self.url())
                    } else {
                        self.stage = EstStage::Tls;
                        EstablishAction::StartTls
                    }
                } else if self.candidates.len() - self.next > 1 {
                    self.next = self.next + 1;
                    EstablishAction::Connect(self.candidates[self.next].copy())
                } else {
                    self.fail(EstablishError::ConnectFailed)
                }
            },
            EstablishEvent::TlsDone(ok) => {
                if ok {
                    self.stage = EstStage::Upgrading;
                    EstablishAction::UpgradeWebSocket(self.url())
                } else {
                    self.fail(EstablishError::TlsFailed)
                }
            },
            EstablishEvent::Upgraded(ok) => {
                if ok {
                    self.stage = EstStage::AwaitingReply;
                    EstablishAction::SendHello(Hello::new(self.dest.clone()))
                } else {
                    self.fail(EstablishError::WebSocketUpgradeFailed)
                }
            },
            EstablishEvent::Reply(WsMessage::Binary(b)) => match HelloResponse::parse(b.as_slice()) {
                Ok(_) => {
                    self.stage = EstStage::Ready;
                    EstablishAction::Ready
                },
                Err(_) => self.fail(EstablishError::HandshakeRejected),
            },
            EstablishEvent::Reply(_) => self.fail(EstablishError::HandshakeRejected),
        }
    }
}

/// What a direct connection does next.
pub enum DialAction {
    /// Open a TCP connection to this address.
    Connect(IpAddress),
    /// The last attempt succeeded.
    Connected,
    /// Give up.
    Fail(EstablishError),
}

/// Tries candidate addresses one after another until one accepts a connection.
pub struct Dialer {
    candidates: Vec<IpAddress>,
    next: usize,
}

impl Dialer {
    pub closed spec fn candidates_of(&self) -> Seq<IpModel> {
        self.candidates@.map_values(|a: IpAddress| a.model())
    }

    pub closed spec fn tried(&self) -> int {
        self.next as int
    }

    pub closed spec fn wf(&self) -> bool {
        self.next < self.candidates@.len()
    }

    /// Starts with the first candidate; no candidate at all is a resolution failure.
    pub fn new(candidates: Vec<IpAddress>) -> (r: (Dialer, DialAction))
        ensures
            r.0.candidates_of() == candidates@.map_values(|a: IpAddress| a.model()),
            r.0.tried() == 0,
            candidates@.len() == 0 ==> (r.1 matches DialAction::Fail(e) && e
                == EstablishError::ResolutionFailed),
            candidates@.len() > 0 ==> r.0.wf() && (r.1 matches DialAction::Connect(ip)
                && ip.model() == candidates@[0].model()),
    {
        if candidates.len() == 0 {
            (Dialer { candidates, next: 0 }, DialAction::Fail(EstablishError::ResolutionFailed))
        } else {
            let first = candidates[0].copy();
            (Dialer { candidates, next: 0 }, DialAction::Connect(first))
        }
    }

    /// Takes the outcome of the last attempt: success ends, failure moves to the
    /// next candidate, and failure of the last one gives up.
    pub fn step(&mut self, ok: bool) -> (r: DialAction)
        requires
            old(self).wf(),
        ensures
            final(self).candidates_of() == old(self).candidates_of(),
            ok ==> r is Connected,
            !ok && old(self).tried() + 1 < old(self).candidates_of().len() ==> final(self).wf()
                && final(self).tried() == old(self).tried() + 1 && (r matches DialAction::Connect(
                ip,
            ) && ip.model() == old(self).candidates_of()[old(self).tried() + 1]),
            !ok && old(self).tried() + 1 >= old(self).candidates_of().len() ==> (
            r matches DialAction::Fail(e) && e == EstablishError::ConnectFailed),
    {
        if ok {
            DialAction::Connected
        } else if self.candidates.len() - self.next > 1 {
            self.next = self.next + 1;
            DialAction::Connect(self.candidates[self.next].copy())
        } else {
            DialAction::Fail(EstablishError::ConnectFailed)
        }
    }

    /// Whether another outcome may be reported.
    pub fn is_trying(&self) -> (r: bool)
        ensures
            r == self.wf(),
    {
        self.next < self.candidates.len()
    }
}

/// A lookup that yields no address fails the establishment with
/// `ResolutionFailed` and asks for no connection; with two addresses of which
/// only the second accepts a connection, the second is tried after the first
/// and, given an accepting reply, the tunnel becomes ready.
pub proof fn lemma_resolution_and_retry(
    m: EstModel,
    c: EstConfig,
    a: IpModel,
    b: IpModel,
    reply: Seq<u8>,
)
    requires
        m.stage == EstStage::Resolving,
        json_string_from(reply) == Some(accepted_name()),
    ensures
        est_next(m, c, EventModel::Resolved(Some(Seq::empty()))).1 == ActionModel::Fail(
            EstablishError::ResolutionFailed,
        ),
        est_next(m, c, EventModel::Resolved(None)).1 == ActionModel::Fail(
            EstablishError::ResolutionFailed,
        ),
        ({
            let s1 = est_next(m, c, EventModel::Resolved(Some(seq![a, b])));
            let s2 = est_next(s1.0, c, EventModel::Connected(false));
            let s3 = est_next(s2.0, c, EventModel::Connected(true));
            let s4 = if c.skip_tls { s3 } else { est_next(s3.0, c, EventModel::TlsDone(true)) };
            let s5 = est_next(s4.0, c, EventModel::Upgraded(true));
            let s6 = est_next(s5.0, c, EventModel::Binary(reply));
            &&& s1.1 == ActionModel::Connect(a)
            &&& s2.1 == ActionModel::Connect(b)
            &&& s4.1 == ActionModel::UpgradeWebSocket(ws_url(c.host))
            &&& s5.1 == ActionModel::SendHello(c.dest)
            &&& s6.0.stage == EstStage::Ready
            &&& s6.1 == ActionModel::Ready
        }),
{
}

} // verus!
