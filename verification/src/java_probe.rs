//! One probe of a Java Edition server, as the decisions between the steps
//! that only the outside world can take.
//!
//! A [`JavaProbe`] says what to do next; its driver does it and reports what
//! happened. The probe resolves the host, opens a connection, sends the
//! handshake and the request, reads the status, sends a ping and waits for
//! its echo. It tries once and never again.

use crate::address::{parse_address, IpAddress};
use crate::java::{
    decode_packet, encode_packet, lemma_short_packets, Java, JavaResponse, Packet, PacketView,
    DEFAULT_PORT, HANDSHAKE_VERSION, STATUS_STATE,
};
use crate::{Error, ErrorView};
use vstd::prelude::*;
use vstd::string::*;

verus! {

/// A service record: where the service really is.
#[derive(Debug, Clone, PartialEq, Eq)]
pub struct SrvRecord {
    pub target: String,
    pub port: u16,
}

/// What a probe is waiting for.
#[derive(Debug, Clone, Copy, PartialEq, Eq)]
pub enum JavaStage {
    /// Whether the host is an address literal.
    Classifying,
    /// The service records of the host.
    AskingSrv,
    /// The address of the host or of the service's target.
    AskingIp,
    /// The connection.
    Connecting,
    /// The handshake to be sent.
    SendingHandshake,
    /// The request to be sent.
    SendingRequest,
    /// The packet with the status.
    AwaitingResponse,
    /// The status as a value.
    ParsingStatus,
    /// The ping to be sent.
    SendingPing,
    /// The packet with the pong.
    AwaitingPong,
    /// The time from the ping to the pong.
    Measuring,
    /// Nothing: the probe is over.
    Finished,
}

/// What happened outside.
#[derive(Debug, PartialEq, Eq)]
pub enum JavaEvent {
    /// The host is this address literal, or is none.
    Literal(Option<IpAddress>),
    /// These service records were found; none where the lookup failed.
    Srv(Vec<SrvRecord>),
    /// The name has this address, or has none.
    Ip(Option<IpAddress>),
    /// The connection is open.
    Connected,
    /// The bytes were sent.
    Sent,
    /// A packet arrived: these are the bytes behind its length.
    Frame(Vec<u8>),
    /// The status document holds this.
    Status(JavaResponse),
    /// The status document is not what it should be.
    BadStatus(String),
    /// The pong came this many milliseconds after the ping was sent.
    Elapsed(u64),
    /// The step failed.
    Failed(Error),
    /// The time allowed for the whole probe is over.
    Deadline,
}

/// What to do next.
#[derive(Debug, PartialEq, Eq)]
pub enum JavaAction {
    /// Say whether this host is an address literal.
    Classify(String),
    /// Look up the service records of this name.
    LookupSrv(String),
    /// Look up the address of this name.
    LookupIp(String),
    /// Connect; reads and writes may take `timeout` milliseconds each.
    Connect { ip: IpAddress, port: u16, timeout: Option<u64> },
    /// Send these bytes.
    Send(Vec<u8>),
    /// Note the time, then send these bytes.
    SendPing(Vec<u8>),
    /// Read one packet.
    ReadFrame,
    /// Turn this status document into a value.
    ParseStatus(String),
    /// Say how long the pong took.
    Measure,
    /// Stop: this is the outcome, the latency in milliseconds and the
    /// status, or what went wrong.
    Finish(Result<(u64, JavaResponse), Error>),
}

/// One probe of a Java Edition server.
pub struct JavaProbe {
    stage: JavaStage,
    host: String,
    port: u16,
    timeout: Option<u64>,
    status: Option<JavaResponse>,
    nonce: u64,
}

/// The name under which a Java Edition server announces where it is.
pub open spec fn srv_name(host: Seq<char>) -> Seq<char> {
    "_minecraft._tcp."@ + host + "."@
}

/// The text of the error for an event that the probe was not waiting for.
pub open spec fn unexpected_text() -> Seq<char> {
    "unexpected event"@
}

/// The handshake of a probe of `host` and `port`.
pub open spec fn handshake(host: Seq<char>, port: u16) -> PacketView {
    PacketView::Handshake { version: 47, host, port, next_state: 1 }
}

impl JavaProbe {
    #[verifier::type_invariant]
    spec fn well_formed(self) -> bool {
        (self.stage == JavaStage::SendingPing || self.stage == JavaStage::AwaitingPong || self.stage
            == JavaStage::Measuring) ==> self.status is Some
    }

    /// What the probe is waiting for.
    pub closed spec fn stage(self) -> JavaStage {
        self.stage
    }

    /// The host as the caller named it.
    pub closed spec fn host(self) -> Seq<char> {
        self.host@
    }

    /// The port to connect to.
    pub closed spec fn port(self) -> u16 {
        self.port
    }

    /// The time allowed for a read or a write, in milliseconds.
    pub closed spec fn timeout(self) -> Option<u64> {
        self.timeout
    }

    /// The status, once it was read.
    pub closed spec fn status(self) -> Option<JavaResponse> {
        self.status
    }

    /// The payload of the ping, once it was sent.
    pub closed spec fn nonce(self) -> u64 {
        self.nonce
    }

    /// Whether the probe is over.
    pub fn is_finished(&self) -> (over: bool)
        ensures
            over == (self.stage() == JavaStage::Finished),
    {
        match self.stage {
            JavaStage::Finished => true,
            _ => false,
        }
    }
}

/// The probe is over with `error`.
pub open spec fn fails_with(post: JavaProbe, action: JavaAction, error: ErrorView) -> bool {
    &&& post.stage() == JavaStage::Finished
    &&& action matches JavaAction::Finish(Err(e))
    &&& e@ == error
}

/// The probe moves on to `stage` with the port, the status and the payload
/// it had.
pub open spec fn moves_to(pre: JavaProbe, post: JavaProbe, stage: JavaStage) -> bool {
    &&& post.stage() == stage
    &&& post.port() == pre.port()
    &&& post.status() == pre.status()
    &&& post.nonce() == pre.nonce()
}

/// Whether `action` sends `packet`.
pub open spec fn sends(action: JavaAction, packet: PacketView) -> bool {
    action matches JavaAction::Send(bytes) && Ok::<Seq<u8>, ErrorView>(bytes@) == encode_packet(
        packet,
    )
}

/// How a probe begins: with the host and the port that the address names,
/// port 25565 where it names none, asking whether the host is a literal; or
/// over at once where the address is no address.
pub open spec fn java_start(config: Java, post: JavaProbe, action: JavaAction) -> bool {
    match crate::address::address_parts(config.server_address@, 25565) {
        Some((host, port)) => {
            &&& post.stage() == JavaStage::Classifying
            &&& post.host() == host
            &&& post.port() == port
            &&& post.timeout() == config.timeout
            &&& post.status() is None
            &&& action matches JavaAction::Classify(h) && h@ == host
        },
        None => fails_with(post, action, ErrorView::InvalidAddress),
    }
}

/// What one step of a probe is: from `pre` and `event` to `post` and
/// `action`, where `nonce` is the number drawn for the ping.
///
/// The time running out ends the probe as timed out and a failed step ends
/// it with its failure, whatever the probe was waiting for. An event that
/// the probe was not waiting for ends it too.
pub open spec fn java_step(
    pre: JavaProbe,
    event: JavaEvent,
    nonce: u64,
    post: JavaProbe,
    action: JavaAction,
) -> bool {
    &&& post.host() == pre.host()
    &&& post.timeout() == pre.timeout()
    &&& match (pre.stage(), event) {
        (JavaStage::Finished, _) => fails_with(post, action, ErrorView::Io(unexpected_text())),
        (_, JavaEvent::Deadline) => fails_with(post, action, ErrorView::TimedOut),
        (_, JavaEvent::Failed(e)) => fails_with(post, action, e@),
        // A literal needs no lookup. Another host is first asked for its
        // service record.
        (JavaStage::Classifying, JavaEvent::Literal(Some(ip))) => {
            &&& moves_to(pre, post, JavaStage::Connecting)
            &&& action == JavaAction::Connect { ip, port: pre.port(), timeout: pre.timeout() }
        },
        (JavaStage::Classifying, JavaEvent::Literal(None)) => {
            &&& moves_to(pre, post, JavaStage::AskingSrv)
            &&& action matches JavaAction::LookupSrv(name) && name@ == srv_name(pre.host())
        },
        // The first service record replaces the host to resolve and the
        // port. Without one the host itself is resolved.
        (JavaStage::AskingSrv, JavaEvent::Srv(records)) => {
            &&& post.stage() == JavaStage::AskingIp
            &&& post.status() == pre.status()
            &&& post.nonce() == pre.nonce()
            &&& action matches JavaAction::LookupIp(name)
            &&& if records@.len() > 0 {
                post.port() == records@[0].port && name@ == records@[0].target@
            } else {
                post.port() == pre.port() && name@ == pre.host()
            }
        },
        (JavaStage::AskingIp, JavaEvent::Ip(Some(ip))) => {
            &&& moves_to(pre, post, JavaStage::Connecting)
            &&& action == JavaAction::Connect { ip, port: pre.port(), timeout: pre.timeout() }
        },
        (JavaStage::AskingIp, JavaEvent::Ip(None)) => fails_with(
            post,
            action,
            ErrorView::DnsLookupFailed,
        ),
        // The handshake names the host as the caller gave it.
        (JavaStage::Connecting, JavaEvent::Connected) => match encode_packet(
            handshake(pre.host(), pre.port()),
        ) {
            Ok(bytes) => moves_to(pre, post, JavaStage::SendingHandshake) && sends(
                action,
                handshake(pre.host(), pre.port()),
            ),
            Err(e) => fails_with(post, action, e),
        },
        (JavaStage::SendingHandshake, JavaEvent::Sent) => {
            &&& moves_to(pre, post, JavaStage::SendingRequest)
            &&& sends(action, PacketView::Request)
        },
        (JavaStage::SendingRequest, JavaEvent::Sent) => {
            &&& moves_to(pre, post, JavaStage::AwaitingResponse)
            &&& action == JavaAction::ReadFrame
        },
        // Only a response is accepted here.
        (JavaStage::AwaitingResponse, JavaEvent::Frame(body)) => match decode_packet(body@) {
            Ok(PacketView::Response { response }) => {
                &&& moves_to(pre, post, JavaStage::ParsingStatus)
                &&& action matches JavaAction::ParseStatus(text) && text@ == response
            },
            Ok(_) => fails_with(post, action, ErrorView::InvalidPacket),
            Err(e) => fails_with(post, action, e),
        },
        (JavaStage::ParsingStatus, JavaEvent::Status(status)) => {
            &&& post.stage() == JavaStage::SendingPing
            &&& post.port() == pre.port()
            &&& post.status() == Some(status)
            &&& post.nonce() == nonce
            &&& action matches JavaAction::SendPing(bytes) && Ok::<Seq<u8>, ErrorView>(bytes@)
                == encode_packet(PacketView::Ping { payload: nonce })
        },
        (JavaStage::ParsingStatus, JavaEvent::BadStatus(why)) => fails_with(
            post,
            action,
            ErrorView::JsonErr(why@),
        ),
        (JavaStage::SendingPing, JavaEvent::Sent) => {
            &&& moves_to(pre, post, JavaStage::AwaitingPong)
            &&& action == JavaAction::ReadFrame
        },
        // Only a pong with the payload of the ping is accepted here.
        (JavaStage::AwaitingPong, JavaEvent::Frame(body)) => match decode_packet(body@) {
            Ok(PacketView::Pong { payload }) => if payload == pre.nonce() {
                moves_to(pre, post, JavaStage::Measuring) && action == JavaAction::Measure
            } else {
                fails_with(post, action, ErrorView::InvalidPacket)
            },
            Ok(_) => fails_with(post, action, ErrorView::InvalidPacket),
            Err(e) => fails_with(post, action, e),
        },
        (JavaStage::Measuring, JavaEvent::Elapsed(latency)) => {
            &&& post.stage() == JavaStage::Finished
            &&& pre.status() matches Some(status)
            &&& action == JavaAction::Finish(Ok((latency, status)))
        },
        _ => fails_with(post, action, ErrorView::Io(unexpected_text())),
    }
}

/// Draws the payload of a ping.
///
/// Calls `rand::random`, which draws from the thread's generator. Nothing is
/// known of the number.
#[verifier::external_body]
fn random_nonce() -> u64 {
    rand::random::<u64>()
}

impl JavaProbe {
    fn finish(self, error: Error) -> (r: (JavaProbe, JavaAction))
        ensures
            fails_with(r.0, r.1, error@),
            r.0.host() == self.host(),
            r.0.timeout() == self.timeout(),
    {
        (
            JavaProbe {
                stage: JavaStage::Finished,
                host: self.host,
                port: self.port,
                timeout: self.timeout,
                status: None,
                nonce: self.nonce,
            },
            JavaAction::Finish(Err(error)),
        )
    }

    fn advance(self, stage: JavaStage, action: JavaAction) -> (r: (JavaProbe, JavaAction))
        requires
            (stage == JavaStage::SendingPing || stage == JavaStage::AwaitingPong || stage
                == JavaStage::Measuring) ==> self.status() is Some,
        ensures
            moves_to(self, r.0, stage),
            r.0.host() == self.host(),
            r.0.timeout() == self.timeout(),
            r.1 == action,
    {
        (
            JavaProbe {
                stage,
                host: self.host,
                port: self.port,
                timeout: self.timeout,
                status: self.status,
                nonce: self.nonce,
            },
            action,
        )
    }

    /// Begins a probe of the server that `config` names.
    pub fn start(config: Java) -> (r: (JavaProbe, JavaAction))
        ensures
            java_start(config, r.0, r.1),
    {
        match parse_address(config.server_address.as_str(), DEFAULT_PORT) {
            Ok((host, port)) => {
                let asked = host.clone();
                (
                    JavaProbe {
                        stage: JavaStage::Classifying,
                        host,
                        port,
                        timeout: config.timeout,
                        status: None,
                        nonce: 0,
                    },
                    JavaAction::Classify(asked),
                )
            },
            Err(e) => (
                JavaProbe {
                    stage: JavaStage::Finished,
                    host: String::new(),
                    port: DEFAULT_PORT,
                    timeout: config.timeout,
                    status: None,
                    nonce: 0,
                },
                JavaAction::Finish(Err(e)),
            ),
        }
    }

    /// Takes one step: given what happened, says what to do next. The
    /// payload of the ping is drawn at random.
    pub fn step(self, event: JavaEvent) -> (r: (JavaProbe, JavaAction))
        ensures
            exists|nonce: u64| java_step(self, event, nonce, r.0, r.1),
    {
        let nonce = random_nonce();
        let r = self.step_with(event, nonce);
        assert(java_step(self, event, nonce, r.0, r.1));
        r
    }

    /// Takes one step, with `nonce` as the payload of the ping should this be
    /// the step that sends it.
    pub fn step_with(self, event: JavaEvent, nonce: u64) -> (r: (JavaProbe, JavaAction))
        ensures
            java_step(self, event, nonce, r.0, r.1),
    {
        proof {
            use_type_invariant(&self);
            lemma_short_packets(nonce);
        }
        match self.stage {
            JavaStage::Finished => {
                return self.finish(Error::Io("unexpected event".to_owned()));
            },
            _ => {},
        }
        match event {
            JavaEvent::Deadline => {
                return self.finish(Error::TimedOut);
            },
            JavaEvent::Failed(e) => {
                return self.finish(e);
            },
            _ => {},
        }
        match (self.stage, event) {
            (JavaStage::Classifying, JavaEvent::Literal(Some(ip))) => {
                let action = JavaAction::Connect { ip, port: self.port, timeout: self.timeout };
                self.advance(JavaStage::Connecting, action)
            },
            (JavaStage::Classifying, JavaEvent::Literal(None)) => {
                let mut name = "_minecraft._tcp.".to_owned();
                name.append(self.host.as_str());
                name.append(".");
                self.advance(JavaStage::AskingSrv, JavaAction::LookupSrv(name))
            },
            (JavaStage::AskingSrv, JavaEvent::Srv(records)) => {
                if records.len() > 0 {
                    let target = records[0].target.clone();
                    let port = records[0].port;
                    (
                        JavaProbe {
                            stage: JavaStage::AskingIp,
                            host: self.host,
                            port,
                            timeout: self.timeout,
                            status: self.status,
                            nonce: self.nonce,
                        },
                        JavaAction::LookupIp(target),
                    )
                } else {
                    let name = self.host.clone();
                    self.advance(JavaStage::AskingIp, JavaAction::LookupIp(name))
                }
            },
            (JavaStage::AskingIp, JavaEvent::Ip(Some(ip))) => {
                let action = JavaAction::Connect { ip, port: self.port, timeout: self.timeout };
                self.advance(JavaStage::Connecting, action)
            },
            (JavaStage::AskingIp, JavaEvent::Ip(None)) => self.finish(Error::DnsLookupFailed),
            (JavaStage::Connecting, JavaEvent::Connected) => {
                let packet = Packet::Handshake {
                    version: HANDSHAKE_VERSION,
                    host: self.host.clone(),
                    port: self.port,
                    next_state: STATUS_STATE,
                };
                match packet.encode() {
                    Ok(bytes) => self.advance(JavaStage::SendingHandshake, JavaAction::Send(bytes)),
                    Err(e) => self.finish(e),
                }
            },
            (JavaStage::SendingHandshake, JavaEvent::Sent) => {
                match (Packet::Request {  }).encode() {
                    Ok(bytes) => self.advance(JavaStage::SendingRequest, JavaAction::Send(bytes)),
                    Err(e) => self.finish(e),
                }
            },
            (JavaStage::SendingRequest, JavaEvent::Sent) => self.advance(
                JavaStage::AwaitingResponse,
                JavaAction::ReadFrame,
            ),
            (JavaStage::AwaitingResponse, JavaEvent::Frame(body)) => {
                match Packet::decode(body.as_slice()) {
                    Ok(Packet::Response { response }) => self.advance(
                        JavaStage::ParsingStatus,
                        JavaAction::ParseStatus(response),
                    ),
                    Ok(_) => self.finish(Error::InvalidPacket),
                    Err(e) => self.finish(e),
                }
            },
            (JavaStage::ParsingStatus, JavaEvent::Status(status)) => {
                match (Packet::Ping { payload: nonce }).encode() {
                    Ok(bytes) => (
                        JavaProbe {
                            stage: JavaStage::SendingPing,
                            host: self.host,
                            port: self.port,
                            timeout: self.timeout,
                            status: Some(status),
                            nonce,
                        },
                        JavaAction::SendPing(bytes),
                    ),
                    Err(e) => self.finish(e),
                }
            },
            (JavaStage::ParsingStatus, JavaEvent::BadStatus(why)) => self.finish(
                Error::JsonErr(why),
            ),
            (JavaStage::SendingPing, JavaEvent::Sent) => self.advance(
                JavaStage::AwaitingPong,
                JavaAction::ReadFrame,
            ),
            (JavaStage::AwaitingPong, JavaEvent::Frame(body)) => {
                match Packet::decode(body.as_slice()) {
                    Ok(Packet::Pong { payload }) => {
                        if payload == self.nonce {
                            self.advance(JavaStage::Measuring, JavaAction::Measure)
                        } else {
                            self.finish(Error::InvalidPacket)
                        }
                    },
                    Ok(_) => self.finish(Error::InvalidPacket),
                    Err(e) => self.finish(e),
                }
            },
            (JavaStage::Measuring, JavaEvent::Elapsed(latency)) => {
                match self.status {
                    Some(status) => (
                        JavaProbe {
                            stage: JavaStage::Finished,
                            host: self.host,
                            port: self.port,
                            timeout: self.timeout,
                            status: None,
                            nonce: self.nonce,
                        },
                        JavaAction::Finish(Ok((latency, status))),
                    ),
                    None => self.finish(Error::InvalidPacket),
                }
            },
            _ => self.finish(Error::Io("unexpected event".to_owned())),
        }
    }
}

/// When the time allowed for a probe runs out, the probe ends as timed out,
/// whatever it was waiting for.
pub proof fn lemma_deadline_ends_probe(
    pre: JavaProbe,
    nonce: u64,
    post: JavaProbe,
    action: JavaAction,
)
    requires
        pre.stage() != JavaStage::Finished,
        java_step(pre, JavaEvent::Deadline, nonce, post, action),
    ensures
        post.stage() == JavaStage::Finished,
        action matches JavaAction::Finish(Err(e)) && e@ == ErrorView::TimedOut,
{
}

/// A pong that does not echo the ping's payload ends the probe as an invalid
/// packet.
pub proof fn lemma_wrong_pong_refused(
    pre: JavaProbe,
    body: Vec<u8>,
    echoed: u64,
    nonce: u64,
    post: JavaProbe,
    action: JavaAction,
)
    requires
        pre.stage() == JavaStage::AwaitingPong,
        decode_packet(body@) == Ok::<PacketView, ErrorView>(PacketView::Pong { payload: echoed }),
        echoed != pre.nonce(),
        java_step(pre, JavaEvent::Frame(body), nonce, post, action),
    ensures
        post.stage() == JavaStage::Finished,
        action matches JavaAction::Finish(Err(e)) && e@ == ErrorView::InvalidPacket,
{
}

/// A probe that is over stays over: no event makes it act again.
pub proof fn lemma_no_second_attempt(
    pre: JavaProbe,
    event: JavaEvent,
    nonce: u64,
    post: JavaProbe,
    action: JavaAction,
)
    requires
        pre.stage() == JavaStage::Finished,
        java_step(pre, event, nonce, post, action),
    ensures
        post.stage() == JavaStage::Finished,
        action matches JavaAction::Finish(Err(_)),
{
}

/// The exchange keeps its order: a packet is read only after the request or
/// the ping was sent, the ping is sent only after the status was read, and
/// the request only after the handshake.
pub proof fn lemma_exchange_in_order(
    pre: JavaProbe,
    event: JavaEvent,
    nonce: u64,
    post: JavaProbe,
    action: JavaAction,
)
    requires
        java_step(pre, event, nonce, post, action),
    ensures
        action is ReadFrame ==> event is Sent && (pre.stage() == JavaStage::SendingRequest
            || pre.stage() == JavaStage::SendingPing),
        action is SendPing ==> event is Status && pre.stage() == JavaStage::ParsingStatus,
        action is Send ==> (event is Connected && pre.stage() == JavaStage::Connecting) || (event
            is Sent && pre.stage() == JavaStage::SendingHandshake),
        action is ParseStatus ==> event is Frame && pre.stage() == JavaStage::AwaitingResponse,
        action is Measure ==> event is Frame && pre.stage() == JavaStage::AwaitingPong,
        action matches JavaAction::Finish(Ok(_)) ==> event is Elapsed && pre.stage()
            == JavaStage::Measuring,
{
}

} // verus!
