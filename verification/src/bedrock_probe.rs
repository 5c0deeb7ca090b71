//! One probe of a Bedrock Edition server, as the decisions between the steps
//! that only the outside world can take.
//!
//! A [`BedrockProbe`] says what to do next; its driver does it and reports
//! what happened. The probe resolves the host, binds the first local address
//! that can be bound, sends its pings one after the other and then reads one
//! datagram. Datagrams get lost, so more than one ping is sent; that is no
//! second attempt.

use crate::address::{parse_address, IpAddress, SocketAddress};
use crate::bedrock::{
    decode_pong, ping_datagram, pong_response, Bedrock, BedrockResponse, Packet, PacketView,
    DEFAULT_PORT, RECEIVE_BUFFER_LEN,
};
use crate::{Error, ErrorView};
use vstd::prelude::*;
use vstd::string::*;

verus! {

/// What a probe is waiting for.
#[derive(Debug, Clone, Copy, PartialEq, Eq)]
pub enum BedrockStage {
    /// Whether the host is an address literal.
    Classifying,
    /// The address of the host.
    AskingIp,
    /// The local address with this index to be bound.
    Binding(usize),
    /// The socket to be connected.
    Connecting,
    /// A ping to be sent, after this many were sent.
    Pinging(usize),
    /// The pause to pass, after this many pings were sent.
    Pausing(usize),
    /// The datagram with the pong.
    Receiving,
    /// The time from the first ping to the pong.
    Measuring,
    /// Nothing: the probe is over.
    Finished,
}

/// What happened outside.
#[derive(Debug, PartialEq, Eq)]
pub enum BedrockEvent {
    /// The host is this address literal, or is none.
    Literal(Option<IpAddress>),
    /// The name has this address, or has none.
    Ip(Option<IpAddress>),
    /// The local address was bound.
    Bound,
    /// The local address could not be bound; the text says why.
    BindFailed(String),
    /// The socket is connected.
    Connected,
    /// The datagram was sent.
    Sent,
    /// The pause is over.
    Paused,
    /// A datagram arrived: these are its bytes.
    Datagram(Vec<u8>),
    /// The pong came this many milliseconds after the first ping was sent.
    Elapsed(u64),
    /// The step failed.
    Failed(Error),
    /// The time allowed for the whole probe is over.
    Deadline,
}

/// What to do next.
#[derive(Debug, PartialEq, Eq)]
pub enum BedrockAction {
    /// Say whether this host is an address literal.
    Classify(String),
    /// Look up the address of this name.
    LookupIp(String),
    /// Bind a socket to this local address.
    Bind(SocketAddress),
    /// Connect the socket; reads and writes may take `timeout` milliseconds
    /// each.
    Connect { ip: IpAddress, port: u16, timeout: Option<u64> },
    /// Send this datagram. With the first one, note the time.
    Send(Vec<u8>),
    /// Wait this many milliseconds.
    Pause(u64),
    /// Read one datagram of at most this many bytes.
    Receive(usize),
    /// Say how long the pong took.
    Measure,
    /// Stop: this is the outcome, the latency in milliseconds and the
    /// answer, or what went wrong.
    Finish(Result<(u64, BedrockResponse), Error>),
}

/// One probe of a Bedrock Edition server.
pub struct BedrockProbe {
    stage: BedrockStage,
    host: String,
    port: u16,
    timeout: Option<u64>,
    tries: usize,
    wait: Option<u64>,
    candidates: Vec<SocketAddress>,
    remote: Option<IpAddress>,
    answer: Option<BedrockResponse>,
}

/// The text of the error for an event that the probe was not waiting for.
pub open spec fn unexpected_text() -> Seq<char> {
    "unexpected event"@
}

/// The text of the error for a probe without a local address to bind.
pub open spec fn nothing_to_bind_text() -> Seq<char> {
    "could not resolve to any address"@
}

impl BedrockProbe {
    #[verifier::type_invariant]
    spec fn well_formed(self) -> bool {
        &&& match self.stage {
            BedrockStage::Binding(index) => index < self.candidates@.len() && self.remote is Some,
            BedrockStage::Connecting => self.remote is Some,
            BedrockStage::Pinging(sent) => sent < self.tries,
            BedrockStage::Pausing(sent) => 0 < sent <= self.tries,
            BedrockStage::Measuring => self.answer is Some,
            _ => true,
        }
    }

    /// What the probe is waiting for.
    pub closed spec fn stage(self) -> BedrockStage {
        self.stage
    }

    /// The host as the caller named it.
    pub closed spec fn host(self) -> Seq<char> {
        self.host@
    }

    /// The port to send to.
    pub closed spec fn port(self) -> u16 {
        self.port
    }

    /// The time allowed for a read or a write, in milliseconds.
    pub closed spec fn timeout(self) -> Option<u64> {
        self.timeout
    }

    /// How many pings are sent.
    pub closed spec fn tries(self) -> usize {
        self.tries
    }

    /// The pause after each ping, in milliseconds.
    pub closed spec fn wait(self) -> Option<u64> {
        self.wait
    }

    /// The local addresses to try.
    pub closed spec fn candidates(self) -> Seq<SocketAddress> {
        self.candidates@
    }

    /// The server's address, once it is known.
    pub closed spec fn remote(self) -> Option<IpAddress> {
        self.remote
    }

    /// The server's answer, once it was read.
    pub closed spec fn answer(self) -> Option<BedrockResponse> {
        self.answer
    }

    /// What every step leaves as it was.
    pub open spec fn same_probe(self, post: BedrockProbe) -> bool {
        &&& post.host() == self.host()
        &&& post.port() == self.port()
        &&& post.timeout() == self.timeout()
        &&& post.tries() == self.tries()
        &&& post.wait() == self.wait()
        &&& post.candidates() == self.candidates()
    }

    /// Whether the probe is over.
    pub fn is_finished(&self) -> (over: bool)
        ensures
            over == (self.stage() == BedrockStage::Finished),
    {
        match self.stage {
            BedrockStage::Finished => true,
            _ => false,
        }
    }
}

/// The probe is over with `error`.
pub open spec fn fails_with(post: BedrockProbe, action: BedrockAction, error: ErrorView) -> bool {
    &&& post.stage() == BedrockStage::Finished
    &&& action matches BedrockAction::Finish(Err(e))
    &&& e@ == error
}

/// The probe moves on to `stage` with the address and the answer it had.
pub open spec fn moves_to(pre: BedrockProbe, post: BedrockProbe, stage: BedrockStage) -> bool {
    &&& post.stage() == stage
    &&& post.remote() == pre.remote()
    &&& post.answer() == pre.answer()
}

/// Whether `action` sends a ping.
pub open spec fn sends_ping(action: BedrockAction) -> bool {
    action matches BedrockAction::Send(bytes) && bytes@ == ping_datagram()
}

/// What follows once the server's address `ip` is known: the first local
/// address is bound, or the probe ends where there is none.
pub open spec fn begins_binding(
    pre: BedrockProbe,
    ip: IpAddress,
    post: BedrockProbe,
    action: BedrockAction,
) -> bool {
    if pre.candidates().len() > 0 {
        &&& post.stage() == BedrockStage::Binding(0)
        &&& post.remote() == Some(ip)
        &&& post.answer() == pre.answer()
        &&& action == BedrockAction::Bind(pre.candidates()[0])
    } else {
        fails_with(post, action, ErrorView::Io(nothing_to_bind_text()))
    }
}

/// What follows once `sent` pings are out and no pause is pending: the next
/// ping, or the read once all pings were sent.
pub open spec fn pings_on(
    pre: BedrockProbe,
    sent: int,
    post: BedrockProbe,
    action: BedrockAction,
) -> bool {
    if sent < pre.tries() {
        moves_to(pre, post, BedrockStage::Pinging(sent as usize)) && sends_ping(action)
    } else {
        moves_to(pre, post, BedrockStage::Receiving) && action == BedrockAction::Receive(1024)
    }
}

/// How a probe begins: with the host and the port that the address names,
/// port 19132 where it names none, asking whether the host is a literal; or
/// over at once where the address is no address.
pub open spec fn bedrock_start(config: Bedrock, post: BedrockProbe, action: BedrockAction) -> bool {
    match crate::address::address_parts(config.server_address@, 19132) {
        Some((host, port)) => {
            &&& post.stage() == BedrockStage::Classifying
            &&& post.host() == host
            &&& post.port() == port
            &&& post.timeout() == config.timeout
            &&& post.tries() == config.tries
            &&& post.wait() == config.wait_to_try
            &&& post.candidates() == config.socket_addresses@
            &&& post.answer() is None
            &&& action matches BedrockAction::Classify(h) && h@ == host
        },
        None => fails_with(post, action, ErrorView::InvalidAddress),
    }
}

/// What one step of a probe is: from `pre` and `event` to `post` and
/// `action`.
///
/// The time running out ends the probe as timed out and a failed step ends
/// it with its failure, whatever the probe was waiting for. An event that
/// the probe was not waiting for ends it too.
pub open spec fn bedrock_step(
    pre: BedrockProbe,
    event: BedrockEvent,
    post: BedrockProbe,
    action: BedrockAction,
) -> bool {
    &&& pre.same_probe(post)
    &&& match (pre.stage(), event) {
        (BedrockStage::Finished, _) => fails_with(post, action, ErrorView::Io(unexpected_text())),
        (_, BedrockEvent::Deadline) => fails_with(post, action, ErrorView::TimedOut),
        (_, BedrockEvent::Failed(e)) => fails_with(post, action, e@),
        // A literal needs no lookup. There is no service record to ask for.
        (BedrockStage::Classifying, BedrockEvent::Literal(Some(ip))) => begins_binding(
            pre,
            ip,
            post,
            action,
        ),
        (BedrockStage::Classifying, BedrockEvent::Literal(None)) => {
            &&& moves_to(pre, post, BedrockStage::AskingIp)
            &&& action matches BedrockAction::LookupIp(name) && name@ == pre.host()
        },
        (BedrockStage::AskingIp, BedrockEvent::Ip(Some(ip))) => begins_binding(
            pre,
            ip,
            post,
            action,
        ),
        (BedrockStage::AskingIp, BedrockEvent::Ip(None)) => fails_with(
            post,
            action,
            ErrorView::DnsLookupFailed,
        ),
        // The local addresses are tried in their order; the first that can
        // be bound is used, and the last failure is the probe's.
        (BedrockStage::Binding(index), BedrockEvent::Bound) => {
            &&& moves_to(pre, post, BedrockStage::Connecting)
            &&& pre.remote() matches Some(ip)
            &&& action == BedrockAction::Connect { ip, port: pre.port(), timeout: pre.timeout() }
        },
        (BedrockStage::Binding(index), BedrockEvent::BindFailed(why)) => if index + 1
            < pre.candidates().len() {
            &&& moves_to(pre, post, BedrockStage::Binding((index + 1) as usize))
            &&& action == BedrockAction::Bind(pre.candidates()[index + 1])
        } else {
            fails_with(post, action, ErrorView::Io(why@))
        },
        (BedrockStage::Connecting, BedrockEvent::Connected) => pings_on(pre, 0, post, action),
        // After each ping comes the pause, where one is asked for.
        (BedrockStage::Pinging(sent), BedrockEvent::Sent) => match pre.wait() {
            Some(wait) => {
                &&& moves_to(pre, post, BedrockStage::Pausing((sent + 1) as usize))
                &&& action == BedrockAction::Pause(wait)
            },
            None => pings_on(pre, sent + 1, post, action),
        },
        (BedrockStage::Pausing(sent), BedrockEvent::Paused) => pings_on(
            pre,
            sent as int,
            post,
            action,
        ),
        // The datagram must be a pong whose text has its four fields.
        (BedrockStage::Receiving, BedrockEvent::Datagram(bytes)) => match decode_pong(bytes@) {
            Ok(packet) => match pong_response(packet) {
                Ok(answer) => {
                    &&& post.stage() == BedrockStage::Measuring
                    &&& post.remote() == pre.remote()
                    &&& post.answer() matches Some(kept)
                    &&& kept@ == answer
                    &&& action == BedrockAction::Measure
                },
                Err(e) => fails_with(post, action, e),
            },
            Err(e) => fails_with(post, action, e),
        },
        (BedrockStage::Measuring, BedrockEvent::Elapsed(latency)) => {
            &&& post.stage() == BedrockStage::Finished
            &&& pre.answer() matches Some(answer)
            &&& action == BedrockAction::Finish(Ok((latency, answer)))
        },
        _ => fails_with(post, action, ErrorView::Io(unexpected_text())),
    }
}

impl BedrockProbe {
    fn finish(self, error: Error) -> (r: (BedrockProbe, BedrockAction))
        ensures
            fails_with(r.0, r.1, error@),
            self.same_probe(r.0),
    {
        (
            BedrockProbe {
                stage: BedrockStage::Finished,
                host: self.host,
                port: self.port,
                timeout: self.timeout,
                tries: self.tries,
                wait: self.wait,
                candidates: self.candidates,
                remote: self.remote,
                answer: None,
            },
            BedrockAction::Finish(Err(error)),
        )
    }

    fn advance(self, stage: BedrockStage, action: BedrockAction) -> (r: (
        BedrockProbe,
        BedrockAction,
    ))
        requires
            match stage {
                BedrockStage::Binding(index) => index < self.candidates().len() && self.remote()
                    is Some,
                BedrockStage::Connecting => self.remote() is Some,
                BedrockStage::Pinging(sent) => sent < self.tries(),
                BedrockStage::Pausing(sent) => 0 < sent <= self.tries(),
                BedrockStage::Measuring => self.answer() is Some,
                _ => true,
            },
        ensures
            moves_to(self, r.0, stage),
            self.same_probe(r.0),
            r.1 == action,
    {
        (
            BedrockProbe {
                stage,
                host: self.host,
                port: self.port,
                timeout: self.timeout,
                tries: self.tries,
                wait: self.wait,
                candidates: self.candidates,
                remote: self.remote,
                answer: self.answer,
            },
            action,
        )
    }

    fn begin_binding(self, ip: IpAddress) -> (r: (BedrockProbe, BedrockAction))
        ensures
            begins_binding(self, ip, r.0, r.1),
            self.same_probe(r.0),
    {
        if self.candidates.len() > 0 {
            let first = self.candidates[0];
            (
                BedrockProbe {
                    stage: BedrockStage::Binding(0),
                    host: self.host,
                    port: self.port,
                    timeout: self.timeout,
                    tries: self.tries,
                    wait: self.wait,
                    candidates: self.candidates,
                    remote: Some(ip),
                    answer: self.answer,
                },
                BedrockAction::Bind(first),
            )
        } else {
            self.finish(Error::Io("could not resolve to any address".to_owned()))
        }
    }

    fn ping_on(self, sent: usize) -> (r: (BedrockProbe, BedrockAction))
        requires
            sent <= self.tries(),
        ensures
            pings_on(self, sent as int, r.0, r.1),
            self.same_probe(r.0),
    {
        if sent < self.tries {
            match Packet::UnconnectedPing.encode() {
                Ok(bytes) => self.advance(BedrockStage::Pinging(sent), BedrockAction::Send(bytes)),
                Err(e) => self.finish(e),
            }
        } else {
            self.advance(BedrockStage::Receiving, BedrockAction::Receive(RECEIVE_BUFFER_LEN))
        }
    }

    /// Begins a probe of the server that `config` names.
    pub fn start(config: Bedrock) -> (r: (BedrockProbe, BedrockAction))
        ensures
            bedrock_start(config, r.0, r.1),
    {
        match parse_address(config.server_address.as_str(), DEFAULT_PORT) {
            Ok((host, port)) => {
                let asked = host.clone();
                (
                    BedrockProbe {
                        stage: BedrockStage::Classifying,
                        host,
                        port,
                        timeout: config.timeout,
                        tries: config.tries,
                        wait: config.wait_to_try,
                        candidates: config.socket_addresses,
                        remote: None,
                        answer: None,
                    },
                    BedrockAction::Classify(asked),
                )
            },
            Err(e) => (
                BedrockProbe {
                    stage: BedrockStage::Finished,
                    host: String::new(),
                    port: DEFAULT_PORT,
                    timeout: config.timeout,
                    tries: config.tries,
                    wait: config.wait_to_try,
                    candidates: config.socket_addresses,
                    remote: None,
                    answer: None,
                },
                BedrockAction::Finish(Err(e)),
            ),
        }
    }

    /// Takes one step: given what happened, says what to do next.
    pub fn step(self, event: BedrockEvent) -> (r: (BedrockProbe, BedrockAction))
        ensures
            bedrock_step(self, event, r.0, r.1),
    {
        proof {
            use_type_invariant(&self);
        }
        match self.stage {
            BedrockStage::Finished => {
                return self.finish(Error::Io("unexpected event".to_owned()));
            },
            _ => {},
        }
        match event {
            BedrockEvent::Deadline => {
                return self.finish(Error::TimedOut);
            },
            BedrockEvent::Failed(e) => {
                return self.finish(e);
            },
            _ => {},
        }
        match (self.stage, event) {
            (BedrockStage::Classifying, BedrockEvent::Literal(Some(ip))) => self.begin_binding(ip),
            (BedrockStage::Classifying, BedrockEvent::Literal(None)) => {
                let name = self.host.clone();
                self.advance(BedrockStage::AskingIp, BedrockAction::LookupIp(name))
            },
            (BedrockStage::AskingIp, BedrockEvent::Ip(Some(ip))) => self.begin_binding(ip),
            (BedrockStage::AskingIp, BedrockEvent::Ip(None)) => self.finish(
                Error::DnsLookupFailed,
            ),
            (BedrockStage::Binding(_), BedrockEvent::Bound) => {
                match self.remote {
                    Some(ip) => {
                        let action = BedrockAction::Connect {
                            ip,
                            port: self.port,
                            timeout: self.timeout,
                        };
                        self.advance(BedrockStage::Connecting, action)
                    },
                    None => self.finish(Error::DnsLookupFailed),
                }
            },
            (BedrockStage::Binding(index), BedrockEvent::BindFailed(why)) => {
                let count = self.candidates.len();
                if index + 1 < count {
                    let next = self.candidates[index + 1];
                    self.advance(BedrockStage::Binding(index + 1), BedrockAction::Bind(next))
                } else {
                    self.finish(Error::Io(why))
                }
            },
            (BedrockStage::Connecting, BedrockEvent::Connected) => self.ping_on(0),
            (BedrockStage::Pinging(sent), BedrockEvent::Sent) => {
                match self.wait {
                    Some(wait) => self.advance(
                        BedrockStage::Pausing(sent + 1),
                        BedrockAction::Pause(wait),
                    ),
                    None => self.ping_on(sent + 1),
                }
            },
            (BedrockStage::Pausing(sent), BedrockEvent::Paused) => self.ping_on(sent),
            (BedrockStage::Receiving, BedrockEvent::Datagram(bytes)) => {
                match Packet::decode(bytes.as_slice()) {
                    Ok(packet) => match packet.into_response() {
                        Ok(answer) => (
                            BedrockProbe {
                                stage: BedrockStage::Measuring,
                                host: self.host,
                                port: self.port,
                                timeout: self.timeout,
                                tries: self.tries,
                                wait: self.wait,
                                candidates: self.candidates,
                                remote: self.remote,
                                answer: Some(answer),
                            },
                            BedrockAction::Measure,
                        ),
                        Err(e) => self.finish(e),
                    },
                    Err(e) => self.finish(e),
                }
            },
            (BedrockStage::Measuring, BedrockEvent::Elapsed(latency)) => {
                match self.answer {
                    Some(answer) => (
                        BedrockProbe {
                            stage: BedrockStage::Finished,
                            host: self.host,
                            port: self.port,
                            timeout: self.timeout,
                            tries: self.tries,
                            wait: self.wait,
                            candidates: self.candidates,
                            remote: self.remote,
                            answer: None,
                        },
                        BedrockAction::Finish(Ok((latency, answer))),
                    ),
                    None => self.finish(Error::InvalidPacket),
                }
            },
            _ => self.finish(Error::Io("unexpected event".to_owned())),
        }
    }
}

/// When the time allowed for a probe runs out, the probe ends as timed out,
/// whatever it was waiting for.
pub proof fn lemma_deadline_ends_probe(pre: BedrockProbe, post: BedrockProbe, action: BedrockAction)
    requires
        pre.stage() != BedrockStage::Finished,
        bedrock_step(pre, BedrockEvent::Deadline, post, action),
    ensures
        post.stage() == BedrockStage::Finished,
        action matches BedrockAction::Finish(Err(e)) && e@ == ErrorView::TimedOut,
{
}

/// A pong whose text has fewer than four fields ends the probe with the
/// failure `Invalid Payload`.
pub proof fn lemma_short_payload_refused(
    pre: BedrockProbe,
    bytes: Vec<u8>,
    time: u64,
    server_id: u64,
    payload: Seq<char>,
    post: BedrockProbe,
    action: BedrockAction,
)
    requires
        pre.stage() == BedrockStage::Receiving,
        decode_pong(bytes@) == Ok::<PacketView, ErrorView>(
            PacketView::UnconnectedPong { time, server_id, payload },
        ),
        crate::text::split(payload, ';').len() < 4,
        bedrock_step(pre, BedrockEvent::Datagram(bytes), post, action),
    ensures
        post.stage() == BedrockStage::Finished,
        action matches BedrockAction::Finish(Err(e)) && e@ == ErrorView::Io(
            crate::bedrock::invalid_payload_text(),
        ),
{
}

/// The datagram is read only once every ping is out: a step that asks for
/// the read comes after the last ping or its pause.
pub proof fn lemma_read_follows_last_ping(
    pre: BedrockProbe,
    event: BedrockEvent,
    post: BedrockProbe,
    action: BedrockAction,
)
    requires
        bedrock_step(pre, event, post, action),
        action is Receive,
    ensures
        match pre.stage() {
            BedrockStage::Connecting => pre.tries() == 0,
            BedrockStage::Pinging(sent) => sent + 1 >= pre.tries() && pre.wait() is None,
            BedrockStage::Pausing(sent) => sent >= pre.tries(),
            _ => false,
        },
{
}

} // verus!
