//! The Java Edition status exchange: its packets and its answer.
//!
//! Every packet travels as a variable-length integer that gives the length of
//! what follows, then a variable-length packet id, then the payload. Text is a
//! variable-length byte count followed by UTF-8.

use crate::varint::{
    decode_varint, encode_varint, lemma_varint_round_trip, read_varint, write_varint, VarIntReader,
    VarIntStep,
};
use crate::wire::{
    be_bytes, behind, extend, lemma_be_len, lemma_be_round_trip, lemma_pow256_values, parse_be,
    parse_exact, read_exact, read_u64, string_from_utf8, write_u16, write_u64,
};
use crate::{Error, ErrorView};
use vstd::prelude::*;
use vstd::string::*;
use vstd::utf8::{decode_utf8, encode_utf8, valid_utf8};

verus! {

/// The port a Java Edition server listens on unless told otherwise.
pub const DEFAULT_PORT: u16 = 25565;

/// The protocol version announced in the handshake.
pub const HANDSHAKE_VERSION: i32 = 47;

/// The state asked for in the handshake: status.
pub const STATUS_STATE: i32 = 1;

/// What to probe, and how long to wait for the socket.
#[derive(Debug, Clone, PartialEq, Eq, Hash)]
pub struct Java {
    /// A host name or an address literal, with `:port` after it or without.
    pub server_address: String,
    /// How long a read or a write may take, in milliseconds.
    pub timeout: Option<u64>,
}

/// One mod of a Forge server.
#[derive(Debug, Clone, PartialEq, Eq)]
pub struct ForgeModMetadata {
    pub modid: String,
    pub version: String,
}

/// The mods of a Forge server.
#[derive(Debug, Clone, PartialEq, Eq)]
pub struct ForgeModInfoList {
    pub mod_list: Vec<ForgeModMetadata>,
}

/// What a modded server says about its mods.
#[derive(Debug, Clone, PartialEq, Eq)]
pub enum ModInfo {
    Fml(ForgeModInfoList),
}

/// The version a server runs.
#[derive(Debug, Clone, PartialEq, Eq)]
pub struct Version {
    /// The version's name, in whatever form the server chose.
    pub name: String,
    /// The protocol number.
    pub protocol: i64,
}

/// A player who is online.
#[derive(Debug, Clone, PartialEq, Eq)]
pub struct Player {
    pub name: String,
    /// The player's UUID.
    pub id: String,
}

/// How many players there are and may be.
#[derive(Debug, Clone, PartialEq, Eq)]
pub struct Players {
    pub max: i64,
    pub online: i64,
    /// Some of the players who are online, if the server names any.
    pub sample: Option<Vec<Player>>,
}

/// A server's description: an object with a `text` member, or bare text.
#[derive(Debug, Clone, PartialEq, Eq)]
pub enum Chat {
    Text { text: String },
    String(String),
}

/// A server's answer to a status request.
#[derive(Debug, Clone, PartialEq, Eq)]
pub struct JavaResponse {
    pub version: Version,
    pub players: Players,
    /// The message of the day.
    pub description: Chat,
    /// The server's icon as a data URL.
    pub favicon: Option<String>,
    pub modinfo: Option<ModInfo>,
    /// Whether chat messages must be signed.
    pub enforces_secure_chat: Option<bool>,
    /// Whether the server previews chat.
    pub previews_chat: Option<bool>,
}

pub struct VersionView {
    pub name: Seq<char>,
    pub protocol: i64,
}

pub struct PlayerView {
    pub name: Seq<char>,
    pub id: Seq<char>,
}

pub struct PlayersView {
    pub max: i64,
    pub online: i64,
    pub sample: Option<Seq<PlayerView>>,
}

pub struct JavaResponseView {
    pub version: VersionView,
    pub players: PlayersView,
    /// The description, flattened to its text.
    pub description: Seq<char>,
    pub favicon: Option<Seq<char>>,
    pub enforces_secure_chat: Option<bool>,
    pub previews_chat: Option<bool>,
}

impl View for Version {
    type V = VersionView;

    open spec fn view(&self) -> VersionView {
        VersionView { name: self.name@, protocol: self.protocol }
    }
}

impl DeepView for Player {
    type V = PlayerView;

    open spec fn deep_view(&self) -> PlayerView {
        PlayerView { name: self.name@, id: self.id@ }
    }
}

impl View for Player {
    type V = PlayerView;

    open spec fn view(&self) -> PlayerView {
        self.deep_view()
    }
}

impl View for Players {
    type V = PlayersView;

    open spec fn view(&self) -> PlayersView {
        PlayersView { max: self.max, online: self.online, sample: self.sample.deep_view() }
    }
}

impl View for Chat {
    type V = Seq<char>;

    /// The text of the description, whichever form it came in.
    open spec fn view(&self) -> Seq<char> {
        match self {
            Chat::Text { text } => text@,
            Chat::String(text) => text@,
        }
    }
}

impl View for JavaResponse {
    type V = JavaResponseView;

    open spec fn view(&self) -> JavaResponseView {
        JavaResponseView {
            version: self.version@,
            players: self.players@,
            description: self.description@,
            favicon: self.favicon.deep_view(),
            enforces_secure_chat: self.enforces_secure_chat,
            previews_chat: self.previews_chat,
        }
    }
}

impl Chat {
    /// The text of the description.
    #[must_use]
    pub fn text(&self) -> (text: &str)
        ensures
            text@ == self@,
    {
        match self {
            Chat::Text { text } => text.as_str(),
            Chat::String(s) => s.as_str(),
        }
    }
}

/// A packet of the status exchange.
#[derive(Debug, Clone, PartialEq, Eq)]
pub enum Packet {
    /// Opens the exchange. Sent by the client.
    Handshake { version: i32, host: String, port: u16, next_state: i32 },
    /// The status document. Sent by the server.
    Response { response: String },
    /// The answer to a ping. Sent by the server.
    Pong { payload: u64 },
    /// Asks for the status document. Sent by the client.
    Request {  },
    /// Asks for an echo of the payload. Sent by the client.
    Ping { payload: u64 },
}

/// A packet that was not expected where it arrived.
#[derive(Debug, Clone, PartialEq, Eq)]
pub struct InvalidPacket {
    pub packet: Packet,
}

pub enum PacketView {
    Handshake { version: i32, host: Seq<char>, port: u16, next_state: i32 },
    Response { response: Seq<char> },
    Pong { payload: u64 },
    Request,
    Ping { payload: u64 },
}

impl View for Packet {
    type V = PacketView;

    open spec fn view(&self) -> PacketView {
        match self {
            Packet::Handshake { version, host, port, next_state } => PacketView::Handshake {
                version: *version,
                host: host@,
                port: *port,
                next_state: *next_state,
            },
            Packet::Response { response } => PacketView::Response { response: response@ },
            Packet::Pong { payload } => PacketView::Pong { payload: *payload },
            Packet::Request {  } => PacketView::Request,
            Packet::Ping { payload } => PacketView::Ping { payload: *payload },
        }
    }
}

/// The text of the error for bytes that are no UTF-8.
pub open spec fn bad_utf8_text() -> Seq<char> {
    "Bad UTF-8 in Netty string"@
}

/// The wire form of `text`: its length in bytes, then its bytes. Text of more
/// than `i32::MAX` bytes has none.
pub open spec fn encode_string(text: Seq<char>) -> Result<Seq<u8>, ErrorView> {
    let bytes = encode_utf8(text);
    if bytes.len() > i32::MAX {
        Err(ErrorView::InvalidFraming)
    } else {
        Ok(encode_varint(bytes.len() as i32) + bytes)
    }
}

/// What reading text from the front of `bytes` gives: the text and the number
/// of bytes it took.
///
/// A length that is zero or negative is refused: no answer that matters is
/// empty.
pub open spec fn decode_string(bytes: Seq<u8>) -> Result<(Seq<char>, nat), ErrorView> {
    match decode_varint(bytes) {
        Err(e) => Err(e),
        Ok((len, taken)) => {
            if len <= 0 {
                Err(ErrorView::InvalidFraming)
            } else {
                match parse_exact(bytes.skip(taken as int), len as nat) {
                    Err(e) => Err(e),
                    Ok(body) => {
                        if valid_utf8(body) {
                            Ok((decode_utf8(body), (taken + len) as nat))
                        } else {
                            Err(ErrorView::Io(bad_utf8_text()))
                        }
                    },
                }
            }
        },
    }
}

/// The payload of a packet behind its id, for the packets a client sends.
pub open spec fn packet_body(packet: PacketView) -> Result<Seq<u8>, ErrorView> {
    match packet {
        PacketView::Handshake { version, host, port, next_state } => match encode_string(host) {
            Err(e) => Err(e),
            Ok(text) => Ok(
                encode_varint(0) + encode_varint(version) + text + be_bytes(port as nat, 2)
                    + encode_varint(next_state),
            ),
        },
        PacketView::Request => Ok(encode_varint(0)),
        PacketView::Ping { payload } => Ok(encode_varint(1) + be_bytes(payload as nat, 8)),
        _ => Err(ErrorView::InvalidPacket),
    }
}

/// `body` behind its length.
pub open spec fn frame(body: Seq<u8>) -> Result<Seq<u8>, ErrorView> {
    if body.len() > i32::MAX {
        Err(ErrorView::InvalidVarInt)
    } else {
        Ok(encode_varint(body.len() as i32) + body)
    }
}

/// The bytes that carry `packet` to a server.
pub open spec fn encode_packet(packet: PacketView) -> Result<Seq<u8>, ErrorView> {
    match packet_body(packet) {
        Err(e) => Err(e),
        Ok(body) => frame(body),
    }
}

/// The packet that `body` holds, for the packets a server sends. `body` is
/// what follows the length; bytes after the packet are ignored.
pub open spec fn decode_packet(body: Seq<u8>) -> Result<PacketView, ErrorView> {
    match decode_varint(body) {
        Err(e) => Err(e),
        Ok((id, taken)) => {
            let payload = body.skip(taken as int);
            if id == 0 {
                match decode_string(payload) {
                    Err(e) => Err(e),
                    Ok((response, _)) => Ok(PacketView::Response { response }),
                }
            } else if id == 1 {
                match parse_be(payload, 8) {
                    Err(e) => Err(e),
                    Ok((value, _)) => Ok(PacketView::Pong { payload: value as u64 }),
                }
            } else {
                Err(ErrorView::InvalidPacket)
            }
        },
    }
}

/// How many bytes follow a length prefix of `value`.
pub open spec fn frame_len(value: i32) -> Result<usize, ErrorView> {
    if value < 0 {
        Err(ErrorView::InvalidVarInt)
    } else {
        Ok(value as usize)
    }
}

/// Appends the wire form of `text` to `buf`. Where the text is too long,
/// `buf` stays as it was.
pub fn write_string(buf: &mut Vec<u8>, text: &str) -> (r: Result<(), Error>)
    ensures
        match encode_string(text@) {
            Ok(bytes) => r is Ok && final(buf)@ == old(buf)@ + bytes,
            Err(e) => r matches Err(f) && f@ == e && final(buf)@ == old(buf)@,
        },
{
    let bytes = text.as_bytes();
    if bytes.len() > i32::MAX as usize {
        return Err(Error::InvalidFraming);
    }
    write_varint(buf, bytes.len() as i32);
    extend(buf, bytes);
    assert(buf@ =~= old(buf)@ + (encode_varint(bytes@.len() as i32) + bytes@));
    Ok(())
}

/// Reads the text that starts at `buf[pos]`.
pub fn read_string(buf: &[u8], pos: usize) -> (r: Result<(String, usize), Error>)
    ensures
        match decode_string(behind(buf@, pos as int)) {
            Ok((text, taken)) => r matches Ok((t, next)) && t@ == text && next == pos + taken,
            Err(e) => r matches Err(f) && f@ == e,
        },
{
    let (len, start) = read_varint(buf, pos)?;
    if len <= 0 {
        return Err(Error::InvalidFraming);
    }
    assert(behind(buf@, pos as int).skip(start - pos) =~= behind(buf@, start as int));
    let (body, next) = read_exact(buf, start, len as usize)?;
    match string_from_utf8(body) {
        Some(text) => Ok((text, next)),
        None => Err(Error::Io("Bad UTF-8 in Netty string".to_owned())),
    }
}

/// How many bytes to read after a length prefix of `value`.
pub fn frame_length(value: i32) -> (r: Result<usize, Error>)
    ensures
        match frame_len(value) {
            Ok(len) => r == Ok::<usize, Error>(len),
            Err(e) => r matches Err(f) && f@ == e,
        },
{
    if value < 0 {
        Err(Error::InvalidVarInt)
    } else {
        Ok(value as usize)
    }
}

/// Reads the length in front of a packet a byte at a time.
pub struct FrameReader {
    length: VarIntReader,
}

/// Where a [`FrameReader`] stands after one more byte.
pub enum FrameStep {
    /// The length goes on: hand the next byte to this reader.
    More(FrameReader),
    /// The length is complete: this many bytes of packet follow.
    Body(usize),
    /// The length is no length.
    Failed(Error),
}

impl FrameReader {
    /// The bytes taken so far.
    pub closed spec fn consumed(self) -> Seq<u8> {
        self.length.consumed()
    }

    /// A reader that has taken nothing.
    pub fn new() -> (reader: Self)
        ensures
            reader.consumed() == Seq::<u8>::empty(),
    {
        FrameReader { length: VarIntReader::new() }
    }

    /// Takes `byte` as the next byte of the length.
    ///
    /// The outcome is what the bytes taken so far say, `byte` included: a
    /// length that is not negative, a failure, or the need for more.
    pub fn push(self, byte: u8) -> (step: FrameStep)
        ensures
            match decode_varint(self.consumed().push(byte)) {
                Ok((value, _)) => match frame_len(value) {
                    Ok(len) => step == FrameStep::Body(len),
                    Err(e) => step matches FrameStep::Failed(f) && f@ == e,
                },
                Err(ErrorView::InvalidVarInt) => step matches FrameStep::Failed(f) && f@
                    == ErrorView::InvalidVarInt,
                Err(_) => step matches FrameStep::More(next) && next.consumed()
                    == self.consumed().push(byte),
            },
    {
        match self.length.push(byte) {
            VarIntStep::More(length) => FrameStep::More(FrameReader { length }),
            VarIntStep::Done(value) => match frame_length(value) {
                Ok(len) => FrameStep::Body(len),
                Err(e) => FrameStep::Failed(e),
            },
            VarIntStep::TooLong => FrameStep::Failed(Error::InvalidVarInt),
        }
    }
}

impl Packet {
    /// The bytes that carry this packet to a server: the length, the id and
    /// the payload. Only a handshake, a request and a ping can be sent.
    pub fn encode(&self) -> (r: Result<Vec<u8>, Error>)
        ensures
            match encode_packet(self@) {
                Ok(bytes) => r matches Ok(out) && out@ == bytes,
                Err(e) => r matches Err(f) && f@ == e,
            },
    {
        let mut body: Vec<u8> = Vec::new();
        match self {
            Packet::Handshake { version, host, port, next_state } => {
                write_varint(&mut body, 0);
                write_varint(&mut body, *version);
                write_string(&mut body, host.as_str())?;
                write_u16(&mut body, *port);
                write_varint(&mut body, *next_state);
                assert(body@ =~= packet_body(self@)->Ok_0);
            },
            Packet::Request {  } => {
                write_varint(&mut body, 0);
                assert(body@ =~= packet_body(self@)->Ok_0);
            },
            Packet::Ping { payload } => {
                write_varint(&mut body, 1);
                write_u64(&mut body, *payload);
                assert(body@ =~= packet_body(self@)->Ok_0);
            },
            _ => {
                return Err(Error::InvalidPacket);
            },
        }
        if body.len() > i32::MAX as usize {
            return Err(Error::InvalidVarInt);
        }
        let mut out: Vec<u8> = Vec::new();
        write_varint(&mut out, body.len() as i32);
        extend(&mut out, body.as_slice());
        assert(out@ =~= encode_varint(body@.len() as i32) + body@);
        Ok(out)
    }

    /// The packet that a server sent in `body`, the bytes after the length.
    pub fn decode(body: &[u8]) -> (r: Result<Packet, Error>)
        ensures
            match decode_packet(body@) {
                Ok(packet) => r matches Ok(p) && p@ == packet,
                Err(e) => r matches Err(f) && f@ == e,
            },
    {
        assert(behind(body@, 0) =~= body@);
        let (id, at) = read_varint(body, 0)?;
        assert(body@.skip(at as int) =~= behind(body@, at as int));
        if id == 0 {
            let (response, _) = read_string(body, at)?;
            Ok(Packet::Response { response })
        } else if id == 1 {
            let (payload, _) = read_u64(body, at)?;
            Ok(Packet::Pong { payload })
        } else {
            Err(Error::InvalidPacket)
        }
    }
}

/// Text that was written is read back unchanged, unless it is empty or too
/// long to be written.
pub proof fn lemma_string_round_trip(text: Seq<char>, tail: Seq<u8>)
    requires
        text.len() > 0,
        encode_utf8(text).len() <= i32::MAX,
    ensures
        encode_string(text) matches Ok(bytes) && decode_string(bytes + tail) == Ok::<
            (Seq<char>, nat),
            ErrorView,
        >((text, bytes.len())),
{
    broadcast use {vstd::utf8::encode_utf8_valid_utf8, vstd::utf8::encode_utf8_decode_utf8};

    let body = encode_utf8(text);
    let len = body.len() as i32;
    let prefix = encode_varint(len);
    let bytes = prefix + body;
    assert(body.len() > 0) by {
        assert(body =~= vstd::utf8::encode_scalar(text[0] as u32) + encode_utf8(
            text.drop_first(),
        ));
    }
    assert(bytes + tail =~= prefix + (body + tail));
    lemma_varint_round_trip(len, body + tail);
    assert((bytes + tail).skip(prefix.len() as int) =~= body + tail);
    assert((body + tail).take(body.len() as int) =~= body);
}

/// A length prefix of zero is refused.
pub proof fn lemma_empty_string_refused(tail: Seq<u8>)
    ensures
        decode_string(encode_varint(0) + tail) == Err::<(Seq<char>, nat), ErrorView>(
            ErrorView::InvalidFraming,
        ),
{
    lemma_varint_round_trip(0, tail);
}

/// A server that echoes a ping's payload is understood: the bytes behind the
/// length of a ping, read as a server's packet, are a pong with the payload.
pub proof fn lemma_ping_echo(payload: u64, tail: Seq<u8>)
    ensures
        packet_body(PacketView::Ping { payload }) matches Ok(body) && decode_packet(body + tail)
            == Ok::<PacketView, ErrorView>(PacketView::Pong { payload }),
{
    let id = encode_varint(1);
    let field = be_bytes(payload as nat, 8);
    let body = id + field;
    lemma_pow256_values();
    lemma_be_round_trip(payload as nat, 8);
    assert(body + tail =~= id + (field + tail));
    lemma_varint_round_trip(1, field + tail);
    assert((body + tail).skip(id.len() as int) =~= field + tail);
    assert((field + tail).take(8) =~= field);
}

/// What is put behind its length is found there again: the length that is
/// read is the length of the body, and the body follows it.
pub proof fn lemma_frame_round_trip(body: Seq<u8>, tail: Seq<u8>)
    requires
        body.len() <= i32::MAX,
    ensures
        frame(body) matches Ok(bytes) && decode_varint(bytes + tail) matches Ok((len, taken))
            && frame_len(len) == Ok::<usize, ErrorView>(body.len() as usize) && (bytes
            + tail).subrange(taken as int, (taken + body.len()) as int) == body,
{
    let prefix = encode_varint(body.len() as i32);
    let bytes = prefix + body;
    assert(bytes + tail =~= prefix + (body + tail));
    lemma_varint_round_trip(body.len() as i32, body + tail);
    assert((bytes + tail).subrange(prefix.len() as int, (prefix.len() + body.len()) as int) =~= body);
}

/// A request and a ping can always be sent: they are short.
pub proof fn lemma_short_packets(payload: u64)
    ensures
        encode_packet(PacketView::Request) is Ok,
        encode_packet(PacketView::Ping { payload }) is Ok,
{
    lemma_varint_round_trip(0, Seq::empty());
    lemma_varint_round_trip(1, Seq::empty());
    lemma_be_len(payload as nat, 8);
}

} // verus!
