//! The Bedrock Edition status exchange: RakNet's unconnected ping and pong.
//!
//! Both are datagrams of fixed layout. A pong ends in a text of fields
//! separated by semicolons.

use crate::address::{IpAddress, SocketAddress};
use crate::text::{
    chars_of, field_bounds, parse_i64, parse_i64_in, parse_u16, parse_u16_in, slice_of, spanned,
    split, within,
};
use crate::wire::{
    be_bytes, be_value, behind, extend, lemma_be_len, lemma_be_round_trip, lemma_pow256_values, read_exact, read_u16, read_u64, read_u8,
    string_from_utf8, write_u64,
};
use crate::{truncated, Error, ErrorView};
use vstd::prelude::*;
use vstd::string::*;
use vstd::utf8::{decode_utf8, encode_utf8, valid_utf8};

verus! {

/// The port a Bedrock Edition server listens on unless told otherwise.
pub const DEFAULT_PORT: u16 = 19132;

/// The first byte of an unconnected ping.
pub const PING_ID: u8 = 0x01;

/// The first byte of an unconnected pong.
pub const PONG_ID: u8 = 0x1c;

/// The largest datagram that is read.
pub const RECEIVE_BUFFER_LEN: usize = 1024;

/// The sixteen bytes that mark an offline RakNet message.
pub const OFFLINE_MESSAGE_DATA_ID: [u8; 16] = [
    0x00,
    0xff,
    0xff,
    0x00,
    0xfe,
    0xfe,
    0xfe,
    0xfe,
    0xfd,
    0xfd,
    0xfd,
    0xfd,
    0x12,
    0x34,
    0x56,
    0x78,
];

/// The sixteen bytes that mark an offline RakNet message.
pub open spec fn magic() -> Seq<u8> {
    seq![
        0x00u8,
        0xffu8,
        0xffu8,
        0x00u8,
        0xfeu8,
        0xfeu8,
        0xfeu8,
        0xfeu8,
        0xfdu8,
        0xfdu8,
        0xfdu8,
        0xfdu8,
        0x12u8,
        0x34u8,
        0x56u8,
        0x78u8,
    ]
}

/// What to probe and how.
#[derive(Debug, Clone, PartialEq, Eq, Hash)]
pub struct Bedrock {
    /// A host name or an address literal, with `:port` after it or without.
    pub server_address: String,
    /// How long a read or a write may take, in milliseconds.
    pub timeout: Option<u64>,
    /// How many pings to send. Datagrams get lost; more than one may be sent.
    pub tries: usize,
    /// How long to wait after each ping, in milliseconds.
    pub wait_to_try: Option<u64>,
    /// The local addresses to try to bind, in this order.
    pub socket_addresses: Vec<SocketAddress>,
}

/// The unspecified IPv4 address with `port`.
pub open spec fn any_v4(port: u16) -> SocketAddress {
    SocketAddress { ip: IpAddress::V4([0u8, 0u8, 0u8, 0u8]), port }
}

/// The local addresses that are tried where the caller names none: the
/// unspecified address with ports 25567, 25568 and 25569.
pub open spec fn usual_bind_addresses() -> Seq<SocketAddress> {
    seq![any_v4(25567), any_v4(25568), any_v4(25569)]
}

impl Default for Bedrock {
    /// Five pings ten milliseconds apart, no address, no timeout, and the
    /// unspecified address with ports 25567 to 25569 to bind.
    fn default() -> (config: Self)
        ensures
            config.server_address@ == Seq::<char>::empty(),
            config.timeout == None::<u64>,
            config.tries == 5,
            config.wait_to_try == Some(10u64),
            config.socket_addresses@ == usual_bind_addresses(),
    {
        let mut socket_addresses: Vec<SocketAddress> = Vec::new();
        socket_addresses.push(SocketAddress { ip: IpAddress::V4([0, 0, 0, 0]), port: 25567 });
        socket_addresses.push(SocketAddress { ip: IpAddress::V4([0, 0, 0, 0]), port: 25568 });
        socket_addresses.push(SocketAddress { ip: IpAddress::V4([0, 0, 0, 0]), port: 25569 });
        proof {
            assert(socket_addresses@ =~= usual_bind_addresses());
        }
        Bedrock {
            server_address: String::new(),
            timeout: None,
            tries: 5,
            wait_to_try: Some(10),
            socket_addresses,
        }
    }
}

/// The edition a Bedrock server announces.
#[derive(Debug, Clone, PartialEq, Eq, Hash)]
pub enum BedrockEdition {
    PocketEdition,
    EducationEdition,
    /// An edition that is neither of the two.
    Other(String),
}

pub enum BedrockEditionView {
    PocketEdition,
    EducationEdition,
    Other(Seq<char>),
}

impl View for BedrockEdition {
    type V = BedrockEditionView;

    open spec fn view(&self) -> BedrockEditionView {
        match self {
            BedrockEdition::PocketEdition => BedrockEditionView::PocketEdition,
            BedrockEdition::EducationEdition => BedrockEditionView::EducationEdition,
            BedrockEdition::Other(tag) => BedrockEditionView::Other(tag@),
        }
    }
}

/// Whether `c` is the letter given in lower and in upper case.
pub open spec fn is_letter(c: char, lower: char, upper: char) -> bool {
    c == lower || c == upper
}

/// Whether `tag` is `MCPE` in any mix of cases.
pub open spec fn is_pocket_tag(tag: Seq<char>) -> bool {
    &&& tag.len() == 4
    &&& is_letter(tag[0], 'm', 'M')
    &&& is_letter(tag[1], 'c', 'C')
    &&& is_letter(tag[2], 'p', 'P')
    &&& is_letter(tag[3], 'e', 'E')
}

/// Whether `tag` is `MCEE` in any mix of cases.
pub open spec fn is_education_tag(tag: Seq<char>) -> bool {
    &&& tag.len() == 4
    &&& is_letter(tag[0], 'm', 'M')
    &&& is_letter(tag[1], 'c', 'C')
    &&& is_letter(tag[2], 'e', 'E')
    &&& is_letter(tag[3], 'e', 'E')
}

/// The edition that `tag` names.
pub open spec fn edition_of(tag: Seq<char>) -> BedrockEditionView {
    if is_pocket_tag(tag) {
        BedrockEditionView::PocketEdition
    } else if is_education_tag(tag) {
        BedrockEditionView::EducationEdition
    } else {
        BedrockEditionView::Other(tag)
    }
}

fn same_letter(c: char, lower: char, upper: char) -> (same: bool)
    ensures
        same == is_letter(c, lower, upper),
{
    c == lower || c == upper
}

impl BedrockEdition {
    /// The tag of this edition: `MCPE`, `MCEE`, or the tag that was kept.
    pub fn to_string(&self) -> (tag: String)
        ensures
            tag@ == match self@ {
                BedrockEditionView::PocketEdition => "MCPE"@,
                BedrockEditionView::EducationEdition => "MCEE"@,
                BedrockEditionView::Other(kept) => kept,
            },
    {
        match self {
            BedrockEdition::PocketEdition => "MCPE".to_owned(),
            BedrockEdition::EducationEdition => "MCEE".to_owned(),
            BedrockEdition::Other(kept) => kept.clone(),
        }
    }
}

impl vstd::std_specs::convert::FromSpecImpl<String> for BedrockEdition {
    open spec fn obeys_from_spec() -> bool {
        true
    }

    open spec fn from_spec(edition: String) -> Self {
        if is_pocket_tag(edition@) {
            BedrockEdition::PocketEdition
        } else if is_education_tag(edition@) {
            BedrockEdition::EducationEdition
        } else {
            BedrockEdition::Other(edition)
        }
    }
}

impl From<String> for BedrockEdition {
    /// The edition that `edition` names: `MCPE` and `MCEE` in any mix of
    /// cases are the two known editions, every other tag is kept as it is.
    fn from(edition: String) -> (r: Self)
        ensures
            r@ == edition_of(edition@),
    {
        let chars = chars_of(edition.as_str());
        if chars.len() == 4 && same_letter(chars[0], 'm', 'M') && same_letter(chars[1], 'c', 'C') {
            if same_letter(chars[2], 'p', 'P') && same_letter(chars[3], 'e', 'E') {
                return BedrockEdition::PocketEdition;
            }
            if same_letter(chars[2], 'e', 'E') && same_letter(chars[3], 'e', 'E') {
                return BedrockEdition::EducationEdition;
            }
        }
        BedrockEdition::Other(edition)
    }
}

/// What a Bedrock server says about itself.
#[derive(Debug, Clone, PartialEq, Eq, Hash)]
pub struct BedrockResponse {
    pub edition: BedrockEdition,
    /// The first line of the message of the day.
    pub motd_1: String,
    /// The protocol number.
    pub protocol_version: Option<i64>,
    /// The version's name.
    pub version_name: String,
    pub players_online: Option<i64>,
    pub players_max: Option<i64>,
    /// The server's identifier.
    pub server_id: Option<i64>,
    /// The second line of the message of the day.
    pub motd_2: Option<String>,
    /// The game mode new players start in.
    pub game_mode: Option<String>,
    /// The number of that game mode.
    pub game_mode_id: Option<i64>,
    /// The port for IPv4.
    pub port_v4: Option<u16>,
    /// The port for IPv6.
    pub port_v6: Option<u16>,
}

pub struct BedrockResponseView {
    pub edition: BedrockEditionView,
    pub motd_1: Seq<char>,
    pub protocol_version: Option<i64>,
    pub version_name: Seq<char>,
    pub players_online: Option<i64>,
    pub players_max: Option<i64>,
    pub server_id: Option<i64>,
    pub motd_2: Option<Seq<char>>,
    pub game_mode: Option<Seq<char>>,
    pub game_mode_id: Option<i64>,
    pub port_v4: Option<u16>,
    pub port_v6: Option<u16>,
}

impl View for BedrockResponse {
    type V = BedrockResponseView;

    open spec fn view(&self) -> BedrockResponseView {
        BedrockResponseView {
            edition: self.edition@,
            motd_1: self.motd_1@,
            protocol_version: self.protocol_version,
            version_name: self.version_name@,
            players_online: self.players_online,
            players_max: self.players_max,
            server_id: self.server_id,
            motd_2: self.motd_2.deep_view(),
            game_mode: self.game_mode.deep_view(),
            game_mode_id: self.game_mode_id,
            port_v4: self.port_v4,
            port_v6: self.port_v6,
        }
    }
}

/// Field `k` of `parts`, where there is one.
pub open spec fn field(parts: Seq<Seq<char>>, k: int) -> Option<Seq<char>> {
    if 0 <= k < parts.len() {
        Some(parts[k])
    } else {
        None
    }
}

/// Field `k` of `parts` as a signed number, where there is one and it is one.
pub open spec fn field_i64(parts: Seq<Seq<char>>, k: int) -> Option<i64> {
    match field(parts, k) {
        Some(text) => parse_i64(text),
        None => None,
    }
}

/// Field `k` of `parts` as a port, where there is one and it is one.
pub open spec fn field_u16(parts: Seq<Seq<char>>, k: int) -> Option<u16> {
    match field(parts, k) {
        Some(text) => parse_u16(text),
        None => None,
    }
}

/// What a pong's text says, where it has the four fields that must be there:
/// the edition, the first line of the message, the protocol number and the
/// version's name. The other eight fields may be missing, and a number that
/// is none is left out.
pub open spec fn extract_fields(payload: Seq<char>) -> Option<BedrockResponseView> {
    let parts = split(payload, ';');
    if parts.len() < 4 {
        None
    } else {
        Some(
            BedrockResponseView {
                edition: edition_of(parts[0]),
                motd_1: parts[1],
                protocol_version: field_i64(parts, 2),
                version_name: parts[3],
                players_online: field_i64(parts, 4),
                players_max: field_i64(parts, 5),
                server_id: field_i64(parts, 6),
                motd_2: field(parts, 7),
                game_mode: field(parts, 8),
                game_mode_id: field_i64(parts, 9),
                port_v4: field_u16(parts, 10),
                port_v6: field_u16(parts, 11),
            },
        )
    }
}

fn text_at(payload: &str, chars: &[char], bounds: &Vec<(usize, usize)>, k: usize) -> (r: Option<
    String,
>)
    requires
        chars@ == payload@,
        fields_match(chars@, bounds@),
    ensures
        r.deep_view() == field(split(payload@, ';'), k as int),
{
    if k < bounds.len() {
        let bound = bounds[k];
        assert(within(bounds@[k as int], chars@.len()));
        Some(slice_of(payload, bound.0, bound.1))
    } else {
        None
    }
}

fn i64_at(chars: &[char], bounds: &Vec<(usize, usize)>, k: usize) -> (r: Option<i64>)
    requires
        fields_match(chars@, bounds@),
    ensures
        r == field_i64(split(chars@, ';'), k as int),
{
    if k < bounds.len() {
        let bound = bounds[k];
        assert(within(bounds@[k as int], chars@.len()));
        parse_i64_in(chars, bound.0, bound.1)
    } else {
        None
    }
}

fn u16_at(chars: &[char], bounds: &Vec<(usize, usize)>, k: usize) -> (r: Option<u16>)
    requires
        fields_match(chars@, bounds@),
    ensures
        r == field_u16(split(chars@, ';'), k as int),
{
    if k < bounds.len() {
        let bound = bounds[k];
        assert(within(bounds@[k as int], chars@.len()));
        parse_u16_in(chars, bound.0, bound.1)
    } else {
        None
    }
}

/// Whether `bounds` span the fields of `chars` between semicolons.
pub open spec fn fields_match(chars: Seq<char>, bounds: Seq<(usize, usize)>) -> bool {
    &&& bounds.len() == split(chars, ';').len()
    &&& forall|k: int|
        0 <= k < bounds.len() ==> within(#[trigger] bounds[k], chars.len()) && spanned(
            chars,
            bounds[k],
        ) == split(chars, ';')[k]
}

impl BedrockResponse {
    /// Reads a pong's text: fields separated by semicolons, in the order
    /// edition, first line of the message, protocol number, version name,
    /// players online, players at most, server identifier, second line of the
    /// message, game mode, number of the game mode, port for IPv4, port for
    /// IPv6.
    ///
    /// Gives nothing where fewer than four fields are there.
    pub fn extract(payload: &str) -> (r: Option<Self>)
        ensures
            r.deep_view() == extract_fields(payload@),
    {
        let chars = chars_of(payload);
        let bounds = field_bounds(chars.as_slice(), ';');
        if bounds.len() < 4 {
            return None;
        }
        let tag = text_at(payload, chars.as_slice(), &bounds, 0);
        let motd_1 = text_at(payload, chars.as_slice(), &bounds, 1);
        let version_name = text_at(payload, chars.as_slice(), &bounds, 3);
        match (tag, motd_1, version_name) {
            (Some(tag), Some(motd_1), Some(version_name)) => Some(
                BedrockResponse {
                    edition: BedrockEdition::from(tag),
                    motd_1,
                    protocol_version: i64_at(chars.as_slice(), &bounds, 2),
                    version_name,
                    players_online: i64_at(chars.as_slice(), &bounds, 4),
                    players_max: i64_at(chars.as_slice(), &bounds, 5),
                    server_id: i64_at(chars.as_slice(), &bounds, 6),
                    motd_2: text_at(payload, chars.as_slice(), &bounds, 7),
                    game_mode: text_at(payload, chars.as_slice(), &bounds, 8),
                    game_mode_id: i64_at(chars.as_slice(), &bounds, 9),
                    port_v4: u16_at(chars.as_slice(), &bounds, 10),
                    port_v6: u16_at(chars.as_slice(), &bounds, 11),
                },
            ),
            _ => None,
        }
    }
}

impl DeepView for BedrockResponse {
    type V = BedrockResponseView;

    open spec fn deep_view(&self) -> BedrockResponseView {
        self@
    }
}

/// A datagram of the exchange.
#[derive(Debug, Clone, PartialEq, Eq)]
pub enum Packet {
    /// Asks for a pong. Sent by the client.
    UnconnectedPing,
    /// The answer. Sent by the server.
    UnconnectedPong { time: u64, server_id: u64, payload: String },
}

pub enum PacketView {
    UnconnectedPing,
    UnconnectedPong { time: u64, server_id: u64, payload: Seq<char> },
}

impl View for Packet {
    type V = PacketView;

    open spec fn view(&self) -> PacketView {
        match self {
            Packet::UnconnectedPing => PacketView::UnconnectedPing,
            Packet::UnconnectedPong { time, server_id, payload } => PacketView::UnconnectedPong {
                time: *time,
                server_id: *server_id,
                payload: payload@,
            },
        }
    }
}

/// The text of the error for a packet that a client does not send.
pub open spec fn wrong_direction_text() -> Seq<char> {
    "Invalid C -> S Packet"@
}

/// The text of the error for a payload that is no UTF-8.
pub open spec fn bad_utf8_text() -> Seq<char> {
    "Invalid UTF-8 String."@
}

/// The text of the error for a pong whose text lacks a field that must be
/// there.
pub open spec fn invalid_payload_text() -> Seq<char> {
    "Invalid Payload"@
}

/// The unconnected ping: the id, a time of zero, the mark of an offline
/// message and a client identifier of zero.
pub open spec fn ping_datagram() -> Seq<u8> {
    seq![0x01u8] + be_bytes(0, 8) + magic() + be_bytes(0, 8)
}

/// The bytes that carry `packet` to a server. Only a ping can be sent.
pub open spec fn encode_packet(packet: PacketView) -> Result<Seq<u8>, ErrorView> {
    match packet {
        PacketView::UnconnectedPing => Ok(ping_datagram()),
        PacketView::UnconnectedPong { .. } => Err(ErrorView::Io(wrong_direction_text())),
    }
}

/// The pong that `datagram` holds.
///
/// The layout is: the id `0x1c`, the server's time in eight bytes, its
/// identifier in eight bytes, the sixteen bytes of the mark, the length of the
/// text in two bytes, the text. Another id and another mark are refused as an
/// invalid packet. Bytes after the text are ignored.
pub open spec fn decode_pong(datagram: Seq<u8>) -> Result<PacketView, ErrorView> {
    if datagram.len() < 1 {
        Err(truncated())
    } else if datagram[0] != 0x1c {
        Err(ErrorView::InvalidPacket)
    } else if datagram.len() < 33 {
        Err(truncated())
    } else if datagram.subrange(17, 33) != magic() {
        Err(ErrorView::InvalidPacket)
    } else if datagram.len() < 35 {
        Err(truncated())
    } else {
        let len = be_value(datagram.subrange(33, 35));
        if datagram.len() < 35 + len {
            Err(truncated())
        } else {
            let text = datagram.subrange(35, 35 + len as int);
            if valid_utf8(text) {
                Ok(
                    PacketView::UnconnectedPong {
                        time: be_value(datagram.subrange(1, 9)) as u64,
                        server_id: be_value(datagram.subrange(9, 17)) as u64,
                        payload: decode_utf8(text),
                    },
                )
            } else {
                Err(ErrorView::Io(bad_utf8_text()))
            }
        }
    }
}

/// The pong of a server with this time, this identifier and this text.
pub open spec fn pong_datagram(time: u64, server_id: u64, payload: Seq<char>) -> Seq<u8> {
    seq![0x1cu8] + be_bytes(time as nat, 8) + be_bytes(server_id as nat, 8) + magic() + be_bytes(
        encode_utf8(payload).len(),
        2,
    ) + encode_utf8(payload)
}

/// What a pong's datagram says about the server: the fields of its text, or
/// the error for a text without the four fields that must be there.
pub open spec fn pong_response(packet: PacketView) -> Result<BedrockResponseView, ErrorView> {
    match packet {
        PacketView::UnconnectedPong { payload, .. } => match extract_fields(payload) {
            Some(response) => Ok(response),
            None => Err(ErrorView::Io(invalid_payload_text())),
        },
        PacketView::UnconnectedPing => Err(ErrorView::InvalidPacket),
    }
}

fn is_magic(bytes: &Vec<u8>) -> (same: bool)
    ensures
        same == (bytes@ == magic()),
{
    if bytes.len() != 16 {
        return false;
    }
    let mut i: usize = 0;
    while i < 16
        invariant
            i <= 16,
            bytes@.len() == 16,
            forall|k: int| 0 <= k < i ==> bytes@[k] == magic()[k],
        decreases 16 - i,
    {
        if bytes[i] != OFFLINE_MESSAGE_DATA_ID[i] {
            assert(bytes@[i as int] != magic()[i as int]);
            return false;
        }
        i = i + 1;
    }
    assert(bytes@ =~= magic());
    true
}

impl Packet {
    /// The datagram that carries this packet to a server.
    pub fn encode(&self) -> (r: Result<Vec<u8>, Error>)
        ensures
            match encode_packet(self@) {
                Ok(bytes) => r matches Ok(out) && out@ == bytes,
                Err(e) => r matches Err(f) && f@ == e,
            },
    {
        match self {
            Packet::UnconnectedPing => {
                let mut out: Vec<u8> = Vec::new();
                out.push(PING_ID);
                write_u64(&mut out, 0);
                extend(&mut out, OFFLINE_MESSAGE_DATA_ID.as_slice());
                write_u64(&mut out, 0);
                assert(OFFLINE_MESSAGE_DATA_ID@ =~= magic());
                assert(out@ =~= ping_datagram());
                Ok(out)
            },
            Packet::UnconnectedPong { .. } => Err(Error::Io("Invalid C -> S Packet".to_owned())),
        }
    }

    /// The pong that a server sent in `datagram`.
    pub fn decode(datagram: &[u8]) -> (r: Result<Packet, Error>)
        ensures
            match decode_pong(datagram@) {
                Ok(packet) => r matches Ok(p) && p@ == packet,
                Err(e) => r matches Err(f) && f@ == e,
            },
    {
        let ghost all = datagram@;
        assert(behind(all, 0) =~= all);
        let (id, at) = read_u8(datagram, 0)?;
        if id != PONG_ID {
            return Err(Error::InvalidPacket);
        }
        if datagram.len() < 33 {
            return Err(crate::truncated_error());
        }
        let (time, at) = read_u64(datagram, at)?;
        let (server_id, at) = read_u64(datagram, at)?;
        let (mark, at) = read_exact(datagram, at, 16)?;
        proof {
            assert(behind(all, 1).take(8) =~= all.subrange(1, 9));
            assert(behind(all, 9).take(8) =~= all.subrange(9, 17));
            assert(behind(all, 17).take(16) =~= all.subrange(17, 33));
        }
        if !is_magic(&mark) {
            return Err(Error::InvalidPacket);
        }
        let (len, at) = read_u16(datagram, at)?;
        proof {
            assert(behind(all, 33).take(2) =~= all.subrange(33, 35));
            if all.len() >= 35 + len {
                assert(behind(all, 35).take(len as int) =~= all.subrange(35, 35 + len));
            }
        }
        let (text, _) = read_exact(datagram, at, len as usize)?;
        match string_from_utf8(text) {
            Some(payload) => Ok(Packet::UnconnectedPong { time, server_id, payload }),
            None => Err(Error::Io("Invalid UTF-8 String.".to_owned())),
        }
    }

    /// What this packet says about the server, where it is a pong whose text
    /// has the four fields that must be there.
    pub fn into_response(self) -> (r: Result<BedrockResponse, Error>)
        ensures
            match pong_response(self@) {
                Ok(response) => r matches Ok(out) && out@ == response,
                Err(e) => r matches Err(f) && f@ == e,
            },
    {
        match self {
            Packet::UnconnectedPong { payload, .. } => {
                match BedrockResponse::extract(payload.as_str()) {
                    Some(response) => Ok(response),
                    None => Err(Error::Io("Invalid Payload".to_owned())),
                }
            },
            Packet::UnconnectedPing => Err(Error::InvalidPacket),
        }
    }
}

/// A ping is thirty-three bytes long, starts with its id and carries the
/// mark behind its time.
pub proof fn lemma_ping_layout()
    ensures
        ping_datagram().len() == 33,
        ping_datagram()[0] == 0x01,
        ping_datagram().subrange(9, 25) == magic(),
{
    lemma_be_len(0, 8);
    assert(ping_datagram().subrange(9, 25) =~= magic());
}

/// A text with fewer than four fields gives nothing, and one with four or
/// more gives an answer whose required fields are its first four.
pub proof fn lemma_extract_needs_four(payload: Seq<char>)
    ensures
        split(payload, ';').len() < 4 <==> extract_fields(payload) is None,
        extract_fields(payload) matches Some(response) ==> response.motd_1 == split(payload, ';')[1]
            && response.version_name == split(payload, ';')[3],
{
}

/// The two known tags name their editions in either case, and no other tag
/// does.
pub proof fn lemma_edition_tags(tag: Seq<char>)
    ensures
        tag == seq!['M', 'C', 'P', 'E'] || tag == seq!['m', 'c', 'p', 'e'] ==> edition_of(tag)
            == BedrockEditionView::PocketEdition,
        tag == seq!['M', 'C', 'E', 'E'] || tag == seq!['m', 'c', 'e', 'e'] ==> edition_of(tag)
            == BedrockEditionView::EducationEdition,
        !is_pocket_tag(tag) && !is_education_tag(tag) ==> edition_of(tag)
            == BedrockEditionView::Other(tag),
{
}

/// A pong is read back as it was put together, whatever follows it in the
/// buffer, as long as its text fits the two bytes of its length.
pub proof fn lemma_pong_round_trip(time: u64, server_id: u64, payload: Seq<char>, tail: Seq<u8>)
    requires
        encode_utf8(payload).len() <= 0xffff,
    ensures
        decode_pong(pong_datagram(time, server_id, payload) + tail) == Ok::<PacketView, ErrorView>(
            PacketView::UnconnectedPong { time, server_id, payload },
        ),
{
    broadcast use {vstd::utf8::encode_utf8_valid_utf8, vstd::utf8::encode_utf8_decode_utf8};

    let text = encode_utf8(payload);
    let all = pong_datagram(time, server_id, payload) + tail;
    lemma_pow256_values();
    lemma_be_round_trip(time as nat, 8);
    lemma_be_round_trip(server_id as nat, 8);
    lemma_be_round_trip(text.len(), 2);
    assert(all.subrange(1, 9) =~= be_bytes(time as nat, 8));
    assert(all.subrange(9, 17) =~= be_bytes(server_id as nat, 8));
    assert(all.subrange(17, 33) =~= magic());
    assert(all.subrange(33, 35) =~= be_bytes(text.len(), 2));
    assert(all.subrange(35, 35 + text.len() as int) =~= text);
    assert(all[0] == 0x1c);
}

} // verus!
