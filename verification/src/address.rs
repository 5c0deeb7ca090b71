//! Server addresses: `host`, `host:port`, `[v6-literal]` or
//! `[v6-literal]:port`.

use crate::text::{
    chars_of, field_bounds, find, first_index, parse_u16, parse_u16_in, slice_of, split,
    within,
};
use crate::{Error, ErrorView};
use vstd::prelude::*;

verus! {

/// An internet address.
#[derive(Debug, Clone, Copy, PartialEq, Eq, Hash)]
pub enum IpAddress {
    V4([u8; 4]),
    V6([u8; 16]),
}

/// An internet address with a port.
#[derive(Debug, Clone, Copy, PartialEq, Eq, Hash)]
pub struct SocketAddress {
    pub ip: IpAddress,
    pub port: u16,
}

/// The port that follows a host: the default where there is none, the number
/// after the colon where it is a port number, nothing otherwise.
pub open spec fn port_after(rest: Seq<char>, default_port: u16) -> Option<u16> {
    if rest.len() == 0 {
        Some(default_port)
    } else if rest[0] == ':' {
        parse_u16(rest.drop_first())
    } else {
        None
    }
}

/// The host and the port that `address` names, where it names them.
///
/// A literal in square brackets may hold colons; its host is what stands
/// between the brackets. Elsewhere one colon at most is allowed, and what
/// follows it is the port. A port is a number from 0 to 65535.
pub open spec fn address_parts(address: Seq<char>, default_port: u16) -> Option<(Seq<char>, u16)> {
    if address.len() > 0 && address[0] == '[' {
        let close = first_index(address, ']');
        if close >= address.len() {
            None
        } else {
            match port_after(address.skip(close as int + 1), default_port) {
                Some(port) => Some((address.subrange(1, close as int), port)),
                None => None,
            }
        }
    } else {
        let parts = split(address, ':');
        if parts.len() == 1 {
            Some((parts[0], default_port))
        } else if parts.len() == 2 {
            match parse_u16(parts[1]) {
                Some(port) => Some((parts[0], port)),
                None => None,
            }
        } else {
            None
        }
    }
}

/// Splits `address` into its host and its port, `default_port` where it
/// names none. An address that names no host and port is refused as invalid.
pub fn parse_address(address: &str, default_port: u16) -> (r: Result<(String, u16), Error>)
    ensures
        match address_parts(address@, default_port) {
            Some((host, port)) => r matches Ok((h, p)) && h@ == host && p == port,
            None => r matches Err(e) && e@ == ErrorView::InvalidAddress,
        },
{
    let chars = chars_of(address);
    let len = chars.len();
    if len > 0 && chars[0] == '[' {
        let close = find(chars.as_slice(), 0, ']');
        assert(chars@.skip(0) =~= chars@);
        if close >= len {
            return Err(Error::InvalidAddress);
        }
        let after = close + 1;
        let ghost rest = chars@.skip(after as int);
        let port = if after == len {
            default_port
        } else if chars[after] == ':' {
            assert(rest[0] == chars@[after as int]);
            assert(rest.drop_first() =~= chars@.subrange(after + 1, len as int));
            match parse_u16_in(chars.as_slice(), after + 1, len) {
                Some(port) => port,
                None => {
                    return Err(Error::InvalidAddress);
                },
            }
        } else {
            assert(rest[0] == chars@[after as int]);
            return Err(Error::InvalidAddress);
        };
        Ok((slice_of(address, 1, close), port))
    } else {
        let bounds = field_bounds(chars.as_slice(), ':');
        if bounds.len() == 1 {
            let host = bounds[0];
            assert(within(bounds@[0], chars@.len()));
            Ok((slice_of(address, host.0, host.1), default_port))
        } else if bounds.len() == 2 {
            let host = bounds[0];
            let port = bounds[1];
            assert(within(bounds@[0], chars@.len()));
            assert(within(bounds@[1], chars@.len()));
            match parse_u16_in(chars.as_slice(), port.0, port.1) {
                Some(port) => Ok((slice_of(address, host.0, host.1), port)),
                None => Err(Error::InvalidAddress),
            }
        } else {
            Err(Error::InvalidAddress)
        }
    }
}

/// An address without a colon and without a bracket in front is a host, to
/// be reached at the default port.
pub proof fn lemma_plain_host(address: Seq<char>, default_port: u16)
    requires
        forall|i: int| 0 <= i < address.len() ==> address[i] != ':',
        address.len() > 0 ==> address[0] != '[',
    ensures
        address_parts(address, default_port) == Some((address, default_port)),
{
    crate::text::lemma_first_index(address, ':', address.len() as int);
}

/// A host and a port text with one colon between them are that host and the
/// port that the text spells; where it spells none, the address is invalid.
pub proof fn lemma_host_and_port(host: Seq<char>, port_text: Seq<char>, default_port: u16)
    requires
        forall|i: int| 0 <= i < host.len() ==> host[i] != ':',
        forall|i: int| 0 <= i < port_text.len() ==> port_text[i] != ':',
        host.len() > 0 ==> host[0] != '[',
    ensures
        address_parts(host + seq![':'] + port_text, default_port) == match parse_u16(port_text) {
            Some(port) => Some((host, port)),
            None => None,
        },
{
    let address = host + seq![':'] + port_text;
    crate::text::lemma_first_index(address, ':', host.len() as int);
    crate::text::lemma_first_index(port_text, ':', port_text.len() as int);
    assert(address.take(host.len() as int) =~= host);
    assert(address.skip(host.len() as int + 1) =~= port_text);
    assert(split(port_text, ':') =~= seq![port_text]);
    assert(split(address, ':') =~= seq![address.take(host.len() as int)] + split(
        address.skip(host.len() as int + 1),
        ':',
    ));
    assert(split(address, ':') =~= seq![host, port_text]);
    if host.len() == 0 {
        assert(address[0] == ':');
    } else {
        assert(address[0] == host[0]);
    }
}

/// More than one colon outside brackets makes an address invalid.
pub proof fn lemma_second_colon_refused(address: Seq<char>, default_port: u16, i: int, j: int)
    requires
        0 <= i < j < address.len(),
        address[i] == ':',
        address[j] == ':',
        address[0] != '[',
    ensures
        address_parts(address, default_port) is None,
{
    lemma_split_count(address, ':', i, j);
}

/// A text with two separators has at least three fields.
proof fn lemma_split_count(text: Seq<char>, sep: char, i: int, j: int)
    requires
        0 <= i < j < text.len(),
        text[i] == sep,
        text[j] == sep,
    ensures
        split(text, sep).len() >= 3,
{
    let first = first_index(text, sep);
    lemma_first_bound(text, sep, i);
    let rest = text.skip(first as int + 1);
    assert(rest[j - first - 1] == text[j]);
    let second = first_index(rest, sep);
    lemma_first_bound(rest, sep, j - first - 1);
    assert(split(text, sep) == seq![text.take(first as int)] + split(rest, sep));
    assert(split(rest, sep).len() >= 2) by {
        let after = rest.skip(second as int + 1);
        assert(split(rest, sep) == seq![rest.take(second as int)] + split(after, sep));
        lemma_split_nonempty(after, sep);
    }
}

/// The first separator stands at or before any separator.
proof fn lemma_first_bound(text: Seq<char>, sep: char, at: int)
    requires
        0 <= at < text.len(),
        text[at] == sep,
    ensures
        first_index(text, sep) <= at,
        text[first_index(text, sep) as int] == sep,
    decreases text.len(),
{
    if text[0] != sep {
        lemma_first_bound(text.drop_first(), sep, at - 1);
    }
}

/// There is always a field.
proof fn lemma_split_nonempty(text: Seq<char>, sep: char)
    ensures
        split(text, sep).len() >= 1,
{
}

} // verus!
