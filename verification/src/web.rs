//! What the service answers with, decided apart from the serving: which
//! edition a path names, which status a failure gets, in which form a
//! failure is told, and what a server's icon holds.

use crate::text::{chars_of, same_text, slice_of};
use crate::Error;
use vstd::prelude::*;
use vstd::string::*;
use vstd::utf8::is_char_boundary;

verus! {

/// The edition of a server, as a path names it.
#[derive(Debug, Clone, Copy, PartialEq, Eq)]
pub enum Edition {
    Java,
    Bedrock,
}

/// The edition that `name` names: `java` or `bedrock`, exactly.
pub open spec fn edition_named(name: Seq<char>) -> Option<Edition> {
    if name == "java"@ {
        Some(Edition::Java)
    } else if name == "bedrock"@ {
        Some(Edition::Bedrock)
    } else {
        None
    }
}

impl Edition {
    /// The edition that `name` names.
    pub fn parse(name: &str) -> (edition: Option<Edition>)
        ensures
            edition == edition_named(name@),
    {
        if same_text(name, "java") {
            Some(Edition::Java)
        } else if same_text(name, "bedrock") {
            Some(Edition::Bedrock)
        } else {
            None
        }
    }
}

/// The query of the form that asks for a probe.
#[derive(Debug, Clone, PartialEq, Eq)]
pub struct PingQuery {
    pub edition: String,
    pub address: String,
}

/// Why a request could not be answered as asked.
#[derive(Debug, Clone, PartialEq, Eq)]
pub enum Failure {
    /// The probe failed.
    ConnectionFailed(Error),
    /// The probe took too long.
    TimedOut,
    /// A service could not be asked; the text says why.
    StatusReqwestFailed(String),
    /// A document could not be read or written; the text says why.
    JsonProcessingFailed(String),
    /// A header is no text; the text says why.
    HeaderToStr(String),
    /// A header holds no address; the text says why.
    AddressParse(String),
    /// The path names no server.
    NoHostname,
    /// The path names no edition.
    UnknownEdition,
}

/// The status that answers a failure. A probe that fails is an answer like
/// any other; what the caller got wrong is a bad request.
pub open spec fn status_of(failure: Failure) -> u16 {
    match failure {
        Failure::ConnectionFailed(_) | Failure::TimedOut => 200,
        Failure::StatusReqwestFailed(_) => 502,
        Failure::JsonProcessingFailed(_) => 500,
        Failure::NoHostname
        | Failure::UnknownEdition
        | Failure::AddressParse(_)
        | Failure::HeaderToStr(_) => 400,
    }
}

/// What a failure is told as.
pub open spec fn message_of(failure: Failure) -> Seq<char> {
    match failure {
        Failure::ConnectionFailed(_) => "Error connecting to the server"@,
        Failure::TimedOut => "Timed out connecting to the server"@,
        Failure::StatusReqwestFailed(_) => "HTTP error"@,
        Failure::JsonProcessingFailed(_) => "JSON processing error"@,
        Failure::HeaderToStr(_) => "Could not convert header to string"@,
        Failure::AddressParse(_) => "Could not convert string to IP address"@,
        Failure::NoHostname => "No server address specified!"@,
        Failure::UnknownEdition => "Unknown edition!"@,
    }
}

impl Failure {
    /// The status that answers this failure.
    pub fn status_code(&self) -> (code: u16)
        ensures
            code == status_of(*self),
    {
        match self {
            Failure::ConnectionFailed(_) | Failure::TimedOut => 200,
            Failure::StatusReqwestFailed(_) => 502,
            Failure::JsonProcessingFailed(_) => 500,
            Failure::NoHostname
            | Failure::UnknownEdition
            | Failure::AddressParse(_)
            | Failure::HeaderToStr(_) => 400,
        }
    }

    /// What this failure is told as.
    pub fn to_string(&self) -> (message: String)
        ensures
            message@ == message_of(*self),
    {
        match self {
            Failure::ConnectionFailed(_) => "Error connecting to the server".to_owned(),
            Failure::TimedOut => "Timed out connecting to the server".to_owned(),
            Failure::StatusReqwestFailed(_) => "HTTP error".to_owned(),
            Failure::JsonProcessingFailed(_) => "JSON processing error".to_owned(),
            Failure::HeaderToStr(_) => "Could not convert header to string".to_owned(),
            Failure::AddressParse(_) => "Could not convert string to IP address".to_owned(),
            Failure::NoHostname => "No server address specified!".to_owned(),
            Failure::UnknownEdition => "Unknown edition!".to_owned(),
        }
    }
}

/// The failure of a probe as the failure of a request: a probe that timed
/// out is a request that timed out, every other failure of a probe is a
/// failed connection.
pub open spec fn probe_failure(error: Error) -> Failure {
    match error {
        Error::TimedOut => Failure::TimedOut,
        other => Failure::ConnectionFailed(other),
    }
}

impl vstd::std_specs::convert::FromSpecImpl<Error> for Failure {
    open spec fn obeys_from_spec() -> bool {
        true
    }

    open spec fn from_spec(error: Error) -> Self {
        probe_failure(error)
    }
}

impl From<Error> for Failure {
    fn from(error: Error) -> (failure: Self) {
        match error {
            Error::TimedOut => Failure::TimedOut,
            other => Failure::ConnectionFailed(other),
        }
    }
}

/// A failure that is told as a piece of markup, not as a page.
#[derive(Debug, Clone, PartialEq, Eq)]
pub struct MarkupOnlyFailure(pub Failure);

impl vstd::std_specs::convert::FromSpecImpl<Failure> for MarkupOnlyFailure {
    open spec fn obeys_from_spec() -> bool {
        true
    }

    open spec fn from_spec(value: Failure) -> Self {
        MarkupOnlyFailure(value)
    }
}

impl From<Failure> for MarkupOnlyFailure {
    fn from(value: Failure) -> (wrapped: Self) {
        MarkupOnlyFailure(value)
    }
}

/// The mark of an answer whose failure is told as a piece of markup.
#[derive(Copy, Clone, Debug, PartialEq, Eq)]
pub struct SendErrorElement;

/// A failure as a document.
#[derive(Debug, Clone, PartialEq, Eq)]
pub struct ErrorSerialization {
    pub error: String,
}

/// A failure as a piece of markup.
#[derive(Debug, Clone, PartialEq, Eq)]
pub struct ErrorElement {
    pub error: String,
}

/// The bytes of a PNG image.
#[derive(Debug, Clone, PartialEq, Eq)]
pub struct Png(pub Vec<u8>);

/// A value that is answered as a page.
#[derive(Debug, Clone, PartialEq, Eq)]
pub struct HtmlTemplate<T>(pub T);

/// The form in which a failure is told.
#[derive(Debug, Clone, Copy, PartialEq, Eq)]
pub enum ErrorFormat {
    /// As a document, for callers that accept one.
    Json,
    /// As a piece of markup.
    Element,
    /// As a page.
    Page,
}

/// Whether `needle` stands somewhere in `text`.
pub open spec fn contains_text(text: Seq<char>, needle: Seq<char>) -> bool {
    exists|at: int| occurs_at(text, needle, at)
}

/// Whether `needle` stands in `text` at `at`.
pub open spec fn occurs_at(text: Seq<char>, needle: Seq<char>, at: int) -> bool {
    0 <= at && at + needle.len() <= text.len() && text.subrange(at, at + needle.len()) == needle
}

/// The form in which a failure is told: as a document where the caller's
/// `Accept` header names `application/json`, else as a piece of markup where
/// the answer is marked so, else as a page.
pub open spec fn format_for(accept: Option<Seq<char>>, markup_only: bool) -> ErrorFormat {
    if accept matches Some(text) && contains_text(text, "application/json"@) {
        ErrorFormat::Json
    } else if markup_only {
        ErrorFormat::Element
    } else {
        ErrorFormat::Page
    }
}

fn matches_at(text: &Vec<char>, needle: &Vec<char>, at: usize) -> (found: bool)
    requires
        at + needle.len() <= text.len(),
    ensures
        found == occurs_at(text@, needle@, at as int),
{
    let mut i: usize = 0;
    while i < needle.len()
        invariant
            i <= needle.len(),
            at + needle.len() <= text.len(),
            forall|k: int| 0 <= k < i ==> text@[at + k] == needle@[k],
        decreases needle.len() - i,
    {
        if text[at + i] != needle[i] {
            proof {
                assert(text@.subrange(at as int, at + needle.len())[i as int] != needle@[i as int]);
            }
            return false;
        }
        i = i + 1;
    }
    proof {
        assert(text@.subrange(at as int, at + needle.len()) =~= needle@);
    }
    true
}

/// Whether `needle` stands somewhere in `text`.
pub fn contains(text: &str, needle: &str) -> (found: bool)
    ensures
        found == contains_text(text@, needle@),
{
    let hay = chars_of(text);
    let pin = chars_of(needle);
    if pin.len() > hay.len() {
        return false;
    }
    let last = hay.len() - pin.len();
    let mut at: usize = 0;
    loop
        invariant
            at <= last,
            hay@ == text@,
            pin@ == needle@,
            last == hay.len() - pin.len(),
            forall|k: int| 0 <= k < at ==> !occurs_at(hay@, pin@, k),
        decreases last - at,
    {
        if matches_at(&hay, &pin, at) {
            return true;
        }
        if at == last {
            return false;
        }
        at = at + 1;
    }
}

/// The form in which a failure is told to a caller who sent the header
/// `accept`, or none.
pub fn error_format(accept: Option<&str>, markup_only: bool) -> (format: ErrorFormat)
    ensures
        format == format_for(
            match accept {
                Some(text) => Some(text@),
                None => None,
            },
            markup_only,
        ),
{
    let json = match accept {
        Some(text) => contains(text, "application/json"),
        None => false,
    };
    if json {
        ErrorFormat::Json
    } else if markup_only {
        ErrorFormat::Element
    } else {
        ErrorFormat::Page
    }
}

/// Where the form that asks for a probe leads: the page of the probe.
pub open spec fn redirect_path(root_url: Seq<char>, edition: Seq<char>, address: Seq<char>) -> Seq<
    char,
> {
    root_url + "/ping/"@ + edition + "/"@ + address
}

/// Where `query` leads.
pub fn redirect_target(root_url: &str, query: &PingQuery) -> (target: String)
    ensures
        target@ == redirect_path(root_url@, query.edition@, query.address@),
{
    let mut target = root_url.to_owned();
    target.append("/ping/");
    target.append(query.edition.as_str());
    target.append("/");
    target.append(query.address.as_str());
    target
}

/// How many characters are left of `url` without the slashes at its end.
pub open spec fn trimmed_len(url: Seq<char>) -> nat
    decreases url.len(),
{
    if url.len() > 0 && url.last() == '/' {
        trimmed_len(url.drop_last())
    } else {
        url.len()
    }
}

/// `url` without the slashes at its end.
pub fn trim_root(url: &str) -> (root: String)
    ensures
        root@ == url@.take(trimmed_len(url@) as int),
{
    let chars = chars_of(url);
    let mut end = chars.len();
    proof {
        assert(url@.take(chars.len() as int) =~= url@);
    }
    while end > 0 && chars[end - 1] == '/'
        invariant
            end <= chars.len(),
            chars@ == url@,
            trimmed_len(url@) == trimmed_len(url@.take(end as int)),
        decreases end,
    {
        proof {
            assert(url@.take(end as int).drop_last() =~= url@.take(end - 1));
        }
        end = end - 1;
    }
    slice_of(url, 0, end)
}

/// How many bytes of an icon precede its image: the length of
/// `data:image/png;base64,`.
pub const ICON_PREFIX_LEN: usize = 22;

/// Why there is no image to answer with.
#[derive(Debug, Clone, Copy, PartialEq, Eq)]
pub enum IconFailure {
    /// The server has no icon.
    NotFound,
    /// The icon is not what it should be.
    Undecodable,
}

impl IconFailure {
    /// The status that answers this failure.
    pub fn status_code(&self) -> (code: u16)
        ensures
            code == match *self {
                IconFailure::NotFound => 404u16,
                IconFailure::Undecodable => 500u16,
            },
    {
        match self {
            IconFailure::NotFound => 404,
            IconFailure::Undecodable => 500,
        }
    }
}

/// The bytes that the standard base64 alphabet with padding makes of
/// `input`, where `input` is well-formed.
pub uninterp spec fn base64_decoded(input: Seq<u8>) -> Option<Seq<u8>>;

/// Decodes base64.
///
/// Calls `decode` of the `base64` crate's standard engine: the alphabet of
/// RFC 4648 with `+` and `/`, canonical padding required. The outcome
/// depends on the bytes of `input` alone.
#[verifier::external_body]
fn decode_base64(input: &str) -> (decoded: Option<Vec<u8>>)
    ensures
        match decoded {
            Some(bytes) => base64_decoded(input.spec_bytes()) == Some(bytes@),
            None => base64_decoded(input.spec_bytes()) is None,
        },
{
    base64::Engine::decode(&base64::prelude::BASE64_STANDARD, input).ok()
}

/// Whether `icon` is long enough to hold an image behind its prefix, and can
/// be cut there.
pub open spec fn has_image(icon: &str) -> bool {
    22 <= icon.spec_bytes().len() && is_char_boundary(icon.spec_bytes(), 22)
}

/// Whether `icon` can be cut behind its prefix.
pub fn can_cut(icon: &str) -> (ok: bool)
    ensures
        ok == has_image(icon),
{
    icon.as_bytes().len() >= ICON_PREFIX_LEN && icon.is_char_boundary(ICON_PREFIX_LEN)
}

/// The image that was decoded, or the failure that nothing was.
pub fn png_of(decoded: Option<Vec<u8>>) -> (r: Result<Png, IconFailure>)
    ensures
        r == match decoded {
            Some(bytes) => Ok::<Png, IconFailure>(Png(bytes)),
            None => Err::<Png, IconFailure>(IconFailure::Undecodable),
        },
{
    match decoded {
        Some(bytes) => Ok(Png(bytes)),
        None => Err(IconFailure::Undecodable),
    }
}

/// The image of a server's icon: what base64 makes of the icon behind its
/// first twenty-two bytes. What those bytes are is not looked at.
pub fn icon_image(icon: Option<&str>) -> (r: Result<Png, IconFailure>)
    requires
        icon matches Some(text) ==> has_image(text),
    ensures
        match icon {
            None => r == Err::<Png, IconFailure>(IconFailure::NotFound),
            Some(text) => match base64_decoded(text.spec_bytes().skip(22)) {
                Some(bytes) => r matches Ok(png) && png.0@ == bytes,
                None => r == Err::<Png, IconFailure>(IconFailure::Undecodable),
            },
        },
{
    match icon {
        None => Err(IconFailure::NotFound),
        Some(text) => {
            let (_, data) = text.split_at(ICON_PREFIX_LEN);
            proof {
                assert(text.spec_bytes().skip(22) =~= text.spec_bytes().subrange(
                    22,
                    text.spec_bytes().len() as int,
                ));
            }
            png_of(decode_base64(data))
        },
    }
}

/// The image of a server's icon, or the failure of an icon that is too
/// short to hold one.
pub fn icon_image_checked(icon: Option<&str>) -> (r: Option<Result<Png, IconFailure>>)
    ensures
        match icon {
            Some(text) if !has_image(text) => r is None,
            None => r == Some(Err::<Png, IconFailure>(IconFailure::NotFound)),
            Some(text) => match base64_decoded(text.spec_bytes().skip(22)) {
                Some(bytes) => r matches Some(Ok(png)) && png.0@ == bytes,
                None => r == Some(Err::<Png, IconFailure>(IconFailure::Undecodable)),
            },
        },
{
    match icon {
        Some(text) => {
            if can_cut(text) {
                Some(icon_image(Some(text)))
            } else {
                None
            }
        },
        None => Some(icon_image(None)),
    }
}

} // verus!
