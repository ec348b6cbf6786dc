//! The SOCKS5 subset that the proxy speaks: method selection without
//! authentication, the CONNECT request with its three address types, and the
//! fixed ten-byte replies.
//!
//! A request is parsed in two stages. `parse_request` takes the bytes apart
//! and keeps the address as it stood on the wire; `Request::host` renders that
//! address as the host name that is handed to the network client.

use crate::text::{
    decimal, hex_pair, lemma_decimal_injective, lemma_decimal_roundtrip, lemma_hex_pair_injective,
    lemma_split_at_dot, push_decimal, push_hex_pair,
};
use vstd::prelude::*;
use vstd::slice::*;
use vstd::string::*;
use vstd::utf8::*;

verus! {

/// Protocol version byte of SOCKS5.
pub const SOCKS_VERSION: u8 = 5;

/// The only method ever selected: no authentication.
pub const METHOD_NO_AUTH: u8 = 0;

/// The only command served.
pub const CMD_CONNECT: u8 = 1;

/// Address type byte of an IPv4 address.
pub const ATYP_IPV4: u8 = 1;

/// Address type byte of a domain name.
pub const ATYP_DOMAIN: u8 = 3;

/// Address type byte of an IPv6 address.
pub const ATYP_IPV6: u8 = 4;

/// Reply code: the tunneled stream is open.
pub const REPLY_SUCCEEDED: u8 = 0;

/// Reply code: general failure.
pub const REPLY_GENERAL_FAILURE: u8 = 1;

/// Reply code: connection refused.
pub const REPLY_CONNECTION_REFUSED: u8 = 5;

/// Reply code: command not supported.
pub const REPLY_COMMAND_NOT_SUPPORTED: u8 = 7;

/// Reply code: address type not supported.
pub const REPLY_ADDRESS_TYPE_NOT_SUPPORTED: u8 = 8;

/// Fewest bytes that a greeting may have: version and method count.
pub const MIN_GREETING_LEN: usize = 2;

/// Fewest bytes that a request may have.
pub const MIN_REQUEST_LEN: usize = 10;

/// Length of a request that carries an IPv6 address.
pub const IPV6_REQUEST_LEN: usize = 22;

/// Most bytes taken from the client in one read.
pub const READ_BUFFER_LEN: usize = 512;

/// Why a connection was given up.
#[derive(Clone, Copy, Debug, PartialEq, Eq, Structural)]
pub enum Failure {
    /// The greeting had fewer than two bytes.
    InvalidHandshake,
    /// The request had fewer than ten bytes.
    InvalidRequest,
    /// The request's version byte, which was not 5.
    UnsupportedVersion(u8),
    /// The request's command byte, which was not CONNECT.
    UnsupportedCommand(u8),
    /// A domain name whose length byte reaches past the bytes received.
    InvalidDomainLength,
    /// An IPv6 request of fewer than twenty-two bytes.
    TruncatedIpv6,
    /// The request's address type byte, which named no known type.
    UnsupportedAddressType(u8),
    /// The network client could not open the tunneled stream.
    ConnectFailed,
    /// Reading from or writing to the local socket failed.
    Io,
    /// An event arrived that does not answer the action last asked for.
    UnexpectedEvent,
}

/// The kind of address that a request carries.
#[derive(Clone, Copy, Debug, PartialEq, Eq, Structural)]
pub enum AddressType {
    Ipv4,
    DomainName,
    Ipv6,
}

/// A CONNECT request as a mathematical value: the address bytes as they stood
/// on the wire, and the port.
pub struct RequestView {
    pub address_type: AddressType,
    pub address: Seq<u8>,
    pub port: u16,
}

/// A parsed CONNECT request.
#[derive(Debug, PartialEq, Eq)]
pub struct Request {
    address_type: AddressType,
    address: Vec<u8>,
    port: u16,
}

/// The byte that names `t` on the wire.
pub open spec fn address_type_code(t: AddressType) -> u8 {
    match t {
        AddressType::Ipv4 => ATYP_IPV4,
        AddressType::DomainName => ATYP_DOMAIN,
        AddressType::Ipv6 => ATYP_IPV6,
    }
}

/// The port that two bytes in network order denote.
pub open spec fn port_of(high: u8, low: u8) -> u16 {
    (high as int * 256 + low as int) as u16
}

/// The reply to a request: version, reply code, reserved byte, the IPv4
/// address type and an all-zero bound address and port.
pub open spec fn reply_bytes(code: u8) -> Seq<u8> {
    seq![SOCKS_VERSION, code, 0u8, ATYP_IPV4, 0u8, 0u8, 0u8, 0u8, 0u8, 0u8]
}

/// The answer to every greeting: version 5, no authentication.
pub open spec fn method_selection_bytes() -> Seq<u8> {
    seq![SOCKS_VERSION, METHOD_NO_AUTH]
}

/// The reply code that is sent to the client before a connection is given up
/// for `failure`; `None` where the connection is dropped without a reply.
pub open spec fn failure_reply_code(failure: Failure) -> Option<u8> {
    match failure {
        Failure::UnsupportedCommand(_) => Some(REPLY_COMMAND_NOT_SUPPORTED),
        Failure::TruncatedIpv6 => Some(REPLY_GENERAL_FAILURE),
        Failure::UnsupportedAddressType(_) => Some(REPLY_ADDRESS_TYPE_NOT_SUPPORTED),
        Failure::ConnectFailed => Some(REPLY_CONNECTION_REFUSED),
        _ => None,
    }
}

/// The words that describe `failure` in a log line.
pub open spec fn failure_text(failure: Failure) -> Seq<char> {
    match failure {
        Failure::InvalidHandshake => "Invalid SOCKS handshake"@,
        Failure::InvalidRequest => "Invalid SOCKS request"@,
        Failure::UnsupportedVersion(version) => "Unsupported SOCKS version: "@ + decimal(
            version as nat,
        ),
        Failure::UnsupportedCommand(command) => "Unsupported SOCKS command: "@ + decimal(
            command as nat,
        ),
        Failure::InvalidDomainLength => "Invalid domain name length"@,
        Failure::TruncatedIpv6 => "Truncated IPv6 request"@,
        Failure::UnsupportedAddressType(kind) => "Unsupported address type: "@ + decimal(
            kind as nat,
        ),
        Failure::ConnectFailed => "Failed to connect through the network"@,
        Failure::Io => "Socket read or write failed"@,
        Failure::UnexpectedEvent => "Unexpected event"@,
    }
}

/// What the bytes of a request mean. The checks come in this order: length,
/// version, command, address type, and then the length that the address type
/// asks for. The reserved byte is not looked at, and bytes after the port are
/// ignored.
pub open spec fn parse(buf: Seq<u8>) -> Result<RequestView, Failure> {
    if buf.len() < MIN_REQUEST_LEN {
        Err(Failure::InvalidRequest)
    } else if buf[0] != SOCKS_VERSION {
        Err(Failure::UnsupportedVersion(buf[0]))
    } else if buf[1] != CMD_CONNECT {
        Err(Failure::UnsupportedCommand(buf[1]))
    } else if buf[3] == ATYP_IPV4 {
        Ok(
            RequestView {
                address_type: AddressType::Ipv4,
                address: buf.subrange(4, 8),
                port: port_of(buf[8], buf[9]),
            },
        )
    } else if buf[3] == ATYP_DOMAIN {
        let len = buf[4] as int;
        if buf.len() < 5 + len + 2 {
            Err(Failure::InvalidDomainLength)
        } else {
            Ok(
                RequestView {
                    address_type: AddressType::DomainName,
                    address: buf.subrange(5, 5 + len),
                    port: port_of(buf[5 + len], buf[6 + len]),
                },
            )
        }
    } else if buf[3] == ATYP_IPV6 {
        if buf.len() < IPV6_REQUEST_LEN {
            Err(Failure::TruncatedIpv6)
        } else {
            Ok(
                RequestView {
                    address_type: AddressType::Ipv6,
                    address: buf.subrange(4, 20),
                    port: port_of(buf[20], buf[21]),
                },
            )
        }
    } else {
        Err(Failure::UnsupportedAddressType(buf[3]))
    }
}

/// Dotted-decimal notation of four address bytes.
pub open spec fn ipv4_text(a: Seq<u8>) -> Seq<char>
    recommends
        a.len() == 4,
{
    decimal(a[0] as nat) + seq!['.'] + decimal(a[1] as nat) + seq!['.'] + decimal(a[2] as nat)
        + seq!['.'] + decimal(a[3] as nat)
}

/// Four hexadecimal digits for group `k` of an IPv6 address.
pub open spec fn hex_group(a: Seq<u8>, k: int) -> Seq<char>
    recommends
        0 <= k,
        2 * k + 1 < a.len(),
{
    hex_pair(a[2 * k]) + hex_pair(a[2 * k + 1])
}

/// The first `n` groups of an IPv6 address, joined by colons.
pub open spec fn hex_groups(a: Seq<u8>, n: nat) -> Seq<char>
    recommends
        2 * n <= a.len(),
    decreases n,
{
    if n == 0 {
        Seq::empty()
    } else if n == 1 {
        hex_group(a, 0)
    } else {
        hex_groups(a, (n - 1) as nat) + seq![':'] + hex_group(a, n - 1)
    }
}

/// Sixteen address bytes as eight groups of four lower-case hexadecimal
/// digits, joined by colons; runs of zeros are written out.
pub open spec fn ipv6_text(a: Seq<u8>) -> Seq<char>
    recommends
        a.len() == 16,
{
    hex_groups(a, 8)
}

/// The text that lossy UTF-8 decoding gives for bytes that are not valid
/// UTF-8, each ill-formed part replaced by U+FFFD.
pub uninterp spec fn utf8_lossy(bytes: Seq<u8>) -> Seq<char>;

/// A domain name as text: its characters where the bytes are valid UTF-8, the
/// lossy decoding otherwise.
pub open spec fn domain_text(bytes: Seq<u8>) -> Seq<char> {
    if valid_utf8(bytes) {
        decode_utf8(bytes)
    } else {
        utf8_lossy(bytes)
    }
}

/// The host name that a request names.
pub open spec fn host_text(r: RequestView) -> Seq<char> {
    match r.address_type {
        AddressType::Ipv4 => ipv4_text(r.address),
        AddressType::DomainName => domain_text(r.address),
        AddressType::Ipv6 => ipv6_text(r.address),
    }
}

impl RequestView {
    /// The address has the length that its type fixes; a domain name fits the
    /// one length byte that precedes it.
    pub open spec fn wf(self) -> bool {
        match self.address_type {
            AddressType::Ipv4 => self.address.len() == 4,
            AddressType::DomainName => self.address.len() <= 255,
            AddressType::Ipv6 => self.address.len() == 16,
        }
    }

    /// The address field of the request on the wire: a domain name is preceded
    /// by its length.
    pub open spec fn address_field(self) -> Seq<u8> {
        match self.address_type {
            AddressType::DomainName => seq![self.address.len() as u8] + self.address,
            _ => self.address,
        }
    }

    /// The request on the wire, with `reserved` as its third byte.
    pub open spec fn wire_form(self, reserved: u8) -> Seq<u8> {
        seq![SOCKS_VERSION, CMD_CONNECT, reserved, address_type_code(self.address_type)]
            + self.address_field() + seq![(self.port / 256) as u8, (self.port % 256) as u8]
    }
}

impl View for Request {
    type V = RequestView;

    closed spec fn view(&self) -> RequestView {
        RequestView { address_type: self.address_type, address: self.address@, port: self.port }
    }
}

/// Every request that `parse` accepts is well formed.
pub proof fn lemma_parse_wf(buf: Seq<u8>)
    ensures
        parse(buf) matches Ok(r) ==> r.wf(),
{
}

/// Parsing extracts address and port exactly as the wire carries them: the
/// wire form of any well-formed request, followed by any bytes, parses back to
/// that request, provided there are at least ten bytes in all.
pub proof fn lemma_parse_wire_form(r: RequestView, reserved: u8, rest: Seq<u8>)
    requires
        r.wf(),
        (r.wire_form(reserved) + rest).len() >= MIN_REQUEST_LEN,
    ensures
        parse(r.wire_form(reserved) + rest) == Ok::<RequestView, Failure>(r),
{
    let buf = r.wire_form(reserved) + rest;
    let hi = (r.port / 256) as u8;
    let lo = (r.port % 256) as u8;
    assert(port_of(hi, lo) == r.port);
    match r.address_type {
        AddressType::Ipv4 => {
            assert(buf.subrange(4, 8) =~= r.address);
        },
        AddressType::DomainName => {
            let len = r.address.len() as int;
            assert(buf[4] as int == len);
            assert(buf.subrange(5, 5 + len) =~= r.address);
            assert(buf[5 + len] == hi);
            assert(buf[6 + len] == lo);
        },
        AddressType::Ipv6 => {
            assert(buf.subrange(4, 20) =~= r.address);
        },
    }
}

/// A request is refused as too short exactly when it has fewer than ten
/// bytes, whatever those bytes are.
pub proof fn lemma_short_request(buf: Seq<u8>)
    ensures
        parse(buf) == Err::<RequestView, Failure>(Failure::InvalidRequest) <==> buf.len()
            < MIN_REQUEST_LEN,
{
}

/// Dotted-decimal notation loses nothing: two IPv4 addresses with the same
/// text are the same four bytes.
pub proof fn lemma_ipv4_text_injective(a: Seq<u8>, b: Seq<u8>)
    requires
        a.len() == 4,
        b.len() == 4,
        ipv4_text(a) == ipv4_text(b),
    ensures
        a == b,
{
    let dot = seq!['.'];
    let a3 = decimal(a[3] as nat);
    let b3 = decimal(b[3] as nat);
    let a2 = decimal(a[2] as nat) + dot + a3;
    let b2 = decimal(b[2] as nat) + dot + b3;
    let a1 = decimal(a[1] as nat) + dot + a2;
    let b1 = decimal(b[1] as nat) + dot + b2;
    lemma_decimal_roundtrip(a[0] as nat);
    lemma_decimal_roundtrip(a[1] as nat);
    lemma_decimal_roundtrip(a[2] as nat);
    lemma_decimal_roundtrip(b[0] as nat);
    lemma_decimal_roundtrip(b[1] as nat);
    lemma_decimal_roundtrip(b[2] as nat);
    assert(ipv4_text(a) =~= decimal(a[0] as nat) + dot + a1);
    assert(ipv4_text(b) =~= decimal(b[0] as nat) + dot + b1);
    lemma_split_at_dot(decimal(a[0] as nat), a1, decimal(b[0] as nat), b1);
    lemma_split_at_dot(decimal(a[1] as nat), a2, decimal(b[1] as nat), b2);
    lemma_split_at_dot(decimal(a[2] as nat), a3, decimal(b[2] as nat), b3);
    lemma_decimal_injective(a[0] as nat, b[0] as nat);
    lemma_decimal_injective(a[1] as nat, b[1] as nat);
    lemma_decimal_injective(a[2] as nat, b[2] as nat);
    lemma_decimal_injective(a[3] as nat, b[3] as nat);
    assert(a =~= b);
}

/// The first `n` groups take five characters each but for the colon that the
/// last one lacks, and group `k` stands at position `5 * k`.
pub proof fn lemma_hex_groups_layout(a: Seq<u8>, n: nat, k: int)
    requires
        0 <= k < n,
    ensures
        hex_groups(a, n).len() == 5 * n - 1,
        hex_groups(a, n).subrange(5 * k, 5 * k + 4) == hex_group(a, k),
    decreases n,
{
    if n == 1 {
        assert(hex_groups(a, 1).subrange(0, 4) =~= hex_group(a, 0));
    } else {
        let head = hex_groups(a, (n - 1) as nat);
        let last = hex_group(a, n - 1);
        lemma_hex_groups_layout(a, (n - 1) as nat, 0);
        if k < n - 1 {
            lemma_hex_groups_layout(a, (n - 1) as nat, k);
            assert(hex_groups(a, n).subrange(5 * k, 5 * k + 4) =~= head.subrange(
                5 * k,
                5 * k + 4,
            ));
        } else {
            assert(hex_groups(a, n).subrange(5 * k, 5 * k + 4) =~= last);
        }
    }
}

/// The hexadecimal notation loses nothing: two IPv6 addresses with the same
/// text are the same sixteen bytes.
pub proof fn lemma_ipv6_text_injective(a: Seq<u8>, b: Seq<u8>)
    requires
        a.len() == 16,
        b.len() == 16,
        ipv6_text(a) == ipv6_text(b),
    ensures
        a == b,
{
    assert forall|i: int| 0 <= i < 16 implies a[i] == b[i] by {
        let k = i / 2;
        lemma_hex_groups_layout(a, 8, k);
        lemma_hex_groups_layout(b, 8, k);
        let ga = hex_group(a, k);
        let gb = hex_group(b, k);
        assert(ga == gb);
        assert(hex_pair(a[2 * k]) =~= ga.subrange(0, 2));
        assert(hex_pair(b[2 * k]) =~= gb.subrange(0, 2));
        assert(hex_pair(a[2 * k + 1]) =~= ga.subrange(2, 4));
        assert(hex_pair(b[2 * k + 1]) =~= gb.subrange(2, 4));
        lemma_hex_pair_injective(a[2 * k], b[2 * k]);
        lemma_hex_pair_injective(a[2 * k + 1], b[2 * k + 1]);
    }
    assert(a =~= b);
}

/// A domain name that is valid UTF-8 is handed on byte for byte: the UTF-8
/// encoding of its text is the name as it stood on the wire.
pub proof fn lemma_domain_text_exact(bytes: Seq<u8>)
    requires
        valid_utf8(bytes),
    ensures
        encode_utf8(domain_text(bytes)) == bytes,
{
    decode_utf8_encode_utf8(bytes);
}

/// The host name tells the address: two well-formed requests of one address
/// type with the same host name carry the same address bytes, domain names
/// provided that they are valid UTF-8.
pub proof fn lemma_host_text_exact(r: RequestView, s: RequestView)
    requires
        r.wf(),
        s.wf(),
        r.address_type == s.address_type,
        r.address_type is DomainName ==> valid_utf8(r.address) && valid_utf8(s.address),
        host_text(r) == host_text(s),
    ensures
        r.address == s.address,
{
    match r.address_type {
        AddressType::Ipv4 => lemma_ipv4_text_injective(r.address, s.address),
        AddressType::DomainName => {
            lemma_domain_text_exact(r.address);
            lemma_domain_text_exact(s.address);
        },
        AddressType::Ipv6 => lemma_ipv6_text_injective(r.address, s.address),
    }
}

impl Failure {
    /// The reply code that is sent to the client before the connection is
    /// given up for this failure, if any is.
    pub fn reply_code(self) -> (code: Option<u8>)
        ensures
            code == failure_reply_code(self),
    {
        match self {
            Failure::UnsupportedCommand(_) => Some(REPLY_COMMAND_NOT_SUPPORTED),
            Failure::TruncatedIpv6 => Some(REPLY_GENERAL_FAILURE),
            Failure::UnsupportedAddressType(_) => Some(REPLY_ADDRESS_TYPE_NOT_SUPPORTED),
            Failure::ConnectFailed => Some(REPLY_CONNECTION_REFUSED),
            _ => None,
        }
    }

    /// The words that describe this failure in a log line.
    pub fn message(self) -> (text: String)
        ensures
            text@ == failure_text(self),
    {
        match self {
            Failure::InvalidHandshake => String::from_str("Invalid SOCKS handshake"),
            Failure::InvalidRequest => String::from_str("Invalid SOCKS request"),
            Failure::UnsupportedVersion(version) => {
                let mut text = String::from_str("Unsupported SOCKS version: ");
                push_decimal(&mut text, version as u32);
                text
            },
            Failure::UnsupportedCommand(command) => {
                let mut text = String::from_str("Unsupported SOCKS command: ");
                push_decimal(&mut text, command as u32);
                text
            },
            Failure::InvalidDomainLength => String::from_str("Invalid domain name length"),
            Failure::TruncatedIpv6 => String::from_str("Truncated IPv6 request"),
            Failure::UnsupportedAddressType(kind) => {
                let mut text = String::from_str("Unsupported address type: ");
                push_decimal(&mut text, kind as u32);
                text
            },
            Failure::ConnectFailed => String::from_str("Failed to connect through the network"),
            Failure::Io => String::from_str("Socket read or write failed"),
            Failure::UnexpectedEvent => String::from_str("Unexpected event"),
        }
    }
}

/// Builds the ten-byte reply that carries `code`.
pub fn reply(code: u8) -> (out: Vec<u8>)
    ensures
        out@ == reply_bytes(code),
{
    let out = vec![SOCKS_VERSION, code, 0u8, ATYP_IPV4, 0u8, 0u8, 0u8, 0u8, 0u8, 0u8];
    assert(out@ =~= reply_bytes(code));
    out
}

/// Builds the answer to a greeting.
pub fn method_selection() -> (out: Vec<u8>)
    ensures
        out@ == method_selection_bytes(),
{
    let out = vec![SOCKS_VERSION, METHOD_NO_AUTH];
    assert(out@ =~= method_selection_bytes());
    out
}

/// The port that `high` and `low` denote in network order.
fn port_from_bytes(high: u8, low: u8) -> (port: u16)
    ensures
        port == port_of(high, low),
{
    let h: u16 = high as u16;
    let l: u16 = low as u16;
    h * 256 + l
}

/// Parses the bytes of one request.
pub fn parse_request(buf: &[u8]) -> (r: Result<Request, Failure>)
    ensures
        r matches Ok(request) ==> parse(buf@) == Ok::<RequestView, Failure>(request@),
        r matches Err(failure) ==> parse(buf@) == Err::<RequestView, Failure>(failure),
{
    let n = buf.len();
    if n < MIN_REQUEST_LEN {
        return Err(Failure::InvalidRequest);
    }
    let version = buf[0];
    let command = buf[1];
    let kind = buf[3];
    if version != SOCKS_VERSION {
        return Err(Failure::UnsupportedVersion(version));
    }
    if command != CMD_CONNECT {
        return Err(Failure::UnsupportedCommand(command));
    }
    if kind == ATYP_IPV4 {
        let address = slice_to_vec(slice_subrange(buf, 4, 8));
        let port = port_from_bytes(buf[8], buf[9]);
        Ok(Request { address_type: AddressType::Ipv4, address, port })
    } else if kind == ATYP_DOMAIN {
        let len: usize = buf[4] as usize;
        if n < 5 + len + 2 {
            return Err(Failure::InvalidDomainLength);
        }
        let address = slice_to_vec(slice_subrange(buf, 5, 5 + len));
        let port = port_from_bytes(buf[5 + len], buf[6 + len]);
        Ok(Request { address_type: AddressType::DomainName, address, port })
    } else if kind == ATYP_IPV6 {
        if n < IPV6_REQUEST_LEN {
            return Err(Failure::TruncatedIpv6);
        }
        let address = slice_to_vec(slice_subrange(buf, 4, 20));
        let port = port_from_bytes(buf[20], buf[21]);
        Ok(Request { address_type: AddressType::Ipv6, address, port })
    } else {
        Err(Failure::UnsupportedAddressType(kind))
    }
}

/// Lossy UTF-8 decoding by `String::from_utf8_lossy`. Trusted: bytes that are
/// valid UTF-8 come back as the characters they encode; for any other bytes
/// the result is the text that the standard library's replacement of
/// ill-formed parts gives, which is a function of the bytes alone.
#[verifier::external_body]
fn decode_lossy(bytes: &[u8]) -> (text: String)
    ensures
        valid_utf8(bytes@) ==> text@ == decode_utf8(bytes@),
        !valid_utf8(bytes@) ==> text@ == utf8_lossy(bytes@),
{
    String::from_utf8_lossy(bytes).into_owned()
}

/// Renders four address bytes in dotted-decimal notation.
fn ipv4_string(a: &Vec<u8>) -> (text: String)
    requires
        a.len() == 4,
    ensures
        text@ == ipv4_text(a@),
{
    let mut text = String::new();
    proof {
        reveal_strlit(".");
        assert("."@ =~= seq!['.']);
    }
    push_decimal(&mut text, a[0] as u32);
    text.append(".");
    push_decimal(&mut text, a[1] as u32);
    text.append(".");
    push_decimal(&mut text, a[2] as u32);
    text.append(".");
    push_decimal(&mut text, a[3] as u32);
    assert(text@ =~= ipv4_text(a@));
    text
}

/// Renders sixteen address bytes as eight colon-separated groups.
fn ipv6_string(a: &Vec<u8>) -> (text: String)
    requires
        a.len() == 16,
    ensures
        text@ == ipv6_text(a@),
{
    let mut text = String::new();
    let mut k: usize = 0;
    proof {
        reveal_strlit(":");
        assert(":"@ =~= seq![':']);
    }
    while k < 8
        invariant
            k <= 8,
            a.len() == 16,
            text@ == hex_groups(a@, k as nat),
            ":"@ == seq![':'],
        decreases 8 - k,
    {
        if k > 0 {
            text.append(":");
        }
        push_hex_pair(&mut text, a[2 * k]);
        push_hex_pair(&mut text, a[2 * k + 1]);
        k = k + 1;
        assert(text@ =~= hex_groups(a@, k as nat));
    }
    text
}

impl Request {
    #[verifier::type_invariant]
    spec fn well_formed(self) -> bool {
        self@.wf()
    }

    /// The kind of address that the request carries.
    pub fn address_type(&self) -> (t: AddressType)
        ensures
            t == self@.address_type,
    {
        self.address_type
    }

    /// The address bytes as they stood on the wire.
    pub fn address(&self) -> (a: &Vec<u8>)
        ensures
            a@ == self@.address,
            self@.wf(),
    {
        proof {
            use_type_invariant(self);
        }
        &self.address
    }

    /// The port to connect to.
    pub fn port(&self) -> (p: u16)
        ensures
            p == self@.port,
    {
        self.port
    }

    /// The host name to connect to: dotted-decimal for IPv4, eight full
    /// hexadecimal groups for IPv6, the decoded name for a domain name.
    pub fn host(&self) -> (text: String)
        ensures
            text@ == host_text(self@),
    {
        proof {
            use_type_invariant(self);
        }
        match self.address_type {
            AddressType::Ipv4 => ipv4_string(&self.address),
            AddressType::DomainName => decode_lossy(self.address.as_slice()),
            AddressType::Ipv6 => ipv6_string(&self.address),
        }
    }
}

} // verus!
