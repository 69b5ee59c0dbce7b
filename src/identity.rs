//! The request fingerprint that binds a session cookie to the client that
//! received it.
//!
//! The binding is soft: it hashes the `User-Agent` and `Host` headers, which
//! any client can copy. It stops a cookie from being replayed as is by an
//! unrelated client, not a forger who knows those headers.
use vstd::prelude::*;
use vstd::utf8::encode_utf8;
use sha2::Digest;
use crate::login_info::opt_chars;
use crate::text::{chars_of, string_of};

verus! {

/// The SHA-256 digest of `data`.
pub uninterp spec fn sha256_of(data: Seq<u8>) -> Seq<u8>;

/// Relies on `sha2::Sha256::digest`: the 32-byte SHA-256 digest of `data`.
#[verifier::external_body]
pub(crate) fn sha256(data: &[u8]) -> (r: Vec<u8>)
    ensures
        r@ == sha256_of(data@),
        r@.len() == 32,
{
    sha2::Sha256::digest(data).to_vec()
}

/// The lower-case hex digit of `d < 16`.
pub open spec fn hex_lower(d: u8) -> char {
    if d < 10 {
        ((48 + d) as u8) as char
    } else {
        ((87 + d) as u8) as char
    }
}

/// Two lower-case hex digits for each byte of `b`, in order.
pub open spec fn hex_of(b: Seq<u8>) -> Seq<char>
    decreases b.len(),
{
    if b.len() == 0 {
        Seq::empty()
    } else {
        seq![hex_lower(b[0] / 16), hex_lower(b[0] % 16)] + hex_of(b.drop_first())
    }
}

/// Relies on `hex::encode`: two lower-case hex digits for each byte.
#[verifier::external_body]
pub(crate) fn to_hex(b: &[u8]) -> (r: String)
    ensures
        r@ == hex_of(b@),
{
    hex::encode(b)
}

/// A request header as the fingerprint sees it.
pub enum HeaderText {
    /// The request has no such header.
    Missing,
    /// The header is present but is not visible ASCII text.
    Invalid,
    /// The header's text.
    Text(String),
}

/// What a header contributes to the hashed bytes: its text, a fixed
/// stand-in when it is not text, nothing when it is absent.
pub open spec fn header_part(h: HeaderText, stand_in: Seq<char>) -> Seq<u8> {
    match h {
        HeaderText::Missing => Seq::empty(),
        HeaderText::Invalid => encode_utf8(stand_in),
        HeaderText::Text(s) => encode_utf8(s@),
    }
}

/// The fingerprint of a request with these `User-Agent` and `Host` headers.
pub open spec fn fingerprint_spec(agent: HeaderText, host: HeaderText) -> Seq<char> {
    hex_of(
        sha256_of(
            encode_utf8("loginmanager"@) + header_part(agent, "agent-fake"@) + header_part(
                host,
                "host-fake"@,
            ),
        ),
    )
}

fn push_header(bytes: &mut Vec<u8>, h: &HeaderText, stand_in: &str)
    ensures
        final(bytes)@ == old(bytes)@ + header_part(*h, stand_in@),
{
    match h {
        HeaderText::Missing => {
            assert(old(bytes)@ + Seq::<u8>::empty() =~= old(bytes)@);
        },
        HeaderText::Invalid => {
            bytes.extend_from_slice(stand_in.as_bytes());
        },
        HeaderText::Text(s) => {
            bytes.extend_from_slice(s.as_str().as_bytes());
        },
    }
}

/// The fingerprint of a request: the hex-encoded SHA-256 digest of a fixed
/// preamble, the `User-Agent` header and the `Host` header.
pub fn fingerprint(agent: &HeaderText, host: &HeaderText) -> (r: String)
    ensures
        r@ == fingerprint_spec(*agent, *host),
{
    let mut bytes: Vec<u8> = Vec::new();
    bytes.extend_from_slice("loginmanager".as_bytes());
    assert(bytes@ =~= encode_utf8("loginmanager"@));
    push_header(&mut bytes, agent, "agent-fake");
    push_header(&mut bytes, host, "host-fake");
    assert(bytes@ =~= encode_utf8("loginmanager"@) + header_part(*agent, "agent-fake"@)
        + header_part(*host, "host-fake"@));
    let digest = sha256(bytes.as_slice());
    to_hex(digest.as_slice())
}

/// The host part of a `host:port` address: everything before the first `:`.
pub open spec fn host_part(addr: Seq<char>) -> Seq<char>
    decreases addr.len(),
{
    if addr.len() == 0 {
        Seq::empty()
    } else if addr[0] == ':' {
        Seq::empty()
    } else {
        seq![addr[0]] + host_part(addr.drop_first())
    }
}

/// The fingerprint of a request from the peer address `addr` with this
/// `User-Agent` header; a header that is not text contributes nothing.
pub open spec fn remote_fingerprint_spec(addr: Option<Seq<char>>, agent: HeaderText) -> Seq<char> {
    hex_of(
        sha256_of(
            match addr {
                Some(a) => encode_utf8(host_part(a)),
                None => Seq::empty(),
            } + match agent {
                HeaderText::Text(s) => encode_utf8(s@),
                _ => Seq::empty(),
            },
        ),
    )
}

fn host_of(addr: &str) -> (r: String)
    ensures
        r@ == host_part(addr@),
{
    let a = chars_of(addr);
    let n = a.len();
    let mut out: Vec<char> = Vec::new();
    let mut i: usize = 0;
    assert(a@.subrange(0, n as int) =~= a@);
    while i < n && a[i] != ':'
        invariant
            0 <= i <= n == a@.len(),
            a@ == addr@,
            host_part(a@) == out@ + host_part(a@.subrange(i as int, n as int)),
        decreases n - i,
    {
        let c = a[i];
        let ghost rest = a@.subrange(i as int, n as int);
        assert(rest.drop_first() =~= a@.subrange(i + 1, n as int));
        assert(out@ + (seq![c] + host_part(rest.drop_first())) =~= out@.push(c) + host_part(
            rest.drop_first(),
        ));
        out.push(c);
        i = i + 1;
    }
    assert(out@ + Seq::<char>::empty() =~= out@);
    string_of(&out)
}

/// The fingerprint of a request from the peer address `remote_addr`
/// (`host:port`) with this `User-Agent` header: the hex-encoded SHA-256
/// digest of the address's host part and the header's text.
pub fn remote_fingerprint(remote_addr: &Option<String>, agent: &HeaderText) -> (r: String)
    ensures
        r@ == remote_fingerprint_spec(opt_chars(*remote_addr), *agent),
{
    let mut bytes: Vec<u8> = Vec::new();
    match remote_addr {
        Some(a) => {
            let h = host_of(a.as_str());
            bytes.extend_from_slice(h.as_str().as_bytes());
        },
        None => {},
    }
    let ghost first = bytes@;
    match agent {
        HeaderText::Text(s) => {
            bytes.extend_from_slice(s.as_str().as_bytes());
        },
        _ => {
            assert(bytes@ =~= first + Seq::<u8>::empty());
        },
    }
    assert(bytes@ =~= match opt_chars(*remote_addr) {
        Some(a) => encode_utf8(host_part(a)),
        None => Seq::<u8>::empty(),
    } + match *agent {
        HeaderText::Text(s) => encode_utf8(s@),
        _ => Seq::<u8>::empty(),
    });
    let digest = sha256(bytes.as_slice());
    to_hex(digest.as_slice())
}

} // verus!
