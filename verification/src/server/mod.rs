//! What the transport decides: whether a connection speaks TLS, and which
//! protocols the server offers over TLS.
use vstd::prelude::*;
use vstd::string::*;

verus! {

/// The first octet of a TLS connection: the content type of a handshake record.
pub const TLS_HANDSHAKE: u8 = 22;

/// Whether a connection that begins with the octet `first` speaks TLS. A
/// server that takes HTTP and HTTPS on one port looks at the first octet
/// of each connection, without taking it, and hands a connection that
/// begins with a TLS handshake to the TLS acceptor.
pub fn is_tls(first: u8) -> (r: bool)
    ensures
        r == (first == TLS_HANDSHAKE),
{
    first == TLS_HANDSHAKE
}

/// The protocols that the server offers over TLS, the one it likes best first.
pub open spec fn alpn_names() -> Seq<Seq<char>> {
    seq!["h2"@, "http/1.1"@, "http/1.0"@]
}

/// The protocols that the server offers over TLS, as ALPN names them:
/// `h2`, `http/1.1` and `http/1.0`.
pub fn alpn_protocols() -> (r: Vec<Vec<u8>>)
    ensures
        r@.len() == 3,
        forall|i: int| 0 <= i < 3 ==> (#[trigger] r@[i])@ == vstd::utf8::encode_utf8(alpn_names()[i]),
{
    let mut r: Vec<Vec<u8>> = Vec::new();
    r.push("h2".as_bytes_vec());
    r.push("http/1.1".as_bytes_vec());
    r.push("http/1.0".as_bytes_vec());
    r
}

} // verus!
