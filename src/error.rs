use vstd::prelude::*;

verus! {

/// Declares `std::io::ErrorKind`, carried opaquely by `Socks5Error::IoError`.
#[verifier::external_type_specification]
#[verifier::external_body]
pub struct ExIoErrorKind(std::io::ErrorKind);

/// Every way in which a connect attempt through a SOCKS5 proxy can fail.
#[derive(Clone, Copy, Debug)]
pub enum Socks5Error {
    /// The proxy chose no authentication method that was offered.
    HandshakeFailed,
    /// The proxy answered the CONNECT request with a nonzero status.
    ConnectionFailed,
    /// A reply had a length or an address type that fits no known shape.
    UnexpectedResponse,
    /// A domain name or a credential does not fit its one-byte length prefix.
    UnsupportedAddressType,
    /// The proxy refused the credentials, or asked for credentials that were
    /// not supplied.
    AuthenticationFailed,
    /// The transport under the handshake failed.
    IoError(std::io::ErrorKind),
}

/// The text that describes each error but a transport failure.
pub open spec fn message_of(e: Socks5Error) -> Seq<char> {
    match e {
        Socks5Error::HandshakeFailed => "handshake failed"@,
        Socks5Error::ConnectionFailed => "connection failed"@,
        Socks5Error::UnexpectedResponse => "unexpected response"@,
        Socks5Error::UnsupportedAddressType => "unsupported address type"@,
        Socks5Error::AuthenticationFailed => "authentication failed"@,
        Socks5Error::IoError(_) => Seq::empty(),
    }
}

/// Relies on the `Display` impl of `std::io::ErrorKind`, which describes the
/// kind of a transport failure.
#[verifier::external_body]
fn io_kind_text(kind: std::io::ErrorKind) -> String {
    format!("{}", kind)
}

impl Socks5Error {
    /// A short description of the error, for people to read.
    pub fn message(&self) -> (r: String)
        ensures
            !(*self is IoError) ==> r@ == message_of(*self),
    {
        match self {
            Socks5Error::HandshakeFailed => "handshake failed".to_owned(),
            Socks5Error::ConnectionFailed => "connection failed".to_owned(),
            Socks5Error::UnexpectedResponse => "unexpected response".to_owned(),
            Socks5Error::UnsupportedAddressType => "unsupported address type".to_owned(),
            Socks5Error::AuthenticationFailed => "authentication failed".to_owned(),
            Socks5Error::IoError(kind) => io_kind_text(*kind),
        }
    }
}

} // verus!
