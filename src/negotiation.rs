use vstd::prelude::*;

use crate::address::{push_all, MAX_FIELD_LEN};
use crate::error::Socks5Error;

verus! {

/// A username and a password for the username/password subnegotiation.
#[derive(Clone, Debug)]
pub struct Credentials {
    pub username: Vec<u8>,
    pub password: Vec<u8>,
}

/// Both fields fit their one-byte length prefixes.
pub open spec fn credentials_valid(c: Credentials) -> bool {
    c.username@.len() <= 255 && c.password@.len() <= 255
}

/// The method greeting: version 5, the number of methods, and the methods
/// offered (no authentication, and username/password when credentials are
/// at hand).
pub open spec fn greeting_bytes(with_credentials: bool) -> Seq<u8> {
    if with_credentials {
        seq![0x05u8, 0x02u8, 0x00u8, 0x02u8]
    } else {
        seq![0x05u8, 0x01u8, 0x00u8]
    }
}

/// The username/password request: version 1, then each field behind its
/// length byte.
pub open spec fn auth_bytes(c: Credentials) -> Seq<u8> {
    seq![0x01u8, c.username@.len() as u8] + c.username@ + seq![c.password@.len() as u8]
        + c.password@
}

/// The authentication methods that this client can take part in.
#[derive(Clone, Copy, Debug, PartialEq, Eq, Structural)]
pub enum Method {
    NoAuthentication,
    UsernamePassword,
}

/// What the two-byte reply to the greeting decides.
pub open spec fn method_result(reply: Seq<u8>, with_credentials: bool) -> Result<
    Method,
    Socks5Error,
> {
    if reply.len() != 2 {
        Err(Socks5Error::UnexpectedResponse)
    } else if reply[1] == 0x00 {
        Ok(Method::NoAuthentication)
    } else if reply[1] == 0x02 {
        if with_credentials {
            Ok(Method::UsernamePassword)
        } else {
            Err(Socks5Error::AuthenticationFailed)
        }
    } else {
        Err(Socks5Error::HandshakeFailed)
    }
}

/// What the two-byte reply to the username/password request decides.
pub open spec fn auth_result(reply: Seq<u8>) -> Result<(), Socks5Error> {
    if reply.len() != 2 {
        Err(Socks5Error::UnexpectedResponse)
    } else if reply[1] != 0x00 {
        Err(Socks5Error::AuthenticationFailed)
    } else {
        Ok(())
    }
}

/// The greeting that opens a handshake.
pub fn greeting(with_credentials: bool) -> (r: Vec<u8>)
    ensures
        r@ == greeting_bytes(with_credentials),
{
    let r: Vec<u8> = if with_credentials {
        vec![0x05, 0x02, 0x00, 0x02]
    } else {
        vec![0x05, 0x01, 0x00]
    };
    assert(r@ =~= greeting_bytes(with_credentials));
    r
}

/// Encodes the username/password request.
///
/// A field longer than 255 bytes is refused with `UnsupportedAddressType`
/// before anything is sent.
pub fn auth_request(credentials: &Credentials) -> (r: Result<Vec<u8>, Socks5Error>)
    ensures
        r is Ok <==> credentials_valid(*credentials),
        r matches Ok(v) ==> v@ == auth_bytes(*credentials),
        r matches Err(e) ==> e == Socks5Error::UnsupportedAddressType,
{
    if credentials.username.len() > MAX_FIELD_LEN || credentials.password.len() > MAX_FIELD_LEN {
        return Err(Socks5Error::UnsupportedAddressType);
    }
    let mut request: Vec<u8> = vec![0x01];
    request.push(credentials.username.len() as u8);
    push_all(&mut request, credentials.username.as_slice());
    request.push(credentials.password.len() as u8);
    push_all(&mut request, credentials.password.as_slice());
    assert(request@ =~= auth_bytes(*credentials));
    Ok(request)
}

/// Reads the proxy's choice of method out of its reply to the greeting.
///
/// No authentication goes on to the request; username/password goes on to
/// the subnegotiation when credentials were offered, and fails with
/// `AuthenticationFailed` when they were not; any other method (0xFF among
/// them) fails with `HandshakeFailed`.
pub fn select_method(reply: &[u8], with_credentials: bool) -> (r: Result<Method, Socks5Error>)
    ensures
        r == method_result(reply@, with_credentials),
{
    if reply.len() != 2 {
        Err(Socks5Error::UnexpectedResponse)
    } else if reply[1] == 0x00 {
        Ok(Method::NoAuthentication)
    } else if reply[1] == 0x02 {
        if with_credentials {
            Ok(Method::UsernamePassword)
        } else {
            Err(Socks5Error::AuthenticationFailed)
        }
    } else {
        Err(Socks5Error::HandshakeFailed)
    }
}

/// Reads the status out of the reply to the username/password request.
pub fn check_auth_reply(reply: &[u8]) -> (r: Result<(), Socks5Error>)
    ensures
        r == auth_result(reply@),
{
    if reply.len() != 2 {
        Err(Socks5Error::UnexpectedResponse)
    } else if reply[1] != 0x00 {
        Err(Socks5Error::AuthenticationFailed)
    } else {
        Ok(())
    }
}

} // verus!
