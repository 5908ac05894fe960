use vstd::prelude::*;

use crate::error::Socks5Error;

verus! {

/// How far the bytes received so far go towards a whole CONNECT reply.
#[derive(Clone, Copy, Debug)]
pub enum ReplyProgress {
    /// This many more bytes are needed before the reply can be judged.
    NeedMore(usize),
    /// The reply is whole and takes this many bytes.
    Complete(usize),
    /// The reply is a failure, or fits no known shape.
    Failed(Socks5Error),
}

/// The length of the fixed header: version, status, reserved, address type.
pub const REPLY_HEADER_LEN: usize = 4;

/// A reply of `total` bytes of which `have` have come.
pub open spec fn complete_or_more(have: nat, total: nat) -> ReplyProgress {
    if have < total {
        ReplyProgress::NeedMore((total - have) as usize)
    } else {
        ReplyProgress::Complete(total as usize)
    }
}

/// What the leading bytes `r` of a CONNECT reply tell: a nonzero status is
/// `ConnectionFailed`; otherwise the bound address takes 4 bytes (IPv4), 16
/// (IPv6) or a length byte and that many bytes (domain), and 2 port bytes
/// follow; any other address type is `UnexpectedResponse`.
pub open spec fn reply_progress_of(r: Seq<u8>) -> ReplyProgress {
    if r.len() < 4 {
        ReplyProgress::NeedMore((4 - r.len()) as usize)
    } else if r[1] != 0x00 {
        ReplyProgress::Failed(Socks5Error::ConnectionFailed)
    } else if r[3] == 0x01 {
        complete_or_more(r.len(), 4 + 4 + 2)
    } else if r[3] == 0x04 {
        complete_or_more(r.len(), 4 + 16 + 2)
    } else if r[3] == 0x03 {
        if r.len() < 5 {
            ReplyProgress::NeedMore(1)
        } else {
            complete_or_more(r.len(), (4 + 1 + r[4] + 2) as nat)
        }
    } else {
        ReplyProgress::Failed(Socks5Error::UnexpectedResponse)
    }
}

/// The outcome of parsing a whole CONNECT reply at the start of `r`: the
/// number of bytes it takes, or why it failed; a reply cut short is
/// `UnexpectedResponse`.
pub open spec fn reply_result(r: Seq<u8>) -> Result<usize, Socks5Error> {
    match reply_progress_of(r) {
        ReplyProgress::NeedMore(_) => Err(Socks5Error::UnexpectedResponse),
        ReplyProgress::Complete(n) => Ok(n),
        ReplyProgress::Failed(e) => Err(e),
    }
}

fn complete_or_more_exec(have: usize, total: usize) -> (r: ReplyProgress)
    ensures
        r == complete_or_more(have as nat, total as nat),
{
    if have < total {
        ReplyProgress::NeedMore(total - have)
    } else {
        ReplyProgress::Complete(total)
    }
}

/// Judges the bytes of a CONNECT reply received so far.
pub fn reply_progress(r: &[u8]) -> (p: ReplyProgress)
    ensures
        p == reply_progress_of(r@),
{
    if r.len() < REPLY_HEADER_LEN {
        ReplyProgress::NeedMore(REPLY_HEADER_LEN - r.len())
    } else if r[1] != 0x00 {
        ReplyProgress::Failed(Socks5Error::ConnectionFailed)
    } else if r[3] == 0x01 {
        complete_or_more_exec(r.len(), 4 + 4 + 2)
    } else if r[3] == 0x04 {
        complete_or_more_exec(r.len(), 4 + 16 + 2)
    } else if r[3] == 0x03 {
        if r.len() < 5 {
            ReplyProgress::NeedMore(1)
        } else {
            complete_or_more_exec(r.len(), 4 + 1 + r[4] as usize + 2)
        }
    } else {
        ReplyProgress::Failed(Socks5Error::UnexpectedResponse)
    }
}

/// Parses a CONNECT reply at the start of `r`, returning how many bytes it
/// takes; the bound address is read by its type, never by a fixed length.
pub fn parse_connect_reply(r: &[u8]) -> (res: Result<usize, Socks5Error>)
    ensures
        res == reply_result(r@),
        res matches Ok(n) ==> n <= r@.len(),
{
    match reply_progress(r) {
        ReplyProgress::NeedMore(_) => Err(Socks5Error::UnexpectedResponse),
        ReplyProgress::Complete(n) => Ok(n),
        ReplyProgress::Failed(e) => Err(e),
    }
}

/// A reply with status 0 and an IPv6 bound address takes exactly the
/// 4-byte header, 16 address bytes and 2 port bytes, whatever follows it.
pub proof fn ipv6_reply_takes_22_bytes(r: Seq<u8>)
    requires
        r.len() >= 22,
        r[1] == 0x00,
        r[3] == 0x04,
    ensures
        reply_result(r) == Ok::<usize, Socks5Error>(22),
{
}

/// A reply with status 0 and an IPv4 bound address takes exactly the
/// 4-byte header, 4 address bytes and 2 port bytes.
pub proof fn ipv4_reply_takes_10_bytes(r: Seq<u8>)
    requires
        r.len() >= 10,
        r[1] == 0x00,
        r[3] == 0x01,
    ensures
        reply_result(r) == Ok::<usize, Socks5Error>(10),
{
}

/// Any nonzero status fails the reply with `ConnectionFailed`, whatever the
/// bound address.
pub proof fn nonzero_status_fails(r: Seq<u8>)
    requires
        r.len() >= 4,
        r[1] != 0x00,
    ensures
        reply_result(r) == Err::<usize, Socks5Error>(Socks5Error::ConnectionFailed),
{
}

} // verus!
