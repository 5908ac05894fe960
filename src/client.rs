use vstd::prelude::*;

use crate::address::{connect_request, push_all, request_bytes, target_valid, TargetAddress};
use crate::error::Socks5Error;
use crate::negotiation::{
    auth_bytes, auth_request, auth_result, check_auth_reply, credentials_valid, greeting,
    greeting_bytes, method_result, select_method, Credentials, Method,
};
use crate::reply::{reply_progress, reply_progress_of, ReplyProgress};

verus! {

/// Where a connect attempt stands.
#[derive(Clone, Copy, Debug, PartialEq, Eq, Structural)]
pub enum Stage {
    /// The greeting was sent; the proxy's choice of method is awaited.
    Negotiating,
    /// The username/password request was sent; its status is awaited.
    Authenticating,
    /// The CONNECT request was sent; its reply is being read.
    Requesting,
    /// The proxy connected to the target: the stream is the caller's.
    Established,
    /// The attempt failed; the stream should be dropped.
    Failed,
}

/// What the transport has to do next for a connect attempt.
#[derive(Debug)]
pub enum Action {
    /// Write all of `bytes`, then read exactly `read` bytes and hand them to
    /// `Socks5Client::advance`.
    Send { bytes: Vec<u8>, read: usize },
    /// Read exactly this many more bytes and hand them to
    /// `Socks5Client::advance`.
    Read(usize),
    /// The handshake is done: the stream is connected to the target.
    Established,
    /// The attempt failed with this error.
    Failed(Socks5Error),
}

/// The mathematical content of an `Action`.
pub enum ActionView {
    Send(Seq<u8>, usize),
    Read(usize),
    Established,
    Failed(Socks5Error),
}

impl View for Action {
    type V = ActionView;

    open spec fn view(&self) -> ActionView {
        match self {
            Action::Send { bytes, read } => ActionView::Send(bytes@, *read),
            Action::Read(n) => ActionView::Read(*n),
            Action::Established => ActionView::Established,
            Action::Failed(e) => ActionView::Failed(*e),
        }
    }
}

/// The state of one connect attempt through a SOCKS5 proxy.
///
/// The client performs no I/O. Its constructors give the first `Action`,
/// and `advance` takes the bytes that each read brought and gives the next
/// one, until the attempt is `Established` or has `Failed`.
pub struct Socks5Client {
    pub stage: Stage,
    /// The credentials offered, if any.
    pub credentials: Option<Credentials>,
    /// The encoded CONNECT request.
    pub request: Vec<u8>,
    /// The bytes of the CONNECT reply received so far.
    pub reply: Vec<u8>,
}

/// The constructors' conditions for success: the target and the
/// credentials fit their length bytes.
pub open spec fn attempt_valid(target: TargetAddress, credentials: Option<Credentials>) -> bool {
    &&& target_valid(target)
    &&& credentials matches Some(c) ==> credentials_valid(c)
}

/// A failure, with the stage, the reply so far and the action it gives.
pub open spec fn fail(reply: Seq<u8>, e: Socks5Error) -> (Stage, Seq<u8>, ActionView) {
    (Stage::Failed, reply, ActionView::Failed(e))
}

/// The CONNECT request goes out and its 4-byte header is awaited.
pub open spec fn send_request(request: Seq<u8>) -> (Stage, Seq<u8>, ActionView) {
    (Stage::Requesting, Seq::empty(), ActionView::Send(request, 4))
}

/// One transition of the handshake: from the stage, the credentials, the
/// request and the reply bytes so far, on the bytes `input` that the last
/// read brought, to the next stage, the reply bytes so far and the action.
pub open spec fn step(
    stage: Stage,
    credentials: Option<Credentials>,
    request: Seq<u8>,
    reply: Seq<u8>,
    input: Seq<u8>,
) -> (Stage, Seq<u8>, ActionView) {
    match stage {
        Stage::Negotiating => match method_result(input, credentials is Some) {
            Ok(Method::NoAuthentication) => send_request(request),
            Ok(Method::UsernamePassword) => {
                let c = credentials->0;
                if credentials_valid(c) {
                    (Stage::Authenticating, reply, ActionView::Send(auth_bytes(c), 2))
                } else {
                    fail(reply, Socks5Error::UnsupportedAddressType)
                }
            },
            Err(e) => fail(reply, e),
        },
        Stage::Authenticating => match auth_result(input) {
            Ok(()) => send_request(request),
            Err(e) => fail(reply, e),
        },
        Stage::Requesting => {
            let buf = reply + input;
            match reply_progress_of(buf) {
                ReplyProgress::NeedMore(n) => (Stage::Requesting, buf, ActionView::Read(n)),
                ReplyProgress::Complete(n) => if n == buf.len() {
                    (Stage::Established, buf, ActionView::Established)
                } else {
                    fail(buf, Socks5Error::UnexpectedResponse)
                },
                ReplyProgress::Failed(e) => fail(buf, e),
            }
        },
        _ => (stage, reply, ActionView::Failed(Socks5Error::UnexpectedResponse)),
    }
}

impl Socks5Client {
    /// Starts an attempt to connect through the proxy to `target`, offering
    /// `credentials` if given.
    ///
    /// A domain name or a credential field longer than 255 bytes is refused
    /// with `UnsupportedAddressType` before anything is sent. Otherwise the
    /// first action sends the greeting and reads the 2-byte method reply.
    pub fn connect(target: &TargetAddress, credentials: Option<Credentials>) -> (r: Result<
        (Socks5Client, Action),
        Socks5Error,
    >)
        ensures
            r is Ok <==> attempt_valid(*target, credentials),
            r matches Ok((c, a)) ==> {
                &&& c.stage == Stage::Negotiating
                &&& c.credentials == credentials
                &&& c.request@ == request_bytes(*target)
                &&& c.reply@ == Seq::<u8>::empty()
                &&& a@ == ActionView::Send(greeting_bytes(credentials is Some), 2)
            },
            r matches Err(e) ==> e == Socks5Error::UnsupportedAddressType,
    {
        let request = match connect_request(target) {
            Ok(v) => v,
            Err(e) => return Err(e),
        };
        let with_credentials = match &credentials {
            Some(c) => {
                if auth_request(c).is_err() {
                    return Err(Socks5Error::UnsupportedAddressType);
                }
                true
            },
            None => false,
        };
        let client = Socks5Client {
            stage: Stage::Negotiating,
            credentials,
            request,
            reply: Vec::new(),
        };
        let action = Action::Send { bytes: greeting(with_credentials), read: 2 };
        Ok((client, action))
    }

    /// Starts an attempt to connect through the proxy to `domain`:`port`,
    /// leaving the name to the proxy to resolve; as `connect` with a
    /// domain target.
    pub fn connect_with_domain(
        domain: &[u8],
        port: u16,
        credentials: Option<Credentials>,
    ) -> (r: Result<(Socks5Client, Action), Socks5Error>)
        ensures
            r is Ok <==> domain@.len() <= 255 && (credentials matches Some(c) ==> credentials_valid(c)),
            r matches Ok((c, a)) ==> {
                &&& c.stage == Stage::Negotiating
                &&& c.credentials == credentials
                &&& c.request@ == seq![0x05u8, 0x01u8, 0x00u8, 0x03u8, domain@.len() as u8] + domain@
                    + seq![(port / 256) as u8, (port % 256) as u8]
                &&& c.reply@ == Seq::<u8>::empty()
                &&& a@ == ActionView::Send(greeting_bytes(credentials is Some), 2)
            },
            r matches Err(e) ==> e == Socks5Error::UnsupportedAddressType,
    {
        let mut name: Vec<u8> = Vec::new();
        push_all(&mut name, domain);
        assert(name@ =~= domain@);
        let target = TargetAddress::Domain { name, port };
        let r = Socks5Client::connect(&target, credentials);
        proof {
            if r is Ok {
                assert(request_bytes(target) =~= seq![0x05u8, 0x01u8, 0x00u8, 0x03u8, domain@.len() as u8] + domain@
                    + seq![(port / 256) as u8, (port % 256) as u8]);
            }
        }
        r
    }

    /// Takes the bytes that the last read brought and gives the next action.
    ///
    /// The greeting's reply picks the method: no authentication sends the
    /// CONNECT request, username/password sends the credentials, anything
    /// else fails. The authentication reply's status must be 0. The CONNECT
    /// reply is read in parts: its 4-byte header, then as many bytes as its
    /// address type demands and the port. A read of another length than was
    /// asked, or a call after the attempt ended, gives `UnexpectedResponse`.
    pub fn advance(&mut self, input: &[u8]) -> (r: Action)
        ensures
            final(self).credentials == old(self).credentials,
            final(self).request@ == old(self).request@,
            (final(self).stage, final(self).reply@, r@) == step(
                old(self).stage,
                old(self).credentials,
                old(self).request@,
                old(self).reply@,
                input@,
            ),
    {
        match self.stage {
            Stage::Negotiating => {
                match select_method(input, self.credentials.is_some()) {
                    Ok(Method::NoAuthentication) => self.send_request(),
                    Ok(Method::UsernamePassword) => {
                        let auth = match &self.credentials {
                            Some(c) => auth_request(c),
                            None => Err(Socks5Error::AuthenticationFailed),
                        };
                        match auth {
                            Ok(bytes) => {
                                self.stage = Stage::Authenticating;
                                Action::Send { bytes, read: 2 }
                            },
                            Err(e) => self.fail(e),
                        }
                    },
                    Err(e) => self.fail(e),
                }
            },
            Stage::Authenticating => match check_auth_reply(input) {
                Ok(()) => self.send_request(),
                Err(e) => self.fail(e),
            },
            Stage::Requesting => {
                push_all(&mut self.reply, input);
                match reply_progress(self.reply.as_slice()) {
                    ReplyProgress::NeedMore(n) => Action::Read(n),
                    ReplyProgress::Complete(n) => {
                        if n == self.reply.len() {
                            self.stage = Stage::Established;
                            Action::Established
                        } else {
                            self.fail(Socks5Error::UnexpectedResponse)
                        }
                    },
                    ReplyProgress::Failed(e) => self.fail(e),
                }
            },
            _ => Action::Failed(Socks5Error::UnexpectedResponse),
        }
    }

    fn fail(&mut self, e: Socks5Error) -> (r: Action)
        ensures
            final(self).stage == Stage::Failed,
            final(self).credentials == old(self).credentials,
            final(self).request@ == old(self).request@,
            final(self).reply@ == old(self).reply@,
            r@ == ActionView::Failed(e),
    {
        self.stage = Stage::Failed;
        Action::Failed(e)
    }

    fn send_request(&mut self) -> (r: Action)
        ensures
            (final(self).stage, final(self).reply@, r@) == send_request(old(self).request@),
            final(self).credentials == old(self).credentials,
            final(self).request@ == old(self).request@,
    {
        self.stage = Stage::Requesting;
        self.reply = Vec::new();
        let mut bytes: Vec<u8> = Vec::new();
        push_all(&mut bytes, self.request.as_slice());
        assert(bytes@ =~= self.request@);
        Action::Send { bytes, read: 4 }
    }
}

/// A greeting reply whose method is neither "no authentication" nor
/// "username/password" (such as 0xFF, no acceptable method) fails the
/// attempt with `HandshakeFailed`.
pub proof fn unacceptable_method_fails(
    credentials: Option<Credentials>,
    request: Seq<u8>,
    reply: Seq<u8>,
    input: Seq<u8>,
)
    requires
        input.len() == 2,
        input[1] != 0x00,
        input[1] != 0x02,
    ensures
        step(Stage::Negotiating, credentials, request, reply, input) == fail(
            reply,
            Socks5Error::HandshakeFailed,
        ),
{
}

/// A nonzero status in the authentication reply fails the attempt with
/// `AuthenticationFailed`; status 0 succeeds and sends the CONNECT request.
pub proof fn auth_status_decides(
    credentials: Option<Credentials>,
    request: Seq<u8>,
    reply: Seq<u8>,
    input: Seq<u8>,
)
    requires
        input.len() == 2,
    ensures
        input[1] != 0x00 ==> step(Stage::Authenticating, credentials, request, reply, input)
            == fail(reply, Socks5Error::AuthenticationFailed),
        input[1] == 0x00 ==> step(Stage::Authenticating, credentials, request, reply, input)
            == send_request(request),
{
}

/// A CONNECT reply with status 0 and an IPv4 bound address is read as its
/// 4-byte header and then 6 bytes (address and port), and establishes the
/// connection; one with a nonzero status fails with `ConnectionFailed` as
/// soon as its header is read.
pub proof fn ipv4_reply_establishes(
    credentials: Option<Credentials>,
    request: Seq<u8>,
    header: Seq<u8>,
    tail: Seq<u8>,
)
    requires
        header.len() == 4,
        header[3] == 0x01,
        tail.len() == 6,
    ensures
        header[1] == 0x00 ==> step(Stage::Requesting, credentials, request, Seq::empty(), header)
            == (Stage::Requesting, header, ActionView::Read(6)),
        header[1] == 0x00 ==> step(Stage::Requesting, credentials, request, header, tail) == (
            Stage::Established,
            header + tail,
            ActionView::Established,
        ),
        header[1] != 0x00 ==> step(Stage::Requesting, credentials, request, Seq::empty(), header)
            == fail(header, Socks5Error::ConnectionFailed),
{
    assert(Seq::<u8>::empty() + header =~= header);
    let buf = header + tail;
    assert(buf[1] == header[1] && buf[3] == header[3]);
}

/// A CONNECT reply with status 0 and an IPv6 bound address is read as its
/// 4-byte header and then exactly 18 bytes (16 of address, 2 of port), 22
/// in all, and establishes the connection.
pub proof fn ipv6_reply_establishes(
    credentials: Option<Credentials>,
    request: Seq<u8>,
    header: Seq<u8>,
    tail: Seq<u8>,
)
    requires
        header.len() == 4,
        header[1] == 0x00,
        header[3] == 0x04,
        tail.len() == 18,
    ensures
        step(Stage::Requesting, credentials, request, Seq::empty(), header) == (
            Stage::Requesting,
            header,
            ActionView::Read(18),
        ),
        step(Stage::Requesting, credentials, request, header, tail) == (
            Stage::Established,
            header + tail,
            ActionView::Established,
        ),
{
    assert(Seq::<u8>::empty() + header =~= header);
    let buf = header + tail;
    assert(buf[1] == header[1] && buf[3] == header[3]);
}

} // verus!
