use async_socks5::{
    auth_request, check_auth_reply, connect_request, greeting, parse_connect_reply,
    reply_progress, select_method, Action, AddrType, Credentials, Method, ReplyProgress,
    Socks5Client, Socks5Error, Stage, TargetAddress,
};

fn creds(user: &str, pass: &str) -> Credentials {
    Credentials { username: user.as_bytes().to_vec(), password: pass.as_bytes().to_vec() }
}

fn sent(action: Action) -> (Vec<u8>, usize) {
    match action {
        Action::Send { bytes, read } => (bytes, read),
        other => panic!("expected a send, got {:?}", other),
    }
}

#[test]
fn addr_type_bytes() {
    assert_eq!(AddrType::IPv4.as_byte(), 0x01);
    assert_eq!(AddrType::DomainName.as_byte(), 0x03);
    assert_eq!(AddrType::IPv6.as_byte(), 0x04);
}

#[test]
fn ipv4_request_layout() {
    let t = TargetAddress::IPv4 { octets: [192, 168, 1, 20], port: 0x1F90 };
    let r = connect_request(&t).unwrap();
    assert_eq!(r, vec![0x05, 0x01, 0x00, 0x01, 192, 168, 1, 20, 0x1F, 0x90]);
}

#[test]
fn ipv6_request_layout() {
    let mut octets = [0u8; 16];
    octets[0] = 0x20;
    octets[1] = 0x01;
    octets[15] = 0x01;
    let t = TargetAddress::IPv6 { octets, port: 443 };
    let r = connect_request(&t).unwrap();
    let mut expected = vec![0x05, 0x01, 0x00, 0x04];
    expected.extend_from_slice(&octets);
    expected.extend_from_slice(&[0x01, 0xBB]);
    assert_eq!(r, expected);
}

#[test]
fn domain_request_layout() {
    let t = TargetAddress::Domain { name: b"example.com".to_vec(), port: 443 };
    let r = connect_request(&t).unwrap();
    assert_eq!(
        r,
        vec![
            0x05, 0x01, 0x00, 0x03, 0x0B, 0x65, 0x78, 0x61, 0x6D, 0x70, 0x6C, 0x65, 0x2E, 0x63,
            0x6F, 0x6D, 0x01, 0xBB
        ]
    );
}

#[test]
fn domain_of_255_bytes_is_accepted() {
    let t = TargetAddress::Domain { name: vec![b'a'; 255], port: 80 };
    let r = connect_request(&t).unwrap();
    assert_eq!(r.len(), 4 + 1 + 255 + 2);
    assert_eq!(r[4], 255);
}

#[test]
fn domain_of_256_bytes_is_refused() {
    let t = TargetAddress::Domain { name: vec![b'a'; 256], port: 80 };
    assert!(matches!(connect_request(&t), Err(Socks5Error::UnsupportedAddressType)));
    let r = Socks5Client::connect_with_domain(&vec![b'a'; 256], 80, None);
    assert!(matches!(r, Err(Socks5Error::UnsupportedAddressType)));
}

#[test]
fn greetings() {
    assert_eq!(greeting(false), vec![0x05, 0x01, 0x00]);
    assert_eq!(greeting(true), vec![0x05, 0x02, 0x00, 0x02]);
}

#[test]
fn auth_request_layout() {
    let r = auth_request(&creds("bob", "pw")).unwrap();
    assert_eq!(r, vec![0x01, 3, b'b', b'o', b'b', 2, b'p', b'w']);
    let empty = auth_request(&creds("", "")).unwrap();
    assert_eq!(empty, vec![0x01, 0, 0]);
}

#[test]
fn oversized_credentials_are_refused() {
    let long = Credentials { username: vec![b'u'; 256], password: b"pw".to_vec() };
    assert!(matches!(auth_request(&long), Err(Socks5Error::UnsupportedAddressType)));
    let t = TargetAddress::IPv4 { octets: [127, 0, 0, 1], port: 80 };
    assert!(matches!(Socks5Client::connect(&t, Some(long)), Err(Socks5Error::UnsupportedAddressType)));
}

#[test]
fn method_selection() {
    assert_eq!(select_method(&[0x05, 0x00], false).unwrap(), Method::NoAuthentication);
    assert_eq!(select_method(&[0x05, 0x02], true).unwrap(), Method::UsernamePassword);
    assert!(matches!(select_method(&[0x05, 0x02], false), Err(Socks5Error::AuthenticationFailed)));
    assert!(matches!(select_method(&[0x05, 0xFF], true), Err(Socks5Error::HandshakeFailed)));
    assert!(matches!(select_method(&[0x05, 0xFF], false), Err(Socks5Error::HandshakeFailed)));
    assert!(matches!(select_method(&[0x05], false), Err(Socks5Error::UnexpectedResponse)));
}

#[test]
fn auth_reply_status() {
    assert!(check_auth_reply(&[0x01, 0x00]).is_ok());
    assert!(matches!(check_auth_reply(&[0x01, 0x01]), Err(Socks5Error::AuthenticationFailed)));
    assert!(matches!(check_auth_reply(&[0x01]), Err(Socks5Error::UnexpectedResponse)));
}

#[test]
fn ipv6_reply_takes_22_bytes() {
    let mut reply = vec![0x05, 0x00, 0x00, 0x04];
    reply.extend_from_slice(&[0xAB; 16]);
    reply.extend_from_slice(&[0x1F, 0x90]);
    assert_eq!(parse_connect_reply(&reply).unwrap(), 22);
    reply.extend_from_slice(b"payload");
    assert_eq!(parse_connect_reply(&reply).unwrap(), 22);
}

#[test]
fn ipv4_and_domain_replies() {
    let v4 = [0x05, 0x00, 0x00, 0x01, 10, 0, 0, 1, 0x00, 0x50];
    assert_eq!(parse_connect_reply(&v4).unwrap(), 10);
    let mut dom = vec![0x05, 0x00, 0x00, 0x03, 3, b'a', b'b', b'c', 0x00, 0x50];
    assert_eq!(parse_connect_reply(&dom).unwrap(), 10);
    dom.pop();
    assert!(matches!(parse_connect_reply(&dom), Err(Socks5Error::UnexpectedResponse)));
}

#[test]
fn reply_failures() {
    let refused = [0x05, 0x05, 0x00, 0x01, 0, 0, 0, 0, 0, 0];
    assert!(matches!(parse_connect_reply(&refused), Err(Socks5Error::ConnectionFailed)));
    let odd_type = [0x05, 0x00, 0x00, 0x07, 0, 0, 0, 0, 0, 0];
    assert!(matches!(parse_connect_reply(&odd_type), Err(Socks5Error::UnexpectedResponse)));
    assert!(matches!(parse_connect_reply(&[0x05, 0x00]), Err(Socks5Error::UnexpectedResponse)));
}

#[test]
fn reply_progress_steps() {
    assert!(matches!(reply_progress(&[]), ReplyProgress::NeedMore(4)));
    assert!(matches!(reply_progress(&[5, 0, 0, 4]), ReplyProgress::NeedMore(18)));
    assert!(matches!(reply_progress(&[5, 0, 0, 3]), ReplyProgress::NeedMore(1)));
    assert!(matches!(reply_progress(&[5, 0, 0, 3, 9]), ReplyProgress::NeedMore(11)));
    assert!(matches!(reply_progress(&[5, 0, 0, 1]), ReplyProgress::NeedMore(6)));
}

#[test]
fn session_without_credentials() {
    let t = TargetAddress::IPv4 { octets: [1, 2, 3, 4], port: 80 };
    let (mut c, first) = Socks5Client::connect(&t, None).unwrap();
    assert_eq!(sent(first), (vec![0x05, 0x01, 0x00], 2));
    let (req, n) = sent(c.advance(&[0x05, 0x00]));
    assert_eq!(req, vec![0x05, 0x01, 0x00, 0x01, 1, 2, 3, 4, 0x00, 0x50]);
    assert_eq!(n, 4);
    assert!(matches!(c.advance(&[0x05, 0x00, 0x00, 0x01]), Action::Read(6)));
    assert!(matches!(c.advance(&[9, 9, 9, 9, 0x01, 0xBB]), Action::Established));
    assert_eq!(c.stage, Stage::Established);
}

#[test]
fn session_with_credentials() {
    let t = TargetAddress::Domain { name: b"example.com".to_vec(), port: 443 };
    let (mut c, first) = Socks5Client::connect(&t, Some(creds("u", "p"))).unwrap();
    assert_eq!(sent(first), (vec![0x05, 0x02, 0x00, 0x02], 2));
    let (auth, n) = sent(c.advance(&[0x05, 0x02]));
    assert_eq!(auth, vec![0x01, 1, b'u', 1, b'p']);
    assert_eq!(n, 2);
    assert_eq!(c.stage, Stage::Authenticating);
    let (req, n) = sent(c.advance(&[0x01, 0x00]));
    assert_eq!(req[..5], [0x05, 0x01, 0x00, 0x03, 0x0B]);
    assert_eq!(n, 4);
    assert!(matches!(c.advance(&[0x05, 0x00, 0x00, 0x04]), Action::Read(18)));
    assert!(matches!(c.advance(&[0u8; 18]), Action::Established));
}

#[test]
fn session_rejected_method() {
    let t = TargetAddress::IPv4 { octets: [1, 2, 3, 4], port: 80 };
    let (mut c, _) = Socks5Client::connect(&t, None).unwrap();
    assert!(matches!(c.advance(&[0x05, 0xFF]), Action::Failed(Socks5Error::HandshakeFailed)));
    assert_eq!(c.stage, Stage::Failed);
    assert!(matches!(c.advance(&[0x05, 0x00]), Action::Failed(Socks5Error::UnexpectedResponse)));
}

#[test]
fn session_auth_refused() {
    let t = TargetAddress::IPv4 { octets: [1, 2, 3, 4], port: 80 };
    let (mut c, _) = Socks5Client::connect(&t, Some(creds("u", "bad"))).unwrap();
    let _ = sent(c.advance(&[0x05, 0x02]));
    assert!(matches!(c.advance(&[0x01, 0x01]), Action::Failed(Socks5Error::AuthenticationFailed)));
}

#[test]
fn session_unoffered_auth_method() {
    let t = TargetAddress::IPv4 { octets: [1, 2, 3, 4], port: 80 };
    let (mut c, _) = Socks5Client::connect(&t, None).unwrap();
    assert!(matches!(c.advance(&[0x05, 0x02]), Action::Failed(Socks5Error::AuthenticationFailed)));
}

#[test]
fn session_connection_refused() {
    let t = TargetAddress::IPv4 { octets: [1, 2, 3, 4], port: 80 };
    let (mut c, _) = Socks5Client::connect(&t, None).unwrap();
    let _ = sent(c.advance(&[0x05, 0x00]));
    assert!(matches!(c.advance(&[0x05, 0x05, 0x00, 0x01]), Action::Failed(Socks5Error::ConnectionFailed)));
}

#[test]
fn session_short_read() {
    let t = TargetAddress::IPv4 { octets: [1, 2, 3, 4], port: 80 };
    let (mut c, _) = Socks5Client::connect(&t, None).unwrap();
    assert!(matches!(c.advance(&[0x05]), Action::Failed(Socks5Error::UnexpectedResponse)));
}

#[test]
fn connect_with_domain_request() {
    let (c, _) = Socks5Client::connect_with_domain(b"example.com", 443, None).unwrap();
    assert_eq!(
        c.request,
        vec![
            0x05, 0x01, 0x00, 0x03, 0x0B, 0x65, 0x78, 0x61, 0x6D, 0x70, 0x6C, 0x65, 0x2E, 0x63,
            0x6F, 0x6D, 0x01, 0xBB
        ]
    );
}

#[test]
fn error_messages() {
    assert_eq!(Socks5Error::HandshakeFailed.message(), "handshake failed");
    assert_eq!(Socks5Error::ConnectionFailed.message(), "connection failed");
    assert_eq!(Socks5Error::UnexpectedResponse.message(), "unexpected response");
    assert_eq!(Socks5Error::UnsupportedAddressType.message(), "unsupported address type");
    assert_eq!(Socks5Error::AuthenticationFailed.message(), "authentication failed");
    let io = Socks5Error::IoError(std::io::ErrorKind::ConnectionRefused);
    assert_eq!(io.message(), "connection refused");
}
