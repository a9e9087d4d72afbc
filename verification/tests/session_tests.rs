use smtp_client::base64::encode;
use smtp_client::{
    Error, Ipv4, NodeInfo, NodeType, SmtpMessage, SmtpSession, SmtpStatus, Transport,
};

fn open_transport() -> Transport {
    let host = NodeInfo::new(NodeType::Host, Ipv4 { a: 192, b: 168, c: 0, d: 1 }, 587);
    let peer = NodeInfo::new(NodeType::Peer, Ipv4 { a: 10, b: 0, c: 0, d: 2 }, 80);
    Transport::new(host, peer, 1024, true)
}

#[test]
fn test_base64_vectors() {
    assert_eq!(encode(""), "");
    assert_eq!(encode("f"), "Zg==");
    assert_eq!(encode("fo"), "Zm8=");
    assert_eq!(encode("foo"), "Zm9v");
    assert_eq!(encode("foob"), "Zm9vYg==");
    assert_eq!(encode("fooba"), "Zm9vYmE=");
    assert_eq!(encode("foobar"), "Zm9vYmFy");
}

#[test]
fn test_command_lines_exact() {
    let mut session = SmtpSession::connect(open_transport());
    session.handle_response("220 ready\r\n").unwrap();

    assert_eq!(session.send_ehlo_cmd().unwrap(), "EHLO localhost\r\n");
    session.handle_response("250 OK\r\n").unwrap();

    assert_eq!(session.send_mail_from_cmd("a@x").unwrap(), "MAIL FROM:<a@x>\r\n");
    session.handle_response("250 OK\r\n").unwrap();

    assert_eq!(session.send_rcpt_to_cmd("b@y").unwrap(), "RCPT TO:<b@y>\r\n");
    session.handle_response("250 OK\r\n").unwrap();

    assert_eq!(session.send_data_cmd().unwrap(), "DATA\r\n");
    session.handle_response("354 Go ahead\r\n").unwrap();

    assert_eq!(session.send_quit_cmd().unwrap(), "QUIT\r\n");
    session.handle_response("221 Bye\r\n").unwrap();
}

#[test]
fn test_authenticate_builds_auth_plain_line() {
    let mut session = SmtpSession::connect(open_transport());
    session.handle_response("220 ready\r\n").unwrap();
    let line = session.authenticate("user", "pass").unwrap();
    assert_eq!(line, "AUTH PLAIN AHVzZXIAcGFzcw==\r\n");
}

#[test]
fn test_register_builds_register_line() {
    let mut session = SmtpSession::connect(open_transport());
    session.handle_response("220 ready\r\n").unwrap();
    let line = session.register("johndoe", "secret").unwrap();
    assert_eq!(line, "REGISTER AGpvaG5kb2UAc2VjcmV0\r\n");
}

#[test]
fn test_message_transmission_appends_dot_terminator() {
    let mut session = SmtpSession::connect(open_transport());
    session.handle_response("220 ready\r\n").unwrap();
    let message = SmtpMessage::builder()
        .from("a@x")
        .to("b@y")
        .subject("S")
        .body("Hi")
        .build()
        .unwrap();
    let payload = session.send_message_imf(&message).unwrap();
    assert_eq!(payload, "From: a@x\r\nTo: b@y\r\nSubject: S\r\n\r\nHi\r\n.\r\n");
    // No class is asserted on the reply that follows the body: any
    // well-formed reply is handed back for the caller's own inspection.
    let final_reply = session.handle_response("550 Rejected\r\n").unwrap();
    assert_eq!(final_reply.get_status(), SmtpStatus::PermanentNegativeCompletion);
}

#[test]
fn test_status_gate_blocks_mismatched_class() {
    let mut session = SmtpSession::connect(open_transport());
    session.handle_response("220 ready\r\n").unwrap();
    session.send_data_cmd().unwrap();
    // DATA expects the positive intermediate go-ahead; a completion
    // class is a protocol error, but the transport stays open.
    match session.handle_response("250 OK\r\n") {
        Err(e) => assert_eq!(e, Error::SmtpResponse("Unexpected status".to_string())),
        Ok(_) => panic!("Expected a status mismatch"),
    }
    assert!(session.is_open());
}

#[test]
fn test_greeting_gate_blocks_rejection() {
    let mut session = SmtpSession::connect(open_transport());
    match session.handle_response("554 No service\r\n") {
        Err(e) => assert_eq!(e, Error::SmtpResponse("Unexpected status".to_string())),
        Ok(_) => panic!("Expected the greeting gate to fail"),
    }
}

#[test]
fn test_malformed_reply_fails_step() {
    let mut session = SmtpSession::connect(open_transport());
    match session.handle_response("garbage\r\n") {
        Err(e) => assert_eq!(e, Error::SmtpResponse("Invalid response".to_string())),
        Ok(_) => panic!("Expected a malformed-response error"),
    }
    assert!(session.is_open());
}

#[test]
fn test_closed_session_rejects_steps() {
    let mut session = SmtpSession::connect(open_transport());
    session.close();
    match session.send_ehlo_cmd() {
        Err(e) => assert_eq!(e, Error::ClosedConnection("Write".to_string())),
        Ok(_) => panic!("Expected the send to fail"),
    }
    match session.handle_response("250 OK\r\n") {
        Err(e) => assert_eq!(e, Error::ClosedConnection("Read".to_string())),
        Ok(_) => panic!("Expected the receive to fail"),
    }
}

#[test]
fn test_end_to_end_starttls_scenario() {
    let mut session = SmtpSession::connect(open_transport());

    let greeting = session.handle_response("220 smtp.example.com ready\r\n").unwrap();
    assert_eq!(greeting.get_status(), SmtpStatus::PositiveCompletion);

    assert_eq!(session.send_ehlo_cmd().unwrap(), "EHLO localhost\r\n");
    let reply = session.handle_response("250 OK\r\n").unwrap();
    assert_eq!(reply.get_status(), SmtpStatus::PositiveCompletion);

    assert_eq!(session.send_starttls_cmd().unwrap(), "STARTTLS\r\n");
    session.handle_response("220 Go ahead\r\n").unwrap();

    let target = session.try_upgrade_to_tls("smtp.example.com").unwrap();
    assert_eq!(target, "smtp.example.com");

    assert_eq!(session.send_ehlo_cmd().unwrap(), "EHLO localhost\r\n");
    session.handle_response("250 OK\r\n").unwrap();

    assert_eq!(session.is_encrypted().unwrap(), true);
}
