use smtp_client::{
    Error, Ipv4, NodeInfo, NodeType, Transport, append_chunk, host_part, response_complete,
};

fn test_transport() -> Transport {
    let host = NodeInfo::new(NodeType::Host, Ipv4 { a: 192, b: 168, c: 0, d: 1 }, 587);
    let peer = NodeInfo::new(NodeType::Peer, Ipv4 { a: 10, b: 0, c: 0, d: 2 }, 80);
    Transport::new(host, peer, 1024, true)
}

#[test]
fn test_connection_string() {
    let info = NodeInfo::new(NodeType::Host, Ipv4 { a: 192, b: 168, c: 0, d: 1 }, 587);
    assert_eq!(info.get_connection_string(), "192.168.0.1:587");
    assert_eq!(info.get_port(), 587);
    assert_eq!(info.get_ipv4(), Ipv4 { a: 192, b: 168, c: 0, d: 1 });
}

#[test]
fn test_connection_string_extremes() {
    let info = NodeInfo::new(NodeType::Peer, Ipv4 { a: 0, b: 255, c: 10, d: 100 }, 65535);
    assert_eq!(info.get_connection_string(), "0.255.10.100:65535");
    let info = NodeInfo::new(NodeType::Peer, Ipv4 { a: 0, b: 0, c: 0, d: 0 }, 0);
    assert_eq!(info.get_connection_string(), "0.0.0.0:0");
}

#[test]
fn test_new_transport_is_open_plaintext() {
    let transport = test_transport();
    assert!(transport.is_open());
    assert_eq!(transport.is_encrypted().unwrap(), false);
    assert_eq!(
        transport.get_host_info().unwrap().get_connection_string(),
        "192.168.0.1:587"
    );
    assert_eq!(
        transport.get_peer_info().unwrap().get_connection_string(),
        "10.0.0.2:80"
    );
}

#[test]
fn test_upgrade_returns_handshake_target() {
    let mut transport = test_transport();
    let target = transport.try_upgrade_to_tls("smtp.example.com").unwrap();
    assert_eq!(target, "smtp.example.com");
    assert_eq!(transport.is_encrypted().unwrap(), true);
}

#[test]
fn test_second_upgrade_fails_already_encrypted() {
    let mut transport = test_transport();
    transport.try_upgrade_to_tls("smtp.example.com").unwrap();

    match transport.try_upgrade_to_tls("smtp.example.com") {
        Err(e) => assert_eq!(
            e,
            Error::TlsUpgrade("Encrypt connection. Connection is already encrypted".to_string())
        ),
        Ok(_) => panic!("Expected the second upgrade to fail"),
    }
    // The failed attempt leaves the transport open and encrypted.
    assert!(transport.is_open());
    assert_eq!(transport.is_encrypted().unwrap(), true);
}

#[test]
fn test_closed_transport_rejects_every_operation() {
    let mut transport = test_transport();
    transport.close();

    assert!(!transport.is_open());
    match transport.write(b"QUIT\r\n") {
        Err(e) => assert_eq!(e, Error::ClosedConnection("Write".to_string())),
        Ok(_) => panic!("Expected the write to fail"),
    }
    match transport.begin_read() {
        Err(e) => assert_eq!(e, Error::ClosedConnection("Read".to_string())),
        Ok(_) => panic!("Expected the read to fail"),
    }
    match transport.try_upgrade_to_tls("smtp.example.com") {
        Err(e) => assert_eq!(e, Error::ClosedConnection("Encrypt connection".to_string())),
        Ok(_) => panic!("Expected the upgrade to fail"),
    }
    match transport.is_encrypted() {
        Err(e) => assert_eq!(e, Error::ClosedConnection("Check encryption status".to_string())),
        Ok(_) => panic!("Expected the status query to fail"),
    }
    match transport.get_host_info() {
        Err(e) => assert_eq!(e, Error::ClosedConnection("Get host info".to_string())),
        Ok(_) => panic!("Expected the host query to fail"),
    }
    match transport.get_peer_info() {
        Err(e) => assert_eq!(e, Error::ClosedConnection("Get peer info".to_string())),
        Ok(_) => panic!("Expected the peer query to fail"),
    }
}

#[test]
fn test_write_confirms_whole_buffer() {
    let transport = test_transport();
    assert_eq!(transport.write(b"EHLO localhost\r\n").unwrap(), 16);
    assert_eq!(transport.write(b"").unwrap(), 0);
}

#[test]
fn test_begin_read_hands_back_chunk_size() {
    let transport = test_transport();
    assert_eq!(transport.begin_read().unwrap(), 1024);
}

#[test]
fn test_trust_policy_is_explicit_configuration() {
    let host = NodeInfo::new(NodeType::Host, Ipv4 { a: 192, b: 168, c: 0, d: 1 }, 587);
    let peer = NodeInfo::new(NodeType::Peer, Ipv4 { a: 10, b: 0, c: 0, d: 2 }, 80);
    let strict = Transport::new(host, peer, 1024, false);
    assert!(!strict.accepts_invalid_certs());
    let relaxed = Transport::new(host, peer, 1024, true);
    assert!(relaxed.accepts_invalid_certs());
}

#[test]
fn test_host_part_of_connect_target() {
    assert_eq!(host_part("smtp.example.com:587"), "smtp.example.com");
    assert_eq!(host_part("localhost"), "localhost");
    assert_eq!(host_part(":25"), "");
    assert_eq!(host_part(""), "");
}

#[test]
fn test_reply_accumulation() {
    let mut response: Vec<u8> = Vec::new();
    assert!(!response_complete(&response));

    append_chunk(&mut response, b"250 O", 5);
    assert_eq!(response, b"250 O");
    assert!(!response_complete(&response));

    // Only the first `n` bytes of a chunk belong to the reply.
    append_chunk(&mut response, b"K\r\nXXXX", 3);
    assert_eq!(response, b"250 OK\r\n");
    assert!(response_complete(&response));
}

#[test]
fn test_reply_terminator_needs_both_bytes() {
    let mut response: Vec<u8> = Vec::new();
    append_chunk(&mut response, b"250 OK\n", 7);
    assert!(!response_complete(&response));
    let mut response: Vec<u8> = Vec::new();
    append_chunk(&mut response, b"250 OK\r", 7);
    assert!(!response_complete(&response));
}
