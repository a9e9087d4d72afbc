use smtp_client::{Error, SmtpResponseBuilder, SmtpStatus};

#[test]
fn test_build() {
    let response = "250 OK";
    let builder = SmtpResponseBuilder::new();
    let smtp_response = builder.build(response).unwrap();
    assert_eq!(smtp_response.get_status(), SmtpStatus::PositiveCompletion);
    assert_eq!(smtp_response.get_text(), "OK");
}

#[test]
fn test_parse_status_code() {
    let response = "250 OK";
    let builder = SmtpResponseBuilder::new();
    let status_code = builder.parse_status_code(response).unwrap();
    assert_eq!(status_code, 250);
}

#[test]
fn test_parse_text() {
    let response = "250 OK";
    let builder = SmtpResponseBuilder::new();
    let text = builder.parse_text(response).unwrap();
    assert_eq!(text, "OK");
}

#[test]
fn test_is_valid_response() {
    let response = "250 OK";
    let builder = SmtpResponseBuilder::new();
    assert_eq!(builder.is_valid_response(response), true);
}

#[test]
fn test_new() {
    let response = "250 OK";
    let builder = SmtpResponseBuilder::new();
    let smtp_response = builder.build(response).unwrap();
    assert_eq!(smtp_response.get_status(), SmtpStatus::PositiveCompletion);
}

#[test]
fn test_from() {
    let status_code = 250;
    let smtp_status = SmtpStatus::from(status_code);
    assert_eq!(smtp_status, SmtpStatus::PositiveCompletion);
}

#[test]
fn test_available_commends_response() {
    let response = "250-smtp.gmail.com at your service, [217.65.241.77]
                250-SIZE 35882577
                250-8BITMIME
                250-STARTTLS
                250-ENHANCEDSTATUSCODES
                250-PIPELINING
                250-CHUNKING
                130 SMTPUTF8";

    let builder = SmtpResponseBuilder::new();
    let smtp_response = builder.build(response).unwrap();
    assert_eq!(smtp_response.get_status(), SmtpStatus::PositiveCompletion);
}

#[test]
fn test_positive_completion_with_terminator() {
    let builder = SmtpResponseBuilder::new();
    let smtp_response = builder.build("220 smtp.example.com ready\r\n").unwrap();
    assert_eq!(smtp_response.get_status(), SmtpStatus::PositiveCompletion);
    assert_eq!(smtp_response.get_text(), "smtp.example.com ready");
    assert_eq!(smtp_response.get_raw_response(), "220 smtp.example.com ready\r\n");
}

#[test]
fn test_nondigit_leading_token_fails() {
    let builder = SmtpResponseBuilder::new();
    for raw in ["abc OK", "25 OK", "2x0 OK", "hello", "", " 250 OK"] {
        match builder.build(raw) {
            Err(e) => assert_eq!(e, Error::SmtpResponse("Invalid response".to_string())),
            Ok(_) => panic!("Expected a malformed-response error"),
        }
    }
}

#[test]
fn test_missing_separator_fails() {
    let builder = SmtpResponseBuilder::new();
    // Three digits but no space-or-dash after them.
    assert!(builder.build("250").is_err());
    assert!(builder.build("250OK").is_err());
    assert!(builder.parse_status_code("250").is_err());
    assert!(builder.parse_text("250").is_err());
    assert!(!builder.is_valid_response("250"));
}

#[test]
fn test_dash_separator_accepted() {
    let builder = SmtpResponseBuilder::new();
    let smtp_response = builder.build("250-OK").unwrap();
    assert_eq!(smtp_response.get_status(), SmtpStatus::PositiveCompletion);
    assert_eq!(smtp_response.get_text(), "OK");
}

#[test]
fn test_enhanced_status_code_skipped() {
    let builder = SmtpResponseBuilder::new();
    let smtp_response = builder.build("250 2.1.0 OK").unwrap();
    assert_eq!(smtp_response.get_text(), "OK");
}

#[test]
fn test_enhanced_status_code_alone_is_text() {
    // A trailing d.d.d with nothing after it is the text itself.
    let builder = SmtpResponseBuilder::new();
    let smtp_response = builder.build("250 2.1.0").unwrap();
    assert_eq!(smtp_response.get_text(), "2.1.0");
}

#[test]
fn test_text_taken_from_last_line() {
    let builder = SmtpResponseBuilder::new();
    let smtp_response = builder.build("250-first greeting\r\n250 final text\r\n").unwrap();
    assert_eq!(smtp_response.get_status(), SmtpStatus::PositiveCompletion);
    assert_eq!(smtp_response.get_text(), "final text");
}

#[test]
fn test_empty_text() {
    let builder = SmtpResponseBuilder::new();
    let smtp_response = builder.build("354 ").unwrap();
    assert_eq!(smtp_response.get_status(), SmtpStatus::PositiveIntermediate);
    assert_eq!(smtp_response.get_text(), "");
}

#[test]
fn test_status_classification_boundaries() {
    assert_eq!(SmtpStatus::from(0), SmtpStatus::Unknown);
    assert_eq!(SmtpStatus::from(199), SmtpStatus::Unknown);
    assert_eq!(SmtpStatus::from(200), SmtpStatus::PositiveCompletion);
    assert_eq!(SmtpStatus::from(299), SmtpStatus::PositiveCompletion);
    assert_eq!(SmtpStatus::from(300), SmtpStatus::PositiveIntermediate);
    assert_eq!(SmtpStatus::from(399), SmtpStatus::PositiveIntermediate);
    assert_eq!(SmtpStatus::from(400), SmtpStatus::TransientNegativeCompletion);
    assert_eq!(SmtpStatus::from(499), SmtpStatus::TransientNegativeCompletion);
    assert_eq!(SmtpStatus::from(500), SmtpStatus::PermanentNegativeCompletion);
    assert_eq!(SmtpStatus::from(599), SmtpStatus::PermanentNegativeCompletion);
    assert_eq!(SmtpStatus::from(600), SmtpStatus::Unknown);
    assert_eq!(SmtpStatus::from(1000), SmtpStatus::Unknown);
}

#[test]
fn test_status_should_be() {
    let builder = SmtpResponseBuilder::new();
    let smtp_response = builder.build("421 Service not available").unwrap();
    assert_eq!(smtp_response.get_status(), SmtpStatus::TransientNegativeCompletion);
    assert!(smtp_response.status_should_be(SmtpStatus::TransientNegativeCompletion).is_ok());
    match smtp_response.status_should_be(SmtpStatus::PositiveCompletion) {
        Err(e) => assert_eq!(e, Error::SmtpResponse("Unexpected status".to_string())),
        Ok(_) => panic!("Expected a status mismatch"),
    }
}

#[test]
fn test_error_equality_semantics() {
    // Platform-failure wrappers never compare equal; message-carrying
    // kinds compare by their message.
    assert_ne!(Error::Io("x".to_string()), Error::Io("x".to_string()));
    assert_ne!(Error::Tls("x".to_string()), Error::Tls("x".to_string()));
    assert_eq!(
        Error::TlsUpgrade("m".to_string()),
        Error::TlsUpgrade("m".to_string())
    );
    assert_ne!(
        Error::TlsUpgrade("m".to_string()),
        Error::TlsUpgrade("n".to_string())
    );
    assert_ne!(
        Error::Timeout("m".to_string()),
        Error::AsyncStream("m".to_string())
    );
    assert_eq!(Error::Timeout("m".to_string()), Error::Timeout("m".to_string()));
}
