//! The session: ordered command issuance over a transport, with every
//! step gated on the expected status class of the reply it provokes.
//!
//! Each exchange has two halves. The send half builds the exact command
//! line to put on the wire and records which status class the reply is
//! expected to carry; the receive half takes the raw reply text the wire
//! produced, parses and classifies it, and enforces the recorded
//! expectation before the session may proceed. The I/O layer around the
//! library only shuttles the line out and the reply back between the two
//! halves.
use vstd::prelude::*;
use vstd::string::*;
use vstd::utf8::encode_utf8;

use crate::SmtpStatus;
use crate::base64::{b64_encode, encode};
use crate::errors::Error;
use crate::message::{SmtpMessage, imf_of};
use crate::response::{
    SmtpResponse, SmtpResponseBuilder, response_status, response_text, response_valid,
};
use crate::transport::Transport;

verus! {

/// The protocol commands, plus the body terminator sequence.
pub enum SmtpCommand {
    Ehlo,
    StartTls,
    Register,
    AuthPlain,
    MailFrom,
    RcptTo,
    Data,
    Quit,
    Dot,
}

/// The wire keyword of each command; the dot entry is the whole body
/// terminator line.
pub open spec fn command_rep(cmd: SmtpCommand) -> Seq<char> {
    match cmd {
        SmtpCommand::Ehlo => "EHLO"@,
        SmtpCommand::StartTls => "STARTTLS"@,
        SmtpCommand::Register => "REGISTER"@,
        SmtpCommand::AuthPlain => "AUTH PLAIN"@,
        SmtpCommand::MailFrom => "MAIL FROM:"@,
        SmtpCommand::RcptTo => "RCPT TO:"@,
        SmtpCommand::Data => "DATA"@,
        SmtpCommand::Quit => "QUIT"@,
        SmtpCommand::Dot => "\r\n.\r\n"@,
    }
}

/// A bare command line: the keyword and the line terminator.
pub open spec fn command_line_rep(cmd: SmtpCommand) -> Seq<char> {
    command_rep(cmd) + "\r\n"@
}

/// A command line with one argument after a single space.
pub open spec fn command_arg_line_rep(cmd: SmtpCommand, arg: Seq<char>) -> Seq<char> {
    command_rep(cmd) + " "@ + arg + "\r\n"@
}

/// An address in the angle brackets `MAIL FROM:` and `RCPT TO:` take.
pub open spec fn angle_addr_rep(addr: Seq<char>) -> Seq<char> {
    "<"@ + addr + ">"@
}

/// An envelope line: the keyword's colon immediately followed by the
/// angle-bracketed address, with no separating space, and the line
/// terminator.
pub open spec fn envelope_line_rep(cmd: SmtpCommand, addr: Seq<char>) -> Seq<char> {
    command_rep(cmd) + angle_addr_rep(addr) + "\r\n"@
}

/// The authentication argument: base64 of the UTF-8 bytes of
/// `NUL username NUL password`.
pub open spec fn auth_plain_rep(username: Seq<char>, password: Seq<char>) -> Seq<char> {
    b64_encode(encode_utf8(seq!['\u{0}'] + username + seq!['\u{0}'] + password))
}

impl SmtpCommand {
    /// The wire keyword of the command.
    pub fn text(&self) -> (r: &'static str)
        ensures
            r@ == command_rep(*self),
    {
        match self {
            SmtpCommand::Ehlo => "EHLO",
            SmtpCommand::StartTls => "STARTTLS",
            SmtpCommand::Register => "REGISTER",
            SmtpCommand::AuthPlain => "AUTH PLAIN",
            SmtpCommand::MailFrom => "MAIL FROM:",
            SmtpCommand::RcptTo => "RCPT TO:",
            SmtpCommand::Data => "DATA",
            SmtpCommand::Quit => "QUIT",
            SmtpCommand::Dot => "\r\n.\r\n",
        }
    }
}

/// A session over one exclusively owned transport, remembering which
/// status class the in-flight command's reply must carry.
pub struct SmtpSession {
    m_stream: Transport,
    m_expected: Option<SmtpStatus>,
}

impl SmtpSession {
    pub closed spec fn stream_spec(&self) -> Transport {
        self.m_stream
    }

    pub closed spec fn expected_spec(&self) -> Option<SmtpStatus> {
        self.m_expected
    }

    pub open spec fn wf(&self) -> bool {
        self.stream_spec().wf()
    }

    /// Begins a session on a freshly opened transport. The first reply
    /// the session must see is the server greeting, gated on positive
    /// completion; the caller then issues the opening `EHLO`.
    pub fn connect(stream: Transport) -> (r: SmtpSession)
        requires
            stream.wf(),
        ensures
            r.wf(),
            r.stream_spec() == stream,
            r.expected_spec() == Some(SmtpStatus::PositiveCompletion),
    {
        SmtpSession { m_stream: stream, m_expected: Some(SmtpStatus::PositiveCompletion) }
    }

    pub fn is_open(&self) -> (r: bool)
        ensures
            r == self.stream_spec().is_open_spec(),
    {
        self.m_stream.is_open()
    }

    /// Whether the transport under the session is TLS-wrapped.
    pub fn is_encrypted(&self) -> (r: Result<bool, Error>)
        ensures
            self.stream_spec().info_spec() matches Some(info) ==> (r matches Ok(b) && b
                == info.m_is_encrypted),
            self.stream_spec().info_spec() is None ==> (r matches Err(Error::ClosedConnection(m))
                && m@ == "Check encryption status"@),
    {
        self.m_stream.is_encrypted()
    }

    /// Whether handshake certificate validation was relaxed when the
    /// transport under the session was opened.
    pub fn accepts_invalid_certs(&self) -> (r: bool)
        ensures
            r == self.stream_spec().accept_invalid_certs_spec(),
    {
        self.m_stream.accepts_invalid_certs()
    }

    /// Admits a read on the transport under the session and hands back
    /// the chunk size the accumulation loop should use.
    pub fn begin_read(&self) -> (r: Result<usize, Error>)
        ensures
            self.stream_spec().is_open_spec() ==> (r matches Ok(n) && n == self.stream_spec(
            ).buffsize_spec() as usize),
            !self.stream_spec().is_open_spec() ==> (r matches Err(Error::ClosedConnection(m)) && m@
                == "Read"@),
    {
        self.m_stream.begin_read()
    }

    /// Force-closes the transport under the session; its configuration
    /// survives the close.
    pub fn close(&mut self)
        ensures
            final(self).wf(),
            !final(self).stream_spec().is_open_spec(),
            final(self).stream_spec().buffsize_spec() == old(self).stream_spec().buffsize_spec(),
            final(self).stream_spec().accept_invalid_certs_spec() == old(
                self,
            ).stream_spec().accept_invalid_certs_spec(),
            final(self).expected_spec() == old(self).expected_spec(),
    {
        self.m_stream.close();
    }

    /// The transport's one-time encryption upgrade; see
    /// [`Transport::try_upgrade_to_tls`]. The recorded reply expectation
    /// is untouched: the upgrade itself provokes no reply.
    pub fn try_upgrade_to_tls(&mut self, expected_hostname: &str) -> (r: Result<String, Error>)
        requires
            old(self).wf(),
        ensures
            final(self).wf(),
            final(self).expected_spec() == old(self).expected_spec(),
            r is Ok <==> old(self).stream_spec().upgrade_admissible(),
            old(self).stream_spec().upgrade_admissible() ==> Transport::upgrade_result(
                old(self).stream_spec(),
                final(self).stream_spec(),
            ),
            old(self).stream_spec().upgrade_admissible() ==> (r matches Ok(target) && target@
                == expected_hostname@),
            !old(self).stream_spec().is_open_spec() ==> (r matches Err(Error::ClosedConnection(m))
                && m@ == "Encrypt connection"@ && *final(self) == *old(self)),
            old(self).stream_spec().is_open_spec() && old(self).stream_spec().is_encrypted_spec()
                ==> (r matches Err(Error::TlsUpgrade(m)) && m@
                == "Encrypt connection. Connection is already encrypted"@ && *final(self) == *old(
                self,
            )),
    {
        self.m_stream.try_upgrade_to_tls(expected_hostname)
    }

    /// Send half of the opening negotiation: the `EHLO` line, expecting
    /// positive completion.
    pub fn send_ehlo_cmd(&mut self) -> (r: Result<String, Error>)
        ensures
            send_step(*old(self), *final(self), r, command_arg_line_rep(
                SmtpCommand::Ehlo,
                "localhost"@,
            ), Some(SmtpStatus::PositiveCompletion)),
    {
        match self.send_cmd_with_arg(SmtpCommand::Ehlo, "localhost") {
            Ok(line) => {
                self.m_expected = Some(SmtpStatus::PositiveCompletion);
                Ok(line)
            },
            Err(e) => Err(e),
        }
    }

    /// Send half of the encryption request: the `STARTTLS` line,
    /// expecting positive completion before the handshake may start.
    pub fn send_starttls_cmd(&mut self) -> (r: Result<String, Error>)
        ensures
            send_step(*old(self), *final(self), r, command_line_rep(SmtpCommand::StartTls), Some(
                SmtpStatus::PositiveCompletion,
            )),
    {
        match self.send_cmd(SmtpCommand::StartTls) {
            Ok(line) => {
                self.m_expected = Some(SmtpStatus::PositiveCompletion);
                Ok(line)
            },
            Err(e) => Err(e),
        }
    }

    /// Send half of the non-standard registration exchange, expecting
    /// positive completion.
    pub fn send_register_cmd(&mut self, encoded_auth: &str) -> (r: Result<String, Error>)
        ensures
            send_step(*old(self), *final(self), r, command_arg_line_rep(
                SmtpCommand::Register,
                encoded_auth@,
            ), Some(SmtpStatus::PositiveCompletion)),
    {
        match self.send_cmd_with_arg(SmtpCommand::Register, encoded_auth) {
            Ok(line) => {
                self.m_expected = Some(SmtpStatus::PositiveCompletion);
                Ok(line)
            },
            Err(e) => Err(e),
        }
    }

    /// Send half of the authentication exchange, expecting positive
    /// completion.
    pub fn send_auth_plain_cmd(&mut self, encoded_auth: &str) -> (r: Result<String, Error>)
        ensures
            send_step(*old(self), *final(self), r, command_arg_line_rep(
                SmtpCommand::AuthPlain,
                encoded_auth@,
            ), Some(SmtpStatus::PositiveCompletion)),
    {
        match self.send_cmd_with_arg(SmtpCommand::AuthPlain, encoded_auth) {
            Ok(line) => {
                self.m_expected = Some(SmtpStatus::PositiveCompletion);
                Ok(line)
            },
            Err(e) => Err(e),
        }
    }

    /// Builds the `AUTH PLAIN` line for the given credentials: the
    /// payload is base64 of `NUL username NUL password`.
    pub fn authenticate(&mut self, username: &str, password: &str) -> (r: Result<String, Error>)
        ensures
            send_step(*old(self), *final(self), r, command_arg_line_rep(
                SmtpCommand::AuthPlain,
                auth_plain_rep(username@, password@),
            ), Some(SmtpStatus::PositiveCompletion)),
    {
        let encoded_auth = encode_credentials(username, password);
        self.send_auth_plain_cmd(encoded_auth.as_str())
    }

    /// Builds the `REGISTER` line for the given credentials, with the
    /// same payload layout as authentication.
    pub fn register(&mut self, username: &str, password: &str) -> (r: Result<String, Error>)
        ensures
            send_step(*old(self), *final(self), r, command_arg_line_rep(
                SmtpCommand::Register,
                auth_plain_rep(username@, password@),
            ), Some(SmtpStatus::PositiveCompletion)),
    {
        let encoded_register = encode_credentials(username, password);
        self.send_register_cmd(encoded_register.as_str())
    }

    /// Send half of the envelope opening: `MAIL FROM:` immediately
    /// followed by the sender in angle brackets, expecting positive
    /// completion.
    pub fn send_mail_from_cmd(&mut self, from: &str) -> (r: Result<String, Error>)
        ensures
            send_step(*old(self), *final(self), r, envelope_line_rep(
                SmtpCommand::MailFrom,
                from@,
            ), Some(SmtpStatus::PositiveCompletion)),
    {
        match self.send_cmd_with_addr(SmtpCommand::MailFrom, from) {
            Ok(line) => {
                self.m_expected = Some(SmtpStatus::PositiveCompletion);
                Ok(line)
            },
            Err(e) => Err(e),
        }
    }

    /// Send half of one recipient declaration: `RCPT TO:` immediately
    /// followed by the recipient in angle brackets, expecting positive
    /// completion; the caller repeats it per recipient, in declaration
    /// order.
    pub fn send_rcpt_to_cmd(&mut self, to: &str) -> (r: Result<String, Error>)
        ensures
            send_step(*old(self), *final(self), r, envelope_line_rep(
                SmtpCommand::RcptTo,
                to@,
            ), Some(SmtpStatus::PositiveCompletion)),
    {
        match self.send_cmd_with_addr(SmtpCommand::RcptTo, to) {
            Ok(line) => {
                self.m_expected = Some(SmtpStatus::PositiveCompletion);
                Ok(line)
            },
            Err(e) => Err(e),
        }
    }

    /// Send half of the data announcement: the `DATA` line, expecting
    /// the positive intermediate go-ahead before the body may follow.
    pub fn send_data_cmd(&mut self) -> (r: Result<String, Error>)
        ensures
            send_step(*old(self), *final(self), r, command_line_rep(SmtpCommand::Data), Some(
                SmtpStatus::PositiveIntermediate,
            )),
    {
        match self.send_cmd(SmtpCommand::Data) {
            Ok(line) => {
                self.m_expected = Some(SmtpStatus::PositiveIntermediate);
                Ok(line)
            },
            Err(e) => Err(e),
        }
    }

    /// Send half of the session termination: the `QUIT` line, expecting
    /// positive completion.
    pub fn send_quit_cmd(&mut self) -> (r: Result<String, Error>)
        ensures
            send_step(*old(self), *final(self), r, command_line_rep(SmtpCommand::Quit), Some(
                SmtpStatus::PositiveCompletion,
            )),
    {
        match self.send_cmd(SmtpCommand::Quit) {
            Ok(line) => {
                self.m_expected = Some(SmtpStatus::PositiveCompletion);
                Ok(line)
            },
            Err(e) => Err(e),
        }
    }

    /// The message transmission: the wire layout of the message followed
    /// by the dot-terminator line. No status class is recorded — the
    /// server's final accept or reject is left to the caller's own
    /// inspection of the next reply.
    pub fn send_message_imf(&mut self, message: &SmtpMessage) -> (r: Result<String, Error>)
        ensures
            send_step(*old(self), *final(self), r, imf_of(
                message.from_spec(),
                message.to_spec(),
                message.subject_spec(),
                message.body_spec(),
            ) + command_rep(SmtpCommand::Dot), None),
    {
        let mut payload = message.to_imf();
        payload.append(SmtpCommand::Dot.text());
        match self.m_stream.write(payload.as_str().as_bytes()) {
            Ok(_) => {
                self.m_expected = None;
                Ok(payload)
            },
            Err(e) => Err(e),
        }
    }

    /// Receive half of every exchange: parses the raw reply the wire
    /// produced, classifies it, and enforces the status class the last
    /// send half recorded. A malformed reply, and a class mismatch,
    /// fail the step but leave the transport open; the reply is consumed
    /// either way, so the expectation is cleared.
    pub fn handle_response(&mut self, raw_response: &str) -> (r: Result<SmtpResponse, Error>)
        ensures
            final(self).stream_spec() == old(self).stream_spec(),
            !old(self).stream_spec().is_open_spec() ==> (r matches Err(Error::ClosedConnection(m))
                && m@ == "Read"@ && final(self).expected_spec() == old(self).expected_spec()),
            old(self).stream_spec().is_open_spec() ==> final(self).expected_spec() is None,
            old(self).stream_spec().is_open_spec() && !response_valid(raw_response@) ==> (r matches
                Err(Error::SmtpResponse(m)) && m@ == "Invalid response"@),
            old(self).stream_spec().is_open_spec() && response_valid(raw_response@) && (old(
                self,
            ).expected_spec() matches Some(c) && c != response_status(raw_response@)) ==> (r matches
                Err(Error::SmtpResponse(m)) && m@ == "Unexpected status"@),
            old(self).stream_spec().is_open_spec() && response_valid(raw_response@) && (old(
                self,
            ).expected_spec() is None || old(self).expected_spec() == Some(
                response_status(raw_response@),
            )) ==> (r matches Ok(resp) && resp.raw_spec() == raw_response@ && resp.status_spec()
                == response_status(raw_response@) && resp.text_spec() == response_text(
                raw_response@,
            )),
    {
        if !self.m_stream.is_open() {
            return Err(Error::ClosedConnection(String::from_str("Read")));
        }
        let expected = self.m_expected;
        self.m_expected = None;

        let smtp_response_builder = SmtpResponseBuilder::new();
        match smtp_response_builder.build(raw_response) {
            Ok(smtp_response) => {
                match expected {
                    Some(status) => {
                        match smtp_response.status_should_be(status) {
                            Ok(_) => Ok(smtp_response),
                            Err(e) => Err(e),
                        }
                    },
                    None => Ok(smtp_response),
                }
            },
            Err(e) => Err(e),
        }
    }

    /// Builds a bare command line and admits it for writing.
    fn send_cmd(&self, cmd: SmtpCommand) -> (r: Result<String, Error>)
        ensures
            self.stream_spec().is_open_spec() ==> (r matches Ok(line) && line@ == command_line_rep(
                cmd,
            )),
            !self.stream_spec().is_open_spec() ==> (r matches Err(Error::ClosedConnection(m)) && m@
                == "Write"@),
    {
        let mut command = String::from_str(cmd.text());
        command.append("\r\n");
        match self.m_stream.write(command.as_str().as_bytes()) {
            Ok(_) => Ok(command),
            Err(e) => Err(e),
        }
    }

    /// Builds an envelope line — the keyword, the angle-bracketed
    /// address with no separating space, the terminator — and admits it
    /// for writing.
    fn send_cmd_with_addr(&self, cmd: SmtpCommand, addr: &str) -> (r: Result<String, Error>)
        ensures
            self.stream_spec().is_open_spec() ==> (r matches Ok(line) && line@
                == envelope_line_rep(cmd, addr@)),
            !self.stream_spec().is_open_spec() ==> (r matches Err(Error::ClosedConnection(m)) && m@
                == "Write"@),
    {
        let mut command = String::from_str(cmd.text());
        command.append("<");
        command.append(addr);
        command.append(">");
        command.append("\r\n");
        proof {
            assert(command@ =~= envelope_line_rep(cmd, addr@));
        }
        match self.m_stream.write(command.as_str().as_bytes()) {
            Ok(_) => Ok(command),
            Err(e) => Err(e),
        }
    }

    /// Builds a command line with one argument and admits it for
    /// writing.
    fn send_cmd_with_arg(&self, cmd: SmtpCommand, arg: &str) -> (r: Result<String, Error>)
        ensures
            self.stream_spec().is_open_spec() ==> (r matches Ok(line) && line@
                == command_arg_line_rep(cmd, arg@)),
            !self.stream_spec().is_open_spec() ==> (r matches Err(Error::ClosedConnection(m)) && m@
                == "Write"@),
    {
        let mut command = String::from_str(cmd.text());
        command.append(" ");
        command.append(arg);
        command.append("\r\n");
        proof {
            assert(command@ =~= command_arg_line_rep(cmd, arg@));
        }
        match self.m_stream.write(command.as_str().as_bytes()) {
            Ok(_) => Ok(command),
            Err(e) => Err(e),
        }
    }
}

/// What every send half guarantees: on an open transport it hands back
/// exactly `line` to put on the wire and records `expect` for the reply;
/// on a closed transport it fails with the closed-connection error and
/// changes nothing. The transport itself is never touched.
pub open spec fn send_step(
    pre: SmtpSession,
    post: SmtpSession,
    r: Result<String, Error>,
    line: Seq<char>,
    expect: Option<SmtpStatus>,
) -> bool {
    &&& post.stream_spec() == pre.stream_spec()
    &&& pre.stream_spec().is_open_spec() ==> (r matches Ok(l) && l@ == line
        && post.expected_spec() == expect)
    &&& !pre.stream_spec().is_open_spec() ==> (r matches Err(Error::ClosedConnection(m)) && m@
        == "Write"@ && post.expected_spec() == pre.expected_spec())
}


/// The credentials payload `NUL username NUL password`, base64-encoded.
fn encode_credentials(username: &str, password: &str) -> (r: String)
    ensures
        r@ == auth_plain_rep(username@, password@),
{
    let mut payload = String::from_str("\u{0}");
    payload.append(username);
    payload.append("\u{0}");
    payload.append(password);
    proof {
        reveal_strlit("\u{0}");
        assert(payload@ =~= seq!['\u{0}'] + username@ + seq!['\u{0}'] + password@);
    }
    encode(payload.as_str())
}

} // verus!
