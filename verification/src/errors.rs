//! The error kinds every operation of the library reports.
use vstd::prelude::*;

verus! {

/// Everything that can go wrong in a session: connection establishment,
/// the TLS upgrade, operations on a closed transport, reply parsing,
/// status-class mismatches, message validation, and externally imposed
/// deadlines. Platform-level I/O and TLS failures are carried as their
/// textual description.
#[derive(Debug)]
pub enum Error {
    Io(String),
    Tls(String),
    TlsUpgrade(String),
    AsyncStream(String),
    ClosedConnection(String),
    SmtpResponse(String),
    MessageBuild(String),
    Timeout(String),
}

impl PartialEq for Error {
    fn eq(&self, other: &Self) -> (r: bool) {
        match (self, other) {
            // Platform I/O and TLS failures never compare equal, not even
            // to themselves: their payloads describe unreproducible events.
            (Error::Io(_), Error::Io(_)) => false,
            (Error::Tls(_), Error::Tls(_)) => false,
            (Error::TlsUpgrade(a), Error::TlsUpgrade(b)) => *a == *b,
            (Error::AsyncStream(a), Error::AsyncStream(b)) => *a == *b,
            (Error::ClosedConnection(a), Error::ClosedConnection(b)) => *a == *b,
            (Error::SmtpResponse(a), Error::SmtpResponse(b)) => *a == *b,
            (Error::MessageBuild(a), Error::MessageBuild(b)) => *a == *b,
            (Error::Timeout(a), Error::Timeout(b)) => *a == *b,
            _ => false,
        }
    }
}

impl vstd::std_specs::cmp::PartialEqSpecImpl for Error {
    open spec fn obeys_eq_spec() -> bool {
        true
    }

    open spec fn eq_spec(&self, other: &Self) -> bool {
        match (self, other) {
            (Error::Io(_), Error::Io(_)) => false,
            (Error::Tls(_), Error::Tls(_)) => false,
            (Error::TlsUpgrade(a), Error::TlsUpgrade(b)) => a@ == b@,
            (Error::AsyncStream(a), Error::AsyncStream(b)) => a@ == b@,
            (Error::ClosedConnection(a), Error::ClosedConnection(b)) => a@ == b@,
            (Error::SmtpResponse(a), Error::SmtpResponse(b)) => a@ == b@,
            (Error::MessageBuild(a), Error::MessageBuild(b)) => a@ == b@,
            (Error::Timeout(a), Error::Timeout(b)) => a@ == b@,
            _ => false,
        }
    }
}

} // verus!
