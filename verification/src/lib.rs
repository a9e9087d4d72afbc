//! Client-side SMTP submission: a transport state machine with a one-time
//! TLS upgrade, a reply parser and classifier, a validated message model,
//! and the command/response session discipline that gates every protocol
//! step on the expected reply status class.
use vstd::prelude::*;

pub mod base64;
pub mod decimal;
mod errors;
mod message;
mod response;
mod session;
mod transport;

pub use errors::Error;
pub use message::{
    SmtpMessage, SmtpMessageBuilder, imf_of, join_recipients, lemma_join_two_recipients,
};
pub use response::{
    SmtpResponse, SmtpResponseBuilder, code_of_line, digit_val, first_line, has_enhanced_code,
    is_digit_char, is_sep_char, last_line, lemma_first_line_prefix,
    lemma_nondigit_leading_token_rejected, lemma_positive_completion_reply, response_code,
    response_status, response_text, response_valid, text_of_line, valid_reply_line,
};
pub use session::{
    SmtpCommand, SmtpSession, angle_addr_rep, auth_plain_rep, command_arg_line_rep,
    command_line_rep, command_rep, envelope_line_rep, send_step,
};
pub use transport::{
    Ipv4, NodeInfo, NodeType, StreamInfo, StreamState, Transport, append_chunk,
    connection_string_rep, ends_with_crlf, host_part, host_part_rep, ipv4_rep,
    lemma_closed_transport_rejects_all,
    lemma_upgrade_is_one_time, response_complete,
};

verus! {

/// The status classes a server reply can fall into, derived from the
/// hundreds digit of its three-digit status code.
#[derive(Clone, Copy, Debug, PartialEq, Eq, Structural)]
pub enum SmtpStatus {
    PositiveCompletion,
    PositiveIntermediate,
    TransientNegativeCompletion,
    PermanentNegativeCompletion,
    Unknown,
}

/// Classification of a status code by its hundreds digit.
pub open spec fn status_of_code(code: int) -> SmtpStatus {
    if 200 <= code < 300 {
        SmtpStatus::PositiveCompletion
    } else if 300 <= code < 400 {
        SmtpStatus::PositiveIntermediate
    } else if 400 <= code < 500 {
        SmtpStatus::TransientNegativeCompletion
    } else if 500 <= code < 600 {
        SmtpStatus::PermanentNegativeCompletion
    } else {
        SmtpStatus::Unknown
    }
}

} // verus!
