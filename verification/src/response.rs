//! The reply parser: classifies a raw server reply into a status class and
//! extracts the free text of its last line.
//!
//! A reply is taken apart in two stages: the fixed-width status code and
//! its separator are tokenized off the first line, then the free text is
//! the remainder of the last line after the code and an optional
//! enhanced-status-code token. A reply whose first line does not start
//! with `<3 digits><space-or-dash>` is rejected outright; no best-effort
//! result is returned.
use vstd::prelude::*;
use vstd::string::*;

use crate::SmtpStatus;
use crate::errors::Error;
use crate::status_of_code;

verus! {

pub open spec fn is_digit_char(c: char) -> bool {
    '0' <= c && c <= '9'
}

pub open spec fn digit_val(c: char) -> int {
    c as int - '0' as int
}

/// The characters accepted between the status code and what follows it.
pub open spec fn is_sep_char(c: char) -> bool {
    c == ' ' || c == '-'
}

/// Index of the first line feed at or after `i`, or the length if none.
pub open spec fn find_newline(s: Seq<char>, i: int) -> int
    decreases s.len() - i,
{
    if i < 0 || i >= s.len() {
        s.len() as int
    } else if s[i] == '\n' {
        i
    } else {
        find_newline(s, i + 1)
    }
}

pub open spec fn trim_trailing_cr(l: Seq<char>) -> Seq<char> {
    if l.len() > 0 && l[l.len() - 1] == '\r' {
        l.drop_last()
    } else {
        l
    }
}

/// The reply's first line, without its line terminator.
pub open spec fn first_line(s: Seq<char>) -> Seq<char> {
    trim_trailing_cr(s.take(find_newline(s, 0)))
}

/// The reply without the line terminator of its final line.
pub open spec fn strip_final_newline(s: Seq<char>) -> Seq<char> {
    if s.len() > 0 && s[s.len() - 1] == '\n' {
        trim_trailing_cr(s.drop_last())
    } else {
        s
    }
}

/// Start index of the line that ends at `i`: right after the previous
/// line feed, or zero if there is none.
pub open spec fn line_start_from(s: Seq<char>, i: int) -> int
    decreases i,
{
    if i <= 0 {
        0
    } else if s[i - 1] == '\n' {
        i
    } else {
        line_start_from(s, i - 1)
    }
}

/// The reply's last line, without its line terminator.
pub open spec fn last_line(s: Seq<char>) -> Seq<char> {
    let t = strip_final_newline(s);
    trim_trailing_cr(t.skip(line_start_from(t, t.len() as int)))
}

/// The reply grammar's fixed prefix: three digits and a space-or-dash.
pub open spec fn valid_reply_line(l: Seq<char>) -> bool {
    l.len() >= 4 && is_digit_char(l[0]) && is_digit_char(l[1]) && is_digit_char(l[2])
        && is_sep_char(l[3])
}

pub open spec fn code_of_line(l: Seq<char>) -> int {
    digit_val(l[0]) * 100 + digit_val(l[1]) * 10 + digit_val(l[2])
}

/// An enhanced status code token (`d.d.d`) followed by a separator.
pub open spec fn has_enhanced_code(t: Seq<char>) -> bool {
    t.len() >= 6 && is_digit_char(t[0]) && t[1] == '.' && is_digit_char(t[2]) && t[3] == '.'
        && is_digit_char(t[4]) && is_sep_char(t[5])
}

/// The free text of one line: what follows the code, the separator and
/// an optional enhanced-status-code token. A line without the fixed
/// prefix is taken whole.
pub open spec fn text_of_line(l: Seq<char>) -> Seq<char> {
    if valid_reply_line(l) {
        let t = l.skip(4);
        if has_enhanced_code(t) {
            t.skip(6)
        } else {
            t
        }
    } else {
        l
    }
}

/// A reply is well-formed when its first line starts with the
/// three-digit code and a separator.
pub open spec fn response_valid(raw: Seq<char>) -> bool {
    valid_reply_line(first_line(raw))
}

/// The three-digit status code, read off the first line.
pub open spec fn response_code(raw: Seq<char>) -> int {
    code_of_line(first_line(raw))
}

/// The reply's status class: its code classified by the hundreds digit.
pub open spec fn response_status(raw: Seq<char>) -> SmtpStatus {
    status_of_code(response_code(raw))
}

/// The reply's free text: the remainder of the last line.
pub open spec fn response_text(raw: Seq<char>) -> Seq<char> {
    text_of_line(last_line(raw))
}

/// A classified server reply: the raw text as read from the wire, the
/// status class of its code, and the free text of its last line.
#[derive(Debug)]
pub struct SmtpResponse {
    m_raw_response: String,
    m_status: SmtpStatus,
    m_text: String,
}

impl SmtpResponse {
    pub closed spec fn raw_spec(&self) -> Seq<char> {
        self.m_raw_response@
    }

    pub closed spec fn status_spec(&self) -> SmtpStatus {
        self.m_status
    }

    pub closed spec fn text_spec(&self) -> Seq<char> {
        self.m_text@
    }

    pub fn get_raw_response(&self) -> (r: String)
        ensures
            r@ == self.raw_spec(),
    {
        self.m_raw_response.clone()
    }

    pub fn get_status(&self) -> (r: SmtpStatus)
        ensures
            r == self.status_spec(),
    {
        self.m_status
    }

    pub fn get_text(&self) -> (r: String)
        ensures
            r@ == self.text_spec(),
    {
        self.m_text.clone()
    }

    /// The status gate: succeeds exactly when the reply's class is the
    /// expected one.
    pub fn status_should_be(&self, status: SmtpStatus) -> (r: Result<(), Error>)
        ensures
            self.status_spec() == status ==> r is Ok,
            self.status_spec() != status ==> (r matches Err(Error::SmtpResponse(m)) && m@
                == "Unexpected status"@),
    {
        if self.m_status == status {
            Ok(())
        } else {
            Err(Error::SmtpResponse(String::from_str("Unexpected status")))
        }
    }
}

/// Builds an [`SmtpResponse`] out of a raw reply, rejecting malformed
/// input.
pub struct SmtpResponseBuilder {}

impl SmtpResponseBuilder {
    pub fn new() -> (r: Self) {
        SmtpResponseBuilder {  }
    }

    /// Parses and classifies a raw reply; fails with the
    /// malformed-response error when the first line does not match the
    /// reply grammar.
    pub fn build(&self, raw_response: &str) -> (r: Result<SmtpResponse, Error>)
        ensures
            response_valid(raw_response@) ==> (r matches Ok(resp) && resp.raw_spec()
                == raw_response@ && resp.status_spec() == response_status(raw_response@)
                && resp.text_spec() == response_text(raw_response@)),
            !response_valid(raw_response@) ==> (r matches Err(Error::SmtpResponse(m)) && m@
                == "Invalid response"@),
    {
        let status_code = self.parse_status_code(raw_response)?;
        let status = SmtpStatus::from_code(status_code);
        let text = self.parse_text(raw_response)?;

        Ok(
            SmtpResponse {
                m_raw_response: raw_response.to_owned(),
                m_status: status,
                m_text: text,
            },
        )
    }

    /// The first stage: tokenizes the fixed-width status code off the
    /// first line.
    pub fn parse_status_code(&self, raw_response: &str) -> (r: Result<u16, Error>)
        ensures
            response_valid(raw_response@) ==> (r matches Ok(c) && c as int == response_code(
                raw_response@,
            )),
            !response_valid(raw_response@) ==> (r matches Err(Error::SmtpResponse(m)) && m@
                == "Invalid response"@),
    {
        if self.is_valid_response(raw_response) {
            proof {
                lemma_first_line_prefix(raw_response@);
            }
            let c0 = digit_value(raw_response.get_char(0));
            let c1 = digit_value(raw_response.get_char(1));
            let c2 = digit_value(raw_response.get_char(2));
            Ok(c0 * 100 + c1 * 10 + c2)
        } else {
            Err(Error::SmtpResponse(String::from_str("Invalid response")))
        }
    }

    /// The second stage: extracts the free text of the last line.
    pub fn parse_text(&self, raw_response: &str) -> (r: Result<String, Error>)
        ensures
            response_valid(raw_response@) ==> (r matches Ok(t) && t@ == response_text(
                raw_response@,
            )),
            !response_valid(raw_response@) ==> (r matches Err(Error::SmtpResponse(m)) && m@
                == "Invalid response"@),
    {
        if self.is_valid_response(raw_response) {
            Ok(extract_last_line_text(raw_response))
        } else {
            Err(Error::SmtpResponse(String::from_str("Invalid response")))
        }
    }

    /// Whether the reply matches the grammar: the first line starts with
    /// three digits and a space-or-dash.
    pub fn is_valid_response(&self, raw_response: &str) -> (r: bool)
        ensures
            r == response_valid(raw_response@),
    {
        let end = first_line_end(raw_response);
        if end < 4 {
            return false;
        }
        let c0 = raw_response.get_char(0);
        let c1 = raw_response.get_char(1);
        let c2 = raw_response.get_char(2);
        let c3 = raw_response.get_char(3);
        is_digit(c0) && is_digit(c1) && is_digit(c2) && (c3 == ' ' || c3 == '-')
    }
}

impl SmtpStatus {
    /// Classifies a status code by its hundreds digit.
    pub fn from_code(status: u16) -> (r: SmtpStatus)
        ensures
            r == status_of_code(status as int),
    {
        if 200 <= status && status < 300 {
            SmtpStatus::PositiveCompletion
        } else if 300 <= status && status < 400 {
            SmtpStatus::PositiveIntermediate
        } else if 400 <= status && status < 500 {
            SmtpStatus::TransientNegativeCompletion
        } else if 500 <= status && status < 600 {
            SmtpStatus::PermanentNegativeCompletion
        } else {
            SmtpStatus::Unknown
        }
    }
}

impl From<u16> for SmtpStatus {
    fn from(status: u16) -> (r: SmtpStatus) {
        SmtpStatus::from_code(status)
    }
}

impl vstd::std_specs::convert::FromSpecImpl<u16> for SmtpStatus {
    open spec fn obeys_from_spec() -> bool {
        true
    }

    open spec fn from_spec(status: u16) -> SmtpStatus {
        status_of_code(status as int)
    }
}

fn is_digit(c: char) -> (r: bool)
    ensures
        r == is_digit_char(c),
{
    '0' <= c && c <= '9'
}

fn digit_value(c: char) -> (r: u16)
    requires
        is_digit_char(c),
    ensures
        r as int == digit_val(c),
        r < 10,
{
    (c as u32 - 48) as u16
}

/// Length of the first line once its terminator is trimmed away.
fn first_line_end(s: &str) -> (r: usize)
    ensures
        r <= s@.len(),
        s@.take(r as int) == first_line(s@),
        forall|j: int| 0 <= j < r ==> s@[j] == first_line(s@)[j],
{
    let n = s.unicode_len();
    let mut i: usize = 0;
    while i < n && s.get_char(i) != '\n'
        invariant
            0 <= i <= n,
            n == s@.len(),
            find_newline(s@, 0) == find_newline(s@, i as int),
        decreases n - i,
    {
        i = i + 1;
    }
    proof {
        assert(find_newline(s@, 0) == i as int);
    }
    if i > 0 && s.get_char(i - 1) == '\r' {
        proof {
            assert(s@.take(i - 1) =~= trim_trailing_cr(s@.take(i as int)));
        }
        i - 1
    } else {
        proof {
            assert(s@.take(i as int) =~= trim_trailing_cr(s@.take(i as int)));
        }
        i
    }
}

/// The first newline comes at or after `i`.
proof fn lemma_find_newline_range(s: Seq<char>, i: int)
    requires
        0 <= i <= s.len(),
    ensures
        i <= find_newline(s, i) <= s.len(),
    decreases s.len() - i,
{
    if i < s.len() && s[i] != '\n' {
        lemma_find_newline_range(s, i + 1);
    }
}

/// The first line is an initial segment of the reply.
pub proof fn lemma_first_line_prefix(s: Seq<char>)
    ensures
        first_line(s).len() <= s.len(),
        forall|j: int| 0 <= j < first_line(s).len() ==> first_line(s)[j] == s[j],
{
    lemma_find_newline_range(s, 0);
}

/// The first newline comes exactly at `k` when nothing before `k` is one.
proof fn lemma_find_newline_from(s: Seq<char>, i: int, k: int)
    requires
        0 <= i <= k <= s.len(),
        forall|j: int| i <= j < k ==> s[j] != '\n',
        k < s.len() ==> s[k] == '\n',
    ensures
        find_newline(s, i) == if k < s.len() {
            k
        } else {
            s.len() as int
        },
    decreases k - i,
{
    if i < k {
        lemma_find_newline_from(s, i + 1, k);
    }
}

/// No line feed below `i` means the line containing `i` starts at zero.
proof fn lemma_line_start_none(s: Seq<char>, i: int)
    requires
        0 <= i <= s.len(),
        forall|j: int| 0 <= j < i ==> s[j] != '\n',
    ensures
        line_start_from(s, i) == 0,
    decreases i,
{
    if i > 0 {
        lemma_line_start_none(s, i - 1);
    }
}

/// Every single-line reply built of a code in the 200s, a space, and a
/// terminator-free text that does not begin with an enhanced-status-code
/// token classifies as a positive completion, and its free text is
/// returned verbatim.
pub proof fn lemma_positive_completion_reply(d1: char, d2: char, text: Seq<char>)
    requires
        is_digit_char(d1),
        is_digit_char(d2),
        forall|j: int| 0 <= j < text.len() ==> text[j] != '\r' && text[j] != '\n',
        !has_enhanced_code(text),
    ensures
        ({
            let raw = seq!['2', d1, d2, ' '] + text + seq!['\r', '\n'];
            &&& response_valid(raw)
            &&& response_status(raw) == SmtpStatus::PositiveCompletion
            &&& response_text(raw) == text
        }),
{
    let raw = seq!['2', d1, d2, ' '] + text + seq!['\r', '\n'];
    let k = text.len() + 5;
    assert(raw.len() == text.len() + 6);
    assert(forall|j: int| 0 <= j < k ==> raw[j] != '\n') by {
        assert(forall|j: int| 4 <= j < text.len() + 4 ==> raw[j] == text[j - 4]);
    }
    lemma_find_newline_from(raw, 0, k as int);
    let fl = first_line(raw);
    assert(fl =~= seq!['2', d1, d2, ' '] + text);
    assert(valid_reply_line(fl));
    assert(digit_val('2') == 2);
    assert(0 <= digit_val(d1) <= 9 && 0 <= digit_val(d2) <= 9);
    assert(200 <= code_of_line(fl) < 300);

    let t = strip_final_newline(raw);
    assert(t =~= seq!['2', d1, d2, ' '] + text);
    assert(forall|j: int| 0 <= j < t.len() ==> t[j] != '\n') by {
        assert(forall|j: int| 4 <= j < t.len() ==> t[j] == text[j - 4]);
    }
    lemma_line_start_none(t, t.len() as int);
    let ll = last_line(raw);
    assert(ll =~= t);
    assert(ll.skip(4) =~= text);
    assert(response_text(raw) =~= text);
}

/// A reply whose first line does not open with three digits is never
/// accepted: parsing it fails as malformed.
pub proof fn lemma_nondigit_leading_token_rejected(raw: Seq<char>)
    requires
        ({
            let fl = first_line(raw);
            fl.len() < 3 || !is_digit_char(fl[0]) || !is_digit_char(fl[1]) || !is_digit_char(
                fl[2],
            )
        }),
    ensures
        !response_valid(raw),
{
}

/// Bounds of the reply's last line: `s@.subrange(r.0, r.1)` is the last
/// line with its terminator trimmed.
fn last_line_bounds(s: &str) -> (r: (usize, usize))
    ensures
        r.0 <= r.1 <= s@.len(),
        s@.subrange(r.0 as int, r.1 as int) == last_line(s@),
{
    let n = s.unicode_len();

    // Trim the final line terminator, leaving `s@.take(stripped)`.
    let mut stripped: usize = n;
    if stripped > 0 && s.get_char(stripped - 1) == '\n' {
        stripped = stripped - 1;
        if stripped > 0 && s.get_char(stripped - 1) == '\r' {
            stripped = stripped - 1;
        }
    }
    let ghost t = strip_final_newline(s@);
    proof {
        assert(s@.take(stripped as int) =~= t);
    }

    // Scan backward for the line feed that opens the last line.
    let mut start: usize = stripped;
    while start > 0 && s.get_char(start - 1) != '\n'
        invariant
            0 <= start <= stripped,
            stripped <= n,
            n == s@.len(),
            stripped as int == t.len(),
            t == s@.take(stripped as int),
            line_start_from(t, t.len() as int) == line_start_from(t, start as int),
        decreases start,
    {
        start = start - 1;
    }
    proof {
        assert(line_start_from(t, t.len() as int) == start as int);
    }

    // Trim a stray carriage return at the line's end.
    let mut end: usize = stripped;
    if end > start && s.get_char(end - 1) == '\r' {
        end = end - 1;
    }
    proof {
        assert(s@.subrange(start as int, end as int) =~= last_line(s@));
    }
    (start, end)
}

/// Extracts the free text of the reply's last line.
fn extract_last_line_text(s: &str) -> (r: String)
    ensures
        r@ == response_text(s@),
{
    let bounds = last_line_bounds(s);
    let start = bounds.0;
    let end = bounds.1;
    let ghost ll = last_line(s@);

    // Skip the fixed prefix and an optional enhanced-status-code token.
    let mut text_start: usize = start;
    if end - start >= 4 && is_digit(s.get_char(start)) && is_digit(s.get_char(start + 1))
        && is_digit(s.get_char(start + 2)) && (s.get_char(start + 3) == ' ' || s.get_char(
        start + 3,
    ) == '-') {
        text_start = start + 4;
        if end - text_start >= 6 && is_digit(s.get_char(text_start)) && s.get_char(text_start + 1)
            == '.' && is_digit(s.get_char(text_start + 2)) && s.get_char(text_start + 3) == '.'
            && is_digit(s.get_char(text_start + 4)) && (s.get_char(text_start + 5) == ' '
            || s.get_char(text_start + 5) == '-') {
            text_start = text_start + 6;
        }
        proof {
            assert(valid_reply_line(ll));
            assert(ll.skip(4) =~= s@.subrange(start + 4, end as int));
            assert(s@.subrange(text_start as int, end as int) =~= text_of_line(ll));
        }
    } else {
        proof {
            assert(!valid_reply_line(ll));
            assert(s@.subrange(text_start as int, end as int) =~= text_of_line(ll));
        }
    }

    let text = s.substring_char(text_start, end);
    text.to_owned()
}

} // verus!
