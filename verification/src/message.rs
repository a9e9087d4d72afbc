//! The outbound message model: a validated, immutable message and the
//! builder that is its sole path to construction.
use vstd::prelude::*;

use crate::errors::Error;

verus! {

/// `", "`-join of a sequence of recipient addresses, in declaration order.
pub open spec fn join_recipients(rcpts: Seq<Seq<char>>) -> Seq<char>
    decreases rcpts.len(),
{
    if rcpts.len() == 0 {
        Seq::<char>::empty()
    } else if rcpts.len() == 1 {
        rcpts[0]
    } else {
        join_recipients(rcpts.drop_last()) + ", "@ + rcpts.last()
    }
}

/// The wire layout of a message: `From:` line, `To:` line with the
/// comma-space-joined recipients, `Subject:` line, a blank line, then the
/// raw body. No terminator is appended here; the session adds the
/// dot-terminator when transmitting.
pub open spec fn imf_of(
    from: Seq<char>,
    rcpts: Seq<Seq<char>>,
    subject: Seq<char>,
    body: Seq<char>,
) -> Seq<char> {
    "From: "@ + from + "\r\n"@ + "To: "@ + join_recipients(rcpts) + "\r\n"@ + "Subject: "@
        + subject + "\r\n"@ + "\r\n"@ + body
}

/// A validated outbound email: sender, at least one recipient (in
/// declaration order, duplicates allowed), subject and body. The
/// builder's `build` is the sole path to construction, so every value
/// satisfies [`SmtpMessage::wf`].
#[derive(Debug)]
pub struct SmtpMessage {
    m_from: String,
    m_to: Vec<String>,
    m_subject: String,
    m_body: String,
}

impl SmtpMessage {
    pub closed spec fn from_spec(&self) -> Seq<char> {
        self.m_from@
    }

    pub closed spec fn to_spec(&self) -> Seq<Seq<char>> {
        self.m_to.deep_view()
    }

    pub closed spec fn subject_spec(&self) -> Seq<char> {
        self.m_subject@
    }

    pub closed spec fn body_spec(&self) -> Seq<char> {
        self.m_body@
    }

    /// What construction guarantees: at least one recipient.
    pub open spec fn wf(&self) -> bool {
        self.to_spec().len() > 0
    }

    pub fn builder() -> (r: SmtpMessageBuilder)
        ensures
            r.from_spec() is None,
            r.to_spec().len() == 0,
            r.subject_spec() is None,
            r.body_spec() is None,
    {
        SmtpMessageBuilder::default()
    }

    pub fn get_from(&self) -> (r: &String)
        ensures
            r@ == self.from_spec(),
    {
        &self.m_from
    }

    pub fn get_to(&self) -> (r: &Vec<String>)
        ensures
            r.deep_view() == self.to_spec(),
    {
        &self.m_to
    }

    pub fn get_subject(&self) -> (r: &String)
        ensures
            r@ == self.subject_spec(),
    {
        &self.m_subject
    }

    pub fn get_body(&self) -> (r: &String)
        ensures
            r@ == self.body_spec(),
    {
        &self.m_body
    }

    /// Serializes the message into its wire layout.
    pub fn to_imf(&self) -> (r: String)
        ensures
            r@ == imf_of(self.from_spec(), self.to_spec(), self.subject_spec(), self.body_spec()),
    {
        let mut imf_message = String::new();

        imf_message.append("From: ");
        imf_message.append(self.m_from.as_str());
        imf_message.append("\r\n");

        imf_message.append("To: ");
        let joined = join_to_line(&self.m_to);
        imf_message.append(joined.as_str());
        imf_message.append("\r\n");

        imf_message.append("Subject: ");
        imf_message.append(self.m_subject.as_str());
        imf_message.append("\r\n");

        imf_message.append("\r\n");

        imf_message.append(self.m_body.as_str());

        proof {
            assert(imf_message@ =~= imf_of(
                self.from_spec(),
                self.to_spec(),
                self.subject_spec(),
                self.body_spec(),
            ));
        }
        imf_message
    }
}

/// Joins the recipient list with `", "`, in declaration order.
fn join_to_line(rcpts: &Vec<String>) -> (r: String)
    ensures
        r@ == join_recipients(rcpts.deep_view()),
{
    let mut joined = String::new();
    let mut i: usize = 0;
    while i < rcpts.len()
        invariant
            i <= rcpts.len(),
            joined@ == join_recipients(rcpts.deep_view().take(i as int)),
        decreases rcpts.len() - i,
    {
        if i > 0 {
            joined.append(", ");
        }
        joined.append(rcpts[i].as_str());
        proof {
            let all = rcpts.deep_view();
            assert(all.take(i + 1).drop_last() =~= all.take(i as int));
            assert(all.take(i + 1).last() == all[i as int]);
            assert(joined@ =~= join_recipients(all.take(i + 1)));
        }
        i = i + 1;
    }
    proof {
        assert(rcpts.deep_view().take(rcpts@.len() as int) =~= rcpts.deep_view());
    }
    joined
}

/// Two recipients always join to `first`, `", "`, `second`: the join
/// keeps declaration order and separates neighbours with comma-space.
pub proof fn lemma_join_two_recipients(first: Seq<char>, second: Seq<char>)
    ensures
        join_recipients(seq![first, second]) == first + ", "@ + second,
{
    let pair = seq![first, second];
    assert(pair.drop_last() =~= seq![first]);
    assert(join_recipients(seq![first]) == first);
    assert(pair.last() == second);
    assert(join_recipients(pair) == first + ", "@ + second);
}

/// Collects the fields of a message; validation happens only at `build`.
pub struct SmtpMessageBuilder {
    m_from: Option<String>,
    m_to: Vec<String>,
    m_subject: Option<String>,
    m_body: Option<String>,
}

impl SmtpMessageBuilder {
    pub closed spec fn from_spec(&self) -> Option<Seq<char>> {
        match self.m_from {
            Some(f) => Some(f@),
            None => None,
        }
    }

    pub closed spec fn to_spec(&self) -> Seq<Seq<char>> {
        self.m_to.deep_view()
    }

    pub closed spec fn subject_spec(&self) -> Option<Seq<char>> {
        match self.m_subject {
            Some(s) => Some(s@),
            None => None,
        }
    }

    pub closed spec fn body_spec(&self) -> Option<Seq<char>> {
        match self.m_body {
            Some(b) => Some(b@),
            None => None,
        }
    }

    pub fn default() -> (r: Self)
        ensures
            r.from_spec() is None,
            r.to_spec().len() == 0,
            r.subject_spec() is None,
            r.body_spec() is None,
    {
        SmtpMessageBuilder { m_from: None, m_to: Vec::new(), m_subject: None, m_body: None }
    }

    pub fn from(self, from: &str) -> (r: Self)
        ensures
            r.from_spec() == Some(from@),
            r.to_spec() == self.to_spec(),
            r.subject_spec() == self.subject_spec(),
            r.body_spec() == self.body_spec(),
    {
        SmtpMessageBuilder { m_from: Some(from.to_owned()), ..self }
    }

    /// Appends one recipient; may be called repeatedly.
    pub fn to(self, to: &str) -> (r: Self)
        ensures
            r.from_spec() == self.from_spec(),
            r.to_spec() == self.to_spec().push(to@),
            r.subject_spec() == self.subject_spec(),
            r.body_spec() == self.body_spec(),
    {
        let mut rcpts = self.m_to;
        rcpts.push(to.to_owned());
        proof {
            assert(rcpts.deep_view() =~= self.to_spec().push(to@));
        }
        SmtpMessageBuilder { m_to: rcpts, ..self }
    }

    pub fn subject(self, subject: &str) -> (r: Self)
        ensures
            r.from_spec() == self.from_spec(),
            r.to_spec() == self.to_spec(),
            r.subject_spec() == Some(subject@),
            r.body_spec() == self.body_spec(),
    {
        SmtpMessageBuilder { m_subject: Some(subject.to_owned()), ..self }
    }

    pub fn body(self, body: &str) -> (r: Self)
        ensures
            r.from_spec() == self.from_spec(),
            r.to_spec() == self.to_spec(),
            r.subject_spec() == self.subject_spec(),
            r.body_spec() == Some(body@),
    {
        SmtpMessageBuilder { m_body: Some(body.to_owned()), ..self }
    }

    /// Checks the fields in the fixed order sender, recipients, subject,
    /// body, and reports the first one missing; succeeds exactly when all
    /// four are present and at least one recipient was declared.
    pub fn build(self) -> (r: Result<SmtpMessage, Error>)
        ensures
            self.from_spec() is None ==> (r matches Err(Error::MessageBuild(m)) && m@
                == "Missing 'from' field"@),
            self.from_spec() is Some && self.to_spec().len() == 0 ==> (r matches Err(
                Error::MessageBuild(m),
            ) && m@ == "Missing 'to' field"@),
            self.from_spec() is Some && self.to_spec().len() > 0 && self.subject_spec() is None
                ==> (r matches Err(Error::MessageBuild(m)) && m@ == "Missing 'subject' field"@),
            self.from_spec() is Some && self.to_spec().len() > 0 && self.subject_spec() is Some
                && self.body_spec() is None ==> (r matches Err(Error::MessageBuild(m)) && m@
                == "Missing 'body' field"@),
            self.from_spec() is Some && self.to_spec().len() > 0 && self.subject_spec() is Some
                && self.body_spec() is Some ==> (r matches Ok(msg) && msg.wf() && msg.from_spec()
                == self.from_spec()->0 && msg.to_spec() == self.to_spec() && msg.subject_spec()
                == self.subject_spec()->0 && msg.body_spec() == self.body_spec()->0),
    {
        if self.m_from.is_none() {
            return Err(Error::MessageBuild(String::from_str("Missing 'from' field")));
        }

        if self.m_to.is_empty() {
            return Err(Error::MessageBuild(String::from_str("Missing 'to' field")));
        }

        if self.m_subject.is_none() {
            return Err(Error::MessageBuild(String::from_str("Missing 'subject' field")));
        }

        if self.m_body.is_none() {
            return Err(Error::MessageBuild(String::from_str("Missing 'body' field")));
        }

        Ok(
            SmtpMessage {
                m_from: self.m_from.unwrap(),
                m_to: self.m_to,
                m_subject: self.m_subject.unwrap(),
                m_body: self.m_body.unwrap(),
            },
        )
    }
}

} // verus!
