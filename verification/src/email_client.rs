//! Mail as the login flow hands it to the dispatch.

use crate::domain::creds::Email;
use vstd::prelude::*;

verus! {

/// One mail to dispatch: to whom, under which subject, with what content.
#[derive(Debug)]
pub struct SendEmail {
    pub recipient: Email,
    pub subject: String,
    pub content: String,
}

/// A dispatch that delivers nothing and only says what it was given.
#[derive(Debug)]
pub struct MockEmailClient;

impl MockEmailClient {
    /// The line that reports a mail.
    pub open spec fn notice(recipient: Seq<char>, subject: Seq<char>, content: Seq<char>) -> Seq<
        char,
    > {
        "Sending email to "@ + recipient + " with subject: "@ + subject + " and content: "@
            + content
    }

    /// The line to print for a mail in place of sending it.
    pub fn send_email(&self, recipient: &Email, subject: &str, content: &str) -> (line: String)
        ensures
            line@ == MockEmailClient::notice(recipient@, subject@, content@),
    {
        let mut line = "Sending email to ".to_owned();
        line.append(recipient.as_ref());
        line.append(" with subject: ");
        line.append(subject);
        line.append(" and content: ");
        line.append(content);
        line
    }
}

} // verus!
