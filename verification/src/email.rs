//! The transport-facing side of delivery: messages, transport failures,
//! and the capability interface every mail backend offers.

use vstd::prelude::*;

verus! {

/// One file riding along with a message.
pub struct EmailAttachment {
    pub path: String,
    pub display_name: String,
    pub mime_type: String,
}

/// One outbound mail, built per send and never persisted.
pub struct EmailMessage {
    pub recipient: String,
    pub subject: String,
    pub body: String,
    pub attachment: Option<EmailAttachment>,
}

/// Why a send failed: the endpoint answered with a non-success status, or
/// no response came back at all.
#[derive(Debug, Clone, PartialEq, Eq)]
pub enum TransportError {
    Http { status: u16, body: String },
    Connection { cause: String },
}

/// What every mail backend offers: sending a plain message, and sending a
/// message that carries one attachment. Each call stands for exactly one
/// delivery attempt; a reported failure with an HTTP status only ever
/// carries a non-success status.
pub trait EmailSender {
    fn send_email(&self, to: &str, subject: &str, body: &str) -> (r: Result<(), TransportError>)
        ensures
            r matches Err(TransportError::Http { status, .. }) ==> !(200 <= status < 300),
    ;

    fn send_email_with_attachment(
        &self,
        to: &str,
        subject: &str,
        body: &str,
        filename: &str,
        content: &[u8],
    ) -> (r: Result<(), TransportError>)
        ensures
            r matches Err(TransportError::Http { status, .. }) ==> !(200 <= status < 300),
    ;
}

} // verus!
