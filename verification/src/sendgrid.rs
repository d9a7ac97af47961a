//! The REST mail transport: it serializes a message into the mail API's
//! JSON wire format, issues one POST per send, and maps the response onto
//! the transport error taxonomy.

use vstd::prelude::*;
use crate::base64::{base64_encode, base64_of};
use crate::config::SendGridConfig;
use crate::email::{EmailSender, TransportError};
use crate::json::{json_quoted, push_json_string};
use crate::text::push_char;

verus! {

/// The fixed mail-send endpoint of the REST API.
pub const MAIL_ENDPOINT: &'static str = "https://api.sendgrid.com/v3/mail/send";

#[verifier::external_type_specification]
#[verifier::external_body]
pub struct ExBlockingClient(reqwest::blocking::Client);

/// Relies on reqwest's blocking `ClientBuilder::build`: a client with the
/// default configuration, or the builder's error reported as a value
/// rather than a panic.
#[verifier::external_body]
fn new_http_client() -> (r: Result<reqwest::blocking::Client, String>) {
    match reqwest::blocking::Client::builder().build() {
        Ok(client) => Ok(client),
        Err(e) => Err(e.to_string()),
    }
}

/// Relies on reqwest's blocking client: issues exactly one POST carrying
/// the given body and headers, and hands back the response status and
/// text, or the error's description when no response came back. Nothing
/// is promised of the outcome: the remote endpoint decides it.
#[verifier::external_body]
fn post_json(
    client: &reqwest::blocking::Client,
    url: &str,
    authorization: &str,
    json_body: String,
) -> (r: Result<(u16, String), String>)
{
    let result = client
        .post(url)
        .header("Authorization", authorization)
        .header("Content-Type", "application/json")
        .body(json_body)
        .send();
    match result {
        Ok(response) => match (response.status().as_u16(), response.text()) {
            (status, Ok(text)) => Ok((status, text)),
            (_, Err(e)) => Err(e.to_string()),
        },
        Err(e) => Err(e.to_string()),
    }
}

/// The credential header value: the bearer scheme in front of the key.
pub fn bearer_value(api_key: &str) -> (r: String)
    ensures
        r@ == "Bearer "@ + api_key@,
{
    let mut s = "Bearer ".to_owned();
    s.append(api_key);
    s
}

/// Whether the name ends in the archive suffix `.zip`.
pub open spec fn has_zip_suffix(s: Seq<char>) -> bool {
    s.len() >= 4 && s[s.len() - 4] == '.' && s[s.len() - 3] == 'z' && s[s.len() - 2] == 'i'
        && s[s.len() - 1] == 'p'
}

/// The content type an attachment is declared under: archives go out as
/// such, anything else as a generic binary.
pub fn mime_type_for(filename: &str) -> (r: String)
    ensures
        has_zip_suffix(filename@) ==> r@ == "application/zip"@,
        !has_zip_suffix(filename@) ==> r@ == "application/octet-stream"@,
{
    let n = filename.unicode_len();
    if n >= 4 && filename.get_char(n - 4) == '.' && filename.get_char(n - 3) == 'z'
        && filename.get_char(n - 2) == 'i' && filename.get_char(n - 1) == 'p' {
        "application/zip".to_owned()
    } else {
        "application/octet-stream".to_owned()
    }
}

/// The wire format shared by both sends: recipient, sender, subject and
/// the plain-text content, with the object left open for more members.
pub open spec fn mail_json_core(
    from: Seq<char>,
    to: Seq<char>,
    subject: Seq<char>,
    body: Seq<char>,
) -> Seq<char> {
    "{\"personalizations\":[{\"to\":[{\"email\":"@ + json_quoted(to) + "}]}],\"from\":{\"email\":"@
        + json_quoted(from) + "},\"subject\":"@ + json_quoted(subject)
        + ",\"content\":[{\"type\":\"text/plain\",\"value\":"@ + json_quoted(body) + "}]"@
}

/// The request body of a plain message.
pub open spec fn mail_json_of(
    from: Seq<char>,
    to: Seq<char>,
    subject: Seq<char>,
    body: Seq<char>,
) -> Seq<char> {
    mail_json_core(from, to, subject, body) + "}"@
}

/// The request body of a message with one attachment: the file's bytes in
/// base64, its display name, its content type, and the attachment
/// disposition.
pub open spec fn mail_json_with_attachment_of(
    from: Seq<char>,
    to: Seq<char>,
    subject: Seq<char>,
    body: Seq<char>,
    filename: Seq<char>,
    mime: Seq<char>,
    data: Seq<u8>,
) -> Seq<char> {
    mail_json_core(from, to, subject, body) + ",\"attachments\":[{\"content\":\""@ + base64_of(data)
        + "\",\"filename\":"@ + json_quoted(filename) + ",\"type\":"@ + json_quoted(mime)
        + ",\"disposition\":\"attachment\"}]}"@
}

fn build_mail_core(from: &str, to: &str, subject: &str, body: &str) -> (r: String)
    ensures
        r@ == mail_json_core(from@, to@, subject@, body@),
{
    let mut out = String::new();
    out.append("{\"personalizations\":[{\"to\":[{\"email\":");
    push_json_string(&mut out, to);
    out.append("}]}],\"from\":{\"email\":");
    push_json_string(&mut out, from);
    out.append("},\"subject\":");
    push_json_string(&mut out, subject);
    out.append(",\"content\":[{\"type\":\"text/plain\",\"value\":");
    push_json_string(&mut out, body);
    out.append("}]");
    proof {
        assert(out@ =~= mail_json_core(from@, to@, subject@, body@));
    }
    out
}

/// The serialized request body of a plain message.
pub fn build_mail_json(from: &str, to: &str, subject: &str, body: &str) -> (r: String)
    ensures
        r@ == mail_json_of(from@, to@, subject@, body@),
{
    let mut out = build_mail_core(from, to, subject, body);
    out.append("}");
    proof {
        assert(out@ =~= mail_json_of(from@, to@, subject@, body@));
    }
    out
}

/// The serialized request body of a message with one attachment.
pub fn build_mail_json_with_attachment(
    from: &str,
    to: &str,
    subject: &str,
    body: &str,
    filename: &str,
    mime: &str,
    content: &[u8],
) -> (r: String)
    ensures
        r@ == mail_json_with_attachment_of(
            from@,
            to@,
            subject@,
            body@,
            filename@,
            mime@,
            content@,
        ),
{
    let mut out = build_mail_core(from, to, subject, body);
    out.append(",\"attachments\":[{\"content\":\"");
    let encoded = base64_encode(content);
    out.append(encoded.as_str());
    out.append("\",\"filename\":");
    push_json_string(&mut out, filename);
    out.append(",\"type\":");
    push_json_string(&mut out, mime);
    out.append(",\"disposition\":\"attachment\"}]}");
    proof {
        assert(out@ =~= mail_json_with_attachment_of(
            from@,
            to@,
            subject@,
            body@,
            filename@,
            mime@,
            content@,
        ));
    }
    out
}

/// Maps what came back over the wire onto the delivery outcome: a
/// success status in the 200 range is success, any other status fails
/// with that status and the response body verbatim, and a transport
/// breakdown fails with its cause.
pub fn classify_response(outcome: Result<(u16, String), String>) -> (r: Result<
    (),
    TransportError,
>)
    ensures
        match outcome {
            Ok((status, body)) => if 200 <= status < 300 {
                r is Ok
            } else {
                r matches Err(TransportError::Http { status: s, body: b }) && s == status && b@
                    == body@
            },
            Err(cause) => r matches Err(TransportError::Connection { cause: c }) && c@ == cause@,
        },
{
    match outcome {
        Ok((status, body)) => {
            if 200 <= status && status < 300 {
                Ok(())
            } else {
                Err(TransportError::Http { status, body })
            }
        },
        Err(cause) => Err(TransportError::Connection { cause }),
    }
}

/// The REST transport: one POST per send, the credential in a bearer
/// header.
pub struct SendGridRestSender {
    api_key: String,
    from_address: String,
    client: reqwest::blocking::Client,
}

impl SendGridRestSender {
    pub closed spec fn spec_api_key(self) -> Seq<char> {
        self.api_key@
    }

    pub closed spec fn spec_from_address(self) -> Seq<char> {
        self.from_address@
    }

    /// A transport bound to one credential and sender address. It fails
    /// with a connection error when the HTTP client cannot be set up.
    pub fn new(config: &SendGridConfig) -> (r: Result<Self, TransportError>)
        ensures
            r matches Ok(s) ==> s.spec_api_key() == config.api_key@ && s.spec_from_address()
                == config.from_address@,
            r is Err ==> r matches Err(TransportError::Connection { .. }),
    {
        match new_http_client() {
            Ok(client) => Ok(
                SendGridRestSender {
                    api_key: config.api_key.clone(),
                    from_address: config.from_address.clone(),
                    client,
                },
            ),
            Err(cause) => Err(TransportError::Connection { cause }),
        }
    }
}

impl EmailSender for SendGridRestSender {
    fn send_email(&self, to: &str, subject: &str, body: &str) -> (r: Result<(), TransportError>) {
        let json = build_mail_json(self.from_address.as_str(), to, subject, body);
        let auth = bearer_value(self.api_key.as_str());
        let outcome = post_json(&self.client, MAIL_ENDPOINT, auth.as_str(), json);
        classify_response(outcome)
    }

    fn send_email_with_attachment(
        &self,
        to: &str,
        subject: &str,
        body: &str,
        filename: &str,
        content: &[u8],
    ) -> (r: Result<(), TransportError>) {
        let mime = mime_type_for(filename);
        let json = build_mail_json_with_attachment(
            self.from_address.as_str(),
            to,
            subject,
            body,
            filename,
            mime.as_str(),
            content,
        );
        let auth = bearer_value(self.api_key.as_str());
        let outcome = post_json(&self.client, MAIL_ENDPOINT, auth.as_str(), json);
        classify_response(outcome)
    }
}

} // verus!
