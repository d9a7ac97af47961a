use ppap::base64::base64_encode;
use ppap::email::TransportError;
use ppap::sendgrid::{
    bearer_value, build_mail_json, build_mail_json_with_attachment, classify_response,
    mime_type_for,
};

#[test]
fn test_base64_known_vectors() {
    assert_eq!(base64_encode(b""), "");
    assert_eq!(base64_encode(b"f"), "Zg==");
    assert_eq!(base64_encode(b"fo"), "Zm8=");
    assert_eq!(base64_encode(b"foo"), "Zm9v");
    assert_eq!(base64_encode(b"foob"), "Zm9vYg==");
    assert_eq!(base64_encode(b"fooba"), "Zm9vYmE=");
    assert_eq!(base64_encode(b"foobar"), "Zm9vYmFy");
    assert_eq!(base64_encode(&[0xff, 0xef, 0xbe]), "/+++");
}

#[test]
fn test_bearer_value() {
    assert_eq!(bearer_value("test_api_key"), "Bearer test_api_key");
}

#[test]
fn test_mime_type_selection() {
    assert_eq!(mime_type_for("report.txt.zip"), "application/zip");
    assert_eq!(mime_type_for("archive.zip"), "application/zip");
    assert_eq!(mime_type_for("notes.txt"), "application/octet-stream");
    assert_eq!(mime_type_for("zip"), "application/octet-stream");
}

#[test]
fn test_mail_json_is_well_formed() {
    let body = build_mail_json(
        "sender@example.com",
        "a@example.com",
        "File \"Transfer\"",
        "line one\nline two\t\"quoted\"",
    );
    let value: serde_json::Value = serde_json::from_str(&body).unwrap();
    assert_eq!(
        value["personalizations"][0]["to"][0]["email"],
        "a@example.com"
    );
    assert_eq!(value["from"]["email"], "sender@example.com");
    assert_eq!(value["subject"], "File \"Transfer\"");
    assert_eq!(value["content"][0]["type"], "text/plain");
    assert_eq!(value["content"][0]["value"], "line one\nline two\t\"quoted\"");
    assert!(value.get("attachments").is_none());
}

#[test]
fn test_mail_json_with_attachment_is_well_formed() {
    let body = build_mail_json_with_attachment(
        "sender@example.com",
        "a@example.com",
        "File Transfer",
        "Please find the attached encrypted file.",
        "report.txt.zip",
        "application/zip",
        b"hello",
    );
    let value: serde_json::Value = serde_json::from_str(&body).unwrap();
    let attachment = &value["attachments"][0];
    assert_eq!(attachment["content"], "aGVsbG8=");
    assert_eq!(attachment["filename"], "report.txt.zip");
    assert_eq!(attachment["type"], "application/zip");
    assert_eq!(attachment["disposition"], "attachment");
    assert_eq!(value["subject"], "File Transfer");
}

#[test]
fn test_classify_response_success() {
    assert!(classify_response(Ok((200, String::new()))).is_ok());
    assert!(classify_response(Ok((202, "accepted".to_string()))).is_ok());
    assert!(classify_response(Ok((299, String::new()))).is_ok());
}

#[test]
fn test_classify_response_http_error() {
    let r = classify_response(Ok((500, "server error".to_string())));
    match r {
        Err(TransportError::Http { status, body }) => {
            assert_eq!(status, 500);
            assert_eq!(body, "server error");
        }
        _ => panic!("expected an HTTP transport error"),
    }
    assert!(matches!(
        classify_response(Ok((199, String::new()))),
        Err(TransportError::Http { status: 199, .. })
    ));
    assert!(matches!(
        classify_response(Ok((300, String::new()))),
        Err(TransportError::Http { status: 300, .. })
    ));
}

#[test]
fn test_classify_response_connection_error() {
    let r = classify_response(Err("connection refused".to_string()));
    match r {
        Err(TransportError::Connection { cause }) => {
            assert_eq!(cause, "connection refused");
        }
        _ => panic!("expected a connection error"),
    }
}
