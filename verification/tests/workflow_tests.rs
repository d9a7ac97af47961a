use ppap::archive::{compress_file, Archive, IoError};
use ppap::email::TransportError;
use ppap::orchestrator::{
    Action, DeliveryError, DeliveryOrchestrator, DeliveryPlan, Event, WorkflowState,
};
use ppap::password::DecoyPasswordGenerator;

fn compress_hello() -> (Archive, Vec<u8>) {
    compress_file("report.txt", Some(b"hello".to_vec())).unwrap()
}

#[test]
fn test_decoy_generator_length_and_alphabet() {
    let generator = DecoyPasswordGenerator;
    for n in [0usize, 1, 5, 16, 64] {
        let s = generator.generate(n);
        assert_eq!(s.len(), n);
        assert!(s.chars().all(|c| c.is_ascii_alphanumeric()));
    }
}

#[test]
fn test_decoy_generator_repeated_calls_differ() {
    let generator = DecoyPasswordGenerator;
    let a = generator.generate(16);
    let b = generator.generate(16);
    let c = generator.generate(16);
    assert_ne!(a, b);
    assert_ne!(a, c);
    assert_ne!(b, c);
}

#[test]
fn test_plain_delivery_reaches_cleaned_up() {
    let plan = DeliveryPlan { secure_mode: false, delay_hours: None };
    let mut o = DeliveryOrchestrator::new(
        "report.txt".to_string(),
        "a@example.com".to_string(),
        plan,
    );

    let action = o.next_action();
    match action {
        Action::Compress { source_path } => assert_eq!(source_path, "report.txt"),
        _ => panic!("expected the compress action first"),
    }

    let (archive, _data) = compress_hello();
    assert_eq!(archive.path, "report.txt.zip");
    let real_password = archive.password.clone();
    o.handle(Event::Compressed(Ok(archive)));

    let action = o.next_action();
    let attachment_message = match action {
        Action::SendAttachment { message } => message,
        _ => panic!("expected the attachment send next"),
    };
    assert_eq!(attachment_message.recipient, "a@example.com");
    assert_eq!(attachment_message.subject, "File Transfer");
    let attachment = attachment_message.attachment.as_ref().unwrap();
    assert_eq!(attachment.path, "report.txt.zip");
    assert_eq!(attachment.display_name, "report.txt.zip");
    assert_eq!(attachment.mime_type, "application/zip");

    o.handle(Event::AttachmentSend(Ok(())));
    assert!(matches!(o.next_action(), Action::ComputePassword));
    o.step_compute_password();

    let action = o.next_action();
    let password_message = match action {
        Action::SendPassword { message } => message,
        _ => panic!("expected the password send next"),
    };
    assert_eq!(password_message.recipient, "a@example.com");
    assert!(password_message.attachment.is_none());
    assert_eq!(
        password_message.body,
        format!("The password for the encrypted file is: {}", real_password)
    );

    o.handle(Event::PasswordSend(Ok(())));
    let action = o.next_action();
    match action {
        Action::RemoveArchive { path } => assert_eq!(path, "report.txt.zip"),
        _ => panic!("expected the cleanup next"),
    }

    o.handle(Event::CleanupDone(Ok(())));
    assert!(matches!(o.state, WorkflowState::CleanedUp { .. }));
    assert!(matches!(o.next_action(), Action::Done));
}

#[test]
fn test_secure_mode_discloses_a_decoy() {
    let plan = DeliveryPlan { secure_mode: true, delay_hours: None };
    let mut o = DeliveryOrchestrator::new(
        "report.txt".to_string(),
        "a@example.com".to_string(),
        plan,
    );

    let (archive, _data) = compress_hello();
    let real_password = archive.password.clone();
    o.handle(Event::Compressed(Ok(archive)));
    o.handle(Event::AttachmentSend(Ok(())));
    o.step_compute_password();

    let disclosed = o.disclosed_password().unwrap().clone();
    assert_eq!(disclosed.len(), real_password.len());
    assert!(disclosed.chars().all(|c| c.is_ascii_alphanumeric()));
    assert_ne!(disclosed, real_password);

    let action = o.next_action();
    let password_message = match action {
        Action::SendPassword { message } => message,
        _ => panic!("expected the password send next"),
    };
    assert!(password_message.body.contains(&disclosed));
    assert!(!password_message.body.contains(&real_password));

    assert_eq!(o.real_password().unwrap(), &real_password);
}

#[test]
fn test_attachment_failure_halts_before_password() {
    let plan = DeliveryPlan { secure_mode: false, delay_hours: None };
    let mut o = DeliveryOrchestrator::new(
        "report.txt".to_string(),
        "a@example.com".to_string(),
        plan,
    );

    let (archive, _data) = compress_hello();
    o.handle(Event::Compressed(Ok(archive)));
    o.handle(Event::AttachmentSend(Err(TransportError::Http {
        status: 500,
        body: "server error".to_string(),
    })));

    match &o.state {
        WorkflowState::Failed { error, archive_path } => {
            assert!(matches!(
                error,
                DeliveryError::Transport(TransportError::Http { status: 500, .. })
            ));
            assert_eq!(archive_path.as_deref(), Some("report.txt.zip"));
        }
        _ => panic!("expected a failed run"),
    }
    assert!(!o.attachment_delivered);
    assert!(matches!(o.next_action(), Action::Halt));
}

#[test]
fn test_unreadable_source_halts_without_sends() {
    let plan = DeliveryPlan { secure_mode: false, delay_hours: None };
    let mut o = DeliveryOrchestrator::new(
        "missing.txt".to_string(),
        "a@example.com".to_string(),
        plan,
    );

    let result = compress_file("missing.txt", None);
    assert!(matches!(result, Err(IoError::SourceUnreadable)));
    o.handle(Event::Compressed(Err(result.unwrap_err())));

    match &o.state {
        WorkflowState::Failed { error, archive_path } => {
            assert!(matches!(error, DeliveryError::Io(IoError::SourceUnreadable)));
            assert!(archive_path.is_none());
        }
        _ => panic!("expected a failed run"),
    }
    assert!(matches!(o.next_action(), Action::Halt));
}

#[test]
fn test_delay_ticks_run_down_before_password_send() {
    let plan = DeliveryPlan { secure_mode: false, delay_hours: Some(1) };
    let mut o = DeliveryOrchestrator::new(
        "report.txt".to_string(),
        "a@example.com".to_string(),
        plan,
    );

    let (archive, _data) = compress_hello();
    o.handle(Event::Compressed(Ok(archive)));
    o.handle(Event::AttachmentSend(Ok(())));
    o.step_compute_password();

    let mut waits = 0u64;
    loop {
        match o.next_action() {
            Action::Wait { seconds, remaining_ticks } => {
                assert_eq!(seconds, 60);
                assert!(remaining_ticks >= 1);
                waits += 1;
                o.handle(Event::Waited);
            }
            Action::SendPassword { message } => {
                assert_eq!(message.recipient, "a@example.com");
                break;
            }
            _ => panic!("only waiting and the password send are due here"),
        }
        assert!(waits <= 60, "the delay must end after an hour of ticks");
    }
    assert_eq!(waits, 60);
    assert!(o.attachment_delivered);

    o.handle(Event::PasswordSend(Ok(())));
    assert!(matches!(o.state, WorkflowState::PasswordSent { .. }));
}

#[test]
fn test_password_send_failure_keeps_archive_path() {
    let plan = DeliveryPlan { secure_mode: false, delay_hours: None };
    let mut o = DeliveryOrchestrator::new(
        "report.txt".to_string(),
        "a@example.com".to_string(),
        plan,
    );

    let (archive, _data) = compress_hello();
    o.handle(Event::Compressed(Ok(archive)));
    o.handle(Event::AttachmentSend(Ok(())));
    o.step_compute_password();
    o.handle(Event::PasswordSend(Err(TransportError::Connection {
        cause: "connection reset".to_string(),
    })));

    match &o.state {
        WorkflowState::Failed { error, archive_path } => {
            assert!(matches!(
                error,
                DeliveryError::Transport(TransportError::Connection { .. })
            ));
            assert_eq!(archive_path.as_deref(), Some("report.txt.zip"));
        }
        _ => panic!("expected a failed run"),
    }
}

#[test]
fn test_cleanup_failure_is_reported_but_not_fatal() {
    let plan = DeliveryPlan { secure_mode: false, delay_hours: None };
    let mut o = DeliveryOrchestrator::new(
        "report.txt".to_string(),
        "a@example.com".to_string(),
        plan,
    );

    let (archive, _data) = compress_hello();
    o.handle(Event::Compressed(Ok(archive)));
    o.handle(Event::AttachmentSend(Ok(())));
    o.step_compute_password();
    o.handle(Event::PasswordSend(Ok(())));
    o.handle(Event::CleanupDone(Err("permission denied".to_string())));

    match &o.state {
        WorkflowState::CleanedUp { cleanup_error, .. } => {
            assert_eq!(cleanup_error.as_deref(), Some("permission denied"));
        }
        _ => panic!("a cleanup failure must not undo the delivery"),
    }
    assert!(matches!(o.next_action(), Action::Done));
}

#[test]
fn test_mismatched_event_changes_nothing() {
    let plan = DeliveryPlan { secure_mode: false, delay_hours: None };
    let mut o = DeliveryOrchestrator::new(
        "report.txt".to_string(),
        "a@example.com".to_string(),
        plan,
    );

    o.handle(Event::PasswordSend(Ok(())));
    assert!(matches!(o.state, WorkflowState::Created));
    o.handle(Event::Waited);
    assert!(matches!(o.state, WorkflowState::Created));
    assert!(matches!(o.next_action(), Action::Compress { .. }));
}
