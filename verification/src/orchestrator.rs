//! The delivery workflow: compress, send the archive, work out the
//! password to disclose, optionally wait, send the password, clean up.
//!
//! The orchestrator is a state machine. It decides; the caller performs
//! the outside work (reading and writing files, network sends, waiting)
//! and reports each outcome back as an [`Event`]. [`next_action`] says
//! what is due in the current state, [`handle`] moves the machine on.
//!
//! [`next_action`]: DeliveryOrchestrator::next_action
//! [`handle`]: DeliveryOrchestrator::handle

use vstd::prelude::*;
use crate::archive::{Archive, IoError};
use crate::email::{EmailAttachment, EmailMessage, TransportError};
use crate::password::{all_alphanumeric, DecoyPasswordGenerator};
use crate::text::zip_path_for;

verus! {

/// The caller-chosen shape of one delivery run, immutable once it starts.
#[derive(Debug, Clone, Copy)]
pub struct DeliveryPlan {
    /// Disclose a decoy instead of the real password.
    pub secure_mode: bool,
    /// Hold the password message back this many hours.
    pub delay_hours: Option<u32>,
}

/// What ended a failed run.
#[derive(Debug, Clone, PartialEq, Eq)]
pub enum DeliveryError {
    Io(IoError),
    Transport(TransportError),
}

/// Where one delivery run stands.
#[derive(Debug)]
pub enum WorkflowState {
    Created,
    Compressed { archive: Archive },
    AttachmentSent { archive: Archive },
    PasswordComputed { archive: Archive, disclosed: String },
    Delaying { archive: Archive, disclosed: String, remaining_ticks: u64 },
    PasswordSent { archive: Archive, disclosed: String },
    CleanedUp { archive: Archive, disclosed: String, cleanup_error: Option<String> },
    Failed { error: DeliveryError, archive_path: Option<String> },
}

/// What the caller reports back after performing the outside work.
pub enum Event {
    /// The archive was produced and written beside the source — or not.
    Compressed(Result<Archive, IoError>),
    /// The attachment message's send attempt finished.
    AttachmentSend(Result<(), TransportError>),
    /// One polling tick of the delay elapsed.
    Waited,
    /// The password message's send attempt finished.
    PasswordSend(Result<(), TransportError>),
    /// The archive file was removed — or could not be.
    CleanupDone(Result<(), String>),
}

/// What the orchestrator asks the caller to do next.
pub enum Action {
    /// Read the source file and build the encrypted archive beside it.
    Compress { source_path: String },
    /// Send the archive message.
    SendAttachment { message: EmailMessage },
    /// Let the orchestrator work out the password to disclose.
    ComputePassword,
    /// Sleep one polling tick of the delay.
    Wait { seconds: u64, remaining_ticks: u64 },
    /// Send the password message.
    SendPassword { message: EmailMessage },
    /// Delete the archive file.
    RemoveArchive { path: String },
    /// The run ended with both messages delivered.
    Done,
    /// The run ended in failure; the error sits in the state.
    Halt,
}

pub open spec fn attachment_subject() -> Seq<char> {
    "File Transfer"@
}

pub open spec fn attachment_body() -> Seq<char> {
    "Please find the attached encrypted file."@
}

pub open spec fn password_subject() -> Seq<char> {
    "Your file password"@
}

pub open spec fn password_body_of(disclosed: Seq<char>) -> Seq<char> {
    "The password for the encrypted file is: "@ + disclosed
}

/// The whole delay, counted in sixty-second polling ticks.
pub open spec fn total_ticks(plan: DeliveryPlan) -> int {
    match plan.delay_hours {
        Some(h) => h * 60,
        None => 0,
    }
}

fn total_ticks_exec(plan: &DeliveryPlan) -> (t: u64)
    ensures
        t == total_ticks(*plan),
{
    match plan.delay_hours {
        Some(h) => (h as u64) * 60,
        None => 0,
    }
}

/// The attachment message: fixed subject and body, the archive riding
/// along under its source's base name with the archive suffix, declared
/// as an archive content type.
pub open spec fn attachment_message_matches(
    m: EmailMessage,
    recipient: Seq<char>,
    archive: Archive,
) -> bool {
    &&& m.recipient@ == recipient
    &&& m.subject@ == attachment_subject()
    &&& m.body@ == attachment_body()
    &&& m.attachment matches Some(att) && att.path@ == archive.path@ && att.display_name@
        == archive.source_file_name@ + ".zip"@ && att.mime_type@ == "application/zip"@
}

/// Builds the attachment message for one archive.
pub fn attachment_message_for(recipient: &str, archive: &Archive) -> (m: EmailMessage)
    ensures
        attachment_message_matches(m, recipient@, *archive),
{
    let display_name = zip_path_for(archive.source_file_name.as_str());
    proof {
        reveal_strlit(".zip");
        let d = display_name@;
        let n = archive.source_file_name@.len() as int;
        assert(d.len() == n + 4);
        assert(d[d.len() - 4] == '.' && d[d.len() - 3] == 'z' && d[d.len() - 2] == 'i' && d[d.len()
            - 1] == 'p');
    }
    let mime_type = crate::sendgrid::mime_type_for(display_name.as_str());
    EmailMessage {
        recipient: recipient.to_owned(),
        subject: "File Transfer".to_owned(),
        body: "Please find the attached encrypted file.".to_owned(),
        attachment: Some(
            EmailAttachment { path: archive.path.clone(), display_name, mime_type },
        ),
    }
}

/// Builds the password message carrying the disclosed password.
pub fn password_message_for(recipient: &str, disclosed: &str) -> (m: EmailMessage)
    ensures
        m.recipient@ == recipient@,
        m.subject@ == password_subject(),
        m.body@ == password_body_of(disclosed@),
        m.attachment is None,
{
    let mut body = "The password for the encrypted file is: ".to_owned();
    body.append(disclosed);
    EmailMessage {
        recipient: recipient.to_owned(),
        subject: "Your file password".to_owned(),
        body,
        attachment: None,
    }
}

/// The password text a state discloses; empty before one is chosen.
pub open spec fn state_disclosed(s: WorkflowState) -> Seq<char> {
    match s {
        WorkflowState::PasswordComputed { disclosed, .. } => disclosed@,
        WorkflowState::Delaying { disclosed, .. } => disclosed@,
        WorkflowState::PasswordSent { disclosed, .. } => disclosed@,
        WorkflowState::CleanedUp { disclosed, .. } => disclosed@,
        _ => Seq::empty(),
    }
}

/// The real archive password a state retains; empty before compression.
pub open spec fn state_real_password(s: WorkflowState) -> Seq<char> {
    match s {
        WorkflowState::Compressed { archive } => archive.password@,
        WorkflowState::AttachmentSent { archive } => archive.password@,
        WorkflowState::PasswordComputed { archive, .. } => archive.password@,
        WorkflowState::Delaying { archive, .. } => archive.password@,
        WorkflowState::PasswordSent { archive, .. } => archive.password@,
        WorkflowState::CleanedUp { archive, .. } => archive.password@,
        _ => Seq::empty(),
    }
}

/// Drives one delivery run to its end, one decision at a time.
pub struct DeliveryOrchestrator {
    pub source_path: String,
    pub recipient: String,
    pub plan: DeliveryPlan,
    pub state: WorkflowState,
    /// Whether the attachment message's send has completed successfully.
    pub attachment_delivered: bool,
}

impl DeliveryOrchestrator {
    /// How the disclosed password relates to the archive's: same length
    /// always; the real one outside secure mode, an alphanumeric decoy in
    /// secure mode.
    pub open spec fn disclosure_ok(self, archive: Archive, disclosed: Seq<char>) -> bool {
        &&& disclosed.len() == archive.password@.len()
        &&& if self.plan.secure_mode {
            all_alphanumeric(disclosed)
        } else {
            disclosed == archive.password@
        }
    }

    /// The machine's invariant: no state at or past the password phase is
    /// reached before the attachment message went out, and the disclosed
    /// password keeps its relation to the real one.
    pub open spec fn inv(self) -> bool {
        match self.state {
            WorkflowState::AttachmentSent { .. } => self.attachment_delivered,
            WorkflowState::PasswordComputed { archive, disclosed } => self.attachment_delivered
                && self.disclosure_ok(archive, disclosed@),
            WorkflowState::Delaying { archive, disclosed, .. } => self.attachment_delivered
                && self.disclosure_ok(archive, disclosed@),
            WorkflowState::PasswordSent { archive, disclosed } => self.attachment_delivered
                && self.disclosure_ok(archive, disclosed@),
            WorkflowState::CleanedUp { archive, disclosed, .. } => self.attachment_delivered
                && self.disclosure_ok(archive, disclosed@),
            _ => true,
        }
    }

    /// Whether the machine is asking for the password message to go out.
    pub open spec fn requests_password_send(self) -> bool {
        match self.state {
            WorkflowState::PasswordComputed { .. } => total_ticks(self.plan) == 0,
            WorkflowState::Delaying { remaining_ticks, .. } => remaining_ticks == 0,
            _ => false,
        }
    }

    /// Whether the machine is asking the caller to sleep one tick.
    pub open spec fn requests_wait(self) -> bool {
        match self.state {
            WorkflowState::PasswordComputed { .. } => total_ticks(self.plan) > 0,
            WorkflowState::Delaying { remaining_ticks, .. } => remaining_ticks > 0,
            _ => false,
        }
    }

    /// The transition function: how each reported outcome moves the
    /// machine on. An event that does not fit the current state changes
    /// nothing.
    pub open spec fn spec_step(self, event: Event) -> WorkflowState {
        match (self.state, event) {
            (WorkflowState::Created, Event::Compressed(Ok(archive))) => (WorkflowState::Compressed {
                archive,
            }),
            (WorkflowState::Created, Event::Compressed(Err(e))) => (WorkflowState::Failed {
                error: DeliveryError::Io(e),
                archive_path: None,
            }),
            (
                WorkflowState::Compressed { archive },
                Event::AttachmentSend(Ok(_)),
            ) => (WorkflowState::AttachmentSent { archive }),
            (
                WorkflowState::Compressed { archive },
                Event::AttachmentSend(Err(e)),
            ) => (WorkflowState::Failed {
                error: DeliveryError::Transport(e),
                archive_path: Some(archive.path),
            }),
            (WorkflowState::PasswordComputed { archive, disclosed }, Event::Waited) => if
                total_ticks(self.plan) > 0 {
                (WorkflowState::Delaying {
                    archive,
                    disclosed,
                    remaining_ticks: (total_ticks(self.plan) - 1) as u64,
                })
            } else {
                (WorkflowState::PasswordComputed { archive, disclosed })
            },
            (
                WorkflowState::Delaying { archive, disclosed, remaining_ticks },
                Event::Waited,
            ) => if remaining_ticks > 0 {
                (WorkflowState::Delaying {
                    archive,
                    disclosed,
                    remaining_ticks: (remaining_ticks - 1) as u64,
                })
            } else {
                (WorkflowState::Delaying { archive, disclosed, remaining_ticks })
            },
            (
                WorkflowState::PasswordComputed { archive, disclosed },
                Event::PasswordSend(res),
            ) => if total_ticks(self.plan) == 0 {
                match res {
                    Ok(_) => (WorkflowState::PasswordSent { archive, disclosed }),
                    Err(e) => (WorkflowState::Failed {
                        error: DeliveryError::Transport(e),
                        archive_path: Some(archive.path),
                    }),
                }
            } else {
                (WorkflowState::PasswordComputed { archive, disclosed })
            },
            (
                WorkflowState::Delaying { archive, disclosed, remaining_ticks },
                Event::PasswordSend(res),
            ) => if remaining_ticks == 0 {
                match res {
                    Ok(_) => (WorkflowState::PasswordSent { archive, disclosed }),
                    Err(e) => (WorkflowState::Failed {
                        error: DeliveryError::Transport(e),
                        archive_path: Some(archive.path),
                    }),
                }
            } else {
                (WorkflowState::Delaying { archive, disclosed, remaining_ticks })
            },
            (
                WorkflowState::PasswordSent { archive, disclosed },
                Event::CleanupDone(Ok(_)),
            ) => (WorkflowState::CleanedUp { archive, disclosed, cleanup_error: None }),
            (
                WorkflowState::PasswordSent { archive, disclosed },
                Event::CleanupDone(Err(d)),
            ) => (WorkflowState::CleanedUp { archive, disclosed, cleanup_error: Some(d) }),
            (s, _) => s,
        }
    }

    /// Whether this event reports the attachment send's successful
    /// completion in the state that awaited it.
    pub open spec fn confirms_attachment(self, event: Event) -> bool {
        match (self.state, event) {
            (WorkflowState::Compressed { .. }, Event::AttachmentSend(Ok(_))) => true,
            _ => false,
        }
    }

    /// A fresh run that has done nothing yet.
    pub fn new(source_path: String, recipient: String, plan: DeliveryPlan) -> (r: Self)
        ensures
            r.source_path == source_path,
            r.recipient == recipient,
            r.plan == plan,
            r.state is Created,
            !r.attachment_delivered,
            r.inv(),
    {
        DeliveryOrchestrator {
            source_path,
            recipient,
            plan,
            state: WorkflowState::Created,
            attachment_delivered: false,
        }
    }

    /// What the caller should do next in the current state.
    pub fn next_action(&self) -> (a: Action)
        ensures
            (a is Compress) <==> self.state is Created,
            a matches Action::Compress { source_path } ==> source_path@ == self.source_path@,
            (a is SendAttachment) <==> self.state is Compressed,
            a matches Action::SendAttachment { message } ==> match self.state {
                WorkflowState::Compressed { archive } => attachment_message_matches(
                    message,
                    self.recipient@,
                    archive,
                ),
                _ => false,
            },
            (a is ComputePassword) <==> self.state is AttachmentSent,
            (a is Wait) <==> self.requests_wait(),
            a matches Action::Wait { seconds, .. } ==> seconds == 60,
            (a is SendPassword) <==> self.requests_password_send(),
            a matches Action::SendPassword { message } ==> {
                &&& message.recipient@ == self.recipient@
                &&& message.subject@ == password_subject()
                &&& message.body@ == password_body_of(state_disclosed(self.state))
                &&& message.attachment is None
            },
            (a is RemoveArchive) <==> self.state is PasswordSent,
            a matches Action::RemoveArchive { path } ==> match self.state {
                WorkflowState::PasswordSent { archive, .. } => path@ == archive.path@,
                _ => false,
            },
            (a is Done) <==> self.state is CleanedUp,
            (a is Halt) <==> self.state is Failed,
    {
        match &self.state {
            WorkflowState::Created => Action::Compress { source_path: self.source_path.clone() },
            WorkflowState::Compressed { archive } => Action::SendAttachment {
                message: attachment_message_for(self.recipient.as_str(), archive),
            },
            WorkflowState::AttachmentSent { .. } => Action::ComputePassword,
            WorkflowState::PasswordComputed { disclosed, .. } => {
                let total = total_ticks_exec(&self.plan);
                if total > 0 {
                    Action::Wait { seconds: 60, remaining_ticks: total }
                } else {
                    Action::SendPassword {
                        message: password_message_for(self.recipient.as_str(), disclosed.as_str()),
                    }
                }
            },
            WorkflowState::Delaying { disclosed, remaining_ticks, .. } => {
                if *remaining_ticks > 0 {
                    Action::Wait { seconds: 60, remaining_ticks: *remaining_ticks }
                } else {
                    Action::SendPassword {
                        message: password_message_for(self.recipient.as_str(), disclosed.as_str()),
                    }
                }
            },
            WorkflowState::PasswordSent { archive, .. } => Action::RemoveArchive {
                path: archive.path.clone(),
            },
            WorkflowState::CleanedUp { .. } => Action::Done,
            WorkflowState::Failed { .. } => Action::Halt,
        }
    }

    /// Chooses the password to disclose once the attachment went out: the
    /// real one, or in secure mode a fresh decoy of the same length that
    /// is drawn without ever reading the real one.
    pub fn step_compute_password(&mut self)
        requires
            old(self).inv(),
            old(self).state is AttachmentSent,
        ensures
            final(self).inv(),
            final(self).source_path == old(self).source_path,
            final(self).recipient == old(self).recipient,
            final(self).plan == old(self).plan,
            final(self).attachment_delivered == old(self).attachment_delivered,
            match old(self).state {
                WorkflowState::AttachmentSent { archive } => match final(self).state {
                    WorkflowState::PasswordComputed { archive: a, disclosed } => a == archive
                        && final(self).disclosure_ok(a, disclosed@),
                    _ => false,
                },
                _ => true,
            },
    {
        let mut st = WorkflowState::Created;
        core::mem::swap(&mut st, &mut self.state);
        match st {
            WorkflowState::AttachmentSent { archive } => {
                let disclosed = if self.plan.secure_mode {
                    let generator = DecoyPasswordGenerator;
                    generator.generate(archive.password.as_str().unicode_len())
                } else {
                    archive.password.clone()
                };
                self.state = WorkflowState::PasswordComputed { archive, disclosed };
            },
            other => {
                self.state = other;
            },
        }
    }

    /// Moves the machine on after the caller performed the pending action.
    /// An event that does not fit the current state changes nothing.
    pub fn handle(&mut self, event: Event)
        requires
            old(self).inv(),
        ensures
            final(self).inv(),
            final(self).source_path == old(self).source_path,
            final(self).recipient == old(self).recipient,
            final(self).plan == old(self).plan,
            final(self).attachment_delivered == (old(self).attachment_delivered || old(self).confirms_attachment(event)),
            final(self).state == old(self).spec_step(event),
    {
        let mut st = WorkflowState::Created;
        core::mem::swap(&mut st, &mut self.state);
        match (st, event) {
            (WorkflowState::Created, Event::Compressed(res)) => match res {
                Ok(archive) => {
                    self.state = WorkflowState::Compressed { archive };
                },
                Err(e) => {
                    self.state = WorkflowState::Failed {
                        error: DeliveryError::Io(e),
                        archive_path: None,
                    };
                },
            },
            (WorkflowState::Compressed { archive }, Event::AttachmentSend(res)) => match res {
                Ok(_) => {
                    self.attachment_delivered = true;
                    self.state = WorkflowState::AttachmentSent { archive };
                },
                Err(e) => {
                    self.state = WorkflowState::Failed {
                        error: DeliveryError::Transport(e),
                        archive_path: Some(archive.path),
                    };
                },
            },
            (WorkflowState::PasswordComputed { archive, disclosed }, Event::Waited) => {
                let total = total_ticks_exec(&self.plan);
                if total > 0 {
                    self.state = WorkflowState::Delaying {
                        archive,
                        disclosed,
                        remaining_ticks: total - 1,
                    };
                } else {
                    self.state = WorkflowState::PasswordComputed { archive, disclosed };
                }
            },
            (WorkflowState::Delaying { archive, disclosed, remaining_ticks }, Event::Waited) => {
                if remaining_ticks > 0 {
                    self.state = WorkflowState::Delaying {
                        archive,
                        disclosed,
                        remaining_ticks: remaining_ticks - 1,
                    };
                } else {
                    self.state = WorkflowState::Delaying {
                        archive,
                        disclosed,
                        remaining_ticks,
                    };
                }
            },
            (WorkflowState::PasswordComputed { archive, disclosed }, Event::PasswordSend(res)) => {
                let total = total_ticks_exec(&self.plan);
                if total == 0 {
                    match res {
                        Ok(_) => {
                            self.state = WorkflowState::PasswordSent { archive, disclosed };
                        },
                        Err(e) => {
                            self.state = WorkflowState::Failed {
                                error: DeliveryError::Transport(e),
                                archive_path: Some(archive.path),
                            };
                        },
                    }
                } else {
                    self.state = WorkflowState::PasswordComputed { archive, disclosed };
                }
            },
            (
                WorkflowState::Delaying { archive, disclosed, remaining_ticks },
                Event::PasswordSend(res),
            ) => {
                if remaining_ticks == 0 {
                    match res {
                        Ok(_) => {
                            self.state = WorkflowState::PasswordSent { archive, disclosed };
                        },
                        Err(e) => {
                            self.state = WorkflowState::Failed {
                                error: DeliveryError::Transport(e),
                                archive_path: Some(archive.path),
                            };
                        },
                    }
                } else {
                    self.state = WorkflowState::Delaying { archive, disclosed, remaining_ticks };
                }
            },
            (WorkflowState::PasswordSent { archive, disclosed }, Event::CleanupDone(res)) => {
                match res {
                    Ok(_) => {
                        self.state = WorkflowState::CleanedUp {
                            archive,
                            disclosed,
                            cleanup_error: None,
                        };
                    },
                    Err(d) => {
                        self.state = WorkflowState::CleanedUp {
                            archive,
                            disclosed,
                            cleanup_error: Some(d),
                        };
                    },
                }
            },
            (other, _) => {
                self.state = other;
            },
        }
    }

    /// The real archive password, kept for operator-facing reporting; it
    /// is never put into a message in secure mode.
    pub fn real_password(&self) -> (r: Option<&String>)
        ensures
            r matches Some(p) ==> p@ == state_real_password(self.state),
            (r is Some) <==> !(self.state is Created || self.state is Failed),
    {
        match &self.state {
            WorkflowState::Compressed { archive } => Some(&archive.password),
            WorkflowState::AttachmentSent { archive } => Some(&archive.password),
            WorkflowState::PasswordComputed { archive, .. } => Some(&archive.password),
            WorkflowState::Delaying { archive, .. } => Some(&archive.password),
            WorkflowState::PasswordSent { archive, .. } => Some(&archive.password),
            WorkflowState::CleanedUp { archive, .. } => Some(&archive.password),
            _ => None,
        }
    }

    /// The password chosen for disclosure, once one exists.
    pub fn disclosed_password(&self) -> (r: Option<&String>)
        ensures
            r matches Some(p) ==> p@ == state_disclosed(self.state),
    {
        match &self.state {
            WorkflowState::PasswordComputed { disclosed, .. } => Some(disclosed),
            WorkflowState::Delaying { disclosed, .. } => Some(disclosed),
            WorkflowState::PasswordSent { disclosed, .. } => Some(disclosed),
            WorkflowState::CleanedUp { disclosed, .. } => Some(disclosed),
            _ => None,
        }
    }
}

/// Law: whenever the machine asks for the password message to be sent,
/// the attachment message's send has already completed successfully —
/// on every path, the delayed ones among them.
pub proof fn lemma_attachment_precedes_password(o: DeliveryOrchestrator)
    requires
        o.inv(),
        o.requests_password_send(),
    ensures
        o.attachment_delivered,
{
}

/// Law: the disclosed password always has the real password's length;
/// outside secure mode it is the real password itself, and in secure
/// mode it is alphanumeric.
pub proof fn lemma_disclosure_shape(o: DeliveryOrchestrator)
    requires
        o.inv(),
        o.state matches WorkflowState::PasswordComputed { .. } || o.state matches
            WorkflowState::Delaying { .. } || o.state matches WorkflowState::PasswordSent { .. }
            || o.state matches WorkflowState::CleanedUp { .. },
    ensures
        state_disclosed(o.state).len() == state_real_password(o.state).len(),
        !o.plan.secure_mode ==> state_disclosed(o.state) == state_real_password(o.state),
        o.plan.secure_mode ==> all_alphanumeric(state_disclosed(o.state)),
{
}

} // verus!
