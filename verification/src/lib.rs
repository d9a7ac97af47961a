//! A split-channel secure file delivery library: a source file is packed
//! into a password-protected archive, the archive goes out as a mail
//! attachment, and the password follows in a second mail — optionally after
//! a timed delay, and optionally replaced by a decoy of equal length.

pub mod archive;
pub mod base64;
pub mod config;
pub mod email;
pub mod json;
pub mod orchestrator;
pub mod password;
pub mod sendgrid;
pub mod text;
