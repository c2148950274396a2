//! The library's error types.
use vstd::prelude::*;
use crate::progress::Progress;

verus! {

/// `std::io::Error`, carried as an opaque value.
#[verifier::external_type_specification]
#[verifier::external_body]
pub struct ExIoError(std::io::Error);

/// `std::string::FromUtf8Error`, carried as an opaque value.
#[verifier::external_type_specification]
#[verifier::external_body]
pub struct ExFromUtf8Error(std::string::FromUtf8Error);

/// `reqwest::Error`, carried as an opaque value.
#[verifier::external_type_specification]
#[verifier::external_body]
pub struct ExReqwestError(reqwest::Error);

/// `serde_json::Error`, carried as an opaque value.
#[verifier::external_type_specification]
#[verifier::external_body]
pub struct ExJsonError(serde_json::Error);

/// `indicatif::style::TemplateError`, carried as an opaque value.
#[verifier::external_type_specification]
#[verifier::external_body]
pub struct ExTemplateError(indicatif::style::TemplateError);

/// `tokio::sync::mpsc::error::SendError<T>`, carried as an opaque value.
#[verifier::external_type_specification]
#[verifier::external_body]
#[verifier::reject_recursive_types(T)]
pub struct ExSendError<T>(tokio::sync::mpsc::error::SendError<T>);

/// Everything that can make an asset operation fail.
#[derive(Debug)]
pub enum AssetsError {
    Io(std::io::Error),
    Reqwest(reqwest::Error),
    Json(serde_json::Error),
    FromUtf8(std::string::FromUtf8Error),
    Template(indicatif::style::TemplateError),
    Send(tokio::sync::mpsc::error::SendError<Progress>),
    /// `cargo metadata` failed; holds what it wrote to standard error.
    CargoMetadata(String),
    /// A downloaded asset did not match its checksum; holds the asset's name.
    Checksum(String),
    Download(DownloadError),
    Verification(VerificationError),
}

/// Failures of a ranged or whole-file download.
#[derive(Debug)]
pub enum DownloadError {
    Chunk { name: String, start: u64, end: u64, source: reqwest::Error },
    Init { name: String, source: reqwest::Error },
}

/// Failures of the checksum verification of a file on disk.
#[derive(Debug)]
pub enum VerificationError {
    /// The file's SHA-256 digest, in lowercase hex, differs from the expected one.
    Mismatch { name: String, expected: String, actual: String },
    /// The file could not be opened or read.
    Io { name: String, source: std::io::Error },
}

} // verus!
