//! The library's error type.
use vstd::prelude::*;

verus! {

/// What can go wrong while ingesting mail. Failures of outside services are
/// carried as their rendered messages.
#[derive(Debug, PartialEq, Eq)]
pub enum Error {
    /// A file operation failed.
    IoError(String),
    /// A scratch file could not be created.
    CreateTempFile(String),
    /// A post-processor could not finish its work on an attachment.
    PostProcessFailed(String),
    /// The object store reported a failure other than "not found".
    AwsS3Error(String),
    /// Storing an object failed.
    S3PutObjectFailed(String),
    /// The notification request failed.
    Reqwest(String),
    /// The named external tool failed its health check.
    ToolCheckFailed(String),
}

} // verus!
