//! Why an update failed.

use vstd::prelude::*;
use vstd::string::*;

verus! {

/// What went wrong in one step of an update.
#[derive(Debug, Clone)]
pub enum UpdateErrorDetails {
    /// The archive could not be unpacked; with what the unpacker said.
    DecompressError(String),
    /// A file or directory could not be written or moved.
    IOError {
        /// What was being done.
        msg: String,
        /// What the system said.
        source: String,
    },
    /// A version could not be read, or no package matches it.
    VersionError(String),
    /// A request failed; with what the client said.
    DownloadError(String),
    /// A background job did not come back; with what the runtime said.
    TokioError(String),
}

/// What was being updated when it went wrong.
#[derive(Debug, Clone)]
pub enum UpdateErrorType {
    PackageUpdateError(UpdateErrorDetails),
    ResourceUpdateError(UpdateErrorDetails),
}

/// Why an update failed, by the way in which it was tried.
#[derive(Debug, Clone)]
pub enum UpdateError {
    /// The full archive could not be installed.
    FullUpdateError(UpdateErrorType),
    /// The incremental archive could not be installed.
    OTAError(UpdateErrorType),
}

/// The result of a step of an update that can fail.
pub type UpdateDetailedResult<T> = Result<T, UpdateErrorDetails>;

impl UpdateErrorDetails {
    /// What `to_text` returns.
    pub open spec fn spec_text(self) -> Seq<char> {
        match self {
            UpdateErrorDetails::DecompressError(e) => "decompress error: "@ + e@,
            UpdateErrorDetails::IOError { msg, source } => "IO error: "@ + msg@,
            UpdateErrorDetails::VersionError(e) => "version error: "@ + e@,
            UpdateErrorDetails::DownloadError(e) => "download error: "@ + e@,
            UpdateErrorDetails::TokioError(e) => "tokio error: "@ + e@,
        }
    }

    /// The error in words: what kind of step failed, and what was said of
    /// it. Of an I/O error it says what was being done.
    pub fn to_text(&self) -> (r: String)
        ensures
            r@ == self.spec_text(),
    {
        match self {
            UpdateErrorDetails::DecompressError(e) => String::from_str("decompress error: ").concat(
                e.as_str(),
            ),
            UpdateErrorDetails::IOError { msg, source } => String::from_str("IO error: ").concat(
                msg.as_str(),
            ),
            UpdateErrorDetails::VersionError(e) => String::from_str("version error: ").concat(
                e.as_str(),
            ),
            UpdateErrorDetails::DownloadError(e) => String::from_str("download error: ").concat(
                e.as_str(),
            ),
            UpdateErrorDetails::TokioError(e) => String::from_str("tokio error: ").concat(
                e.as_str(),
            ),
        }
    }
}

impl UpdateErrorType {
    /// The step that failed.
    pub open spec fn details(self) -> UpdateErrorDetails {
        match self {
            UpdateErrorType::PackageUpdateError(d) => d,
            UpdateErrorType::ResourceUpdateError(d) => d,
        }
    }

    /// What `to_text` returns.
    pub open spec fn spec_text(self) -> Seq<char> {
        match self {
            UpdateErrorType::PackageUpdateError(d) => "package update error: "@ + d.spec_text(),
            UpdateErrorType::ResourceUpdateError(d) => "resource update error: "@
                + d.spec_text(),
        }
    }

    /// The error in words: what was being updated, and the step that
    /// failed.
    pub fn to_text(&self) -> (r: String)
        ensures
            r@ == self.spec_text(),
    {
        match self {
            UpdateErrorType::PackageUpdateError(d) => String::from_str(
                "package update error: ",
            ).concat(d.to_text().as_str()),
            UpdateErrorType::ResourceUpdateError(d) => String::from_str(
                "resource update error: ",
            ).concat(d.to_text().as_str()),
        }
    }
}

impl UpdateError {
    /// What was being updated.
    pub open spec fn kind(self) -> UpdateErrorType {
        match self {
            UpdateError::FullUpdateError(t) => t,
            UpdateError::OTAError(t) => t,
        }
    }

    /// What `to_text` returns.
    pub open spec fn spec_text(self) -> Seq<char> {
        "full update error: "@ + self.kind().spec_text()
    }

    /// The error in words. Both ways of updating are introduced by the
    /// same words.
    pub fn to_text(&self) -> (r: String)
        ensures
            r@ == self.spec_text(),
    {
        match self {
            UpdateError::FullUpdateError(t) => String::from_str("full update error: ").concat(
                t.to_text().as_str(),
            ),
            UpdateError::OTAError(t) => String::from_str("full update error: ").concat(
                t.to_text().as_str(),
            ),
        }
    }
}

} // verus!
