//! The rules of pulling a file from another node over HTTP.
use vstd::prelude::*;

verus! {

/// How long a download may take before it is given up, in milliseconds.
pub const DOWNLOAD_TIMEOUT_MS: u64 = 30000;

/// Why a download failed, with the cause as reported.
pub enum DownloadError {
    /// The request could not be made or answered.
    Request(String),
    /// The server answered with a status outside 2xx; `text` is the status
    /// as the HTTP client writes it.
    Status { code: u16, text: String },
    /// The response body could not be received.
    Body(String),
    /// The destination file could not be created.
    Create(String),
    /// The destination file could not be written.
    Write(String),
}

/// A 2xx status.
pub open spec fn is_success_spec(code: u16) -> bool {
    200 <= code && code <= 299
}

/// Whether `code` is a success status (2xx).
pub fn is_success(code: u16) -> (r: bool)
    ensures
        r == is_success_spec(code),
{
    200 <= code && code <= 299
}

/// Accepts a 2xx status; any other is a `Status` failure.
pub fn check_status(code: u16, text: String) -> (r: Result<(), DownloadError>)
    ensures
        is_success_spec(code) <==> r is Ok,
        !is_success_spec(code) ==> (r matches Err(DownloadError::Status { code: c, text: t })
            && c == code && t@ == text@),
{
    if is_success(code) {
        Ok(())
    } else {
        Err(DownloadError::Status { code, text })
    }
}

impl DownloadError {
    /// The message shown for this failure.
    pub open spec fn message_spec(&self) -> Seq<char> {
        match self {
            DownloadError::Request(c) => "HTTP request failed: "@ + c@,
            DownloadError::Status { text, .. } => "HTTP error: "@ + text@,
            DownloadError::Body(c) => "Failed to read response: "@ + c@,
            DownloadError::Create(c) => "Failed to create file: "@ + c@,
            DownloadError::Write(c) => "Failed to write file: "@ + c@,
        }
    }

    /// The message shown for this failure: what failed, then its cause.
    pub fn message(&self) -> (r: String)
        ensures
            r@ == self.message_spec(),
    {
        let (head, cause) = match self {
            DownloadError::Request(c) => ("HTTP request failed: ", c),
            DownloadError::Status { text, .. } => ("HTTP error: ", text),
            DownloadError::Body(c) => ("Failed to read response: ", c),
            DownloadError::Create(c) => ("Failed to create file: ", c),
            DownloadError::Write(c) => ("Failed to write file: ", c),
        };
        let mut r = String::from_str(head);
        r.append(cause.as_str());
        r
    }
}

} // verus!
