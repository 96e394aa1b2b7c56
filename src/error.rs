//! The shell's errors.
use vstd::prelude::*;

verus! {

/// What can go wrong in the shell. Configuration errors end the program
/// before the shell starts; backend errors are reported and the shell goes
/// on.
#[derive(Debug, Clone, PartialEq, Eq)]
pub enum ShellError {
    /// The backend refused to take a statement; the backend's words.
    Submission(String),
    /// The backend took a statement but gave no handle for it.
    MissingHandle,
    /// Asking for a query's status failed; the backend's words.
    Polling(String),
    /// A listing or a result page could not be fetched; the backend's words.
    Listing(String),
    /// No home directory is known to look for credentials under.
    MissingHomeDirectory,
    /// The timeout is zero, or too large for its tiers to be counted.
    InvalidTimeout(u64),
    /// No backend service goes by this name.
    InvalidService(String),
    /// No credentials file is at this path.
    CredentialFileNotFound(String),
    /// The credentials file has no section for this profile.
    ProfileNotFound(String),
}

pub enum ShellErrorView {
    Submission(Seq<char>),
    MissingHandle,
    Polling(Seq<char>),
    Listing(Seq<char>),
    MissingHomeDirectory,
    InvalidTimeout(u64),
    InvalidService(Seq<char>),
    CredentialFileNotFound(Seq<char>),
    ProfileNotFound(Seq<char>),
}

impl View for ShellError {
    type V = ShellErrorView;

    open spec fn view(&self) -> ShellErrorView {
        match self {
            ShellError::Submission(m) => ShellErrorView::Submission(m@),
            ShellError::MissingHandle => ShellErrorView::MissingHandle,
            ShellError::Polling(m) => ShellErrorView::Polling(m@),
            ShellError::Listing(m) => ShellErrorView::Listing(m@),
            ShellError::MissingHomeDirectory => ShellErrorView::MissingHomeDirectory,
            ShellError::InvalidTimeout(t) => ShellErrorView::InvalidTimeout(*t),
            ShellError::InvalidService(s) => ShellErrorView::InvalidService(s@),
            ShellError::CredentialFileNotFound(p) => ShellErrorView::CredentialFileNotFound(p@),
            ShellError::ProfileNotFound(p) => ShellErrorView::ProfileNotFound(p@),
        }
    }
}

} // verus!
