//! The failures that the engine reports.

use vstd::prelude::*;
use vstd::string::*;

verus! {

/// The step that failed.
#[derive(Clone, Copy, Debug, PartialEq, Eq, Structural)]
pub enum ErrorKind {
    /// The error stream is not attached to an interactive terminal.
    NotATty,
    /// The directory of session links could not be created.
    LinkDirectory,
    /// The session has no link that leads to an installed JDK.
    NoCurrentJdk,
    /// The cache root could not be read.
    ReadCache,
    /// An entry of the cache root could not be read.
    ReadCacheEntry,
    /// What a former attempt left of a new session link could not be removed.
    RemoveLink,
    /// The new session link could not be made.
    MakeLink,
    /// The new session link could not be put in the place of the old one.
    ReplaceLink,
    /// The JDK is not installed, and no install was tried.
    NotInstalled,
    /// The archive catalog could not be asked.
    Fetch,
    /// The archive catalog answered without success.
    BadResponse,
    /// The answer names no file.
    NoContentDisposition,
    /// The file name in the answer could not be read.
    BadFileName,
    /// The archive is of a kind that cannot be unpacked.
    UnsupportedArchive,
    /// What a former attempt left of the install directory could not be removed.
    CleanInstallDir,
    /// The install directory could not be created.
    CreateInstallDir,
    /// The staging directory could not be created.
    CreateStaging,
    /// The archive could not be unpacked.
    Unpack,
    /// The staging directory could not be read.
    ReadStaging,
    /// An entry of the staging directory could not be read.
    ReadStagingEntry,
    /// The unpacked tree could not be moved to the install directory.
    Promote,
    /// The completion marker could not be written.
    WriteMarker,
    /// The staging directory could not be removed.
    CleanStaging,
    /// An event arrived that does not answer the step that was asked for.
    UnexpectedEvent,
}

/// A failure as text: the step, what it worked on, and what the system said.
pub struct ErrorText {
    pub kind: ErrorKind,
    pub subject: Seq<char>,
    pub cause: Seq<char>,
}

/// A failure: the step that failed, the path or file name that it worked on
/// (empty where there is none), and the message of the underlying failure
/// (empty where there is none).
#[derive(Debug, PartialEq, Eq)]
pub struct JdkError {
    pub kind: ErrorKind,
    pub subject: String,
    pub cause: String,
}

impl View for JdkError {
    type V = ErrorText;

    open spec fn view(&self) -> ErrorText {
        ErrorText { kind: self.kind, subject: self.subject@, cause: self.cause@ }
    }
}

/// A failure of `kind` with neither subject nor cause.
pub open spec fn bare(kind: ErrorKind) -> ErrorText {
    ErrorText { kind, subject: Seq::empty(), cause: Seq::empty() }
}

/// A failure of `kind` with a cause only.
pub open spec fn caused(kind: ErrorKind, cause: Seq<char>) -> ErrorText {
    ErrorText { kind, subject: Seq::empty(), cause }
}

/// What a failure of `kind` on `subject` says of itself.
pub open spec fn context_text(kind: ErrorKind, subject: Seq<char>) -> Seq<char> {
    match kind {
        ErrorKind::NotATty => "Not a TTY"@,
        ErrorKind::LinkDirectory => "Failed to create by-tty directory"@,
        ErrorKind::NoCurrentJdk => "No current JDK"@,
        ErrorKind::ReadCache => "Failed to read base directory"@,
        ErrorKind::ReadCacheEntry => "Failed to read directory entry"@,
        ErrorKind::RemoveLink => "Failed to remove old symlink"@,
        ErrorKind::MakeLink => "Failed to make new symlink"@,
        ErrorKind::ReplaceLink => "Failed to replace old symlink"@,
        ErrorKind::NotInstalled => "No JDK is installed in "@ + subject,
        ErrorKind::Fetch => "Failed to get JDK binary"@,
        ErrorKind::BadResponse => "Failed to get JDK binary"@,
        ErrorKind::NoContentDisposition => "no content disposition"@,
        ErrorKind::BadFileName => "no file name in content disposition"@,
        ErrorKind::UnsupportedArchive => "Don't know how to handle "@ + subject,
        ErrorKind::CleanInstallDir => "Unable to clean JDK folder ("@ + subject + ")"@,
        ErrorKind::CreateInstallDir => "Unable to create directories to JDK folder ("@ + subject
            + ")"@,
        ErrorKind::CreateStaging => "Failed to create temporary directory"@,
        ErrorKind::Unpack => "Failed to unpack the archive"@,
        ErrorKind::ReadStaging => "Failed to read temp dir"@,
        ErrorKind::ReadStagingEntry => "Failed to read temp dir entry"@,
        ErrorKind::Promote => "Unable to move to JDK folder ("@ + subject + ")"@,
        ErrorKind::WriteMarker => "Unable to create marker"@,
        ErrorKind::CleanStaging => "Failed to cleanup temp dir"@,
        ErrorKind::UnexpectedEvent => "Unexpected event"@,
    }
}

/// The whole message of a failure: its context, then a colon and the cause
/// where there is one.
pub open spec fn message_text(e: ErrorText) -> Seq<char> {
    if e.cause.len() == 0 {
        context_text(e.kind, e.subject)
    } else {
        context_text(e.kind, e.subject) + ": "@ + e.cause
    }
}

impl JdkError {
    /// A failure of `kind` with neither subject nor cause.
    pub fn new(kind: ErrorKind) -> (r: JdkError)
        ensures
            r@ == bare(kind),
    {
        JdkError { kind, subject: String::new(), cause: String::new() }
    }

    /// A failure of `kind` with a cause only.
    pub fn with_cause(kind: ErrorKind, cause: &str) -> (r: JdkError)
        ensures
            r@ == caused(kind, cause@),
    {
        JdkError { kind, subject: String::new(), cause: cause.to_owned() }
    }

    /// A failure of `kind` on `subject` with a cause.
    pub fn on(kind: ErrorKind, subject: &str, cause: &str) -> (r: JdkError)
        ensures
            r@ == (ErrorText { kind, subject: subject@, cause: cause@ }),
    {
        JdkError { kind, subject: subject.to_owned(), cause: cause.to_owned() }
    }

    /// What the failure says of itself, without the cause.
    pub fn context(&self) -> (r: String)
        ensures
            r@ == context_text(self.kind, self.subject@),
    {
        match self.kind {
            ErrorKind::NotATty => "Not a TTY".to_owned(),
            ErrorKind::LinkDirectory => "Failed to create by-tty directory".to_owned(),
            ErrorKind::NoCurrentJdk => "No current JDK".to_owned(),
            ErrorKind::ReadCache => "Failed to read base directory".to_owned(),
            ErrorKind::ReadCacheEntry => "Failed to read directory entry".to_owned(),
            ErrorKind::RemoveLink => "Failed to remove old symlink".to_owned(),
            ErrorKind::MakeLink => "Failed to make new symlink".to_owned(),
            ErrorKind::ReplaceLink => "Failed to replace old symlink".to_owned(),
            ErrorKind::NotInstalled => {
                let mut r: String = "No JDK is installed in ".to_owned();
                r.append(self.subject.as_str());
                r
            },
            ErrorKind::Fetch => "Failed to get JDK binary".to_owned(),
            ErrorKind::BadResponse => "Failed to get JDK binary".to_owned(),
            ErrorKind::NoContentDisposition => "no content disposition".to_owned(),
            ErrorKind::BadFileName => "no file name in content disposition".to_owned(),
            ErrorKind::UnsupportedArchive => {
                let mut r: String = "Don't know how to handle ".to_owned();
                r.append(self.subject.as_str());
                r
            },
            ErrorKind::CleanInstallDir => {
                let mut r: String = "Unable to clean JDK folder (".to_owned();
                r.append(self.subject.as_str());
                r.append(")");
                r
            },
            ErrorKind::CreateInstallDir => {
                let mut r: String = "Unable to create directories to JDK folder (".to_owned();
                r.append(self.subject.as_str());
                r.append(")");
                r
            },
            ErrorKind::CreateStaging => "Failed to create temporary directory".to_owned(),
            ErrorKind::Unpack => "Failed to unpack the archive".to_owned(),
            ErrorKind::ReadStaging => "Failed to read temp dir".to_owned(),
            ErrorKind::ReadStagingEntry => "Failed to read temp dir entry".to_owned(),
            ErrorKind::Promote => {
                let mut r: String = "Unable to move to JDK folder (".to_owned();
                r.append(self.subject.as_str());
                r.append(")");
                r
            },
            ErrorKind::WriteMarker => "Unable to create marker".to_owned(),
            ErrorKind::CleanStaging => "Failed to cleanup temp dir".to_owned(),
            ErrorKind::UnexpectedEvent => "Unexpected event".to_owned(),
        }
    }

    /// The whole message of the failure.
    pub fn message(&self) -> (r: String)
        ensures
            r@ == message_text(self@),
    {
        let mut r: String = self.context();
        if self.cause.as_str().unicode_len() > 0 {
            r.append(": ");
            r.append(self.cause.as_str());
        }
        r
    }
}

} // verus!
