//! The errors of the backend, and the I/O errors that it answers its callers with.

use vstd::prelude::*;
use vstd::string::StringExecFns;

verus! {

/// `std::io::ErrorKind`, carried through as it was reported.
#[verifier::external_type_specification]
#[verifier::external_body]
pub struct ExErrorKind(std::io::ErrorKind);

/// An I/O error that the system or the file system server reported.
#[derive(Debug)]
pub struct OsError {
    /// The error's kind.
    pub kind: std::io::ErrorKind,
    /// The error as it is shown to users.
    pub display: String,
    /// The error as it is shown to programmers.
    pub debug: String,
}

/// What can go wrong in the backend.
#[derive(Debug)]
pub enum Error {
    /// Failed to create kill eventfd.
    CreateKillEventFd(OsError),
    /// Failed to create thread pool.
    CreateThreadPool(OsError),
    /// Failed to handle event other than input event.
    HandleEventNotEpollIn,
    /// Failed to handle unknown event.
    HandleEventUnknownEvent,
    /// Iterating through the queue failed.
    IterateQueue,
    /// No memory configured.
    NoMemoryConfigured,
    /// Processing queue failed. Holds what the file system server reported.
    ProcessQueue(String),
    /// Creating a queue reader failed. Holds what was reported.
    QueueReader(String),
    /// Creating a queue writer failed. Holds what was reported.
    QueueWriter(String),
    /// The unshare(CLONE_FS) call failed.
    UnshareCloneFs(OsError),
    /// Invalid tag name
    InvalidTag,
}

/// `prefix`, then `middle`, then `suffix`.
fn enclosed(prefix: &str, middle: &str, suffix: &str) -> (text: String)
    ensures
        text@ == prefix@ + middle@ + suffix@,
{
    let mut text: String = prefix.to_owned();
    text.append(middle);
    text.append(suffix);
    text
}

impl Error {
    /// The error as it is shown to users.
    pub open spec fn text(self) -> Seq<char> {
        match self {
            Error::UnshareCloneFs(error) => "The unshare(CLONE_FS) syscall failed with '"@
                + error.display@
                + "'. If running in a container please check that the container runtime seccomp policy allows unshare."@,
            Error::InvalidTag =>
                "The tag may not be empty or longer than 36 bytes (encoded as UTF-8)."@,
            Error::QueueReader(error) => "Failed to create a queue reader: "@ + error@,
            Error::QueueWriter(error) => "Failed to create a queue writer: "@ + error@,
            Error::ProcessQueue(error) => "Failed to handle an incoming request: "@ + error@,
            Error::CreateKillEventFd(error) => "CreateKillEventFd("@ + error.debug@ + ")"@,
            Error::CreateThreadPool(error) => "CreateThreadPool("@ + error.debug@ + ")"@,
            Error::HandleEventNotEpollIn => "HandleEventNotEpollIn"@,
            Error::HandleEventUnknownEvent => "HandleEventUnknownEvent"@,
            Error::IterateQueue => "IterateQueue"@,
            Error::NoMemoryConfigured => "NoMemoryConfigured"@,
        }
    }

    /// The error as it is shown to users.
    pub fn display(&self) -> (text: String)
        ensures
            text@ == self.text(),
    {
        match self {
            Error::UnshareCloneFs(error) => enclosed(
                "The unshare(CLONE_FS) syscall failed with '",
                error.display.as_str(),
                "'. If running in a container please check that the container runtime seccomp policy allows unshare.",
            ),
            Error::InvalidTag =>
                "The tag may not be empty or longer than 36 bytes (encoded as UTF-8).".to_owned(),
            Error::QueueReader(error) =>
                "Failed to create a queue reader: ".to_owned().concat(error.as_str()),
            Error::QueueWriter(error) =>
                "Failed to create a queue writer: ".to_owned().concat(error.as_str()),
            Error::ProcessQueue(error) =>
                "Failed to handle an incoming request: ".to_owned().concat(error.as_str()),
            Error::CreateKillEventFd(error) =>
                enclosed("CreateKillEventFd(", error.debug.as_str(), ")"),
            Error::CreateThreadPool(error) =>
                enclosed("CreateThreadPool(", error.debug.as_str(), ")"),
            Error::HandleEventNotEpollIn => "HandleEventNotEpollIn".to_owned(),
            Error::HandleEventUnknownEvent => "HandleEventUnknownEvent".to_owned(),
            Error::IterateQueue => "IterateQueue".to_owned(),
            Error::NoMemoryConfigured => "NoMemoryConfigured".to_owned(),
        }
    }
}

/// The kind of an [`IoError`].
#[derive(Clone, Copy, Debug)]
pub enum IoErrorKind {
    /// The operation is not supported.
    Unsupported,
    /// The request is not valid in the state the device is in.
    InvalidInput,
    /// Anything else.
    Other,
    /// The kind of the error that was reported to the backend.
    Reported(std::io::ErrorKind),
}

/// An I/O error that the backend answers a caller with.
#[derive(Debug)]
pub enum IoError {
    /// An error of the backend itself.
    Backend(Error),
    /// A message of some kind.
    Message {
        /// The error's kind.
        kind: IoErrorKind,
        /// The error as it is shown to users.
        message: String,
    },
}

impl IoError {
    /// The error's kind.
    pub open spec fn spec_kind(self) -> IoErrorKind {
        match self {
            IoError::Backend(_) => IoErrorKind::Other,
            IoError::Message { kind, .. } => kind,
        }
    }

    /// The error as it is shown to users.
    pub open spec fn text(self) -> Seq<char> {
        match self {
            IoError::Backend(error) => error.text(),
            IoError::Message { message, .. } => message@,
        }
    }

    /// The error's kind. An error of the backend itself is of kind `Other`.
    pub fn kind(&self) -> (kind: IoErrorKind)
        ensures
            kind == self.spec_kind(),
    {
        match self {
            IoError::Backend(_) => IoErrorKind::Other,
            IoError::Message { kind, .. } => *kind,
        }
    }

    /// The error as it is shown to users.
    pub fn display(&self) -> (text: String)
        ensures
            text@ == self.text(),
    {
        match self {
            IoError::Backend(error) => error.display(),
            IoError::Message { message, .. } => message.clone(),
        }
    }
}

/// `result` is an error of this kind with this text.
pub open spec fn fails_with<R>(
    result: Result<R, IoError>,
    kind: IoErrorKind,
    text: Seq<char>,
) -> bool {
    result matches Err(error) && error.spec_kind() == kind && error.text() == text && error
        is Message
}

impl From<Error> for IoError {
    fn from(error: Error) -> (io_error: Self) {
        IoError::Backend(error)
    }
}

impl vstd::std_specs::convert::FromSpecImpl<Error> for IoError {
    open spec fn obeys_from_spec() -> bool {
        true
    }

    open spec fn from_spec(error: Error) -> Self {
        IoError::Backend(error)
    }
}

/// An error of the backend that is reported as an I/O error is of kind `Other`, and shows the
/// text of the backend's error.
pub proof fn law_backend_error_keeps_its_text(error: Error)
    ensures
        IoError::Backend(error).spec_kind() == IoErrorKind::Other,
        IoError::Backend(error).text() == error.text(),
{
}

/// An error shows what was reported, after what failed. One that has nothing to report shows its
/// name.
pub proof fn law_errors_show_what_was_reported(report: String, error: OsError)
    ensures
        Error::QueueReader(report).text() == "Failed to create a queue reader: "@ + report@,
        Error::QueueWriter(report).text() == "Failed to create a queue writer: "@ + report@,
        Error::ProcessQueue(report).text() == "Failed to handle an incoming request: "@ + report@,
        Error::UnshareCloneFs(error).text() == "The unshare(CLONE_FS) syscall failed with '"@
            + error.display@
            + "'. If running in a container please check that the container runtime seccomp policy allows unshare."@,
        Error::CreateKillEventFd(error).text() == "CreateKillEventFd("@ + error.debug@ + ")"@,
        Error::CreateThreadPool(error).text() == "CreateThreadPool("@ + error.debug@ + ")"@,
        Error::InvalidTag.text()
            == "The tag may not be empty or longer than 36 bytes (encoded as UTF-8)."@,
        Error::HandleEventNotEpollIn.text() == "HandleEventNotEpollIn"@,
        Error::HandleEventUnknownEvent.text() == "HandleEventUnknownEvent"@,
        Error::IterateQueue.text() == "IterateQueue"@,
        Error::NoMemoryConfigured.text() == "NoMemoryConfigured"@,
{
}

/// Texts that differ still differ after the same prefix.
proof fn lemma_prefix_keeps_difference(prefix: Seq<char>, first: Seq<char>, second: Seq<char>)
    requires
        first != second,
    ensures
        prefix + first != prefix + second,
{
    assert((prefix + first).skip(prefix.len() as int) =~= first);
    assert((prefix + second).skip(prefix.len() as int) =~= second);
}

/// Reports that differ are shown differently, whichever part of serving a chain they come from.
pub proof fn law_different_reports_are_shown_differently(first: String, second: String)
    requires
        first@ != second@,
    ensures
        Error::QueueReader(first).text() != Error::QueueReader(second).text(),
        Error::QueueWriter(first).text() != Error::QueueWriter(second).text(),
        Error::ProcessQueue(first).text() != Error::ProcessQueue(second).text(),
{
    lemma_prefix_keeps_difference("Failed to create a queue reader: "@, first@, second@);
    lemma_prefix_keeps_difference("Failed to create a queue writer: "@, first@, second@);
    lemma_prefix_keeps_difference("Failed to handle an incoming request: "@, first@, second@);
}

/// A message keeps the kind and the text that it was made with, and something fails with a kind and
/// a text just if it gives a message with both.
pub proof fn law_messages_keep_kind_and_text<R>(
    kind: IoErrorKind,
    message: String,
    result: Result<R, IoError>,
    text: Seq<char>,
    error: Error,
)
    ensures
        (IoError::Message { kind, message }).spec_kind() == kind,
        (IoError::Message { kind, message }).text() == message@,
        fails_with(result, kind, text) <==> (result matches Err(IoError::Message {
            kind: shown,
            message: said,
        }) && shown == kind && said@ == text),
        <IoError as vstd::std_specs::convert::FromSpec<Error>>::from_spec(error)
            == IoError::Backend(error),
{
}

} // verus!
