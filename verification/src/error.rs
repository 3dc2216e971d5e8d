//! The errors that a run can end in, the message that each one puts on the
//! error stream and the exit code that goes with it.

use vstd::prelude::*;
use vstd::string::StringExecFns;

verus! {

/// The directory that holds the cached pages.
pub const PAGES_BASE_DIR: &'static str = "/opt/shortcut/pages/";

/// The address that the bundle of pages is downloaded from.
pub const DOWNLOAD_ARCHIVE_URL: &'static str =
    "https://github.com/mt-empty/shortcut-pages/releases/latest/download/shortcuts.zip";

/// The classes of errors.
#[derive(Clone, Copy, Debug, PartialEq, Eq, Structural)]
pub enum ErrorKind {
    /// The command line names nothing that can be done.
    Usage,
    /// The page directory is missing, empty or cannot be written.
    Configuration,
    /// There is no page for the program.
    NotFound,
    /// The download failed.
    Network,
    /// The downloaded bundle is no archive or cannot be unpacked.
    Archive,
    /// A page could not be read.
    Io,
}

/// An error that ends a run.
#[derive(Debug, PartialEq, Eq)]
pub enum ShortcutError {
    /// Neither an action nor a program name was given.
    NoArgument,
    /// The program name has no final path component.
    InvalidName(String),
    /// The page directory does not exist.
    StoreMissing,
    /// The page directory holds no entry.
    StoreEmpty,
    /// The page directory is read-only.
    StoreReadOnly,
    /// The page directory could not be created or looked at.
    StoreUnreadable,
    /// No page is stored for the program.
    PageNotFound(String),
    /// The HTTP client could not be set up.
    ClientSetup,
    /// The bundle could not be downloaded.
    Download,
    /// The bundle is no archive or could not be unpacked.
    Archive,
    /// The page could not be read.
    PageUnreadable,
}

/// A `ShortcutError` with its names as sequences of characters.
pub enum ErrorModel {
    NoArgument,
    InvalidName(Seq<char>),
    StoreMissing,
    StoreEmpty,
    StoreReadOnly,
    StoreUnreadable,
    PageNotFound(Seq<char>),
    ClientSetup,
    Download,
    Archive,
    PageUnreadable,
}

impl View for ShortcutError {
    type V = ErrorModel;

    open spec fn view(&self) -> ErrorModel {
        match self {
            ShortcutError::NoArgument => ErrorModel::NoArgument,
            ShortcutError::InvalidName(name) => ErrorModel::InvalidName(name@),
            ShortcutError::StoreMissing => ErrorModel::StoreMissing,
            ShortcutError::StoreEmpty => ErrorModel::StoreEmpty,
            ShortcutError::StoreReadOnly => ErrorModel::StoreReadOnly,
            ShortcutError::StoreUnreadable => ErrorModel::StoreUnreadable,
            ShortcutError::PageNotFound(name) => ErrorModel::PageNotFound(name@),
            ShortcutError::ClientSetup => ErrorModel::ClientSetup,
            ShortcutError::Download => ErrorModel::Download,
            ShortcutError::Archive => ErrorModel::Archive,
            ShortcutError::PageUnreadable => ErrorModel::PageUnreadable,
        }
    }
}

impl Clone for ShortcutError {
    fn clone(&self) -> (copy: Self)
        ensures
            copy@ == self@,
    {
        match self {
            ShortcutError::NoArgument => ShortcutError::NoArgument,
            ShortcutError::InvalidName(name) => ShortcutError::InvalidName(name.clone()),
            ShortcutError::StoreMissing => ShortcutError::StoreMissing,
            ShortcutError::StoreEmpty => ShortcutError::StoreEmpty,
            ShortcutError::StoreReadOnly => ShortcutError::StoreReadOnly,
            ShortcutError::StoreUnreadable => ShortcutError::StoreUnreadable,
            ShortcutError::PageNotFound(name) => ShortcutError::PageNotFound(name.clone()),
            ShortcutError::ClientSetup => ShortcutError::ClientSetup,
            ShortcutError::Download => ShortcutError::Download,
            ShortcutError::Archive => ShortcutError::Archive,
            ShortcutError::PageUnreadable => ShortcutError::PageUnreadable,
        }
    }
}

/// The class of an error.
pub open spec fn kind_of(error: ErrorModel) -> ErrorKind {
    match error {
        ErrorModel::NoArgument | ErrorModel::InvalidName(_) => ErrorKind::Usage,
        ErrorModel::StoreMissing
        | ErrorModel::StoreEmpty
        | ErrorModel::StoreReadOnly
        | ErrorModel::StoreUnreadable => ErrorKind::Configuration,
        ErrorModel::PageNotFound(_) => ErrorKind::NotFound,
        ErrorModel::ClientSetup | ErrorModel::Download => ErrorKind::Network,
        ErrorModel::Archive => ErrorKind::Archive,
        ErrorModel::PageUnreadable => ErrorKind::Io,
    }
}

/// The exit code of a run that ends in an error of the given class. A page
/// that is not there is reported and the run still ends with 0; every other
/// error ends it with 1.
pub open spec fn exit_code_of(kind: ErrorKind) -> i32 {
    if kind == ErrorKind::NotFound {
        0
    } else {
        1
    }
}

/// What stands before the cause of a failed update.
pub open spec fn update_failed() -> Seq<char> {
    "Could not update shortcut cache: "@
}

/// The one-line message of an error.
pub open spec fn message_text(error: ErrorModel) -> Seq<char> {
    match error {
        ErrorModel::NoArgument => "No valid argument specified"@,
        ErrorModel::InvalidName(name) => "Invalid program name \""@ + name + "\""@,
        ErrorModel::StoreMissing =>
            "Shortcut pages directory does not exist, please run shortcut --update"@,
        ErrorModel::StoreEmpty => "Shortcut pages directory is empty, please run shortcut --update"@,
        ErrorModel::StoreReadOnly => "Writing to "@ + PAGES_BASE_DIR@
            + " requires sudo privileges, please run with sudo"@,
        ErrorModel::StoreUnreadable => "Could not read shortcut pages directory"@,
        ErrorModel::PageNotFound(name) => "No page available for \""@ + name + "\""@,
        ErrorModel::ClientSetup => update_failed() + "Could not instantiate HTTP client"@,
        ErrorModel::Download => update_failed() + "Could not download shortcut pages from "@
            + DOWNLOAD_ARCHIVE_URL@,
        ErrorModel::Archive => update_failed() + "Could not decompress downloaded ZIP archive"@,
        ErrorModel::PageUnreadable => "Problem reading the file"@,
    }
}

impl ShortcutError {
    /// The class of the error.
    pub fn kind(&self) -> (kind: ErrorKind)
        ensures
            kind == kind_of(self@),
    {
        match self {
            ShortcutError::NoArgument | ShortcutError::InvalidName(_) => ErrorKind::Usage,
            ShortcutError::StoreMissing
            | ShortcutError::StoreEmpty
            | ShortcutError::StoreReadOnly
            | ShortcutError::StoreUnreadable => ErrorKind::Configuration,
            ShortcutError::PageNotFound(_) => ErrorKind::NotFound,
            ShortcutError::ClientSetup | ShortcutError::Download => ErrorKind::Network,
            ShortcutError::Archive => ErrorKind::Archive,
            ShortcutError::PageUnreadable => ErrorKind::Io,
        }
    }

    /// The exit code of a run that ends in this error.
    pub fn exit_code(&self) -> (code: i32)
        ensures
            code == exit_code_of(kind_of(self@)),
            code == 0 || code == 1,
    {
        match self.kind() {
            ErrorKind::NotFound => 0,
            _ => 1,
        }
    }

    /// The one-line message of the error.
    pub fn message(&self) -> (text: String)
        ensures
            text@ == message_text(self@),
    {
        match self {
            ShortcutError::NoArgument => String::from_str("No valid argument specified"),
            ShortcutError::InvalidName(name) => {
                let mut text = String::from_str("Invalid program name \"");
                text.append(name.as_str());
                text.append("\"");
                text
            },
            ShortcutError::StoreMissing => String::from_str(
                "Shortcut pages directory does not exist, please run shortcut --update",
            ),
            ShortcutError::StoreEmpty => String::from_str(
                "Shortcut pages directory is empty, please run shortcut --update",
            ),
            ShortcutError::StoreReadOnly => {
                let mut text = String::from_str("Writing to ");
                text.append(PAGES_BASE_DIR);
                text.append(" requires sudo privileges, please run with sudo");
                text
            },
            ShortcutError::StoreUnreadable => String::from_str(
                "Could not read shortcut pages directory",
            ),
            ShortcutError::PageNotFound(name) => {
                let mut text = String::from_str("No page available for \"");
                text.append(name.as_str());
                text.append("\"");
                text
            },
            ShortcutError::ClientSetup => {
                let mut text = String::from_str("Could not update shortcut cache: ");
                text.append("Could not instantiate HTTP client");
                text
            },
            ShortcutError::Download => {
                let mut text = String::from_str("Could not update shortcut cache: ");
                text.append("Could not download shortcut pages from ");
                text.append(DOWNLOAD_ARCHIVE_URL);
                text
            },
            ShortcutError::Archive => {
                let mut text = String::from_str("Could not update shortcut cache: ");
                text.append("Could not decompress downloaded ZIP archive");
                text
            },
            ShortcutError::PageUnreadable => String::from_str("Problem reading the file"),
        }
    }
}

/// The exit code of a run: 0 where it ended well, else the code of the
/// error.
pub fn exit_code(outcome: &Result<(), ShortcutError>) -> (code: i32)
    ensures
        outcome is Ok ==> code == 0,
        outcome is Err ==> code == exit_code_of(kind_of(outcome->Err_0@)),
{
    match outcome {
        Ok(_) => 0,
        Err(error) => error.exit_code(),
    }
}

} // verus!
