//! What can go wrong in the launcher's own decisions, and the words in which
//! each failure is told to the user.

use crate::panel::Panel;
use vstd::prelude::*;

verus! {

/// A failure that the launcher's own rules find.
#[derive(Clone, Debug, PartialEq, Eq)]
pub enum Failure {
    /// A host was to be saved under a name that is empty or blank.
    EmptyHostname,
    /// A panel was asked for that the window system does not have.
    PanelMissing(Panel),
    /// A session was asked for with no credentials stored.
    NoCredentials,
    /// The stored secret is not text; the decoder's words are kept.
    PasswordNotText(String),
    /// The host table could not be read; the reader's words are kept.
    Malformed(String),
    /// The host table could not be written; the writer's words are kept.
    Unwritten(String),
    /// The directory scan ended in failure; what it printed is kept.
    ScanFailed(String),
    /// The directory scan found no host.
    NothingFound,
}

impl Failure {
    /// The words in which the failure is told.
    pub open spec fn message_text(self) -> Seq<char> {
        match self {
            Failure::EmptyHostname => "Hostname cannot be empty"@,
            Failure::PanelMissing(Panel::Login) => "Login window not found"@,
            Failure::PanelMissing(Panel::Main) => "Main window not found"@,
            Failure::PanelMissing(Panel::Hosts) => "Hosts window not found"@,
            Failure::NoCredentials => "No stored credentials found"@,
            Failure::PasswordNotText(detail) => "Failed to read password: "@ + detail@,
            Failure::Malformed(detail) => "Failed to parse CSV record: "@ + detail@,
            Failure::Unwritten(detail) => "Failed to write CSV record: "@ + detail@,
            Failure::ScanFailed(detail) => "Failed to scan domain. Error: "@ + detail@,
            Failure::NothingFound => "No Windows Servers found in the domain."@,
        }
    }

    /// The words in which the failure is told.
    pub fn message(&self) -> (text: String)
        ensures
            text@ == self.message_text(),
    {
        match self {
            Failure::EmptyHostname => String::from_str("Hostname cannot be empty"),
            Failure::PanelMissing(Panel::Login) => String::from_str("Login window not found"),
            Failure::PanelMissing(Panel::Main) => String::from_str("Main window not found"),
            Failure::PanelMissing(Panel::Hosts) => String::from_str("Hosts window not found"),
            Failure::NoCredentials => String::from_str("No stored credentials found"),
            Failure::PasswordNotText(detail) => String::from_str(
                "Failed to read password: ",
            ).concat(detail.as_str()),
            Failure::Malformed(detail) => String::from_str("Failed to parse CSV record: ").concat(
                detail.as_str(),
            ),
            Failure::Unwritten(detail) => String::from_str("Failed to write CSV record: ").concat(
                detail.as_str(),
            ),
            Failure::ScanFailed(detail) => String::from_str(
                "Failed to scan domain. Error: ",
            ).concat(detail.as_str()),
            Failure::NothingFound => String::from_str("No Windows Servers found in the domain."),
        }
    }
}

} // verus!
