//! The directory scan: the command that is handed to the shell, and what is
//! told to the user once the shell is done.

use crate::failure::Failure;
use crate::text::{decimal, decimal_text, line_count, lines};
use vstd::prelude::*;

verus! {

/// The shell that runs the scan.
pub const SCAN_PROGRAM: &'static str = "powershell";

/// The scan command up to the directory server's name.
pub const COMMAND_HEAD: &'static str = "Import-Module ActiveDirectory; Get-ADComputer -Server '";

/// The scan command after the directory server's name.
pub const COMMAND_TAIL: &'static str =
    "' -Filter 'OperatingSystem -like \"*Windows Server*\"' \
     -Properties DNSHostName,Description,OperatingSystem | \
     Where-Object {$_.DNSHostName} | \
     Select-Object @{Name='hostname';Expression={$_.DNSHostName}}, \
     @{Name='description';Expression={$_.Description}} | \
     Export-Csv -Path 'hosts.csv' -NoTypeInformation -Force";

/// The command that lists the directory's server hosts into the host table.
pub open spec fn scan_command_text(server: Seq<char>) -> Seq<char> {
    COMMAND_HEAD@ + server + COMMAND_TAIL@
}

/// The arguments with which the shell is started: no window, no profile, no
/// questions, and the command.
pub open spec fn scan_argument_texts(server: Seq<char>) -> Seq<Seq<char>> {
    seq![
        "-WindowStyle"@,
        "Hidden"@,
        "-NoProfile"@,
        "-NonInteractive"@,
        "-Command"@,
        scan_command_text(server),
    ]
}

/// How many hosts a table holds: its lines but for the header line. A table
/// that could not be read counts as empty.
pub open spec fn hosts_found(table: Option<Seq<char>>) -> nat {
    match table {
        Some(text) => if lines(text) > 0 {
            (lines(text) - 1) as nat
        } else {
            0
        },
        None => 0,
    }
}

/// The text of a table that was read, if it was.
pub open spec fn table_text(table: Option<&str>) -> Option<Seq<char>> {
    match table {
        Some(text) => Some(text@),
        None => None,
    }
}

/// What is told of a scan that found hosts.
pub open spec fn found_text(found: nat) -> Seq<char> {
    "Successfully found "@ + decimal(found) + " Windows Server(s)."@
}

/// The command that lists the directory's server hosts into the host table.
pub fn scan_command(server: &str) -> (command: String)
    ensures
        command@ == scan_command_text(server@),
{
    let mut command = String::from_str(COMMAND_HEAD);
    command.append(server);
    command.append(COMMAND_TAIL);
    command
}

/// The arguments with which the shell is started.
pub fn scan_arguments(server: &str) -> (arguments: Vec<String>)
    ensures
        arguments.deep_view() == scan_argument_texts(server@),
{
    let mut arguments: Vec<String> = Vec::new();
    arguments.push(String::from_str("-WindowStyle"));
    arguments.push(String::from_str("Hidden"));
    arguments.push(String::from_str("-NoProfile"));
    arguments.push(String::from_str("-NonInteractive"));
    arguments.push(String::from_str("-Command"));
    arguments.push(scan_command(server));
    proof {
        assert(arguments.deep_view() =~= scan_argument_texts(server@));
    }
    arguments
}

/// What is told to the user once the shell is done. A shell that ended in
/// failure is reported with what it printed; else the hosts in the table
/// are counted, and a scan that found none is a failure too.
pub fn scan_report(succeeded: bool, printed: &str, table: Option<&str>) -> (outcome: Result<
    String,
    Failure,
>)
    ensures
        match outcome {
            Ok(told) => {
                &&& succeeded
                &&& hosts_found(table_text(table)) > 0
                &&& told@ == found_text(hosts_found(table_text(table)))
            },
            Err(Failure::ScanFailed(detail)) => !succeeded && detail@ == printed@,
            Err(Failure::NothingFound) => succeeded && hosts_found(table_text(table)) == 0,
            Err(_) => false,
        },
{
    if !succeeded {
        return Err(Failure::ScanFailed(String::from_str(printed)));
    }
    let found: usize = match table {
        Some(text) => {
            let count = line_count(text);
            if count > 0 {
                count - 1
            } else {
                0
            }
        },
        None => 0,
    };
    if found == 0 {
        Err(Failure::NothingFound)
    } else {
        let mut told = String::from_str("Successfully found ");
        let number = decimal_text(found as u64);
        told.append(number.as_str());
        told.append(" Windows Server(s).");
        Ok(told)
    }
}

} // verus!
