//! What a remote-desktop session needs before the client is started: the
//! credentials under a name of the host's own, and a file that describes the
//! session.

use crate::failure::Failure;
use crate::hosts::Host;
use crate::secret::{Credentials, CredentialsView, VaultEntry, VaultEntryView};
use crate::text::{bytes_of_units, decimal, decimal_text, unit_bytes, utf16, wide};
use vstd::prelude::*;

verus! {

/// The program that opens the session.
pub const CLIENT_PROGRAM: &'static str = "mstsc";

/// The seconds left to the client to read the session file before the file
/// is deleted.
pub const GRACE_SECONDS: u64 = 1;

/// The session file up to the host's address.
pub const DESCRIPTOR_HEAD: &'static str =
    "screen mode id:i:2\r\n\
     desktopwidth:i:1920\r\n\
     desktopheight:i:1080\r\n\
     session bpp:i:32\r\n\
     full address:s:";

/// The session file between the host's address and the user name.
pub const DESCRIPTOR_BODY: &'static str =
    "\r\n\
     compression:i:1\r\n\
     keyboardhook:i:2\r\n\
     audiocapturemode:i:1\r\n\
     videoplaybackmode:i:1\r\n\
     connection type:i:2\r\n\
     networkautodetect:i:1\r\n\
     bandwidthautodetect:i:1\r\n\
     enableworkspacereconnect:i:1\r\n\
     disable wallpaper:i:0\r\n\
     allow desktop composition:i:0\r\n\
     allow font smoothing:i:0\r\n\
     disable full window drag:i:1\r\n\
     disable menu anims:i:1\r\n\
     disable themes:i:0\r\n\
     disable cursor setting:i:0\r\n\
     bitmapcachepersistenable:i:1\r\n\
     audiomode:i:0\r\n\
     redirectprinters:i:1\r\n\
     redirectcomports:i:0\r\n\
     redirectsmartcards:i:1\r\n\
     redirectclipboard:i:1\r\n\
     redirectposdevices:i:0\r\n\
     autoreconnection enabled:i:1\r\n\
     authentication level:i:2\r\n\
     prompt for credentials:i:0\r\n\
     negotiate security layer:i:1\r\n\
     remoteapplicationmode:i:0\r\n\
     alternate shell:s:\r\n\
     shell working directory:s:\r\n\
     gatewayhostname:s:\r\n\
     gatewayusagemethod:i:4\r\n\
     gatewaycredentialssource:i:4\r\n\
     gatewayprofileusagemethod:i:0\r\n\
     promptcredentialonce:i:1\r\n\
     use redirection server name:i:0\r\n\
     rdgiskdcproxy:i:0\r\n\
     kdcproxyname:s:\r\n\
     username:s:";

/// The session file after the user name.
pub const DESCRIPTOR_TAIL: &'static str =
    "\r\n\
     domain:s:\r\n\
     enablecredsspsupport:i:1\r\n\
     public mode:i:0\r\n\
     cert ignore:i:1";

/// The name under which a host's session credentials are kept.
pub open spec fn session_target_text(hostname: Seq<char>) -> Seq<char> {
    "TERMSRV/"@ + hostname
}

/// The session file: fixed display, redirection and security options around
/// the host's address and the user name.
pub open spec fn descriptor_text(hostname: Seq<char>, username: Seq<char>) -> Seq<char> {
    DESCRIPTOR_HEAD@ + hostname + DESCRIPTOR_BODY@ + username + DESCRIPTOR_TAIL@
}

/// The name of the session file: the host's name, the time in seconds, and
/// the client's file extension.
pub open spec fn descriptor_name_text(hostname: Seq<char>, seconds: nat) -> Seq<char> {
    hostname + "_"@ + decimal(seconds) + ".rdp"@
}

/// The name under which a host's session credentials are kept.
pub fn session_target(hostname: &str) -> (target: String)
    ensures
        target@ == session_target_text(hostname@),
{
    String::from_str("TERMSRV/").concat(hostname)
}

/// Writes the session file for a host and a user.
pub fn descriptor(hostname: &str, username: &str) -> (text: String)
    ensures
        text@ == descriptor_text(hostname@, username@),
{
    let mut text = String::from_str(DESCRIPTOR_HEAD);
    text.append(hostname);
    text.append(DESCRIPTOR_BODY);
    text.append(username);
    text.append(DESCRIPTOR_TAIL);
    text
}

/// Names the session file for a host at a time given in seconds.
pub fn descriptor_name(hostname: &str, seconds: u64) -> (name: String)
    ensures
        name@ == descriptor_name_text(hostname@, seconds as nat),
{
    let mut name = String::from_str(hostname);
    name.append("_");
    let stamp = decimal_text(seconds);
    name.append(stamp.as_str());
    name.append(".rdp");
    name
}


/// What starting a session takes: the vault entry to write first, then the
/// session file to write, hand to the client and delete.
#[derive(Clone, Debug, PartialEq, Eq)]
pub struct LaunchPlan {
    pub entry: VaultEntry,
    pub file_name: String,
    pub descriptor: String,
}

/// A launch plan, as values.
pub ghost struct LaunchPlanView {
    pub entry: VaultEntryView,
    pub file_name: Seq<char>,
    pub descriptor: Seq<char>,
}

impl View for LaunchPlan {
    type V = LaunchPlanView;

    open spec fn view(&self) -> LaunchPlanView {
        LaunchPlanView {
            entry: self.entry@,
            file_name: self.file_name@,
            descriptor: self.descriptor@,
        }
    }
}

/// The vault entry for a session: under the host's own target name, the user
/// name and, as the secret, the password in UTF-16 with the unit of zero
/// that ends it.
pub open spec fn session_entry_of(hostname: Seq<char>, credentials: CredentialsView)
    -> VaultEntryView {
    VaultEntryView {
        target: session_target_text(hostname),
        username: Some(credentials.username),
        blob: unit_bytes(utf16(credentials.password).push(0)),
    }
}

/// The plan for a session to a host with the given credentials, at a time
/// given in seconds.
pub open spec fn launch_plan_of(hostname: Seq<char>, credentials: CredentialsView, seconds: nat)
    -> LaunchPlanView {
    LaunchPlanView {
        entry: session_entry_of(hostname, credentials),
        file_name: descriptor_name_text(hostname, seconds),
        descriptor: descriptor_text(hostname, credentials.username),
    }
}

/// Plans a session to a host. A session needs stored credentials: without
/// them nothing is planned.
pub fn plan_launch(host: &Host, stored: Option<Credentials>, seconds: u64) -> (outcome: Result<
    LaunchPlan,
    Failure,
>)
    ensures
        match stored {
            Some(credentials) => outcome matches Ok(plan) && plan@ == launch_plan_of(
                host.hostname@,
                credentials@,
                seconds as nat,
            ),
            None => outcome == Err::<LaunchPlan, Failure>(Failure::NoCredentials),
        },
{
    match stored {
        None => Err(Failure::NoCredentials),
        Some(credentials) => {
            let units = wide(credentials.password.as_str());
            let entry = VaultEntry {
                target: session_target(host.hostname.as_str()),
                username: Some(credentials.username.clone()),
                blob: bytes_of_units(&units),
            };
            Ok(
                LaunchPlan {
                    entry,
                    file_name: descriptor_name(host.hostname.as_str(), seconds),
                    descriptor: descriptor(host.hostname.as_str(), credentials.username.as_str()),
                },
            )
        },
    }
}

} // verus!
