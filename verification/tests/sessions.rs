use connectx::failure::Failure;
use connectx::hosts::Host;
use connectx::secret::{Credentials, VaultEntry};
use connectx::session::{
    descriptor, descriptor_name, plan_launch, session_target, CLIENT_PROGRAM, GRACE_SECONDS,
};

fn expected_descriptor(hostname: &str, username: &str) -> String {
    format!(
        "screen mode id:i:2\r\n\
         desktopwidth:i:1920\r\n\
         desktopheight:i:1080\r\n\
         session bpp:i:32\r\n\
         full address:s:{}\r\n\
         compression:i:1\r\n\
         keyboardhook:i:2\r\n\
         audiocapturemode:i:1\r\n\
         videoplaybackmode:i:1\r\n\
         connection type:i:2\r\n\
         networkautodetect:i:1\r\n\
         bandwidthautodetect:i:1\r\n\
         enableworkspacereconnect:i:1\r\n\
         disable wallpaper:i:0\r\n\
         allow desktop composition:i:0\r\n\
         allow font smoothing:i:0\r\n\
         disable full window drag:i:1\r\n\
         disable menu anims:i:1\r\n\
         disable themes:i:0\r\n\
         disable cursor setting:i:0\r\n\
         bitmapcachepersistenable:i:1\r\n\
         audiomode:i:0\r\n\
         redirectprinters:i:1\r\n\
         redirectcomports:i:0\r\n\
         redirectsmartcards:i:1\r\n\
         redirectclipboard:i:1\r\n\
         redirectposdevices:i:0\r\n\
         autoreconnection enabled:i:1\r\n\
         authentication level:i:2\r\n\
         prompt for credentials:i:0\r\n\
         negotiate security layer:i:1\r\n\
         remoteapplicationmode:i:0\r\n\
         alternate shell:s:\r\n\
         shell working directory:s:\r\n\
         gatewayhostname:s:\r\n\
         gatewayusagemethod:i:4\r\n\
         gatewaycredentialssource:i:4\r\n\
         gatewayprofileusagemethod:i:0\r\n\
         promptcredentialonce:i:1\r\n\
         use redirection server name:i:0\r\n\
         rdgiskdcproxy:i:0\r\n\
         kdcproxyname:s:\r\n\
         username:s:{}\r\n\
         domain:s:\r\n\
         enablecredsspsupport:i:1\r\n\
         public mode:i:0\r\n\
         cert ignore:i:1",
        hostname, username
    )
}

#[test]
fn the_client_and_its_grace_period_are_fixed() {
    assert_eq!(CLIENT_PROGRAM, "mstsc");
    assert_eq!(GRACE_SECONDS, 1);
}

#[test]
fn the_session_target_is_scoped_to_the_host() {
    assert_eq!(session_target("web01.example.org"), "TERMSRV/web01.example.org");
    assert_eq!(session_target(""), "TERMSRV/");
}

#[test]
fn the_descriptor_holds_the_address_and_the_user() {
    let text = descriptor("web01", "admin");
    assert_eq!(text, expected_descriptor("web01", "admin"));
    assert!(text.starts_with("screen mode id:i:2\r\ndesktopwidth:i:1920\r\n"));
    assert!(text.contains("\r\nfull address:s:web01\r\ncompression:i:1\r\n"));
    assert!(text.contains("\r\nkdcproxyname:s:\r\nusername:s:admin\r\ndomain:s:\r\n"));
    assert!(text.ends_with("\r\npublic mode:i:0\r\ncert ignore:i:1"));
    assert_eq!(text.matches("\r\n").count(), 46);
    assert_eq!(descriptor("", ""), expected_descriptor("", ""));
}

#[test]
fn the_descriptor_is_named_by_host_and_time() {
    assert_eq!(descriptor_name("web01", 1700000000), "web01_1700000000.rdp");
    assert_eq!(descriptor_name("web01", 0), "web01_0.rdp");
    assert_eq!(descriptor_name("h", u64::MAX), format!("h_{}.rdp", u64::MAX));
}

#[test]
fn no_session_without_credentials() {
    let host = Host::new("web01", "App");
    assert_eq!(plan_launch(&host, None, 7), Err(Failure::NoCredentials));
}

#[test]
fn the_plan_holds_the_entry_and_the_file() {
    let host = Host::new("web01", "App");
    let stored = Credentials { username: "admin".to_string(), password: "pä".to_string() };
    let plan = plan_launch(&host, Some(stored), 42).unwrap();
    assert_eq!(
        plan.entry,
        VaultEntry {
            target: "TERMSRV/web01".to_string(),
            username: Some("admin".to_string()),
            blob: vec![0x70, 0x00, 0xE4, 0x00, 0x00, 0x00],
        }
    );
    assert_eq!(plan.file_name, "web01_42.rdp");
    assert_eq!(plan.descriptor, expected_descriptor("web01", "admin"));
}

#[test]
fn the_session_secret_is_the_password_in_utf16() {
    let host = Host::new("h", "");
    for password in ["", "p", "pä€", "𝄞", "a\u{ffff}\u{10000}\u{10ffff}"] {
        let stored = Credentials { username: "u".to_string(), password: password.to_string() };
        let plan = plan_launch(&host, Some(stored), 1).unwrap();
        let mut expected: Vec<u8> = Vec::new();
        for unit in password.encode_utf16().chain(std::iter::once(0)) {
            expected.extend_from_slice(&unit.to_le_bytes());
        }
        assert_eq!(plan.entry.blob, expected);
    }
}
