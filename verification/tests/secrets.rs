use connectx::failure::Failure;
use connectx::secret::{stored_credentials, vault_target, Credentials, VaultEntry};

fn credentials(username: &str, password: &str) -> Credentials {
    Credentials { username: username.to_string(), password: password.to_string() }
}

#[test]
fn the_vault_target_is_fixed() {
    assert_eq!(vault_target(), "ConnectX");
}

#[test]
fn nothing_stored_reads_as_none_and_what_was_put_is_read_back() {
    let mut slot: Option<VaultEntry> = None;
    assert_eq!(stored_credentials(slot.clone()), Ok(None));
    slot = Some(credentials("u", "p").to_entry());
    assert_eq!(stored_credentials(slot.clone()), Ok(Some(credentials("u", "p"))));
    slot = None;
    assert_eq!(stored_credentials(slot), Ok(None));
}

#[test]
fn a_second_put_overwrites_the_first() {
    let mut slot = Some(credentials("u", "p").to_entry());
    assert_eq!(slot.as_ref().unwrap().target, "ConnectX");
    slot = Some(credentials("v", "q").to_entry());
    assert_eq!(slot.as_ref().unwrap().target, "ConnectX");
    assert_eq!(stored_credentials(slot), Ok(Some(credentials("v", "q"))));
}

#[test]
fn the_entry_holds_the_password_in_utf8() {
    let entry = credentials("user", "pä€").to_entry();
    assert_eq!(
        entry,
        VaultEntry {
            target: "ConnectX".to_string(),
            username: Some("user".to_string()),
            blob: vec![0x70, 0xC3, 0xA4, 0xE2, 0x82, 0xAC],
        }
    );
}

#[test]
fn an_entry_without_a_user_name_gives_an_empty_one() {
    let entry = VaultEntry { target: "ConnectX".to_string(), username: None, blob: vec![0x70] };
    assert_eq!(Credentials::from_entry(entry), Ok(credentials("", "p")));
}

#[test]
fn a_secret_that_is_not_text_is_refused() {
    let entry = VaultEntry {
        target: "ConnectX".to_string(),
        username: Some("u".to_string()),
        blob: vec![0x70, 0xFF, 0x70],
    };
    let words = format!("{:?}", String::from_utf8(vec![0x70, 0xFF, 0x70]).unwrap_err());
    assert_eq!(Credentials::from_entry(entry.clone()), Err(Failure::PasswordNotText(words.clone())));
    assert_eq!(stored_credentials(Some(entry)), Err(Failure::PasswordNotText(words)));
}

#[test]
fn a_secret_that_is_not_text_is_told_with_the_decoders_words() {
    let entry = VaultEntry { target: "ConnectX".to_string(), username: None, blob: vec![0xFF] };
    let failure = stored_credentials(Some(entry.clone())).unwrap_err();
    let message = failure.message();
    assert!(message.starts_with("Failed to read password: "));
    assert!(message.len() > "Failed to read password: ".len());
    assert_eq!(
        message,
        format!("Failed to read password: {:?}", String::from_utf8(vec![0xFF]).unwrap_err())
    );
    assert_eq!(stored_credentials(Some(entry)).unwrap_err(), failure);
}

#[test]
fn every_password_is_read_back() {
    for password in ["", "p", "pass word", "pä€𝄞", "\u{0}\u{7f}\u{80}\u{7ff}\u{800}\u{ffff}\u{10000}"] {
        let stored = credentials("u", password).to_entry();
        assert_eq!(Credentials::from_entry(stored), Ok(credentials("u", password)));
    }
}
