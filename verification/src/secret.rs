//! The one set of credentials that the launcher keeps, and the form in which
//! the credential vault holds it.

use crate::failure::Failure;
use std::string::FromUtf8Error;
use vstd::prelude::*;
use vstd::utf8::{decode_utf8, encode_utf8, valid_utf8};

verus! {

/// The error with which std refuses bytes that are not UTF-8.
#[verifier::external_type_specification]
#[verifier::external_body]
pub struct ExFromUtf8Error(FromUtf8Error);

/// `String::from_utf8` succeeds on the bytes that are well-formed UTF-8, and
/// the text it gives is the one those bytes encode.
pub assume_specification[ String::from_utf8 ](bytes: Vec<u8>) -> (outcome: Result<
    String,
    FromUtf8Error,
>)
    ensures
        outcome is Ok <==> valid_utf8(bytes@),
        outcome matches Ok(text) ==> text@ == decode_utf8(bytes@),
;

/// The words of std's error for bytes that are not UTF-8, as its `Debug`
/// gives them.
#[verifier::external_body]
fn refusal_words(error: &FromUtf8Error) -> (words: String) {
    format!("{:?}", error)
}

/// A user name and password.
#[derive(Clone, Debug, PartialEq, Eq)]
pub struct Credentials {
    pub username: String,
    pub password: String,
}

/// A user name and password, as values.
pub ghost struct CredentialsView {
    pub username: Seq<char>,
    pub password: Seq<char>,
}

impl View for Credentials {
    type V = CredentialsView;

    open spec fn view(&self) -> CredentialsView {
        CredentialsView { username: self.username@, password: self.password@ }
    }
}

/// What the credential vault holds under one target name.
#[derive(Clone, Debug, PartialEq, Eq)]
pub struct VaultEntry {
    pub target: String,
    /// The user name; the vault may hold an entry without one.
    pub username: Option<String>,
    /// The secret, as bytes.
    pub blob: Vec<u8>,
}

/// A vault entry, as values.
pub ghost struct VaultEntryView {
    pub target: Seq<char>,
    pub username: Option<Seq<char>>,
    pub blob: Seq<u8>,
}

impl View for VaultEntry {
    type V = VaultEntryView;

    open spec fn view(&self) -> VaultEntryView {
        VaultEntryView {
            target: self.target@,
            username: match self.username {
                Some(name) => Some(name@),
                None => None,
            },
            blob: self.blob@,
        }
    }
}

/// The target name under which the launcher's credentials are kept.
pub open spec fn vault_target_text() -> Seq<char> {
    "ConnectX"@
}

/// The entry that holds the credentials: the fixed target, the user name,
/// and the password in UTF-8.
pub open spec fn entry_of(credentials: CredentialsView) -> VaultEntryView {
    VaultEntryView {
        target: vault_target_text(),
        username: Some(credentials.username),
        blob: encode_utf8(credentials.password),
    }
}

/// The credentials that an entry holds, where its secret is text. An entry
/// without a user name gives an empty one.
pub open spec fn credentials_of(entry: VaultEntryView) -> Option<CredentialsView> {
    if valid_utf8(entry.blob) {
        Some(
            CredentialsView {
                username: match entry.username {
                    Some(name) => name,
                    None => Seq::empty(),
                },
                password: decode_utf8(entry.blob),
            },
        )
    } else {
        None
    }
}

/// The target name under which the launcher's credentials are kept.
pub fn vault_target() -> (name: &'static str)
    ensures
        name@ == vault_target_text(),
{
    "ConnectX"
}

impl Credentials {
    /// The entry to store for these credentials.
    pub fn to_entry(&self) -> (entry: VaultEntry)
        ensures
            entry@ == entry_of(self@),
    {
        VaultEntry {
            target: String::from_str(vault_target()),
            username: Some(self.username.clone()),
            blob: self.password.as_str().as_bytes_vec(),
        }
    }

    /// The credentials that an entry holds. Fails where the secret is not
    /// text, and then keeps the decoder's words.
    pub fn from_entry(entry: VaultEntry) -> (outcome: Result<Credentials, Failure>)
        ensures
            match outcome {
                Ok(credentials) => credentials_of(entry@) == Some(credentials@),
                Err(failure) => credentials_of(entry@) is None && failure is PasswordNotText,
            },
    {
        let username = match entry.username {
            Some(name) => name,
            None => String::new(),
        };
        match String::from_utf8(entry.blob) {
            Ok(password) => Ok(Credentials { username, password }),
            Err(error) => Err(Failure::PasswordNotText(refusal_words(&error))),
        }
    }
}

/// What a look into the vault gives: nothing where no entry was found, else
/// the credentials that the entry holds.
pub fn stored_credentials(found: Option<VaultEntry>) -> (outcome: Result<
    Option<Credentials>,
    Failure,
>)
    ensures
        match found {
            None => outcome matches Ok(None),
            Some(entry) => match outcome {
                Ok(Some(credentials)) => credentials_of(entry@) == Some(credentials@),
                Ok(None) => false,
                Err(failure) => credentials_of(entry@) is None && failure is PasswordNotText,
            },
        },
{
    match found {
        None => Ok(None),
        Some(entry) => match Credentials::from_entry(entry) {
            Ok(credentials) => Ok(Some(credentials)),
            Err(failure) => Err(failure),
        },
    }
}

/// What was stored is what is read back: the entry made for credentials
/// holds those credentials.
pub proof fn stored_is_read_back(credentials: CredentialsView)
    ensures
        credentials_of(entry_of(credentials)) == Some(credentials),
{
    vstd::utf8::encode_utf8_valid_utf8(credentials.password);
    vstd::utf8::encode_utf8_decode_utf8(credentials.password);
}

} // verus!
