//! What the game's starter decides before it starts the game: whether the
//! player still has to be asked for a name, and how the sealed loader is
//! opened.

use vstd::prelude::*;
use vstd::string::*;
use aes_gcm::aead::array::Array;
use aes_gcm::aead::Aead;
use aes_gcm::{Aes256Gcm, KeyInit};
use ini::Ini;
use crate::goldberg::{bytes_view, loader_nonce, SealError};
use crate::inifile::{ini_get, ini_parse, ini_error_text, ini_parsed, ini_set, ini_value, ini_with};
use crate::text::{trim, trimmed};

verus! {

/// The section of the user's settings that holds the account name.
pub open spec fn account_section() -> Seq<char> {
    "user::general"@
}

/// The key of the account name.
pub open spec fn account_key() -> Seq<char> {
    "account_name"@
}

/// The settings name no account: the key is missing, or its value is blank.
pub open spec fn lacks_account_name(doc: Ini) -> bool {
    match ini_value(doc, account_section(), account_key()) {
        Some(name) => trimmed(name).len() == 0,
        None => true,
    }
}

/// Whether the player has to be asked for a name: see
/// [`lacks_account_name`].
pub fn needs_account_name(doc: &Ini) -> (needed: bool)
    ensures
        needed == lacks_account_name(*doc),
{
    match ini_get(doc, "user::general", "account_name") {
        Some(name) => {
            let kept = trim(name.as_str());
            kept.unicode_len() == 0
        },
        None => true,
    }
}

/// Sets the account name to what the player typed, without the white space
/// around it.
pub fn set_account_name(doc: &mut Ini, typed: &str)
    ensures
        *final(doc) == ini_with(*old(doc), account_section(), account_key(), trimmed(typed@)),
{
    ini_set(doc, "user::general", "account_name", trim(typed));
}

/// The user's settings could not be read; the parser's message.
#[derive(Debug, PartialEq, Eq)]
pub struct SettingsError {
    pub reason: String,
}

/// Reads the user's settings. Fails exactly where the text is not an INI
/// document.
pub fn read_settings(text: &str) -> (settings: Result<Ini, SettingsError>)
    ensures
        match settings {
            Ok(doc) => ini_parsed(text@) == Some(doc),
            Err(_) => ini_parsed(text@).is_none(),
        },
{
    match ini_parse(text) {
        Ok(doc) => Ok(doc),
        Err(e) => Err(SettingsError { reason: ini_error_text(&e) }),
    }
}

/// The bytes that AES-256-GCM gives back for `sealed` under `key` and
/// `nonce`, with no associated data. `None` where the key is not 32 bytes,
/// the nonce not 12, or the bytes were not sealed under that key and nonce.
pub uninterp spec fn aes256_gcm_opened(key: Seq<u8>, nonce: Seq<u8>, sealed: Seq<u8>) -> Option<
    Seq<u8>,
>;

/// `Aes256Gcm::new` and `Aead::decrypt` of the crate aes-gcm, after
/// `Array::try_from` on the key and on the nonce: the opened bytes are a
/// function of key, nonce and sealed bytes, and there are none where the key
/// is not 32 bytes or the nonce not 12.
#[verifier::external_body]
fn aes256_gcm_open(key: &[u8], nonce: &[u8], sealed: &[u8]) -> (opened: Option<Vec<u8>>)
    ensures
        bytes_view(opened) == aes256_gcm_opened(key@, nonce@, sealed@),
        key@.len() != 32 || nonce@.len() != 12 ==> opened.is_none(),
{
    let key = Array::try_from(key).ok()?;
    let nonce = Array::try_from(nonce).ok()?;
    Aes256Gcm::new(&key).decrypt(&nonce, sealed).ok()
}

/// What the starter does about the loader.
#[derive(Debug, PartialEq, Eq)]
pub enum LoaderAction {
    /// The loader is there: nothing to do.
    Keep,
    /// Write these bytes as the loader.
    Write(Vec<u8>),
}

/// Decides what to do about the loader. A loader that is there is kept.
/// Otherwise the sealed loader is opened under the key and the nonce of the
/// export; that fails where the bytes were not sealed under them.
pub fn restore_loader(loader_exists: bool, sealed: &[u8], key: &[u8]) -> (action: Result<
    LoaderAction,
    SealError,
>)
    ensures
        loader_exists ==> action == Ok::<LoaderAction, SealError>(LoaderAction::Keep),
        !loader_exists ==> match aes256_gcm_opened(key@, loader_nonce(), sealed@) {
            Some(plain) => action is Ok && action->Ok_0 is Write && action->Ok_0->Write_0@
                == plain,
            None => action is Err,
        },
        !loader_exists && key@.len() != 32 ==> action is Err,
{
    if loader_exists {
        return Ok(LoaderAction::Keep);
    }
    let nonce: [u8; 12] = [0, 0, 0, 0, 0, 0, 0, 0, 0, 0, 0, 0];
    assert(nonce@ =~= loader_nonce());
    match aes256_gcm_open(key, nonce.as_slice(), sealed) {
        Some(plain) => Ok(LoaderAction::Write(plain)),
        None => Err(SealError),
    }
}

} // verus!
