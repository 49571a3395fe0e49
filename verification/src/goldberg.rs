//! Which files of the emulator's archive go into the export, under which
//! name, and which of them is sealed on the way.

use vstd::prelude::*;
use vstd::string::*;
use aes_gcm::aead::array::Array;
use aes_gcm::aead::Aead;
use aes_gcm::{Aes256Gcm, KeyInit};
use vstd::slice::slice_to_vec;
use crate::archive::ArchiveFile;
use ini::Ini;
use crate::inifile::{ini_error_text, ini_parse, ini_parsed, ini_set, ini_with};
use crate::text::{
    begins_with, eq_ignore_ascii_case, lowercased, replace, replaced, same_ignoring_ascii_case,
    same_text, starts_with, to_lowercase,
};

verus! {

/// Directories that the export gets beside the files.
pub const SUBDIRS: [&'static str; 3] = ["dlls", "steam_settings", "saves"];

/// Files of the `steam_settings` directory that the export needs.
pub const STEAM_SETTINGS_FILES: [&'static str; 4] = [
    "supported_languages.txt",
    "achievements.json",
    "configs.app.ini",
    "configs.user.ini",
];

/// The directory of the archive whose files are taken.
pub open spec fn experimental_prefix() -> Seq<char> {
    "release/steamclient_experimental/"@
}

/// The lowercase name is one of the files that the export needs.
pub open spec fn is_wanted(lower: Seq<char>) -> bool {
    ||| lower == "steamclient.dll"@
    ||| lower == "steamclient64.dll"@
    ||| lower == "coldclientloader.ini"@
    ||| lower == "steamclient_loader_x64.exe"@
}

/// What becomes of one file of the archive.
#[derive(Debug, PartialEq, Eq)]
pub enum EntryPlan {
    /// It is left out.
    Skip,
    /// It is written under this name as it is.
    Keep(String),
    /// It is sealed and written under this name.
    Seal(String),
}

/// Mathematical value of an [`EntryPlan`].
pub enum EntryPlanView {
    Skip,
    Keep(Seq<char>),
    Seal(Seq<char>),
}

impl View for EntryPlan {
    type V = EntryPlanView;

    open spec fn view(&self) -> EntryPlanView {
        match self {
            EntryPlan::Skip => EntryPlanView::Skip,
            EntryPlan::Keep(name) => EntryPlanView::Keep(name@),
            EntryPlan::Seal(name) => EntryPlanView::Seal(name@),
        }
    }
}

/// What becomes of a file inside the experimental directory, by its name
/// `relative` to that directory and the same name in lowercase: a name that
/// is not wanted is left out; the loader is sealed under its own name; any
/// other keeps its name and case.
pub open spec fn classified(relative: Seq<char>, lower: Seq<char>) -> EntryPlanView {
    if !is_wanted(lower) {
        EntryPlanView::Skip
    } else if lower == "steamclient_loader_x64.exe"@ {
        EntryPlanView::Seal("steamclient_loader_x64.encrypted"@)
    } else {
        EntryPlanView::Keep(relative)
    }
}

/// What becomes of the file at `path` of the archive: a file outside the
/// experimental directory is left out; one inside goes by its name without
/// that directory, as [`classified`] says.
pub open spec fn entry_plan(path: Seq<char>) -> EntryPlanView {
    if !begins_with(path, experimental_prefix()) {
        EntryPlanView::Skip
    } else {
        let relative = replaced(path, experimental_prefix(), ""@);
        classified(relative, lowercased(relative))
    }
}

/// What becomes of a file inside the experimental directory: see
/// [`classified`].
pub fn classify(relative: String, lower: &str) -> (plan: EntryPlan)
    ensures
        plan@ == classified(relative@, lower@),
{
    if same_text(lower, "steamclient_loader_x64.exe") {
        EntryPlan::Seal(String::from_str("steamclient_loader_x64.encrypted"))
    } else if same_text(lower, "steamclient.dll") || same_text(lower, "steamclient64.dll")
        || same_text(lower, "coldclientloader.ini") {
        EntryPlan::Keep(relative)
    } else {
        EntryPlan::Skip
    }
}

/// What becomes of the file at `path` of the archive: see [`entry_plan`].
pub fn plan_entry(path: &str) -> (plan: EntryPlan)
    ensures
        plan@ == entry_plan(path@),
{
    if !starts_with(path, "release/steamclient_experimental/") {
        return EntryPlan::Skip;
    }
    let relative = replace(path, "release/steamclient_experimental/", "");
    let lower = to_lowercase(relative.as_str());
    classify(relative, lower.as_str())
}

/// The bytes that AES-256-GCM gives for `data` under `key` and `nonce`, with
/// no associated data: the ciphertext followed by its tag. `None` where the
/// key is not 32 bytes, the nonce not 12, or the data too long to seal.
pub uninterp spec fn aes256_gcm_sealed(key: Seq<u8>, nonce: Seq<u8>, data: Seq<u8>) -> Option<
    Seq<u8>,
>;

/// The view of optional bytes.
pub open spec fn bytes_view(bytes: Option<Vec<u8>>) -> Option<Seq<u8>> {
    match bytes {
        Some(b) => Some(b@),
        None => None,
    }
}

/// `Aes256Gcm::new` and `Aead::encrypt` of the crate aes-gcm, after
/// `Array::try_from` on the key and on the nonce: the sealed bytes are a
/// function of key, nonce and data, and there are none where the key is not
/// 32 bytes or the nonce not 12.
#[verifier::external_body]
fn aes256_gcm_seal(key: &[u8], nonce: &[u8], data: &[u8]) -> (sealed: Option<Vec<u8>>)
    ensures
        bytes_view(sealed) == aes256_gcm_sealed(key@, nonce@, data@),
        key@.len() != 32 || nonce@.len() != 12 ==> sealed.is_none(),
{
    let key = Array::try_from(key).ok()?;
    let nonce = Array::try_from(nonce).ok()?;
    Aes256Gcm::new(&key).encrypt(&nonce, data).ok()
}

/// The nonce under which the loader is sealed: twelve zero bytes.
pub open spec fn loader_nonce() -> Seq<u8> {
    Seq::new(12, |i: int| 0u8)
}

/// Sealing failed: the key has the wrong length or the file is too long.
#[derive(Debug, Clone, Copy, PartialEq, Eq, Structural)]
pub struct SealError;

/// A file of the export.
#[derive(Debug, PartialEq, Eq)]
pub struct OutputFile {
    pub name: String,
    pub contents: Vec<u8>,
}

/// What is written for a file of the archive with the given plan and
/// contents.
pub open spec fn prepared(plan: EntryPlanView, contents: Seq<u8>, key: Seq<u8>) -> Result<
    Option<(Seq<char>, Seq<u8>)>,
    SealError,
> {
    match plan {
        EntryPlanView::Skip => Ok(None),
        EntryPlanView::Keep(name) => Ok(Some((name, contents))),
        EntryPlanView::Seal(name) => match aes256_gcm_sealed(key, loader_nonce(), contents) {
            Some(sealed) => Ok(Some((name, sealed))),
            None => Err(SealError),
        },
    }
}

/// The view of a prepared file.
pub open spec fn prepared_view(file: Result<Option<OutputFile>, SealError>) -> Result<
    Option<(Seq<char>, Seq<u8>)>,
    SealError,
> {
    match file {
        Ok(Some(f)) => Ok(Some((f.name@, f.contents@))),
        Ok(None) => Ok(None),
        Err(e) => Err(e),
    }
}

/// Carries out a plan on the contents of a file: nothing for a file that is
/// left out, the contents under the planned name for one that is kept, the
/// sealed contents for the loader.
pub fn carry_out(plan: EntryPlan, contents: Vec<u8>, key: &[u8]) -> (file: Result<
    Option<OutputFile>,
    SealError,
>)
    ensures
        prepared_view(file) == prepared(plan@, contents@, key@),
        plan is Seal && key@.len() != 32 ==> file is Err,
{
    match plan {
        EntryPlan::Skip => Ok(None),
        EntryPlan::Keep(name) => Ok(Some(OutputFile { name, contents })),
        EntryPlan::Seal(name) => {
            let nonce: [u8; 12] = [0, 0, 0, 0, 0, 0, 0, 0, 0, 0, 0, 0];
            assert(nonce@ =~= loader_nonce());
            match aes256_gcm_seal(key, nonce.as_slice(), contents.as_slice()) {
                Some(sealed) => Ok(Some(OutputFile { name, contents: sealed })),
                None => Err(SealError),
            }
        },
    }
}

/// What is written for the file at `path` of the archive with the given
/// contents: [`plan_entry`], then [`carry_out`].
pub fn prepare_entry(path: &str, contents: Vec<u8>, key: &[u8]) -> (file: Result<
    Option<OutputFile>,
    SealError,
>)
    ensures
        prepared_view(file) == prepared(entry_plan(path@), contents@, key@),
{
    carry_out(plan_entry(path), contents, key)
}

/// The index of the first name from `from` on that is the loader's
/// configuration, in whatever case.
pub open spec fn first_loader_ini(names: Seq<String>, from: int) -> Option<int>
    decreases names.len() - from,
{
    if from < 0 || from >= names.len() {
        None
    } else if same_ignoring_ascii_case(names[from]@, "coldclientloader.ini"@) {
        Some(from)
    } else {
        first_loader_ini(names, from + 1)
    }
}

/// Finds the loader's configuration among the file names of the export,
/// whatever the case of its name: the index of the first that matches.
pub fn find_loader_ini(names: &Vec<String>) -> (found: Option<usize>)
    ensures
        match first_loader_ini(names@, 0) {
            Some(i) => found == Some(i as usize),
            None => found.is_none(),
        },
{
    let mut i: usize = 0;
    while i < names.len()
        invariant
            i <= names@.len(),
            first_loader_ini(names@, 0) == first_loader_ini(names@, i as int),
        decreases names@.len() - i,
    {
        if eq_ignore_ascii_case(names[i].as_str(), "coldclientloader.ini") {
            assert(first_loader_ini(names@, i as int) == Some(i as int));
            return Some(i);
        }
        i += 1;
    }
    None
}

/// The loader's configuration set for the game: its executable, its
/// application number, and the directory of the libraries to inject.
pub open spec fn loader_configured(doc: Ini) -> Ini {
    let with_exe = ini_with(doc, "SteamClient"@, "Exe"@, "AoE2DE\\AoE2DE_s.exe"@);
    let with_app = ini_with(with_exe, "SteamClient"@, "AppId"@, "813780"@);
    ini_with(with_app, "Injection"@, "DllsToInjectFolder"@, "dlls"@)
}

/// The loader's configuration could not be read; the parser's message.
#[derive(Debug, PartialEq, Eq)]
pub struct LoaderIniError {
    pub reason: String,
}

/// Reads the loader's configuration and sets it for the game: see
/// [`loader_configured`]. Fails exactly where the text is not an INI
/// document.
pub fn update_cold_client_loader(text: &str) -> (updated: Result<Ini, LoaderIniError>)
    ensures
        match ini_parsed(text@) {
            Some(doc) => updated is Ok && updated->Ok_0 == loader_configured(doc),
            None => updated is Err,
        },
{
    match ini_parse(text) {
        Ok(doc) => {
            let mut doc = doc;
            ini_set(&mut doc, "SteamClient", "Exe", "AoE2DE\\AoE2DE_s.exe");
            ini_set(&mut doc, "SteamClient", "AppId", "813780");
            ini_set(&mut doc, "Injection", "DllsToInjectFolder", "dlls");
            Ok(doc)
        },
        Err(e) => Err(LoaderIniError { reason: ini_error_text(&e) }),
    }
}

/// What is written for the first `n` files of an archive, in the order of
/// the archive, or the error of the first file that cannot be sealed.
pub open spec fn prepared_all(files: Seq<ArchiveFile>, key: Seq<u8>, n: int) -> Result<
    Seq<(Seq<char>, Seq<u8>)>,
    SealError,
>
    decreases n,
{
    if n <= 0 {
        Ok(Seq::empty())
    } else {
        match prepared_all(files, key, n - 1) {
            Err(e) => Err(e),
            Ok(before) => match prepared(
                entry_plan(files[n - 1].name@),
                files[n - 1].contents@,
                key,
            ) {
                Err(e) => Err(e),
                Ok(None) => Ok(before),
                Ok(Some(file)) => Ok(before.push(file)),
            },
        }
    }
}

/// The view of a list of prepared files.
pub open spec fn outputs_view(files: Result<Vec<OutputFile>, SealError>) -> Result<
    Seq<(Seq<char>, Seq<u8>)>,
    SealError,
> {
    match files {
        Ok(list) => Ok(Seq::new(list@.len(), |i: int| (list@[i].name@, list@[i].contents@))),
        Err(e) => Err(e),
    }
}

/// Once a file cannot be sealed, the whole archive cannot be prepared.
pub proof fn lemma_failure_stays(files: Seq<ArchiveFile>, key: Seq<u8>, n: int, m: int)
    requires
        n <= m,
        prepared_all(files, key, n) is Err,
    ensures
        prepared_all(files, key, m) is Err,
    decreases m - n,
{
    if n < m {
        lemma_failure_stays(files, key, n, m - 1);
    }
}

/// Prepares every file of the emulator's archive for the export, in the
/// order of the archive: see [`prepare_entry`]. Fails where the loader cannot
/// be sealed.
pub fn apply_goldberg(files: &Vec<ArchiveFile>, key: &[u8]) -> (outputs: Result<
    Vec<OutputFile>,
    SealError,
>)
    ensures
        outputs_view(outputs) == prepared_all(files@, key@, files@.len() as int),
{
    let mut outputs: Vec<OutputFile> = Vec::new();
    let mut i: usize = 0;
    assert(outputs_view(Ok(outputs)) =~= prepared_all(files@, key@, 0)) by {
        assert(outputs_view(Ok(outputs))->Ok_0 =~= Seq::empty());
    }
    while i < files.len()
        invariant
            i <= files@.len(),
            outputs_view(Ok(outputs)) == prepared_all(files@, key@, i as int),
        decreases files@.len() - i,
    {
        let file = &files[i];
        let ghost before = outputs_view(Ok(outputs))->Ok_0;
        match prepare_entry(file.name.as_str(), slice_to_vec(file.contents.as_slice()), key) {
            Err(e) => {
                proof {
                    assert(prepared_all(files@, key@, i + 1) is Err);
                    lemma_failure_stays(files@, key@, i + 1, files@.len() as int);
                }
                return Err(e);
            },
            Ok(None) => {},
            Ok(Some(output)) => {
                outputs.push(output);
                assert(outputs_view(Ok(outputs))->Ok_0 =~= before.push(
                    (output.name@, output.contents@),
                ));
            },
        }
        i += 1;
    }
    Ok(outputs)
}

} // verus!
