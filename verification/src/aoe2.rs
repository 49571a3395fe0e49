//! Rules of the two installs that complete the game: which files of the
//! companion's archive are taken, and how the launcher's configuration is
//! adapted.

use vstd::prelude::*;
use vstd::string::*;
use vstd::slice::slice_to_vec;
use crate::archive::ArchiveFile;
use crate::text::{contains, lowercased, occurs_in, replace, replaced, to_lowercase};

verus! {

/// Words that the name of a launcher's download holds.
pub const LAUNCHER_SEARCH: [&'static str; 2] = ["_full_", "win_x86-64"];

/// Words that the name of a companion's download holds.
pub const COMPANION_SEARCH: [&'static str; 1] = ["_full_"];

/// A name in lowercase holds one of the words that mark a companion file:
/// `age2` or `fakehost`.
pub open spec fn has_companion_word(lower: Seq<char>) -> bool {
    occurs_in("age2"@, lower) || occurs_in("fakehost"@, lower)
}

/// A file of the companion's archive is taken where its name, in lowercase,
/// holds `age2` or `fakehost`.
pub open spec fn is_companion_file(name: Seq<char>) -> bool {
    has_companion_word(lowercased(name))
}

/// Whether a name in lowercase marks a companion file: see
/// [`has_companion_word`].
pub fn holds_companion_word(lower: &str) -> (held: bool)
    ensures
        held == has_companion_word(lower@),
{
    contains(lower, "age2") || contains(lower, "fakehost")
}

/// Whether a file of the companion's archive is taken: see
/// [`is_companion_file`].
pub fn companion_file_wanted(name: &str) -> (wanted: bool)
    ensures
        wanted == is_companion_file(name@),
{
    let lower = to_lowercase(name);
    holds_companion_word(lower.as_str())
}

/// The names and contents of the companion files among the first `n` files
/// of an archive, in the order of the archive.
pub open spec fn companion_files(files: Seq<ArchiveFile>, n: int) -> Seq<(Seq<char>, Seq<u8>)>
    decreases n,
{
    if n <= 0 {
        Seq::empty()
    } else {
        let before = companion_files(files, n - 1);
        if is_companion_file(files[n - 1].name@) {
            before.push((files[n - 1].name@, files[n - 1].contents@))
        } else {
            before
        }
    }
}

/// The view of a list of files.
pub open spec fn files_view(files: Seq<ArchiveFile>) -> Seq<(Seq<char>, Seq<u8>)> {
    Seq::new(files.len(), |i: int| (files[i].name@, files[i].contents@))
}

/// The files of the companion's archive that are taken, in the order of the
/// archive, each with its name and contents as they are.
pub fn install_launcher_companion(files: &Vec<ArchiveFile>) -> (taken: Vec<ArchiveFile>)
    ensures
        files_view(taken@) == companion_files(files@, files@.len() as int),
{
    let mut taken: Vec<ArchiveFile> = Vec::new();
    let mut i: usize = 0;
    assert(files_view(taken@) =~= companion_files(files@, 0));
    while i < files.len()
        invariant
            i <= files@.len(),
            files_view(taken@) == companion_files(files@, i as int),
        decreases files@.len() - i,
    {
        let file = &files[i];
        if companion_file_wanted(file.name.as_str()) {
            let ghost before = taken@;
            taken.push(
                ArchiveFile {
                    name: file.name.clone(),
                    contents: slice_to_vec(file.contents.as_slice()),
                },
            );
            assert(files_view(taken@) =~= files_view(before).push(
                (file.name@, file.contents@),
            ));
        }
        i += 1;
    }
    taken
}

/// The launcher's configuration with the executable, its directory and its
/// arguments set for the export, each in place of the automatic choice.
pub open spec fn launcher_config_patched(config: Seq<char>) -> Seq<char> {
    let with_executable = replaced(
        config,
        "Executable = 'auto'"@,
        "Executable = '.\\..\\steamclient_loader_x64.exe'"@,
    );
    let with_path = replaced(with_executable, "Path = 'auto'"@, "Path = \".\\\\..\\\\AoE2DE\""@);
    replaced(
        with_path,
        "ExecutableArgs = []"@,
        "ExecutableArgs = [--overrideHosts=\".\\..\\dlls\\ageLANServerLauncherCompanion_AgeFakeHost_1.0.0.0.dll\"]"@,
    )
}

/// Adapts the launcher's configuration: see [`launcher_config_patched`].
pub fn patch_launcher_config(config: &str) -> (patched: String)
    ensures
        patched@ == launcher_config_patched(config@),
{
    let with_executable = replace(
        config,
        "Executable = 'auto'",
        "Executable = '.\\..\\steamclient_loader_x64.exe'",
    );
    let with_path = replace(
        with_executable.as_str(),
        "Path = 'auto'",
        "Path = \".\\\\..\\\\AoE2DE\"",
    );
    replace(
        with_path.as_str(),
        "ExecutableArgs = []",
        "ExecutableArgs = [--overrideHosts=\".\\..\\dlls\\ageLANServerLauncherCompanion_AgeFakeHost_1.0.0.0.dll\"]",
    )
}

} // verus!
