//! Reading every file out of a zip archive held in memory.

use vstd::prelude::*;
use std::io::Cursor;
use zip::result::ZipError;
use zip::ZipArchive;

verus! {

#[verifier::external_type_specification]
#[verifier::external_body]
#[verifier::reject_recursive_types(R)]
pub struct ExZipArchive<R>(zip::ZipArchive<R>);

#[verifier::external_type_specification]
#[verifier::external_body]
#[verifier::reject_recursive_types(T)]
pub struct ExCursor<T>(std::io::Cursor<T>);

#[verifier::external_type_specification]
#[verifier::external_body]
pub struct ExZipError(zip::result::ZipError);

/// What reading each entry of an open archive gives, in the order of the
/// archive: the entry's name and contents, or `None` where reading it fails.
pub uninterp spec fn zip_entries(archive: ZipArchive<Cursor<Vec<u8>>>) -> Seq<
    Option<(Seq<char>, Seq<u8>)>,
>;

/// The entries of the archive that `data` holds, or `None` where `data` is
/// not a zip archive.
pub uninterp spec fn zip_opened(data: Seq<u8>) -> Option<Seq<Option<(Seq<char>, Seq<u8>)>>>;

/// `ZipArchive::new` on a cursor over the bytes: the archive, whose entries
/// are a function of the bytes, or the error where the bytes are no archive.
#[verifier::external_body]
fn zip_open(data: Vec<u8>) -> (opened: Result<ZipArchive<Cursor<Vec<u8>>>, ZipError>)
    ensures
        match opened {
            Ok(archive) => zip_opened(data@) == Some(zip_entries(archive)),
            Err(_) => zip_opened(data@).is_none(),
        },
{
    ZipArchive::new(Cursor::new(data))
}

/// `ZipArchive::len`: the number of entries.
#[verifier::external_body]
fn zip_len(archive: &ZipArchive<Cursor<Vec<u8>>>) -> (n: usize)
    ensures
        n == zip_entries(*archive).len(),
{
    archive.len()
}

/// `ZipArchive::by_index`, then `Read::read_to_end` and `ZipFile::name` on
/// the entry: its name and contents, or the text of the first error. Reading
/// leaves the entries as they are; an index past the last entry is an error.
#[verifier::external_body]
fn zip_read(archive: &mut ZipArchive<Cursor<Vec<u8>>>, index: usize) -> (entry: Result<
    (String, Vec<u8>),
    String,
>)
    ensures
        zip_entries(*final(archive)) == zip_entries(*old(archive)),
        match entry {
            Ok((name, contents)) => index < zip_entries(*old(archive)).len() && zip_entries(
                *old(archive),
            )[index as int] == Some((name@, contents@)),
            Err(_) => index >= zip_entries(*old(archive)).len() || zip_entries(
                *old(archive),
            )[index as int].is_none(),
        },
{
    let mut file = archive.by_index(index).map_err(|e| e.to_string())?;
    let mut contents = Vec::new();
    std::io::Read::read_to_end(&mut file, &mut contents).map_err(|e| e.to_string())?;
    let name = file.name().map_err(|e| e.to_string())?.into_owned();
    Ok((name, contents))
}

/// `ToString::to_string` on a `ZipError`: the text of the error. Nothing is
/// claimed of it.
#[verifier::external_body]
fn zip_error_text(error: &ZipError) -> (text: String) {
    error.to_string()
}

/// Why an archive could not be read.
#[derive(Debug, PartialEq, Eq)]
pub enum ExtractError {
    /// The bytes are no zip archive; the reader's message.
    NotAnArchive(String),
    /// The entry with this index could not be read; the reader's message.
    BadEntry(usize, String),
}

impl ExtractError {
    /// The text of the error: the reader's message.
    pub fn message(&self) -> (text: String)
        ensures
            match self {
                ExtractError::NotAnArchive(reason) => text@ == reason@,
                ExtractError::BadEntry(_, reason) => text@ == reason@,
            },
    {
        match self {
            ExtractError::NotAnArchive(reason) => reason.clone(),
            ExtractError::BadEntry(_, reason) => reason.clone(),
        }
    }
}

/// One file out of an archive.
#[derive(Debug, PartialEq, Eq)]
pub struct ArchiveFile {
    pub name: String,
    pub contents: Vec<u8>,
}

/// The index of the first entry from `from` on that cannot be read.
pub open spec fn first_bad(entries: Seq<Option<(Seq<char>, Seq<u8>)>>, from: int) -> Option<int>
    decreases entries.len() - from,
{
    if from < 0 || from >= entries.len() {
        None
    } else if entries[from].is_none() {
        Some(from)
    } else {
        first_bad(entries, from + 1)
    }
}

/// `files` are the entries of `entries`, in order, all of them read.
pub open spec fn files_are(files: Seq<ArchiveFile>, entries: Seq<Option<(Seq<char>, Seq<u8>)>>)
    -> bool {
    &&& files.len() == entries.len()
    &&& forall|i: int|
        0 <= i < files.len() ==> entries[i] == Some(
            ((#[trigger] files[i]).name@, files[i].contents@),
        )
}

/// Reads every file of the zip archive that `data` holds, in the order of
/// the archive. Fails with `NotAnArchive` exactly where the bytes are no
/// archive, and with `BadEntry` for the first entry that cannot be read.
pub fn extract_zip(data: Vec<u8>) -> (files: Result<Vec<ArchiveFile>, ExtractError>)
    ensures
        match zip_opened(data@) {
            None => files is Err && files->Err_0 is NotAnArchive,
            Some(entries) => match first_bad(entries, 0) {
                None => files is Ok && files_are(files->Ok_0@, entries),
                Some(bad) => files is Err && files->Err_0 is BadEntry
                    && files->Err_0->BadEntry_0 == bad,
            },
        },
{
    let mut archive = match zip_open(data) {
        Ok(archive) => archive,
        Err(e) => {
            return Err(ExtractError::NotAnArchive(zip_error_text(&e)));
        },
    };
    let ghost entries = zip_entries(archive);
    let n = zip_len(&archive);
    let mut files: Vec<ArchiveFile> = Vec::new();
    let mut i: usize = 0;
    while i < n
        invariant
            zip_opened(data@) == Some(entries),
            zip_entries(archive) == entries,
            n == entries.len(),
            i <= n,
            files@.len() == i,
            first_bad(entries, 0) == first_bad(entries, i as int),
            forall|j: int|
                0 <= j < i ==> entries[j] == Some(
                    ((#[trigger] files@[j]).name@, files@[j].contents@),
                ),
        decreases n - i,
    {
        match zip_read(&mut archive, i) {
            Ok((name, contents)) => {
                files.push(ArchiveFile { name, contents });
            },
            Err(reason) => {
                assert(first_bad(entries, i as int) == Some(i as int));
                return Err(ExtractError::BadEntry(i, reason));
            },
        }
        i += 1;
    }
    Ok(files)
}

} // verus!
