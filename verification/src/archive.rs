//! Taking the snapshot out of its archive.
//!
//! The archive is a ZIP file that is expected to hold a single entry. Only
//! the entry at the first place is ever looked at, whatever follows it; the
//! `zip` crate reads the archive's directory and unpacks the entry.

use crate::naming::{is_local_fname, is_local_name};
use vstd::prelude::*;

verus! {

/// Why nothing could be taken out of an archive.
#[derive(Clone, Copy, Debug, PartialEq, Eq, Structural)]
pub enum ArchiveError {
    /// The bytes are not a ZIP archive that can be read.
    Unreadable,
    /// The archive holds no entry.
    Empty,
    /// The first entry cannot be read or unpacked.
    BadEntry,
    /// The name stored for the first entry leads out of the directory that
    /// the run works in.
    UnsafeName,
    /// The name stored for the first entry is not the one that was found
    /// there before.
    Changed,
}

/// What was taken out of an archive.
#[derive(Clone, Debug, PartialEq, Eq)]
pub struct Extracted {
    /// The name that the archive stores for the entry.
    pub name: String,
    /// The unpacked bytes of the entry.
    pub content: Vec<u8>,
}

/// The place of the entry that is extracted.
pub const FIRST_ENTRY: usize = 0;

/// What extraction comes to, given what the archive shows: the number of
/// its entries (`None` where the bytes are no archive), and the name and the
/// unpacked bytes of its first entry (`None` where they cannot be had).
pub open spec fn extraction(
    count: Option<nat>,
    name: Option<Seq<char>>,
    content: Option<Seq<u8>>,
) -> Result<(Seq<char>, Seq<u8>), ArchiveError> {
    match count {
        None => Err(ArchiveError::Unreadable),
        Some(n) => if n == 0 {
            Err(ArchiveError::Empty)
        } else {
            match (name, content) {
                (Some(name), Some(content)) => Ok((name, content)),
                _ => Err(ArchiveError::BadEntry),
            }
        },
    }
}

/// What the naming of the extracted file comes to, given the number of
/// entries of the archive and the name of the first.
pub open spec fn naming(count: Option<nat>, name: Option<Seq<char>>) -> Result<
    Seq<char>,
    ArchiveError,
> {
    match count {
        None => Err(ArchiveError::Unreadable),
        Some(n) => if n == 0 {
            Err(ArchiveError::Empty)
        } else {
            match name {
                Some(name) => Ok(name),
                None => Err(ArchiveError::BadEntry),
            }
        },
    }
}

/// A count of entries as a mathematical value.
pub open spec fn count_view(count: Option<usize>) -> Option<nat> {
    match count {
        Some(n) => Some(n as nat),
        None => None,
    }
}

/// The bytes of an entry as a mathematical value.
pub open spec fn content_view(content: Option<Vec<u8>>) -> Option<Seq<u8>> {
    match content {
        Some(bytes) => Some(bytes@),
        None => None,
    }
}

/// Decides what extraction comes to, given what the archive shows.
pub fn judge_extraction(
    count: Option<usize>,
    name: Option<String>,
    content: Option<Vec<u8>>,
) -> (r: Result<Extracted, ArchiveError>)
    ensures
        match r {
            Ok(file) => extraction(count_view(count), name.deep_view(), content_view(content))
                == Ok::<(Seq<char>, Seq<u8>), ArchiveError>((file.name@, file.content@)),
            Err(error) => extraction(count_view(count), name.deep_view(), content_view(content))
                == Err::<(Seq<char>, Seq<u8>), ArchiveError>(error),
        },
{
    match count {
        None => Err(ArchiveError::Unreadable),
        Some(n) => if n == 0 {
            Err(ArchiveError::Empty)
        } else {
            match (name, content) {
                (Some(name), Some(content)) => Ok(Extracted { name, content }),
                _ => Err(ArchiveError::BadEntry),
            }
        },
    }
}

/// Decides what the naming of the extracted file comes to, given the
/// number of entries of the archive and the name of the first.
pub fn judge_naming(count: Option<usize>, name: Option<String>) -> (r: Result<
    String,
    ArchiveError,
>)
    ensures
        match r {
            Ok(n) => naming(count_view(count), name.deep_view()) == Ok::<Seq<char>, ArchiveError>(
                n@,
            ),
            Err(error) => naming(count_view(count), name.deep_view()) == Err::<
                Seq<char>,
                ArchiveError,
            >(error),
        },
{
    match count {
        None => Err(ArchiveError::Unreadable),
        Some(n) => if n == 0 {
            Err(ArchiveError::Empty)
        } else {
            match name {
                Some(name) => Ok(name),
                None => Err(ArchiveError::BadEntry),
            }
        },
    }
}

#[verifier::external_type_specification]
#[verifier::external_body]
#[verifier::reject_recursive_types(T)]
pub struct ExCursor<T>(std::io::Cursor<T>);

#[verifier::external_type_specification]
#[verifier::external_body]
#[verifier::reject_recursive_types(R)]
pub struct ExZipArchive<R>(zip::ZipArchive<R>);

/// Whether the file that an archive unpacks to may be written under the
/// name stored for it, given the name that was found for it before, if one
/// was: the name must be that of a file in the directory the run works in,
/// and must not have changed.
pub open spec fn target_verdict(name: Seq<char>, expected: Option<Seq<char>>) -> Result<
    (),
    ArchiveError,
> {
    if !is_local_name(name) {
        Err(ArchiveError::UnsafeName)
    } else if expected is Some && expected != Some(name) {
        Err(ArchiveError::Changed)
    } else {
        Ok(())
    }
}

/// Decides whether the file that an archive unpacks to may be written under
/// the name stored for it.
///
/// The name is the archive's to choose. One with a directory in it, or `..`,
/// would lead the write to any place on the disk, so it is refused, although
/// the archive may be sound otherwise. Where the name was found before, as
/// when the archive is read a second time to unpack it, the name must still
/// be the same: the file looked for then is the file written now.
pub fn judge_target(name: &str, expected: Option<&str>) -> (r: Result<(), ArchiveError>)
    ensures
        r == target_verdict(name@, expected.deep_view()),
{
    if !is_local_fname(name) {
        return Err(ArchiveError::UnsafeName);
    }
    match expected {
        Some(before) => if before.to_owned() == name.to_owned() {
            Ok(())
        } else {
            Err(ArchiveError::Changed)
        },
        None => Ok(()),
    }
}

/// The bytes that a `zip::ZipArchive` was opened over.
pub uninterp spec fn reader_bytes(reader: zip::ZipArchive<std::io::Cursor<Vec<u8>>>) -> Seq<u8>;

/// How many entries `zip` finds in an archive, or nothing where it cannot
/// read the bytes as an archive.
pub uninterp spec fn archive_entry_count(archive: Seq<u8>) -> Option<nat>;

/// The name that `zip` finds stored for the entry at `index`, or nothing
/// where it finds no such entry.
pub uninterp spec fn archive_entry_name(archive: Seq<u8>, index: nat) -> Option<Seq<char>>;

/// The bytes that `zip` unpacks from the entry at `index`, or nothing where
/// it cannot.
pub uninterp spec fn archive_entry_content(archive: Seq<u8>, index: nat) -> Option<Seq<u8>>;

/// `zip::ZipArchive::new`, over a cursor on the bytes.
///
/// Trusted: whether the bytes are read as an archive is determined by the
/// bytes, and an archive that is opened stays one over those bytes.
#[verifier::external_body]
fn open_reader(bytes: Vec<u8>) -> (reader: Option<zip::ZipArchive<std::io::Cursor<Vec<u8>>>>)
    ensures
        reader is Some <==> archive_entry_count(bytes@) is Some,
        reader matches Some(opened) ==> reader_bytes(opened) == bytes@,
{
    zip::ZipArchive::new(std::io::Cursor::new(bytes)).ok()
}

/// `zip::ZipArchive::len`.
///
/// Trusted: the number of entries of an opened archive is the one that its
/// bytes determine.
#[verifier::external_body]
fn reader_len(reader: &zip::ZipArchive<std::io::Cursor<Vec<u8>>>) -> (count: usize)
    ensures
        archive_entry_count(reader_bytes(*reader)) == Some(count as nat),
{
    reader.len()
}

/// `zip::ZipArchive::by_index_raw`, then `name` on the entry.
///
/// Trusted: whether an entry is found at the index, and the name stored for
/// it, is determined by the bytes of the archive, which the call leaves as
/// they are.
#[verifier::external_body]
fn reader_entry_name(
    reader: &mut zip::ZipArchive<std::io::Cursor<Vec<u8>>>,
    index: usize,
) -> (name: Option<String>)
    ensures
        reader_bytes(*final(reader)) == reader_bytes(*old(reader)),
        name is Some <==> archive_entry_name(reader_bytes(*old(reader)), index as nat) is Some,
        name matches Some(n) ==> archive_entry_name(reader_bytes(*old(reader)), index as nat)
            == Some(n@),
{
    match reader.by_index_raw(index) {
        Ok(entry) => Some(entry.name().to_owned()),
        Err(_) => None,
    }
}

/// `zip::ZipArchive::by_index_decrypt` with an empty password, then
/// `read_to_end` on the entry.
///
/// Trusted: whether the entry at the index can be unpacked, and the bytes
/// that come out, is determined by the bytes of the archive, which the call
/// leaves as they are. The entry is asked for with an empty password, which
/// an entry that is not encrypted passes over, because `by_index` panics on
/// an entry that carries an AES field without being marked as encrypted,
/// and `zip` does not tell of an entry whether it is. So an entry that is
/// encrypted under the empty password is unpacked, where `by_index` would
/// refuse it; every other encrypted entry cannot be unpacked.
#[verifier::external_body]
fn reader_entry_content(
    reader: &mut zip::ZipArchive<std::io::Cursor<Vec<u8>>>,
    index: usize,
) -> (content: Option<Vec<u8>>)
    ensures
        reader_bytes(*final(reader)) == reader_bytes(*old(reader)),
        content is Some <==> archive_entry_content(reader_bytes(*old(reader)), index as nat)
            is Some,
        content matches Some(c) ==> archive_entry_content(
            reader_bytes(*old(reader)),
            index as nat,
        ) == Some(c@),
{
    let mut entry = reader.by_index_decrypt(index, b"").ok()?.ok()?;
    let mut content = Vec::new();
    std::io::Read::read_to_end(&mut entry, &mut content).ok()?;
    Some(content)
}

/// The name of the file that an archive unpacks to: the name stored for its
/// first entry.
pub open spec fn extracted_name(archive: Seq<u8>) -> Result<Seq<char>, ArchiveError> {
    naming(archive_entry_count(archive), archive_entry_name(archive, FIRST_ENTRY as nat))
}

/// What an archive unpacks to: the name and the unpacked bytes of its first
/// entry.
pub open spec fn extracted(archive: Seq<u8>) -> Result<(Seq<char>, Seq<u8>), ArchiveError> {
    extraction(
        archive_entry_count(archive),
        archive_entry_name(archive, FIRST_ENTRY as nat),
        archive_entry_content(archive, FIRST_ENTRY as nat),
    )
}

/// An archive that has been opened. Its view is the bytes it was opened
/// over.
pub struct Archive {
    reader: zip::ZipArchive<std::io::Cursor<Vec<u8>>>,
}

impl View for Archive {
    type V = Seq<u8>;

    closed spec fn view(&self) -> Seq<u8> {
        reader_bytes(self.reader)
    }
}

impl Archive {
    /// Opens an archive over its bytes, where they are an archive.
    pub fn open(bytes: Vec<u8>) -> (r: Result<Archive, ArchiveError>)
        ensures
            r is Ok <==> archive_entry_count(bytes@) is Some,
            r matches Ok(archive) ==> archive@ == bytes@,
            r matches Err(error) ==> error == ArchiveError::Unreadable,
    {
        match open_reader(bytes) {
            Some(reader) => Ok(Archive { reader }),
            None => Err(ArchiveError::Unreadable),
        }
    }

    /// How many entries the archive has.
    pub fn len(&self) -> (count: usize)
        ensures
            archive_entry_count(self@) == Some(count as nat),
    {
        reader_len(&self.reader)
    }

    /// Names the file that the archive unpacks to, without unpacking it.
    pub fn first_name(&mut self) -> (r: Result<String, ArchiveError>)
        ensures
            final(self)@ == old(self)@,
            match r {
                Ok(name) => extracted_name(old(self)@) == Ok::<Seq<char>, ArchiveError>(name@),
                Err(error) => extracted_name(old(self)@) == Err::<Seq<char>, ArchiveError>(
                    error,
                ),
            },
    {
        let count = reader_len(&self.reader);
        let name = reader_entry_name(&mut self.reader, FIRST_ENTRY);
        judge_naming(Some(count), name)
    }

    /// Unpacks the first entry of the archive. Entries after the first are
    /// passed over in silence.
    pub fn extract_first(&mut self) -> (r: Result<Extracted, ArchiveError>)
        ensures
            final(self)@ == old(self)@,
            match r {
                Ok(file) => extracted(old(self)@) == Ok::<(Seq<char>, Seq<u8>), ArchiveError>(
                    (file.name@, file.content@),
                ),
                Err(error) => extracted(old(self)@) == Err::<(Seq<char>, Seq<u8>), ArchiveError>(
                    error,
                ),
            },
    {
        let count = reader_len(&self.reader);
        let name = reader_entry_name(&mut self.reader, FIRST_ENTRY);
        let content = reader_entry_content(&mut self.reader, FIRST_ENTRY);
        judge_extraction(Some(count), name, content)
    }
}

/// Names the file that the archive with these bytes unpacks to, without
/// unpacking it.
pub fn extracted_fname(archive: Vec<u8>) -> (r: Result<String, ArchiveError>)
    ensures
        match r {
            Ok(name) => extracted_name(archive@) == Ok::<Seq<char>, ArchiveError>(name@),
            Err(error) => extracted_name(archive@) == Err::<Seq<char>, ArchiveError>(error),
        },
{
    match Archive::open(archive) {
        Ok(mut opened) => opened.first_name(),
        Err(error) => Err(error),
    }
}

/// Unpacks the first entry of the archive with these bytes.
///
/// Fails where the bytes are no archive, where the archive holds no entry,
/// and where its first entry cannot be unpacked. Entries after the first
/// are passed over in silence.
pub fn extract_txt_from_zip(archive: Vec<u8>) -> (r: Result<Extracted, ArchiveError>)
    ensures
        match r {
            Ok(file) => extracted(archive@) == Ok::<(Seq<char>, Seq<u8>), ArchiveError>(
                (file.name@, file.content@),
            ),
            Err(error) => extracted(archive@) == Err::<(Seq<char>, Seq<u8>), ArchiveError>(
                error,
            ),
        },
{
    match Archive::open(archive) {
        Ok(mut opened) => opened.extract_first(),
        Err(error) => Err(error),
    }
}

} // verus!
