//! The bundle extractor: a downloaded byte buffer opened as a zip archive,
//! and named entries pulled whole into memory. The archive handle is an
//! owned, non-shared resource; entries are extracted strictly one after
//! another, each read to completion before the next begins.

use vstd::prelude::*;

use crate::errors::FlashError;

verus! {

#[verifier::external_type_specification]
#[verifier::external_body]
#[verifier::reject_recursive_types(R)]
pub struct ExZipArchive<R>(zip::read::ZipArchive<R>);

#[verifier::external_type_specification]
#[verifier::external_body]
#[verifier::reject_recursive_types(T)]
pub struct ExCursor<T>(std::io::Cursor<T>);

/// An opened firmware bundle.
pub struct FirmwareArchive {
    inner: zip::read::ZipArchive<std::io::Cursor<Vec<u8>>>,
}

/// What an opened bundle holds: each entry's full decompressed contents,
/// keyed by its exact name.
pub uninterp spec fn archive_entries(a: FirmwareArchive) -> Map<Seq<char>, Seq<u8>>;

/// The names of the bundle's entries whose contents decompress cleanly
/// (supported compression method, intact stream, matching checksum).
/// Reading an entry touches only the in-memory buffer, so which entries
/// are readable is decided by the archive value alone.
pub uninterp spec fn archive_readable(a: FirmwareArchive) -> Set<Seq<char>>;

/// What `zip::ZipArchive::new` reads out of a byte buffer: the entry table
/// when the buffer is a valid archive, and nothing otherwise. Opening
/// reads only the buffer, so this is a function of the bytes alone.
pub uninterp spec fn zip_entries_of(bytes: Seq<u8>) -> Option<Map<Seq<char>, Seq<u8>>>;

/// The entry names of a byte buffer that decompress cleanly: the
/// buffer-level counterpart of `archive_readable`, a function of the bytes
/// alone for the same reason.
pub uninterp spec fn zip_readable_of(bytes: Seq<u8>) -> Set<Seq<char>>;

/// Relies on `zip::ZipArchive::new`: it parses the buffer's central
/// directory, a function of the bytes alone, and fails exactly when the
/// buffer is not a valid archive. The handle reads only the buffer it was
/// opened over, so its entry table and its readable set are those of the
/// bytes.
#[verifier::external_body]
pub fn create_archive_from_bytes(firmware_zip_bundle_bytes: Vec<u8>) -> (r: Result<
    FirmwareArchive,
    FlashError,
>)
    ensures
        match r {
            Ok(a) => {
                &&& zip_entries_of(firmware_zip_bundle_bytes@) is Some
                &&& archive_entries(a) == zip_entries_of(firmware_zip_bundle_bytes@).unwrap()
                &&& archive_readable(a) == zip_readable_of(firmware_zip_bundle_bytes@)
            },
            Err(e) => {
                &&& e == FlashError::ArchiveCorrupt
                &&& zip_entries_of(firmware_zip_bundle_bytes@) is None
            },
        },
{
    match zip::ZipArchive::new(std::io::Cursor::new(firmware_zip_bundle_bytes)) {
        Ok(inner) => Ok(FirmwareArchive { inner }),
        Err(_) => Err(FlashError::ArchiveCorrupt),
    }
}

/// Relies on `zip::ZipArchive::by_name` and `std::io::Read::read_to_end`:
/// `by_name` returns its file-not-found error exactly when no entry
/// carries the name; reading a present entry touches only the in-memory
/// buffer, so it succeeds — with the entry's full decompressed contents —
/// exactly when the entry decompresses cleanly, and fails as a read error
/// exactly otherwise (unsupported method, damaged stream, checksum
/// mismatch). Only the reader's cursor moves; the entry table and the
/// readable set are never altered.
#[verifier::external_body]
pub fn extract_binary_from_archive(
    archive: &mut FirmwareArchive,
    firmware_file_name: &String,
) -> (r: Result<Vec<u8>, FlashError>)
    ensures
        archive_entries(*final(archive)) == archive_entries(*old(archive)),
        archive_readable(*final(archive)) == archive_readable(*old(archive)),
        match r {
            Ok(bytes) => {
                &&& archive_entries(*old(archive)).contains_key(firmware_file_name@)
                &&& archive_readable(*old(archive)).contains(firmware_file_name@)
                &&& bytes@ == archive_entries(*old(archive))[firmware_file_name@]
            },
            Err(e) => match e {
                FlashError::EntryNotFound { name } => {
                    &&& name@ == firmware_file_name@
                    &&& !archive_entries(*old(archive)).contains_key(firmware_file_name@)
                },
                FlashError::ReadError { name } => {
                    &&& name@ == firmware_file_name@
                    &&& archive_entries(*old(archive)).contains_key(firmware_file_name@)
                    &&& !archive_readable(*old(archive)).contains(firmware_file_name@)
                },
                _ => false,
            },
        },
{
    let mut file = match archive.inner.by_name(firmware_file_name.as_str()) {
        Ok(f) => f,
        Err(zip::result::ZipError::FileNotFound) => {
            return Err(FlashError::EntryNotFound { name: firmware_file_name.clone() });
        },
        Err(_) => {
            return Err(FlashError::ReadError { name: firmware_file_name.clone() });
        },
    };
    let mut contents = Vec::new();
    match std::io::Read::read_to_end(&mut file, &mut contents) {
        Ok(_) => Ok(contents),
        Err(_) => Err(FlashError::ReadError { name: firmware_file_name.clone() }),
    }
}

} // verus!
