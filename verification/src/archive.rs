//! Compressed archives, written by the `zip` crate.

use vstd::prelude::*;

verus! {

/// The error type of the `zip` crate. Nothing is known of what one holds.
#[verifier::external_type_specification]
#[verifier::external_body]
pub struct ExZipError(::zip::result::ZipError);

/// A `zip::ZipWriter` that builds its archive in memory.
#[verifier::external_body]
pub struct Archive {
    inner: ::zip::ZipWriter<std::io::Cursor<Vec<u8>>>,
}

/// The files that an archive under construction holds, in the order in which
/// they were started: the name and the content of each.
pub uninterp spec fn entries(archive: Archive) -> Seq<(Seq<char>, Seq<u8>)>;

/// Whether `bytes` are an archive of the files `files`, as the `zip` crate
/// writes one.
pub uninterp spec fn archive_of(bytes: Seq<u8>, files: Seq<(Seq<char>, Seq<u8>)>) -> bool;

/// What the `zip` crate answers when the file `name` is started in an archive
/// that holds `files`: that it takes the file, or its error.
pub uninterp spec fn start_answer(files: Seq<(Seq<char>, Seq<u8>)>, name: Seq<char>) -> Result<
    (),
    ::zip::result::ZipError,
>;

/// What the `zip` crate answers when `bytes` are written to the last file of
/// an archive that holds `files`: that it takes them, or its error.
pub uninterp spec fn write_answer(files: Seq<(Seq<char>, Seq<u8>)>, bytes: Seq<u8>) -> Result<
    (),
    ::zip::result::ZipError,
>;

/// What the `zip` crate answers when an archive that holds `files` is closed:
/// that it closes, or its error.
pub uninterp spec fn finish_answer(files: Seq<(Seq<char>, Seq<u8>)>) -> Result<
    (),
    ::zip::result::ZipError,
>;

/// An archive without files.
///
/// Calls `zip::ZipWriter::new` on a cursor over an empty vector.
#[verifier::external_body]
pub(crate) fn new_archive() -> (archive: Archive)
    ensures
        entries(archive) == Seq::<(Seq<char>, Seq<u8>)>::empty(),
{
    Archive { inner: ::zip::ZipWriter::new(std::io::Cursor::new(Vec::new())) }
}

/// Starts the file `name` in the archive: deflated, with the permissions of
/// a plain file.
///
/// Calls `zip::ZipWriter::start_file`. Whether the crate takes the file
/// depends on the files of the archive and on the name alone (it refuses a
/// name that a file of the archive has); the contract gives the answer its
/// name and promises neither outcome. Where the crate takes the file, it is the
/// last of the archive and empty; the archive is given up where it does not.
#[verifier::external_body]
pub(crate) fn start_file(archive: Archive, name: &str) -> (result: Result<
    Archive,
    ::zip::result::ZipError,
>)
    requires
        name@.len() <= 255,
    ensures
        match result {
            Ok(next) => start_answer(entries(archive), name@) is Ok && entries(next) == entries(
                archive,
            ).push((name@, Seq::<u8>::empty())),
            Err(error) => start_answer(entries(archive), name@) == Err::<
                (),
                ::zip::result::ZipError,
            >(error),
        },
{
    let mut archive = archive;
    let options = ::zip::write::SimpleFileOptions::default().compression_method(
        ::zip::CompressionMethod::Deflated,
    ).unix_permissions(0o644);
    match archive.inner.start_file(name, options) {
        Ok(()) => Ok(archive),
        Err(error) => Err(error),
    }
}

/// Appends `bytes` to the file of the archive that was started last.
///
/// Calls `std::io::Write::write_all` on the `zip::ZipWriter`. Whether the
/// crate takes the bytes depends on the files of the archive and on the bytes
/// alone; the contract gives the answer its name and promises neither outcome.
/// Where the crate takes them, the last file now ends in `bytes`; the archive
/// is given up where it does not.
#[verifier::external_body]
pub(crate) fn write_file(archive: Archive, bytes: &[u8]) -> (result: Result<
    Archive,
    ::zip::result::ZipError,
>)
    requires
        entries(archive).len() > 0,
    ensures
        match result {
            Ok(next) => write_answer(entries(archive), bytes@) is Ok && entries(next) == entries(
                archive,
            ).drop_last().push((entries(archive).last().0, entries(archive).last().1 + bytes@)),
            Err(error) => write_answer(entries(archive), bytes@) == Err::<
                (),
                ::zip::result::ZipError,
            >(error),
        },
{
    let mut archive = archive;
    match std::io::Write::write_all(&mut archive.inner, bytes) {
        Ok(()) => Ok(archive),
        Err(error) => Err(::zip::result::ZipError::Io(error)),
    }
}

/// Closes the archive and returns its bytes.
///
/// Calls `zip::ZipWriter::finish` and takes the vector out of the cursor that
/// it returns. Whether the crate closes the archive depends on its files
/// alone; the contract gives the answer its name and promises neither outcome.
/// Where the crate closes it, the bytes are an archive of the files. The bytes
/// themselves have no name: the crate may stamp the files with the time.
#[verifier::external_body]
pub(crate) fn finish_archive(archive: Archive) -> (result: Result<Vec<u8>, ::zip::result::ZipError>)
    ensures
        match result {
            Ok(bytes) => finish_answer(entries(archive)) is Ok && archive_of(
                bytes@,
                entries(archive),
            ),
            Err(error) => finish_answer(entries(archive)) == Err::<(), ::zip::result::ZipError>(
                error,
            ),
        },
{
    match archive.inner.finish() {
        Ok(cursor) => Ok(cursor.into_inner()),
        Err(error) => Err(error),
    }
}

/// The text with which the `zip` crate describes one of its errors.
pub uninterp spec fn zip_error_text(error: ::zip::result::ZipError) -> Seq<char>;

/// The text of an error of the `zip` crate.
///
/// Calls the error's `Display` implementation through `to_string`. The text
/// depends on the error alone; the contract gives it its name.
#[verifier::external_body]
pub(crate) fn zip_error_message(error: &::zip::result::ZipError) -> (message: String)
    ensures
        message@ == zip_error_text(*error),
{
    error.to_string()
}

} // verus!
