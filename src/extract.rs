//! Where a downloaded archive goes, and whether it can be extracted.

use vstd::prelude::*;
use crate::text::{owned, push_str, str_eq};

verus! {

/// The archive formats that can be extracted.
#[derive(Debug, Clone, Copy, PartialEq, Eq, Structural)]
pub enum ArchiveFormat {
    Zip,
}

#[derive(Debug, Clone, PartialEq, Eq)]
pub enum ExtractError {
    /// The file name has no extension.
    NoExtension,
    /// The extension names a format that cannot be extracted.
    Unsupported(String),
}

/// The extension of a path as `std::path::Path::extension` finds it.
pub uninterp spec fn extension_of(path: Seq<char>) -> Option<Seq<char>>;

/// Relies on `std::path::Path::extension`: the part of the file name after
/// its last dot, if any.
#[verifier::external_body]
fn path_extension(path: &str) -> (r: Option<String>)
    ensures
        match r {
            Some(e) => extension_of(path@) == Some(e@),
            None => extension_of(path@) is None,
        },
{
    std::path::Path::new(path).extension().map(|e| e.to_string_lossy().into_owned())
}

/// The format an extension names: `zip`, and nothing else.
pub fn format_of_extension(extension: Option<&str>) -> (r: Result<ArchiveFormat, ExtractError>)
    ensures
        match extension {
            Some(e) => if e@ == "zip"@ {
                r == Ok::<ArchiveFormat, ExtractError>(ArchiveFormat::Zip)
            } else {
                r matches Err(ExtractError::Unsupported(x)) && x@ == e@
            },
            None => r == Err::<ArchiveFormat, ExtractError>(ExtractError::NoExtension),
        },
{
    match extension {
        Some(e) => if str_eq(e, "zip") {
            Ok(ArchiveFormat::Zip)
        } else {
            Err(ExtractError::Unsupported(owned(e)))
        },
        None => Err(ExtractError::NoExtension),
    }
}

/// What to extract, and where.
#[derive(Debug, Clone, PartialEq, Eq)]
pub struct ExtractJob {
    pub format: ArchiveFormat,
    /// The archive: `<workdir>/<repository>.zip`.
    pub archive: String,
    /// The directory that receives its entries: `<workdir>/<repository>`.
    pub target_dir: String,
}

/// `<workdir>/<repository>.zip`, where a challenge's archive is saved.
pub open spec fn archive_path_spec(workdir: Seq<char>, repository: Seq<char>) -> Seq<char> {
    workdir + "/"@ + repository + ".zip"@
}

/// `<workdir>/<repository>`, where its entries are extracted.
pub open spec fn target_dir_spec(workdir: Seq<char>, repository: Seq<char>) -> Seq<char> {
    workdir + "/"@ + repository
}

pub fn archive_path(workdir: &str, repository: &str) -> (r: String)
    ensures
        r@ == archive_path_spec(workdir@, repository@),
{
    let mut r = owned(workdir);
    push_str(&mut r, "/");
    push_str(&mut r, repository);
    push_str(&mut r, ".zip");
    r
}

pub fn target_dir(workdir: &str, repository: &str) -> (r: String)
    ensures
        r@ == target_dir_spec(workdir@, repository@),
{
    let mut r = owned(workdir);
    push_str(&mut r, "/");
    push_str(&mut r, repository);
    r
}

/// Checks that the downloaded file at `path` is an archive that can be
/// extracted, and gives the archive and target directory of the challenge
/// `repository` under `workdir`.
pub fn extract_file(path: &str, workdir: &str, repository: &str) -> (r: Result<ExtractJob, ExtractError>)
    ensures
        match extension_of(path@) {
            Some(e) => if e == "zip"@ {
                r matches Ok(job) && job.format == ArchiveFormat::Zip
                    && job.archive@ == archive_path_spec(workdir@, repository@)
                    && job.target_dir@ == target_dir_spec(workdir@, repository@)
            } else {
                r matches Err(ExtractError::Unsupported(x)) && x@ == e
            },
            None => r == Err::<ExtractJob, ExtractError>(ExtractError::NoExtension),
        },
{
    let ext = path_extension(path);
    let format = match &ext {
        Some(e) => format_of_extension(Some(e.as_str())),
        None => format_of_extension(None),
    };
    match format {
        Ok(format) => Ok(ExtractJob {
            format,
            archive: archive_path(workdir, repository),
            target_dir: target_dir(workdir, repository),
        }),
        Err(e) => Err(e),
    }
}

/// Whether an archive entry is a directory: its name ends with `/`.
pub fn is_directory_entry(name: &str) -> (r: bool)
    ensures
        r == (name@.len() > 0 && name@.last() == '/'),
{
    let n = name.unicode_len();
    n > 0 && name.get_char(n - 1) == '/'
}

} // verus!
