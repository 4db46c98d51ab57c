//! Which unpacker an archive needs, judged from its file extension.
use vstd::prelude::*;
use crate::text::same_text;

verus! {

/// The archive formats a release is published in.
#[derive(Debug, Clone, Copy, PartialEq, Eq, Structural)]
pub enum ArchiveKind {
    /// A gzip-compressed tar archive (`.tgz` or `.gz`).
    TarGz,
    /// A zip archive (`.zip`).
    Zip,
}

/// Why an archive cannot be unpacked.
#[derive(Debug, Clone, Copy, PartialEq, Eq, Structural)]
pub enum ExtractError {
    /// The archive path has no extension, or one that is not valid UTF-8.
    UnknownExtension,
    /// The extension is none of `tgz`, `gz`, `zip`.
    UnsupportedFormat,
}

/// The format that an archive extension denotes.
pub open spec fn kind_of_extension(ext: Seq<char>) -> Option<ArchiveKind> {
    if ext == "tgz"@ || ext == "gz"@ {
        Some(ArchiveKind::TarGz)
    } else if ext == "zip"@ {
        Some(ArchiveKind::Zip)
    } else {
        None
    }
}

/// The unpacker for an archive whose extension is `extension` (`None` when the path has
/// none, or none that is valid UTF-8).
pub fn archive_kind(extension: Option<&str>) -> (r: Result<ArchiveKind, ExtractError>)
    ensures
        match extension {
            None => r == Err::<ArchiveKind, ExtractError>(ExtractError::UnknownExtension),
            Some(ext) => match kind_of_extension(ext@) {
                Some(kind) => r == Ok::<ArchiveKind, ExtractError>(kind),
                None => r == Err::<ArchiveKind, ExtractError>(ExtractError::UnsupportedFormat),
            },
        },
{
    match extension {
        None => Err(ExtractError::UnknownExtension),
        Some(ext) => {
            if same_text(ext, "tgz") || same_text(ext, "gz") {
                Ok(ArchiveKind::TarGz)
            } else if same_text(ext, "zip") {
                Ok(ArchiveKind::Zip)
            } else {
                Err(ExtractError::UnsupportedFormat)
            }
        },
    }
}

/// `tgz` and `gz` mean a gzip-compressed tar archive, `zip` a zip archive, and no other
/// extension is unpacked.
pub proof fn law_archive_extensions(ext: Seq<char>)
    ensures
        (kind_of_extension(ext) == Some(ArchiveKind::TarGz)) <==> (ext == "tgz"@ || ext == "gz"@),
        (kind_of_extension(ext) == Some(ArchiveKind::Zip)) <==> ext == "zip"@,
        kind_of_extension(ext) is None <==> (ext != "tgz"@ && ext != "gz"@ && ext != "zip"@),
{
    reveal_strlit("tgz");
    reveal_strlit("gz");
    reveal_strlit("zip");
    assert("tgz"@.len() == 3 && "gz"@.len() == 2 && "zip"@.len() == 3);
    assert("tgz"@[0] != "zip"@[0]);
}

} // verus!
