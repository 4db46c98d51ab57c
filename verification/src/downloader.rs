//! Platform detection from the host's names, and the download location of a MongoDB release.
use vstd::prelude::*;
use vstd::string::*;
use crate::text::{is_last_segment, last_segment, same_text, tail_after_slash};

verus! {

/// The operating systems a MongoDB release is published for.
#[derive(Debug, Clone, Copy, PartialEq, Eq, Structural)]
pub enum Os {
    Linux,
    MacOs,
    Windows,
}

/// The processor architectures a MongoDB release is published for.
#[derive(Debug, Clone, Copy, PartialEq, Eq, Structural)]
pub enum Arch {
    X86_64,
    Aarch64,
}

/// Why no release can be chosen for the host.
#[derive(Debug, Clone, Copy, PartialEq, Eq, Structural)]
pub enum PlatformError {
    /// The operating system name is none of `linux`, `macos`, `windows`.
    UnsupportedOs,
    /// The architecture name is none of `x86_64`, `aarch64`.
    UnsupportedArch,
    /// Both are known, but no release is published for the pair (Windows on aarch64).
    UnsupportedCombination,
}

/// Where a release archive is fetched from, and the file name it is stored under.
#[derive(Debug, Clone, PartialEq, Eq)]
pub struct MongoUrl {
    pub url: String,
    pub filename: String,
}

/// The operating system that a host name (as Rust spells `std::env::consts::OS`) denotes.
pub open spec fn os_named(name: Seq<char>) -> Option<Os> {
    if name == "linux"@ {
        Some(Os::Linux)
    } else if name == "macos"@ {
        Some(Os::MacOs)
    } else if name == "windows"@ {
        Some(Os::Windows)
    } else {
        None
    }
}

/// The architecture that a host name (as Rust spells `std::env::consts::ARCH`) denotes.
pub open spec fn arch_named(name: Seq<char>) -> Option<Arch> {
    if name == "x86_64"@ {
        Some(Arch::X86_64)
    } else if name == "aarch64"@ {
        Some(Arch::Aarch64)
    } else {
        None
    }
}

/// The text before and after the version in the release URL for a platform, if one is published.
pub open spec fn url_affixes(os: Os, arch: Arch) -> Option<(Seq<char>, Seq<char>)> {
    match (os, arch) {
        (Os::Linux, Arch::X86_64) => Some(
            ("https://fastdl.mongodb.org/linux/mongodb-linux-x86_64-ubuntu2204-"@, ".tgz"@),
        ),
        (Os::Linux, Arch::Aarch64) => Some(
            ("https://fastdl.mongodb.org/linux/mongodb-linux-aarch64-ubuntu2204-"@, ".tgz"@),
        ),
        (Os::MacOs, Arch::X86_64) => Some(
            ("https://fastdl.mongodb.org/osx/mongodb-macos-x86_64-"@, ".tgz"@),
        ),
        (Os::MacOs, Arch::Aarch64) => Some(
            ("https://fastdl.mongodb.org/osx/mongodb-macos-aarch64-"@, ".tgz"@),
        ),
        (Os::Windows, Arch::X86_64) => Some(
            ("https://fastdl.mongodb.org/windows/mongodb-windows-x86_64-"@, ".zip"@),
        ),
        (Os::Windows, Arch::Aarch64) => None,
    }
}

/// The release URL of `version` for the host named by `os_name` and `arch_name`, or why there is none.
/// The operating system is judged first, then the architecture, then the pair.
pub open spec fn release_url(version: Seq<char>, os_name: Seq<char>, arch_name: Seq<char>) -> Result<
    Seq<char>,
    PlatformError,
> {
    match os_named(os_name) {
        None => Err(PlatformError::UnsupportedOs),
        Some(os) => match arch_named(arch_name) {
            None => Err(PlatformError::UnsupportedArch),
            Some(arch) => match url_affixes(os, arch) {
                None => Err(PlatformError::UnsupportedCombination),
                Some(affixes) => Ok(affixes.0 + version + affixes.1),
            },
        },
    }
}

/// The operating system that `name` denotes (`linux`, `macos` or `windows`).
pub fn get_os(name: &str) -> (r: Result<Os, PlatformError>)
    ensures
        match r {
            Ok(os) => os_named(name@) == Some(os),
            Err(e) => os_named(name@) is None && e == PlatformError::UnsupportedOs,
        },
{
    if same_text(name, "linux") {
        Ok(Os::Linux)
    } else if same_text(name, "macos") {
        Ok(Os::MacOs)
    } else if same_text(name, "windows") {
        Ok(Os::Windows)
    } else {
        Err(PlatformError::UnsupportedOs)
    }
}

/// The architecture that `name` denotes (`x86_64` or `aarch64`).
pub fn get_arch(name: &str) -> (r: Result<Arch, PlatformError>)
    ensures
        match r {
            Ok(arch) => arch_named(name@) == Some(arch),
            Err(e) => arch_named(name@) is None && e == PlatformError::UnsupportedArch,
        },
{
    if same_text(name, "x86_64") {
        Ok(Arch::X86_64)
    } else if same_text(name, "aarch64") {
        Ok(Arch::Aarch64)
    } else {
        Err(PlatformError::UnsupportedArch)
    }
}

/// Builds `prefix + version + suffix`.
fn joined3(prefix: &str, version: &str, suffix: &str) -> (r: String)
    ensures
        r@ == prefix@ + version@ + suffix@,
{
    let mut s = String::from_str(prefix);
    s.append(version);
    s.append(suffix);
    s
}

/// The download location of release `version` for the host whose operating system and
/// architecture are named `os_name` and `arch_name`; the file name is the URL's last segment.
pub fn get_download_url(version: &str, os_name: &str, arch_name: &str) -> (r: Result<
    MongoUrl,
    PlatformError,
>)
    ensures
        match r {
            Ok(u) => release_url(version@, os_name@, arch_name@) == Ok::<Seq<char>, PlatformError>(
                u.url@,
            ) && is_last_segment(u.url@, u.filename@) && u.filename@ == tail_after_slash(u.url@),
            Err(e) => release_url(version@, os_name@, arch_name@) == Err::<Seq<char>, PlatformError>(
                e,
            ),
        },
{
    let os = get_os(os_name)?;
    let arch = get_arch(arch_name)?;
    let url = match (os, arch) {
        (Os::Linux, Arch::X86_64) => joined3(
            "https://fastdl.mongodb.org/linux/mongodb-linux-x86_64-ubuntu2204-",
            version,
            ".tgz",
        ),
        (Os::Linux, Arch::Aarch64) => joined3(
            "https://fastdl.mongodb.org/linux/mongodb-linux-aarch64-ubuntu2204-",
            version,
            ".tgz",
        ),
        (Os::MacOs, Arch::X86_64) => joined3(
            "https://fastdl.mongodb.org/osx/mongodb-macos-x86_64-",
            version,
            ".tgz",
        ),
        (Os::MacOs, Arch::Aarch64) => joined3(
            "https://fastdl.mongodb.org/osx/mongodb-macos-aarch64-",
            version,
            ".tgz",
        ),
        (Os::Windows, Arch::X86_64) => joined3(
            "https://fastdl.mongodb.org/windows/mongodb-windows-x86_64-",
            version,
            ".zip",
        ),
        (Os::Windows, Arch::Aarch64) => {
            return Err(PlatformError::UnsupportedCombination);
        },
    };
    let filename = last_segment(url.as_str());
    Ok(MongoUrl { url, filename })
}

/// A name with no `/` after a directory path ending in `/` is that path's last segment.
proof fn lemma_name_after_dir(dir: Seq<char>, name: Seq<char>)
    requires
        dir.len() > 0,
        dir.last() == '/',
        !name.contains('/'),
    ensures
        tail_after_slash(dir + name) == name,
{
    let s = dir + name;
    assert(s.subrange(s.len() - name.len(), s.len() as int) =~= name);
    assert(s[s.len() - name.len() - 1] == dir.last());
    crate::text::lemma_tail_is_last_segment(s);
    crate::text::lemma_last_segment_unique(s, tail_after_slash(s), name);
}

/// Joining three texts without `/` gives a text without `/`.
proof fn lemma_no_slash_joined(a: Seq<char>, b: Seq<char>, c: Seq<char>)
    requires
        !a.contains('/'),
        !b.contains('/'),
        !c.contains('/'),
    ensures
        !(a + b + c).contains('/'),
{
    let s = a + b + c;
    if s.contains('/') {
        let j = choose|j: int| 0 <= j < s.len() && s[j] == '/';
        if j < a.len() {
            assert(a[j] == '/');
        } else if j < a.len() + b.len() {
            assert(b[j - a.len()] == '/');
        } else {
            assert(c[j - a.len() - b.len()] == '/');
        }
    }
}

/// Each published platform's release URL is its fixed prefix, then the version as given,
/// then `.tgz` (`.zip` on Windows); Windows on aarch64 has none. The host names are those of
/// `std::env::consts`.
pub proof fn law_release_urls(version: Seq<char>)
    ensures
        release_url(version, "linux"@, "x86_64"@) == Ok::<Seq<char>, PlatformError>(
            "https://fastdl.mongodb.org/linux/mongodb-linux-x86_64-ubuntu2204-"@ + version + ".tgz"@,
        ),
        release_url(version, "linux"@, "aarch64"@) == Ok::<Seq<char>, PlatformError>(
            "https://fastdl.mongodb.org/linux/mongodb-linux-aarch64-ubuntu2204-"@ + version
                + ".tgz"@,
        ),
        release_url(version, "macos"@, "x86_64"@) == Ok::<Seq<char>, PlatformError>(
            "https://fastdl.mongodb.org/osx/mongodb-macos-x86_64-"@ + version + ".tgz"@,
        ),
        release_url(version, "macos"@, "aarch64"@) == Ok::<Seq<char>, PlatformError>(
            "https://fastdl.mongodb.org/osx/mongodb-macos-aarch64-"@ + version + ".tgz"@,
        ),
        release_url(version, "windows"@, "x86_64"@) == Ok::<Seq<char>, PlatformError>(
            "https://fastdl.mongodb.org/windows/mongodb-windows-x86_64-"@ + version + ".zip"@,
        ),
        release_url(version, "windows"@, "aarch64"@) == Err::<Seq<char>, PlatformError>(
            PlatformError::UnsupportedCombination,
        ),
{
    reveal_strlit("linux");
    reveal_strlit("macos");
    reveal_strlit("windows");
    reveal_strlit("x86_64");
    reveal_strlit("aarch64");
    assert("linux"@.len() == 5);
    assert("macos"@.len() == 5);
    assert("windows"@.len() == 7);
    assert("x86_64"@.len() == 6);
    assert("aarch64"@.len() == 7);
    assert("linux"@[0] != "macos"@[0]);
    assert(os_named("linux"@) == Some(Os::Linux));
    assert(os_named("macos"@) == Some(Os::MacOs));
    assert(os_named("windows"@) == Some(Os::Windows));
    assert(arch_named("x86_64"@) == Some(Arch::X86_64));
    assert(arch_named("aarch64"@) == Some(Arch::Aarch64));
}

/// For a version without `/`, the archive is stored under the release URL's file name: the
/// part after the platform's directory, version included.
pub proof fn law_release_file_names(version: Seq<char>)
    requires
        !version.contains('/'),
    ensures
        tail_after_slash(
            "https://fastdl.mongodb.org/linux/mongodb-linux-x86_64-ubuntu2204-"@ + version + ".tgz"@,
        ) == "mongodb-linux-x86_64-ubuntu2204-"@ + version + ".tgz"@,
        tail_after_slash(
            "https://fastdl.mongodb.org/linux/mongodb-linux-aarch64-ubuntu2204-"@ + version
                + ".tgz"@,
        ) == "mongodb-linux-aarch64-ubuntu2204-"@ + version + ".tgz"@,
        tail_after_slash("https://fastdl.mongodb.org/osx/mongodb-macos-x86_64-"@ + version + ".tgz"@)
            == "mongodb-macos-x86_64-"@ + version + ".tgz"@,
        tail_after_slash("https://fastdl.mongodb.org/osx/mongodb-macos-aarch64-"@ + version + ".tgz"@)
            == "mongodb-macos-aarch64-"@ + version + ".tgz"@,
        tail_after_slash(
            "https://fastdl.mongodb.org/windows/mongodb-windows-x86_64-"@ + version + ".zip"@,
        ) == "mongodb-windows-x86_64-"@ + version + ".zip"@,
{
    reveal_strlit("https://fastdl.mongodb.org/linux/mongodb-linux-x86_64-ubuntu2204-");
    reveal_strlit("https://fastdl.mongodb.org/linux/mongodb-linux-aarch64-ubuntu2204-");
    reveal_strlit("https://fastdl.mongodb.org/osx/mongodb-macos-x86_64-");
    reveal_strlit("https://fastdl.mongodb.org/osx/mongodb-macos-aarch64-");
    reveal_strlit("https://fastdl.mongodb.org/windows/mongodb-windows-x86_64-");
    reveal_strlit("https://fastdl.mongodb.org/linux/");
    reveal_strlit("https://fastdl.mongodb.org/osx/");
    reveal_strlit("https://fastdl.mongodb.org/windows/");
    reveal_strlit("mongodb-linux-x86_64-ubuntu2204-");
    reveal_strlit("mongodb-linux-aarch64-ubuntu2204-");
    reveal_strlit("mongodb-macos-x86_64-");
    reveal_strlit("mongodb-macos-aarch64-");
    reveal_strlit("mongodb-windows-x86_64-");
    reveal_strlit(".tgz");
    reveal_strlit(".zip");
    let tgz = ".tgz"@;
    let zip = ".zip"@;
    assert(!tgz.contains('/'));
    assert(!zip.contains('/'));

    let d = "https://fastdl.mongodb.org/linux/"@;
    let n = "mongodb-linux-x86_64-ubuntu2204-"@;
    assert(!n.contains('/'));
    assert("https://fastdl.mongodb.org/linux/mongodb-linux-x86_64-ubuntu2204-"@ =~= d + n);
    lemma_no_slash_joined(n, version, tgz);
    assert(d + n + version + tgz =~= d + (n + version + tgz));
    lemma_name_after_dir(d, n + version + tgz);

    let n = "mongodb-linux-aarch64-ubuntu2204-"@;
    assert(!n.contains('/'));
    assert("https://fastdl.mongodb.org/linux/mongodb-linux-aarch64-ubuntu2204-"@ =~= d + n);
    lemma_no_slash_joined(n, version, tgz);
    assert(d + n + version + tgz =~= d + (n + version + tgz));
    lemma_name_after_dir(d, n + version + tgz);

    let d = "https://fastdl.mongodb.org/osx/"@;
    let n = "mongodb-macos-x86_64-"@;
    assert(!n.contains('/'));
    assert("https://fastdl.mongodb.org/osx/mongodb-macos-x86_64-"@ =~= d + n);
    lemma_no_slash_joined(n, version, tgz);
    assert(d + n + version + tgz =~= d + (n + version + tgz));
    lemma_name_after_dir(d, n + version + tgz);

    let n = "mongodb-macos-aarch64-"@;
    assert(!n.contains('/'));
    assert("https://fastdl.mongodb.org/osx/mongodb-macos-aarch64-"@ =~= d + n);
    lemma_no_slash_joined(n, version, tgz);
    assert(d + n + version + tgz =~= d + (n + version + tgz));
    lemma_name_after_dir(d, n + version + tgz);

    let d = "https://fastdl.mongodb.org/windows/"@;
    let n = "mongodb-windows-x86_64-"@;
    assert(!n.contains('/'));
    assert("https://fastdl.mongodb.org/windows/mongodb-windows-x86_64-"@ =~= d + n);
    lemma_no_slash_joined(n, version, zip);
    assert(d + n + version + zip =~= d + (n + version + zip));
    lemma_name_after_dir(d, n + version + zip);
}

/// Exactly the names `linux`, `macos` and `windows` denote an operating system, and
/// exactly `x86_64` and `aarch64` an architecture; any other name is refused.
pub proof fn law_host_names(name: Seq<char>)
    ensures
        (os_named(name) == Some(Os::Linux)) <==> name == "linux"@,
        (os_named(name) == Some(Os::MacOs)) <==> name == "macos"@,
        (os_named(name) == Some(Os::Windows)) <==> name == "windows"@,
        os_named(name) is None <==> (name != "linux"@ && name != "macos"@ && name != "windows"@),
        (arch_named(name) == Some(Arch::X86_64)) <==> name == "x86_64"@,
        (arch_named(name) == Some(Arch::Aarch64)) <==> name == "aarch64"@,
        arch_named(name) is None <==> (name != "x86_64"@ && name != "aarch64"@),
{
    reveal_strlit("linux");
    reveal_strlit("macos");
    reveal_strlit("windows");
    reveal_strlit("x86_64");
    reveal_strlit("aarch64");
    assert("linux"@.len() == 5 && "macos"@.len() == 5 && "windows"@.len() == 7);
    assert("linux"@[0] != "macos"@[0]);
    assert("x86_64"@.len() == 6 && "aarch64"@.len() == 7);
}

} // verus!
