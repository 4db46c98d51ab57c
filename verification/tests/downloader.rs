use mongo_embedded::downloader::{get_arch, get_download_url, get_os};
use mongo_embedded::extractor::{archive_kind, ArchiveKind, ExtractError};
use mongo_embedded::process::{binary_name, server_arguments};
use mongo_embedded::{Arch, Os, PlatformError};

#[test]
fn os_names_are_recognised() {
    assert_eq!(get_os("linux"), Ok(Os::Linux));
    assert_eq!(get_os("macos"), Ok(Os::MacOs));
    assert_eq!(get_os("windows"), Ok(Os::Windows));
    assert_eq!(get_os("freebsd"), Err(PlatformError::UnsupportedOs));
    assert_eq!(get_os("Linux"), Err(PlatformError::UnsupportedOs));
    assert_eq!(get_os(""), Err(PlatformError::UnsupportedOs));
}

#[test]
fn arch_names_are_recognised() {
    assert_eq!(get_arch("x86_64"), Ok(Arch::X86_64));
    assert_eq!(get_arch("aarch64"), Ok(Arch::Aarch64));
    assert_eq!(get_arch("x86"), Err(PlatformError::UnsupportedArch));
    assert_eq!(get_arch("arm"), Err(PlatformError::UnsupportedArch));
}

#[test]
fn linux_x86_64_url() {
    let u = get_download_url("7.0.2", "linux", "x86_64").unwrap();
    assert_eq!(
        u.url,
        "https://fastdl.mongodb.org/linux/mongodb-linux-x86_64-ubuntu2204-7.0.2.tgz"
    );
    assert_eq!(u.filename, "mongodb-linux-x86_64-ubuntu2204-7.0.2.tgz");
}

#[test]
fn linux_aarch64_url() {
    let u = get_download_url("6.0.4", "linux", "aarch64").unwrap();
    assert_eq!(
        u.url,
        "https://fastdl.mongodb.org/linux/mongodb-linux-aarch64-ubuntu2204-6.0.4.tgz"
    );
    assert_eq!(u.filename, "mongodb-linux-aarch64-ubuntu2204-6.0.4.tgz");
}

#[test]
fn macos_urls() {
    let u = get_download_url("7.0.2", "macos", "x86_64").unwrap();
    assert_eq!(u.url, "https://fastdl.mongodb.org/osx/mongodb-macos-x86_64-7.0.2.tgz");
    assert_eq!(u.filename, "mongodb-macos-x86_64-7.0.2.tgz");
    let u = get_download_url("7.0.2", "macos", "aarch64").unwrap();
    assert_eq!(u.url, "https://fastdl.mongodb.org/osx/mongodb-macos-aarch64-7.0.2.tgz");
    assert_eq!(u.filename, "mongodb-macos-aarch64-7.0.2.tgz");
}

#[test]
fn windows_url_is_a_zip() {
    let u = get_download_url("7.0.2", "windows", "x86_64").unwrap();
    assert_eq!(u.url, "https://fastdl.mongodb.org/windows/mongodb-windows-x86_64-7.0.2.zip");
    assert_eq!(u.filename, "mongodb-windows-x86_64-7.0.2.zip");
}

#[test]
fn windows_on_arm_is_unsupported() {
    assert_eq!(
        get_download_url("7.0.2", "windows", "aarch64").err(),
        Some(PlatformError::UnsupportedCombination)
    );
}

#[test]
fn os_is_judged_before_arch() {
    assert_eq!(
        get_download_url("7.0.2", "plan9", "mips").err(),
        Some(PlatformError::UnsupportedOs)
    );
    assert_eq!(
        get_download_url("7.0.2", "linux", "mips").err(),
        Some(PlatformError::UnsupportedArch)
    );
}

#[test]
fn filename_is_the_last_url_segment() {
    let u = get_download_url("a/b", "linux", "x86_64").unwrap();
    assert_eq!(u.filename, "b.tgz");
    let u = get_download_url("", "macos", "aarch64").unwrap();
    assert_eq!(u.filename, "mongodb-macos-aarch64-.tgz");
    assert!(u.url.ends_with(&u.filename));
}

#[test]
fn archive_kinds_follow_the_extension() {
    assert_eq!(archive_kind(Some("tgz")), Ok(ArchiveKind::TarGz));
    assert_eq!(archive_kind(Some("gz")), Ok(ArchiveKind::TarGz));
    assert_eq!(archive_kind(Some("zip")), Ok(ArchiveKind::Zip));
    assert_eq!(archive_kind(Some("tar")), Err(ExtractError::UnsupportedFormat));
    assert_eq!(archive_kind(Some("ZIP")), Err(ExtractError::UnsupportedFormat));
    assert_eq!(archive_kind(None), Err(ExtractError::UnknownExtension));
}

#[test]
fn server_binary_depends_on_os() {
    assert_eq!(binary_name(Os::Windows), "mongod.exe");
    assert_eq!(binary_name(Os::Linux), "mongod");
    assert_eq!(binary_name(Os::MacOs), "mongod");
}

#[test]
fn server_arguments_carry_port_path_and_address() {
    assert_eq!(
        server_arguments(12345, "/tmp/db", "127.0.0.1", false),
        vec!["--port", "12345", "--dbpath", "/tmp/db", "--bind_ip", "127.0.0.1"]
    );
    assert_eq!(
        server_arguments(0, "db", "/tmp/m.sock", true),
        vec!["--port", "0", "--dbpath", "db", "--bind_ip", "/tmp/m.sock", "--auth"]
    );
    assert_eq!(server_arguments(65535, "d", "h", false)[1], "65535");
}
