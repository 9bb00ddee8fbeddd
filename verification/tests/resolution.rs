use dra::format::{classify, classify_name, counts_as_executable, looks_executable, FormatTag};
use dra::matcher::{find_asset_by_system, find_index_by_system, SystemDescriptor};
use dra::release::{Asset, Repository, Tag, TaggedAsset};
use dra::text::{join_path, signed_text};

fn assets(names: &[&str]) -> Vec<Asset> {
    names
        .iter()
        .map(|n| Asset { name: n.to_string(), download_url: String::new() })
        .collect()
}

#[test]
fn matcher_takes_alias_of_architecture() {
    let candidates = assets(&["tool-linux-amd64.tar.gz", "tool-darwin-amd64.tar.gz"]);
    let found = find_asset_by_system("linux", "x86_64", &candidates);
    assert_eq!("tool-linux-amd64.tar.gz", found.unwrap().name);
    assert_eq!(Some(0), find_index_by_system("linux", "x86_64", &candidates));
}

#[test]
fn matcher_takes_first_of_several() {
    let candidates = assets(&[
        "tool-windows-x64.zip",
        "tool-Linux-x86_64.tar.gz",
        "tool-linux-amd64.deb",
    ]);
    assert_eq!(Some(1), find_index_by_system("linux", "x86_64", &candidates));
}

#[test]
fn matcher_finds_nothing() {
    let candidates = assets(&["tool-linux-arm64.tar.gz", "tool.txt"]);
    assert!(find_asset_by_system("linux", "x86_64", &candidates).is_none());
    assert!(find_asset_by_system("linux", "x86_64", &Vec::new()).is_none());
}

#[test]
fn matcher_wants_whole_words() {
    let candidates = assets(&["toolinux-amd64x.zip", "darwinish_arm64"]);
    assert_eq!(None, find_index_by_system("linux", "amd64", &candidates));
    assert_eq!(None, find_index_by_system("macos", "aarch64", &candidates));
}

#[test]
fn matcher_knows_macos_aliases() {
    let candidates = assets(&["tool_x86_64_linux", "tool_aarch64-apple-darwin.tar.xz"]);
    assert_eq!(Some(1), find_index_by_system("macos", "aarch64", &candidates));
    assert_eq!(Some(0), find_index_by_system("linux", "amd64", &candidates));
}

#[test]
fn matcher_falls_back_to_given_names() {
    let candidates = assets(&["tool-freebsd-riscv64.tar.gz"]);
    assert_eq!(Some(0), find_index_by_system("FreeBSD", "riscv64", &candidates));
}

#[test]
fn descriptor_finds_asset() {
    let host = SystemDescriptor { os: "windows".to_string(), arch: "x86_64".to_string() };
    let candidates = assets(&["tool-linux-amd64", "tool-win64-x64.zip"]);
    assert_eq!("tool-win64-x64.zip", host.find_asset(&candidates).unwrap().name);
}

#[test]
fn tag_replaces_placeholder_with_version() {
    let tag = Tag("v1.2.0".to_string());
    assert_eq!("mytool-1.2.0-linux.tar.gz", TaggedAsset::tag(&tag, "mytool-{tag}-linux.tar.gz"));
    assert_eq!("1.2.0-1.2.0", TaggedAsset::tag(&tag, "{tag}-{tag}"));
    assert_eq!("plain.zip", TaggedAsset::tag(&tag, "plain.zip"));
    assert_eq!("{tag", TaggedAsset::tag(&tag, "{tag"));
    assert_eq!("", TaggedAsset::tag(&tag, ""));
}

#[test]
fn tag_without_prefix_is_its_own_version() {
    let tag = Tag("2024.1".to_string());
    assert_eq!("a-2024.1.deb", TaggedAsset::tag(&tag, "a-{tag}.deb"));
    assert_eq!(vec!['2', '0', '2', '4', '.', '1'], tag.version());
    assert_eq!(vec!['1'], Tag("v1".to_string()).version());
}

#[test]
fn tag_gives_the_same_name_each_time() {
    let tag = Tag("v0.3.1".to_string());
    let first = TaggedAsset::tag(&tag, "x-{tag}-y");
    let second = TaggedAsset::tag(&tag, "x-{tag}-y");
    assert_eq!(first, second);
    assert_eq!("x-0.3.1-y", first);
}

#[test]
fn classifier_knows_the_extension_table() {
    assert_eq!(FormatTag::Gzip, classify_name("tool.gz", false));
    assert_eq!(FormatTag::Xz, classify_name("tool.xz", false));
    assert_eq!(FormatTag::Bzip2, classify_name("tool.bz2", false));
    assert_eq!(FormatTag::Zip, classify_name("tool.zip", false));
    assert_eq!(FormatTag::DebianPackage, classify_name("tool.deb", false));
    assert_eq!(FormatTag::Unsupported, classify_name("tool.foobar", false));
    assert_eq!(FormatTag::Unsupported, classify_name("tool.foobar", true));
}

#[test]
fn classifier_reads_compound_extensions() {
    assert_eq!(FormatTag::Gzip, classify_name("tool.tar.gz", true));
    assert_eq!(FormatTag::Gzip, classify_name("tool.tgz", true));
    assert_eq!(FormatTag::Xz, classify_name("tool.tar.xz", true));
    assert_eq!(FormatTag::Bzip2, classify_name("tool.tar.bz2", true));
    assert_eq!(FormatTag::Zip, classify_name("TOOL.ZIP", true));
}

#[test]
fn classifier_takes_executables_without_extension() {
    assert_eq!(FormatTag::RawExecutable, classify_name("tool", true));
    assert_eq!(FormatTag::RawExecutable, classify_name("tool-1.2.0-linux", true));
    assert_eq!(FormatTag::Unsupported, classify_name("tool", false));
    assert_eq!(FormatTag::Unsupported, classify_name("", false));
    assert_eq!(FormatTag::RawExecutable, classify_name("", true));
}

#[test]
fn classify_keeps_the_path() {
    let file = classify("/tmp/dra-1234", "tool.deb", false);
    assert_eq!("/tmp/dra-1234", file.path);
    assert_eq!(FormatTag::DebianPackage, file.format);
}

#[test]
fn join_path_puts_one_separator() {
    assert_eq!("/a/b", join_path("/a", "b"));
    assert_eq!("/a/b", join_path("/a/", "b"));
    assert_eq!("b", join_path("", "b"));
    assert_eq!("/b", join_path("/a", "/b"));
    assert_eq!("/a/", join_path("/a", ""));
}

#[test]
fn signed_text_writes_decimals() {
    assert_eq!("0", signed_text(0));
    assert_eq!("7", signed_text(7));
    assert_eq!("127", signed_text(127));
    assert_eq!("-1", signed_text(-1));
    assert_eq!("2147483647", signed_text(i32::MAX));
    assert_eq!("-2147483648", signed_text(i32::MIN));
}

#[test]
fn repository_full_name() {
    let r = Repository { owner: "devmatteini".to_string(), repo: "dra".to_string() };
    assert_eq!("devmatteini/dra", r.full_name());
}

#[test]
fn executables_are_known_by_their_first_bytes() {
    assert!(looks_executable(b"#!/bin/sh\necho hi"));
    assert!(looks_executable(&[0x7f, b'E', b'L', b'F', 2, 1, 1]));
    assert!(looks_executable(&[0xcf, 0xfa, 0xed, 0xfe, 7]));
    assert!(looks_executable(b"MZ\x90"));
    assert!(!looks_executable(b""));
    assert!(!looks_executable(b"#"));
    assert!(!looks_executable(&[0x7f, b'E', b'L']));
    assert!(!looks_executable(b"plain text"));
}

#[test]
fn executable_by_bytes_or_by_the_hosts_mark() {
    assert!(counts_as_executable(b"#!/bin/sh", false));
    assert!(counts_as_executable(b"plain text", true));
    assert!(counts_as_executable(b"#!/bin/sh", true));
    assert!(!counts_as_executable(b"plain text", false));
    assert!(!counts_as_executable(b"", false));
}
