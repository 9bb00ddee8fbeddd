use std::path::{Path, PathBuf};

use dra::download::{
    choose_output_path_from, DownloadHandler, DownloadMode, DownloadStep, HandlerError, Install,
};
use dra::installer::InstallAction;
use dra::release::{Asset, Release, Repository, Tag};

const INSTALL: bool = true;
const NO_INSTALL: bool = false;
const ANY_ASSET_NAME: &str = "ANY_ASSET_NAME";
const TEMP_FILE: &str = "/tmp/dra-0a1b2c3d";

fn is_dir(_: &Path) -> bool {
    true
}

fn not_dir(_: &Path) -> bool {
    false
}

fn asset(name: &str) -> Asset {
    Asset { name: name.to_string(), download_url: format!("https://example.com/{}", name) }
}

fn release(tag: &str, names: &[&str]) -> Release {
    Release { tag: Tag(tag.to_string()), assets: names.iter().map(|n| asset(n)).collect() }
}

fn repository() -> Repository {
    Repository { owner: "devmatteini".to_string(), repo: "dra".to_string() }
}

fn handler(
    select: Option<&str>,
    automatic: bool,
    output: Option<&str>,
    install: Option<Option<String>>,
) -> DownloadHandler {
    DownloadHandler::new(
        repository(),
        select.map(|x| x.to_string()),
        automatic,
        None,
        output.map(|x| x.to_string()),
        install,
    )
}

fn message<T>(result: Result<T, HandlerError>) -> String {
    match result {
        Ok(_) => panic!("an error was expected"),
        Err(e) => e.to_string(),
    }
}

#[test]
fn choose_output_install_any_custom_output() {
    let output = "/some/path".to_string();
    let result = choose_output_path_from(
        Some(&output),
        INSTALL,
        ANY_ASSET_NAME,
        not_dir(Path::new(&output)),
        TEMP_FILE,
    );

    assert!(result.contains("dra-"));
    assert_eq!(TEMP_FILE, result);
}

#[test]
fn choose_output_install_no_output() {
    let result = choose_output_path_from(None, INSTALL, ANY_ASSET_NAME, false, TEMP_FILE);

    assert!(result.contains("dra-"));
}

#[test]
fn choose_output_nothing_chosen() {
    let result = choose_output_path_from(None, NO_INSTALL, "my_asset.deb", false, TEMP_FILE);

    assert_eq!(PathBuf::from("my_asset.deb"), PathBuf::from(result))
}

#[test]
fn choose_output_custom_file_path() {
    let output = PathBuf::from("/some/path.zip");
    let given = "/some/path.zip".to_string();

    let result = choose_output_path_from(
        Some(&given),
        NO_INSTALL,
        ANY_ASSET_NAME,
        not_dir(&output),
        TEMP_FILE,
    );

    assert_eq!(output, PathBuf::from(result))
}

#[test]
fn choose_output_custom_directory_path() {
    let output = PathBuf::from("/my/custom-dir/");
    let given = "/my/custom-dir/".to_string();
    let asset_name = "my_asset.tar.gz";

    let result =
        choose_output_path_from(Some(&given), NO_INSTALL, asset_name, is_dir(&output), TEMP_FILE);

    let expected = output.join(asset_name);
    assert_eq!(expected, PathBuf::from(&result));
    assert_eq!("/my/custom-dir/my_asset.tar.gz", result);
}

#[test]
fn choose_output_directory_without_trailing_separator() {
    let given = "/my/custom-dir".to_string();
    let result = choose_output_path_from(Some(&given), NO_INSTALL, "a.zip", true, TEMP_FILE);
    assert_eq!("/my/custom-dir/a.zip", result);
}

#[test]
fn handler_choose_output_path_uses_its_fields() {
    let h = handler(None, false, Some("/out"), None);
    assert_eq!("/out/a.zip", h.choose_output_path("a.zip", true, TEMP_FILE));
    assert_eq!("/out", h.choose_output_path("a.zip", false, TEMP_FILE));
    let h = handler(None, false, Some("/out"), Some(None));
    assert_eq!(TEMP_FILE, h.choose_output_path("a.zip", true, TEMP_FILE));
}

#[test]
fn download_mode_prefers_selection() {
    assert!(matches!(DownloadMode::new(Some("x".to_string()), true), DownloadMode::Selection(x) if x == "x"));
    assert!(matches!(DownloadMode::new(None, true), DownloadMode::Automatic));
    assert!(matches!(DownloadMode::new(None, false), DownloadMode::Interactive));
}

#[test]
fn install_defaults_to_repository_name() {
    let repo = repository();
    assert!(matches!(Install::new(Some(None), &repo), Install::Yes(x) if x == "dra"));
    assert!(matches!(Install::new(Some(Some("tool".to_string())), &repo), Install::Yes(x) if x == "tool"));
    assert!(matches!(Install::new(None, &repo), Install::No));
    assert!(Install::new(Some(None), &repo).as_bool());
    assert!(!Install::new(None, &repo).as_bool());
}

#[test]
fn new_keeps_what_it_is_given() {
    let h = DownloadHandler::new(
        repository(),
        None,
        true,
        Some("v1.0.0".to_string()),
        Some("/out".to_string()),
        Some(None),
    );
    assert_eq!("dra", h.repository.repo);
    assert!(matches!(h.mode, DownloadMode::Automatic));
    assert_eq!("v1.0.0", h.tag.unwrap().0);
    assert_eq!(Some("/out".to_string()), h.output);
    assert!(h.install);
}

#[test]
fn dir_or_error_accepts_a_directory() {
    let result = DownloadHandler::dir_or_error("/usr/local/bin", true);
    assert_eq!("/usr/local/bin", result.ok().unwrap());
}

#[test]
fn destination_that_is_no_directory_is_refused() {
    let text = message(DownloadHandler::dir_or_error("/no/such/place", false));
    assert_eq!("/no/such/place is not a directory", text);
    assert!(text.contains("/no/such/place"));
    assert!(text.contains("directory"));

    let h = handler(None, true, Some("/no/such/place"), Some(None));
    let text = message(h.maybe_install("tool", "/tmp/dra-1", b"x", true, false, Ok("/".to_string())));
    assert_eq!("/no/such/place is not a directory", text);
}

#[test]
fn output_dir_or_cwd_falls_back_to_current_directory() {
    let h = handler(None, true, None, Some(None));
    assert_eq!("/work", h.output_dir_or_cwd(false, Ok("/work".to_string())).ok().unwrap());
    assert_eq!(
        "Error retrieving current directory: gone",
        message(h.output_dir_or_cwd(false, Err("gone".to_string())))
    );
}

#[test]
fn maybe_install_does_nothing_without_install() {
    let h = handler(None, true, Some("/out"), None);
    let result = h.maybe_install("tool", "/tmp/x", b"x", true, true, Ok("/".to_string()));
    assert!(matches!(result, Ok(None)));
}

#[test]
fn maybe_install_writes_raw_executable() {
    let h = handler(None, true, Some("/out"), Some(Some("mytool".to_string())));
    let result = h.maybe_install("tool-linux", "/tmp/x", b"#!/bin/sh\necho hi", true, true, Ok("/".to_string()));
    match result {
        Ok(Some(InstallAction::Write(file))) => {
            assert_eq!("/out/mytool", file.path);
            assert_eq!(b"#!/bin/sh\necho hi".to_vec(), file.contents);
            assert_eq!(0o755, file.mode);
        }
        _ => panic!("a file to write was expected"),
    }
}

#[test]
fn maybe_install_refuses_unsupported_format() {
    let h = handler(None, true, Some("/out"), Some(None));
    let text = message(h.maybe_install("tool.foobar", "/tmp/x", b"x", true, true, Ok("/".to_string())));
    assert_eq!("tool.foobar is not supported", text);
}

#[test]
fn autoselect_finds_the_tagged_name() {
    let r = release("v1.2.0", &["mytool-1.2.0-linux.tar.gz", "mytool-1.2.0-macos.tar.gz"]);
    let found = DownloadHandler::autoselect_asset(&r, "mytool-{tag}-macos.tar.gz");
    assert_eq!("mytool-1.2.0-macos.tar.gz", found.ok().unwrap().name);
}

#[test]
fn autoselect_reports_no_match() {
    let r = release("v1.2.0", &["mytool-1.2.0-linux.tar.gz"]);
    let text = message(DownloadHandler::autoselect_asset(&r, "other-{tag}.zip"));
    assert_eq!("No asset found for other-{tag}.zip", text);
}

#[test]
fn autoselect_reports_several_matches() {
    let r = release("v1.2.0", &["a-1.2.0.zip", "b.zip", "a-1.2.0.zip"]);
    let text = message(DownloadHandler::autoselect_asset(&r, "a-{tag}.zip"));
    assert_eq!("No asset found for a-{tag}.zip", text);
}

#[test]
fn ask_select_asset_takes_the_pick() {
    let r = release("v1", &["a", "b"]);
    assert_eq!("b", DownloadHandler::ask_select_asset(&r.assets, Some(1)).ok().unwrap().name);
    assert_eq!("No asset selected", message(DownloadHandler::ask_select_asset(&r.assets, None)));
    assert_eq!("No asset selected", message(DownloadHandler::ask_select_asset(&r.assets, Some(2))));
}

#[test]
fn autoselect_or_ask_follows_the_selection() {
    let r = release("v2.0.0", &["x-2.0.0.deb", "y.deb"]);
    let named = "x-{tag}.deb".to_string();
    let found = DownloadHandler::autoselect_or_ask_asset(Some(&named), &r, Some(1));
    assert_eq!("x-2.0.0.deb", found.ok().unwrap().name);
    let found = DownloadHandler::autoselect_or_ask_asset(None, &r, Some(1));
    assert_eq!("y.deb", found.ok().unwrap().name);
}

#[test]
fn run_plans_automatic_download() {
    let h = handler(None, true, Some("/out"), None);
    let r = release("v1.0.0", &["tool-darwin-amd64.tar.gz", "tool-linux-amd64.tar.gz"]);
    let plan = h.run(&r, "linux", "x86_64", None, true, TEMP_FILE, "0.1.0").ok().unwrap();
    assert_eq!("tool-linux-amd64.tar.gz", plan.asset.name);
    assert_eq!("https://example.com/tool-linux-amd64.tar.gz", plan.asset.download_url);
    assert_eq!("/out/tool-linux-amd64.tar.gz", plan.output_path);
}

#[test]
fn run_reports_missing_asset_with_host_details() {
    let h = handler(None, true, None, None);
    let r = release("v1.0.0", &["tool-darwin-amd64.tar.gz"]);
    let text = message(h.run(&r, "linux", "x86_64", None, false, TEMP_FILE, "0.1.0"));
    let expected = "Cannot find asset that matches your system linux x86_64\n\
If you think this is a bug, please report the issue: \
https://github.com/devmatteini/dra/issues/new?\
title=Error%3A%20automatic%20download%20of%20asset&\
body=%23%23%20dra%20version%0A0.1.0%0A%23%23%20Bug%20report%0A\
Repository%3A%20devmatteini%2Fdra%0ARelease%3A%20v1.0.0%0AOS%3A%20linux%0AARCH%3A%20x86_64";
    assert_eq!(expected, text);
}

#[test]
fn select_asset_interactive_and_selection() {
    let r = release("v3", &["a-3.zip", "b-3.zip"]);
    let h = handler(None, false, None, None);
    assert_eq!("b-3.zip", h.select_asset(&r, "linux", "x86_64", Some(1), "0").ok().unwrap().name);
    let h = handler(Some("a-{tag}.zip"), true, None, None);
    assert_eq!("a-3.zip", h.select_asset(&r, "linux", "x86_64", None, "0").ok().unwrap().name);
}

#[test]
fn error_messages_carry_their_context() {
    assert_eq!(
        "Error saving a.zip to /out/a.zip: disk full",
        DownloadHandler::write_err("a.zip", "/out/a.zip", "disk full").to_string()
    );
    assert_eq!(
        "Failed to create the file /out/a.zip: denied",
        DownloadHandler::create_file_error("/out/a.zip", "denied").to_string()
    );
    assert_eq!(
        "Error fetching the release: 404",
        DownloadHandler::release_error("404").to_string()
    );
    assert_eq!(
        "Error downloading asset: timeout",
        DownloadHandler::download_error("timeout").to_string()
    );
}

#[test]
fn run_refuses_destination_before_anything_else() {
    let h = handler(None, true, Some("/no/such/place"), Some(None));
    let r = release("v1.0.0", &["tool-linux-amd64.tar.gz"]);
    let text = message(h.run(&r, "linux", "x86_64", None, false, TEMP_FILE, "0.1.0"));
    assert_eq!("/no/such/place is not a directory", text);
    assert!(text.contains("/no/such/place"));
    assert!(text.contains("directory"));

    let plan = h.run(&r, "linux", "x86_64", None, true, TEMP_FILE, "0.1.0").ok().unwrap();
    assert_eq!(TEMP_FILE, plan.output_path);
}

#[test]
fn download_steps_follow_the_reads() {
    assert!(matches!(DownloadHandler::download_asset(10, Ok(0)), DownloadStep::Done));
    assert!(matches!(
        DownloadHandler::download_asset(10, Ok(1024)),
        DownloadStep::Write { bytes: 1024, total: 1034 }
    ));
    assert!(matches!(
        DownloadHandler::download_asset(0, Ok(1)),
        DownloadStep::Write { bytes: 1, total: 1 }
    ));
}

#[test]
fn failed_read_breaks_the_download_off() {
    // Some bytes were saved, then the read fails: this is no end of the stream.
    let step = DownloadHandler::download_asset(2048, Err("connection reset".to_string()));
    match step {
        DownloadStep::Failed { cause } => {
            assert_eq!("connection reset", cause);
            let error = DownloadHandler::read_err("tool.tar.gz", &cause);
            assert_eq!("Error reading tool.tar.gz: connection reset", error.to_string());
        }
        other => panic!("a failed step was expected, not {:?}", other),
    }
    assert!(!matches!(
        DownloadHandler::download_asset(0, Err("reset".to_string())),
        DownloadStep::Done
    ));
}

#[test]
fn new_makes_both_install_records_agree() {
    let h = handler(None, true, None, Some(None));
    assert_eq!(h.install, h.install_new.as_bool());
    assert!(h.install);
    let h = handler(None, true, None, None);
    assert_eq!(h.install, h.install_new.as_bool());
    assert!(!h.install);
}
