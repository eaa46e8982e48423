use secure_safe::delete::{answer_confirms, ensure_safe_to_wipe, resolve_stored_file, DeleteError};
use secure_safe::dir_watch::{check_watch_target, event_secures_file, WatchError};
use secure_safe::error::ErrorKind;
use secure_safe::parsing::{parse, ParsedArgs, ParsingError};
use secure_safe::path::{file_name, is_bare_file_name, join_name};
use secure_safe::settings::configs::Configs;
use secure_safe::settings::Settings;

fn args(items: &[&str]) -> Vec<String> {
    items.iter().map(|s| s.to_string()).collect()
}

#[test]
fn parses_each_command() {
    assert_eq!(parse(&args(&["ss", "add", "/a/b"])), Ok(ParsedArgs::Add("/a/b".to_string())));
    assert_eq!(parse(&args(&["ss", "delete", "x"])), Ok(ParsedArgs::Delete("x".to_string())));
    assert_eq!(parse(&args(&["ss", "restore", "x"])), Ok(ParsedArgs::Restore("x".to_string())));
    assert_eq!(parse(&args(&["ss", "watchd", "/d"])), Ok(ParsedArgs::WatchDir("/d".to_string())));
    assert_eq!(parse(&args(&["ss", "about"])), Ok(ParsedArgs::About));
}

#[test]
fn parsing_errors() {
    assert_eq!(parse(&args(&["ss"])), Err(ParsingError::NoArgs));
    assert_eq!(parse(&args(&["ss", "add"])), Err(ParsingError::MissingArg(2)));
    assert_eq!(parse(&args(&["ss", "remove", "x"])), Err(ParsingError::UnknownArgs));
    assert_eq!(parse(&args(&["ss", "ADD", "x"])), Err(ParsingError::UnknownArgs));
}

#[test]
fn file_names_like_path_file_name() {
    let cases = ["a/b", "a/b/", "a/./", "./", "/", "a/..", "..", ".", "...", "/.", "a//b", "", "x"];
    for case in cases {
        let expected = std::path::Path::new(case).file_name().map(|n| n.to_string_lossy().into_owned());
        assert_eq!(file_name(case), expected, "path {case:?}");
    }
    assert!(is_bare_file_name("secret.txt"));
    assert!(!is_bare_file_name("../secret.txt"));
    assert!(!is_bare_file_name("dir/"));
}

#[test]
fn join_matches_path_join() {
    for (base, name) in [("/v", "a"), ("/v/", "a"), ("", "a"), ("rel", "b")] {
        let expected = std::path::Path::new(base).join(name).to_string_lossy().into_owned();
        assert_eq!(join_name(base, name), expected);
    }
}

#[test]
fn resolve_stored_file_checks() {
    assert_eq!(resolve_stored_file("/v", true, "e.txt"), Ok("/v/e.txt".to_string()));
    assert_eq!(resolve_stored_file("/v", false, "e.txt"), Err(DeleteError::InvalidVaultDirectory));
    assert_eq!(resolve_stored_file("/v", true, "../e.txt"), Err(DeleteError::InvalidStoredFileName));
    assert_eq!(DeleteError::InvalidStoredFileName.kind(), ErrorKind::InvalidInput);
}

#[test]
fn confirmation_answer() {
    assert!(answer_confirms("YES\n"));
    assert!(answer_confirms("  YES \t"));
    assert!(answer_confirms("\u{3000}YES\u{a0}"));
    assert!(!answer_confirms("yes\n"));
    assert!(!answer_confirms("Y E S"));
    assert!(!answer_confirms(""));
}

#[test]
fn wipe_only_single_link_regular_files() {
    assert_eq!(ensure_safe_to_wipe(true, 1), Ok(()));
    assert_eq!(ensure_safe_to_wipe(true, 2), Err(DeleteError::UnsafeToWipe));
    assert_eq!(ensure_safe_to_wipe(false, 1), Err(DeleteError::UnsafeToWipe));
}

#[test]
fn watcher_decisions() {
    assert_eq!(check_watch_target(true, true), Err(WatchError::NotADirectory));
    assert_eq!(check_watch_target(false, false).unwrap_err().kind(), ErrorKind::NotFound);
    assert_eq!(check_watch_target(false, true), Ok(()));
    assert!(event_secures_file(true, false, true, true));
    assert!(event_secures_file(false, true, true, true));
    assert!(!event_secures_file(false, false, true, true));
    assert!(!event_secures_file(true, true, false, true));
    assert!(!event_secures_file(true, true, true, false));
}

#[test]
fn default_settings_and_configs() {
    let settings = Settings::default("/home/alice").ok().unwrap();
    assert_eq!(settings.enc_dir, "/home/alice/.safe_dir");
    assert_eq!(Configs::default().overwrite_times(), 0);
    assert_eq!(Configs::from_overwrite_times(3).overwrite_times(), 3);
    assert_eq!(secure_safe::settings::settings_path("/h"), "/h/secure_safe.settings");
}

#[test]
fn resolve_stored_file_accepts_a_path_inside_the_vault() {
    assert_eq!(
        resolve_stored_file("/home/u/secure-safe", true, "/home/u/secure-safe/secret.txt"),
        Ok("/home/u/secure-safe/secret.txt".to_string())
    );
    assert_eq!(resolve_stored_file("/v/", true, "/v//e.txt"), Ok("/v/e.txt".to_string()));
    assert_eq!(resolve_stored_file("/v", true, "/other/e.txt"), Err(DeleteError::InvalidStoredFileName));
    assert_eq!(resolve_stored_file("/v", true, "/v/sub/e.txt"), Err(DeleteError::InvalidStoredFileName));
    assert_eq!(resolve_stored_file("/v", true, "/v/"), Err(DeleteError::InvalidStoredFileName));
}
