use deepseek_harness_launcher::command::{
    build_shell_command_line, command_candidates, invocation, quote_shell_argument, ResolvedCommand,
};
use deepseek_harness_launcher::logger::{is_log_file_name, log_file_name, log_line, logs_to_delete, LogFile};
use deepseek_harness_launcher::paths::{join, launcher_root, logs_directory, state_file};
use deepseek_harness_launcher::state::LauncherState;
use deepseek_harness_launcher::text::{decimal_chars, trim_str};
use deepseek_harness_launcher::updater::unique_file_name;
use deepseek_harness_launcher::version::{trim_version, version_label, versions_equal};
use deepseek_harness_launcher::wide::{copy_wide, wide};

#[test]
fn trim_removes_unicode_whitespace() {
    assert_eq!(trim_str("\u{3000} \t v1.0\r\n\u{a0}"), "v1.0");
    assert_eq!(trim_str("   "), "");
}

#[test]
fn decimal_digits_of_numbers() {
    assert_eq!(decimal_chars(0).iter().collect::<String>(), "0");
    assert_eq!(decimal_chars(3080).iter().collect::<String>(), "3080");
    assert_eq!(
        decimal_chars(u128::MAX).iter().collect::<String>(),
        u128::MAX.to_string()
    );
}

#[test]
fn trim_version_strips_whitespace_and_every_leading_v() {
    assert_eq!(trim_version("  vV1.2.3 "), "1.2.3");
    assert_eq!(trim_version("1.0"), "1.0");
    assert_eq!(trim_version("v"), "");
}

#[test]
fn version_comparison_is_an_equivalence() {
    assert!(versions_equal("V1.0-BETA", "v1.0-beta"));
    assert!(versions_equal("1.0", "1.0"));
    assert!(versions_equal("v2", " 2 ") && versions_equal(" 2 ", "v2"));
    assert!(versions_equal("v2", "V2") && versions_equal("V2", "2") && versions_equal("v2", "2"));
    assert!(!versions_equal("1.0", "1.0.1"));
}

#[test]
fn version_prefix_is_ignored_only_for_trimmed_versions() {
    assert!(versions_equal("v1.4.0", "1.4.0"));
    assert!(versions_equal("V1.4.0", "1.4.0"));
    assert!(!versions_equal("v 1.4.0", "1.4.0"));
}

#[test]
fn version_label_trims_the_version() {
    assert_eq!(version_label("dsh", "  V2.0.0\n"), "dsh 版本：v2.0.0 - 检查更新");
}

#[test]
fn wide_encodes_surrogate_pairs_and_terminates() {
    assert_eq!(wide("A😀é"), vec![0x41, 0xd83d, 0xde00, 0xe9, 0]);
    assert_eq!(wide(""), vec![0]);
}

#[test]
fn copy_wide_truncates_and_terminates() {
    let mut buffer = [7u16; 4];
    copy_wide(&mut buffer, "abcdef");
    assert_eq!(buffer, [0x61, 0x62, 0x63, 0]);

    let mut roomy = [7u16; 6];
    copy_wide(&mut roomy, "ab");
    assert_eq!(roomy, [0x61, 0x62, 0, 7, 7, 7]);

    let mut empty: [u16; 0] = [];
    copy_wide(&mut empty, "ab");

    let mut one = [7u16; 1];
    copy_wide(&mut one, "ab");
    assert_eq!(one, [0]);
}

#[test]
fn shell_scripts_are_recognised_by_extension() {
    assert!(ResolvedCommand::new("C:\\Program Files\\nodejs\\npm.CMD".into()).is_shell_script());
    assert!(ResolvedCommand::new("C:/tools/dsh.bat".into()).is_shell_script());
    assert!(!ResolvedCommand::new("C:\\tools\\dsh.exe".into()).is_shell_script());
    assert!(!ResolvedCommand::new("C:\\tools\\.cmd".into()).is_shell_script());
    assert!(!ResolvedCommand::new("C:\\tools\\cmd".into()).is_shell_script());
    assert!(ResolvedCommand::new("C:\\tools\\dsh.cmd\\".into()).is_shell_script());
}

#[test]
fn script_names_follow_the_path_prefix() {
    assert!(ResolvedCommand::new("\\\\?\\C:\\tools\\dsh.cmd".into()).is_shell_script());
    assert!(!ResolvedCommand::new("\\\\?\\C:\\tools\\dsh.cmd\\.".into()).is_shell_script());
    assert!(ResolvedCommand::new("C:\\tools\\dsh.cmd\\.".into()).is_shell_script());
    assert!(!ResolvedCommand::new("\\\\server\\share.cmd".into()).is_shell_script());
    assert!(ResolvedCommand::new("\\\\server\\share\\dsh.bat".into()).is_shell_script());
}

#[test]
fn names_with_an_extension_are_tried_as_given() {
    assert_eq!(command_candidates("dsh.cmd"), vec!["dsh.cmd"]);
    assert_eq!(
        command_candidates("volta"),
        vec!["volta.exe", "volta.cmd", "volta.bat", "volta.com", "volta"]
    );
}

#[test]
fn quotes_inside_arguments_are_escaped() {
    assert_eq!(quote_shell_argument("say \"hi\""), "\"say \\\"hi\\\"\"");
    assert_eq!(quote_shell_argument("tab\there"), "\"tab\there\"");
    assert_eq!(quote_shell_argument(""), "");
}

#[test]
fn shell_command_line_quotes_path_and_line() {
    let args = vec!["web".to_owned(), "--port".to_owned(), "with space".to_owned()];
    assert_eq!(
        build_shell_command_line("C:\\a b\\dsh.cmd", &args),
        "\"\"C:\\a b\\dsh.cmd\" web --port \"with space\"\""
    );
}

#[test]
fn scripts_run_through_the_interpreter() {
    let args = vec!["--version".to_owned()];
    let script = invocation(
        &ResolvedCommand::new("C:\\n\\dsh.cmd".into()),
        &args,
        "C:\\Windows\\system32\\cmd.exe",
    );
    assert_eq!(script.program, "C:\\Windows\\system32\\cmd.exe");
    assert_eq!(
        script.args,
        vec!["/D", "/S", "/C", "\"\"C:\\n\\dsh.cmd\" --version\""]
    );

    let direct = invocation(&ResolvedCommand::new("C:\\n\\dsh.exe".into()), &args, "cmd.exe");
    assert_eq!(direct.program, "C:\\n\\dsh.exe");
    assert_eq!(direct.args, vec!["--version"]);
}

#[test]
fn launcher_files_live_under_the_profile() {
    assert_eq!(launcher_root("C:\\Users\\x"), "C:\\Users\\x\\.dsh\\dsh-launcher");
    assert_eq!(launcher_root("C:\\Users\\x\\"), "C:\\Users\\x\\.dsh\\dsh-launcher");
    assert_eq!(launcher_root("D:"), "D:.dsh\\dsh-launcher");
    assert_eq!(logs_directory("C:\\u"), "C:\\u\\.dsh\\dsh-launcher\\logs");
    assert_eq!(state_file("C:\\u"), "C:\\u\\.dsh\\dsh-launcher\\state.json");
}

#[test]
fn joining_a_rooted_or_prefixed_component_replaces_the_base() {
    assert_eq!(join("C:\\a", "b"), "C:\\a\\b");
    assert_eq!(join("C:\\a", "D:\\x"), "D:\\x");
    assert_eq!(join("C:\\a", "\\x"), "C:\\x");
    assert_eq!(join("a\\b", "\\x"), "\\x");
    assert_eq!(join("\\\\server\\share\\a", "/x"), "\\\\server\\share/x");
    assert_eq!(join("C:\\a", "\\\\server\\share"), "\\\\server\\share");
    assert_eq!(join("C:\\a", ""), "C:\\a\\");
}

#[test]
fn joining_onto_a_verbatim_path_rebuilds_it() {
    assert_eq!(join("\\\\?\\C:\\a\\b", "c"), "\\\\?\\C:\\a\\b\\c");
    assert_eq!(join("\\\\?\\C:\\a\\\\b\\", "c"), "\\\\?\\C:\\a\\b\\c");
    assert_eq!(join("\\\\?\\C:\\a\\b", "..\\c\\.\\d"), "\\\\?\\C:\\a\\c\\d");
    assert_eq!(join("\\\\?\\C:\\a\\b", "\\c"), "\\\\?\\C:\\c");
    assert_eq!(join("\\\\?\\C:\\", "..\\..\\c"), "\\\\?\\C:\\c");
    assert_eq!(join("\\\\?\\C:", "a"), "\\\\?\\C:\\a");
    assert_eq!(join("\\\\?\\C:\\a\\.", ".."), "\\\\?\\C:\\a\\.");
    assert_eq!(join("\\\\?\\UNC\\server\\share", "a"), "\\\\?\\UNC\\server\\share\\a");
    assert_eq!(join("\\\\?\\a\\b", ".."), "\\\\?\\a\\");
}

#[test]
fn state_records_pid_address_and_time() {
    let state = LauncherState::new(42, "http://127.0.0.1:3080/", 1700000000123);
    assert_eq!(state.harness_pid, 42);
    assert_eq!(state.web_ui_url, "http://127.0.0.1:3080/");
    assert_eq!(state.updated_at, "1700000000123");
}

#[test]
fn updater_file_names_are_numbered() {
    assert_eq!(
        unique_file_name("deepseek-harness-launcher-download", 12, 345, 0, "exe"),
        "deepseek-harness-launcher-download-12-345.exe"
    );
    assert_eq!(
        unique_file_name(".deepseek-harness-launcher-update", 12, 345, 3, "exe"),
        ".deepseek-harness-launcher-update-12-345-3.exe"
    );
}

#[test]
fn log_names_and_lines() {
    assert!(is_log_file_name("launcher-1700000000000.log"));
    assert!(!is_log_file_name("launcher-1.LOG"));
    assert!(!is_log_file_name("other-1.log"));
    assert!(!is_log_file_name("launcher-1.log.bak"));
    assert_eq!(log_file_name(1700000000000), "launcher-1700000000000.log");
    assert_eq!(log_line(5, 7, "INFO", "ready"), "5.007 [INFO] ready");
    assert_eq!(log_line(1700000000, 250, "ERROR", "x"), "1700000000.250 [ERROR] x");
}

fn log(name: &str, modified: u128) -> LogFile {
    LogFile {
        name: name.to_owned(),
        modified,
    }
}

#[test]
fn only_the_ten_newest_logs_are_kept() {
    let mut files = Vec::new();
    for i in 0..12u128 {
        files.push(log(&format!("launcher-{i}.log"), 100 + i));
    }
    files.push(log("notes.txt", 1));
    // the two oldest launcher logs go
    assert_eq!(logs_to_delete(&files), vec![0, 1]);
}

#[test]
fn few_logs_are_all_kept() {
    let files: Vec<LogFile> = (0..10u128)
        .map(|i| log(&format!("launcher-{i}.log"), 5))
        .collect();
    assert!(logs_to_delete(&files).is_empty());
}

#[test]
fn logs_of_the_same_age_keep_their_order() {
    let files: Vec<LogFile> = (0..11u128)
        .map(|i| log(&format!("launcher-{i}.log"), 5))
        .collect();
    assert_eq!(logs_to_delete(&files), vec![10]);
}
