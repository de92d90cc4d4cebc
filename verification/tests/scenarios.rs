use deepseek_harness_launcher::command::{command_candidates, quote_shell_argument};
use deepseek_harness_launcher::dsh::{output_path, PackageManagerKind};
use deepseek_harness_launcher::origin::{is_web_ui_title, same_origin};
use deepseek_harness_launcher::registry::{
    latest_launcher_release, split_https_url, LatestRelease, ReleaseAsset,
};
use deepseek_harness_launcher::updater::{validate_download, UPDATE_SCRIPT};
use deepseek_harness_launcher::version::{unknown_version_label, version_label, versions_equal};

fn release_from_json(body: &[u8]) -> LatestRelease {
    let value: serde_json::Value = serde_json::from_slice(body).expect("valid JSON");
    let text = |key: &str| value[key].as_str().expect("string field").to_owned();
    let assets = match value.get("assets").and_then(|assets| assets.as_array()) {
        Some(items) => items
            .iter()
            .map(|item| ReleaseAsset {
                name: item["name"].as_str().expect("asset name").to_owned(),
                browser_download_url: item["browser_download_url"]
                    .as_str()
                    .expect("asset url")
                    .to_owned(),
            })
            .collect(),
        None => Vec::new(),
    };
    LatestRelease {
        tag_name: text("tag_name"),
        html_url: text("html_url"),
        assets,
    }
}

#[test]
fn version_labels_identify_the_component() {
    assert_eq!(
        version_label("dsh", "v1.2.3"),
        "dsh 版本：v1.2.3 - 检查更新"
    );
    assert_eq!(
        version_label("Launcher", "0.2.0"),
        "Launcher 版本：v0.2.0 - 检查更新"
    );
    assert_eq!(unknown_version_label("dsh"), "dsh 版本：未知 - 检查更新");
}

#[test]
fn version_comparison_ignores_v_prefix() {
    assert!(versions_equal("v0.2.0", "0.2.0"));
    assert!(!versions_equal("0.2.0", "0.2.1"));
}

#[test]
fn browser_address_matches_web_ui_origin() {
    assert!(same_origin(
        "http://127.0.0.1:3080/chat",
        "http://127.0.0.1:3080/"
    ));
    assert!(same_origin("127.0.0.1:3080", "http://127.0.0.1:3080/"));
    assert!(!same_origin(
        "http://127.0.0.1:3081/",
        "http://127.0.0.1:3080/"
    ));
}

#[test]
fn browser_window_title_matches_web_ui() {
    assert!(is_web_ui_title("DeepSeek Harness - Cent Browser"));
    assert!(!is_web_ui_title("New Tab - Cent Browser"));
}

#[test]
fn command_candidates_prefer_windows_launchers() {
    let candidates = command_candidates("dsh");
    assert_eq!(candidates[0], "dsh.exe");
    assert_eq!(candidates[1], "dsh.cmd");
    assert_eq!(candidates[2], "dsh.bat");
}

#[test]
fn shell_arguments_are_quoted_when_needed() {
    assert_eq!(quote_shell_argument("plain"), "plain");
    assert_eq!(quote_shell_argument("with space"), "\"with space\"");
}

#[test]
fn manager_update_commands_use_global_installation() {
    assert_eq!(
        PackageManagerKind::Volta.update_args(),
        vec!["install", "@deepseek-ai/dsh@latest"]
    );
    assert_eq!(
        PackageManagerKind::Npm.update_args(),
        vec!["install", "-g", "@deepseek-ai/dsh@latest"]
    );
    assert_eq!(
        PackageManagerKind::Yarn.update_args(),
        vec!["global", "add", "@deepseek-ai/dsh@latest"]
    );
}

#[test]
fn package_manager_output_ignores_empty_lines() {
    assert_eq!(
        output_path("\r\nC:\\Users\\Liar\\.bun\\bin\r\n"),
        Some(String::from("C:\\Users\\Liar\\.bun\\bin"))
    );
    assert_eq!(output_path("undefined\r\n"), None);
}

#[test]
fn parses_github_latest_launcher_release() {
    let release = latest_launcher_release(&release_from_json(
        br#"{"tag_name":"v0.3.0","html_url":"https://github.com/LiarCoder/DeepSeekHarnessLauncher/releases/tag/v0.3.0","assets":[{"name":"deepseek-harness-launcher.exe","browser_download_url":"https://github.com/LiarCoder/DeepSeekHarnessLauncher/releases/download/v0.3.0/deepseek-harness-launcher.exe"}]}"#,
    ))
    .expect("parse release");

    assert_eq!(release.version, "v0.3.0");
    assert_eq!(
        release.page_url,
        "https://github.com/LiarCoder/DeepSeekHarnessLauncher/releases/tag/v0.3.0"
    );
    assert_eq!(
        release.asset_url,
        "https://github.com/LiarCoder/DeepSeekHarnessLauncher/releases/download/v0.3.0/deepseek-harness-launcher.exe"
    );
}

#[test]
fn rejects_release_without_version() {
    let result = latest_launcher_release(&release_from_json(
        br#"{"tag_name":"  ","html_url":"https://github.com/LiarCoder/DeepSeekHarnessLauncher/releases/latest"}"#,
    ));

    assert_eq!(
        result.expect_err("missing version should fail"),
        "GitHub Release 未返回 Launcher 版本号"
    );
}

#[test]
fn rejects_release_without_launcher_asset() {
    let result = latest_launcher_release(&release_from_json(
        br#"{"tag_name":"v0.3.0","html_url":"https://github.com/LiarCoder/DeepSeekHarnessLauncher/releases/tag/v0.3.0","assets":[]}"#,
    ));

    assert_eq!(
        result.expect_err("missing launcher asset should fail"),
        "GitHub Release 未找到 Launcher Windows 安装包"
    );
}

#[test]
fn splits_https_asset_url() {
    assert_eq!(
        split_https_url(
            "https://github.com/LiarCoder/DeepSeekHarnessLauncher/releases/download/v0.3.0/deepseek-harness-launcher.exe"
        )
        .expect("split URL"),
        (
            "github.com".to_owned(),
            "/LiarCoder/DeepSeekHarnessLauncher/releases/download/v0.3.0/deepseek-harness-launcher.exe".to_owned()
        )
    );
}

#[test]
fn accepts_windows_executable_signature() {
    validate_download(b"MZ").expect("MZ signature should be accepted");
}

#[test]
fn rejects_non_executable_download() {
    assert_eq!(
        validate_download(b"not an executable").expect_err("invalid download should fail"),
        "下载的 Launcher 文件格式无效"
    );
}

#[test]
fn update_script_waits_retries_and_restarts() {
    assert!(UPDATE_SCRIPT.contains(":wait_for_launcher"));
    assert!(UPDATE_SCRIPT.contains("GEQ 30"));
    assert!(UPDATE_SCRIPT.contains("start \"\" \"%DSH_LAUNCHER_UPDATE_TARGET%\""));
}
