use deepseek_harness_launcher::command::{CommandOutput, ResolvedCommand};
use deepseek_harness_launcher::detect::DetectStep;
use deepseek_harness_launcher::command::{
    candidate_paths, command_wait, parent_path, CommandPoll, CommandWait,
};
use deepseek_harness_launcher::dsh::{
    bun_global_bin, directly_under, locate, normalize_path, output_path, paths_equal, pnpm_global_bin, version,
    PackageManager, PackageManagerKind,
};
use deepseek_harness_launcher::origin::{
    default_port, is_browser_window, parse_origin, same_origin,
};
use deepseek_harness_launcher::ownership::{Answer, OwnershipCheck, Probe, Step};
use deepseek_harness_launcher::process::{
    choose_port, harness_args, startup_check, taskkill_args, StartupCheck, web_ui_url_for, HarnessProcessManager,
};
use deepseek_harness_launcher::registry::{
    accept_launcher_asset, check_status, latest_launcher_release, latest_version,
    launcher_asset_location, split_https_url, user_agent, LatestPackage, LatestRelease,
    ReleaseAsset,
};
use deepseek_harness_launcher::search::{SearchEvent, SearchStep, WebUiSearch};
use deepseek_harness_launcher::tabs::{any_address_matches, selected_tab, CycleStep, TabCycle};

fn output(success: bool, stdout: &str, stderr: &str) -> CommandOutput {
    CommandOutput {
        success,
        stdout: stdout.to_owned(),
        stderr: stderr.to_owned(),
    }
}

#[test]
fn version_is_the_first_nonblank_line() {
    assert_eq!(version(&output(true, "\r\n  1.2.3 \r\nextra\n", "")), Ok("1.2.3".to_owned()));
    assert_eq!(
        version(&output(true, " \n\n", "")),
        Err("dsh 未返回版本号".to_owned())
    );
    assert_eq!(
        version(&output(false, "1.0", "  boom \n")),
        Err("读取 dsh 版本失败：boom".to_owned())
    );
}

#[test]
fn update_outcome_combines_both_streams() {
    let manager = PackageManager {
        kind: PackageManagerKind::Pnpm,
        command: ResolvedCommand::new("pnpm.cmd".into()),
    };
    assert_eq!(
        manager.run_update(&output(true, " added 1 package \n", "")),
        Ok("added 1 package".to_owned())
    );
    assert_eq!(
        manager.run_update(&output(false, "", " EACCES ")),
        Err("pnpm 更新失败：EACCES".to_owned())
    );
}

#[test]
fn missing_dsh_is_reported() {
    assert_eq!(
        locate(None).unwrap_err(),
        "未找到 dsh，请先通过任意包管理器全局安装 @deepseek-ai/dsh，并确保命令在 PATH 中"
    );
    assert_eq!(
        locate(Some(ResolvedCommand::new("C:\\dsh.cmd".into()))).unwrap().path,
        "C:\\dsh.cmd"
    );
}

#[test]
fn printed_directory_is_the_last_meaningful_line() {
    assert_eq!(output_path("warn\nC:\\a\nUNDEFINED\n"), Some("C:\\a".to_owned()));
    assert_eq!(output_path(""), None);
}

#[test]
fn paths_compare_without_case_slashes_or_trailing_separators() {
    assert_eq!(normalize_path("C:/Users/X/bin//"), "c:\\users\\x\\bin");
    assert!(paths_equal("C:/Users/X/", "c:\\users\\x"));
    assert!(!paths_equal("C:\\a", "C:\\b"));
}

fn ask(step: Step) -> Probe {
    match step {
        Step::Ask(probe) => probe,
        Step::Decided(found) => panic!("unexpected conclusion {found}"),
    }
}

#[test]
fn volta_owns_dsh_when_which_names_the_package() {
    let (mut check, step) = OwnershipCheck::start(PackageManagerKind::Volta);
    assert!(matches!(ask(step), Probe::Run { args } if args == vec!["which", "dsh"]));
    let step = check.advance(Answer::Output(Some(output(
        true,
        "C:\\Volta\\tools\\image\\packages\\@DeepSeek-AI\\dsh\\bin\\dsh.cmd",
        "",
    ))));
    assert!(matches!(step, Step::Decided(true)));

    let (mut other, _) = OwnershipCheck::start(PackageManagerKind::Volta);
    assert!(matches!(
        other.advance(Answer::Output(Some(output(true, "C:\\node\\dsh.cmd", "")))),
        Step::Decided(false)
    ));
}

#[test]
fn npm_owns_dsh_when_it_sits_in_the_global_prefix() {
    let (mut check, step) = OwnershipCheck::start(PackageManagerKind::Npm);
    assert!(matches!(ask(step), Probe::Run { args } if args == vec!["root", "-g"]));
    let probe = ask(check.advance(Answer::Output(Some(output(
        true,
        "C:\\Users\\x\\AppData\\Roaming\\npm\\node_modules\r\n",
        "",
    )))));
    assert!(matches!(probe, Probe::PathExists { path }
        if path == "C:\\Users\\x\\AppData\\Roaming\\npm\\node_modules\\@deepseek-ai\\dsh"));
    let probe = ask(check.advance(Answer::Exists(true)));
    assert!(matches!(probe, Probe::Run { args } if args == vec!["prefix", "-g"]));
    let probe = ask(check.advance(Answer::Output(Some(output(
        false,
        "C:\\Users\\x\\AppData\\Roaming\\npm",
        "",
    )))));
    assert!(matches!(probe, Probe::DshDirectlyUnder { directory }
        if directory == "C:\\Users\\x\\AppData\\Roaming\\npm"));
    assert!(matches!(check.advance(Answer::Exists(true)), Step::Decided(true)));
}

#[test]
fn npm_does_not_own_dsh_without_the_package() {
    let (mut check, _) = OwnershipCheck::start(PackageManagerKind::Cnpm);
    let _ = check.advance(Answer::Output(Some(output(true, "C:\\root", ""))));
    assert!(matches!(check.advance(Answer::Exists(false)), Step::Decided(false)));
    assert!(matches!(check.advance(Answer::Exists(true)), Step::Decided(false)));
}

#[test]
fn pnpm_falls_back_to_the_configured_bin_directory() {
    let (mut check, _) = OwnershipCheck::start(PackageManagerKind::Pnpm);
    let _ = check.advance(Answer::Output(Some(output(true, "C:\\p\\global\\5\\node_modules", ""))));
    let probe = ask(check.advance(Answer::Exists(true)));
    assert!(matches!(probe, Probe::Run { args } if args == vec!["bin", "-g"]));
    let probe = ask(check.advance(Answer::Output(Some(output(true, "undefined", "")))));
    assert!(matches!(probe, Probe::DshDirectlyUnder { directory } if directory == "C:\\p"));
    let probe = ask(check.advance(Answer::Exists(false)));
    assert!(matches!(probe, Probe::Run { args } if args == vec!["config", "get", "global-bin-dir"]));
    let probe = ask(check.advance(Answer::Output(Some(output(true, "D:\\bin\n", "")))));
    assert!(matches!(probe, Probe::DshDirectlyUnder { directory } if directory == "D:\\bin"));
    assert!(matches!(check.advance(Answer::Exists(true)), Step::Decided(true)));
}

#[test]
fn yarn_checks_its_global_directory_and_bin() {
    let (mut check, step) = OwnershipCheck::start(PackageManagerKind::Yarn);
    assert!(matches!(ask(step), Probe::Run { args } if args == vec!["global", "dir"]));
    let probe = ask(check.advance(Answer::Output(Some(output(true, "C:\\y\\global", "")))));
    assert!(matches!(probe, Probe::PathExists { path }
        if path == "C:\\y\\global\\node_modules\\@deepseek-ai\\dsh"));
    let probe = ask(check.advance(Answer::Exists(true)));
    assert!(matches!(probe, Probe::Run { args } if args == vec!["global", "bin"]));
    assert!(matches!(
        check.advance(Answer::Output(Some(output(false, "C:\\y\\bin", "")))),
        Step::Decided(false)
    ));
}

#[test]
fn bun_uses_its_default_bin_when_it_prints_none() {
    let (mut check, step) = OwnershipCheck::start(PackageManagerKind::Bun);
    assert!(matches!(ask(step), Probe::Run { args } if args == vec!["pm", "ls", "-g"]));
    let probe = ask(check.advance(Answer::Output(Some(output(
        true,
        "├── @deepseek-ai/dsh@1.0.0",
        "",
    )))));
    assert!(matches!(probe, Probe::Run { args } if args == vec!["pm", "bin", "-g"]));
    let probe = ask(check.advance(Answer::Output(None)));
    assert!(matches!(probe, Probe::BunDefaultBin));
    let probe = ask(check.advance(Answer::Directory(Some("C:\\Users\\x\\.bun\\bin".into()))));
    assert!(matches!(probe, Probe::DshDirectlyUnder { .. }));
    assert!(matches!(check.advance(Answer::Exists(false)), Step::Decided(false)));
}

#[test]
fn answers_of_the_wrong_form_end_the_check() {
    let (mut check, _) = OwnershipCheck::start(PackageManagerKind::Yarn);
    assert!(matches!(check.advance(Answer::Exists(true)), Step::Decided(false)));
}

#[test]
fn detection_without_managers_reports_none_found() {
    let (mut detection, mut step) = PackageManager::detect();
    let mut names = Vec::new();
    let result = loop {
        step = match step {
            DetectStep::FindCommand { name } => {
                names.push(name);
                detection.found(None)
            }
            DetectStep::Probe { .. } => panic!("nothing was found"),
            DetectStep::Finished(result) => break result,
        };
    };
    assert_eq!(names, vec!["volta", "npm", "pnpm", "yarn", "bun", "cnpm"]);
    assert_eq!(
        result.unwrap_err(),
        "无法确认 dsh 的安装来源，未找到可用的全局包管理器"
    );
}

#[test]
fn detection_lists_managers_it_could_not_confirm() {
    let (mut detection, mut step) = PackageManager::detect();
    let result = loop {
        step = match step {
            DetectStep::FindCommand { name } => {
                if name == "npm" || name == "bun" {
                    detection.found(Some(ResolvedCommand::new(format!("C:\\{name}.cmd"))))
                } else {
                    detection.found(None)
                }
            }
            DetectStep::Probe { .. } => detection.answer(Answer::Output(None)),
            DetectStep::Finished(result) => break result,
        };
    };
    assert_eq!(
        result.unwrap_err(),
        "无法确认 dsh 的安装来源，已找到但无法确认归属：npm、Bun"
    );
}

#[test]
fn detection_stops_at_the_first_confirmed_owner() {
    let (mut detection, mut step) = PackageManager::detect();
    let result = loop {
        step = match step {
            DetectStep::FindCommand { name } => {
                if name == "volta" {
                    detection.found(Some(ResolvedCommand::new("C:\\volta.exe".into())))
                } else {
                    panic!("no manager after the owner is looked up")
                }
            }
            DetectStep::Probe { .. } => detection.answer(Answer::Output(Some(output(
                true,
                "@deepseek-ai\\dsh",
                "",
            )))),
            DetectStep::Finished(result) => break result,
        };
    };
    let manager = result.expect("volta owns dsh");
    assert_eq!(manager.kind, PackageManagerKind::Volta);
    assert_eq!(manager.command.path, "C:\\volta.exe");
}

#[test]
fn origins_ignore_case_credentials_and_default_ports() {
    assert_eq!(
        parse_origin(" HTTPS://user:pw@Example.COM/path?q#f ", None),
        Some(("https".to_owned(), "example.com".to_owned(), 443))
    );
    assert_eq!(
        parse_origin("[::1]:8080/x", Some("http")),
        Some(("http".to_owned(), "::1".to_owned(), 8080))
    );
    assert_eq!(
        parse_origin("localhost:+80", None),
        Some(("http".to_owned(), "localhost".to_owned(), 80))
    );
    assert_eq!(parse_origin("localhost:70000", None), None);
    assert_eq!(parse_origin("localhost:", None), None);
    assert_eq!(parse_origin("ftp://files", None), None);
    assert_eq!(parse_origin("http://:80", None), None);
    assert_eq!(parse_origin("   ", None), None);
    assert_eq!(default_port("HTTP"), Some(80));
    assert_eq!(default_port("https"), Some(443));
    assert_eq!(default_port("ws"), None);
}

#[test]
fn same_origin_is_reflexive_for_valid_addresses() {
    assert!(same_origin("http://127.0.0.1:3080/", "http://127.0.0.1:3080/"));
    assert!(same_origin("127.0.0.1:3080", "127.0.0.1:3080"));
    assert!(!same_origin("ftp://x", "ftp://x"));
    assert!(same_origin("HTTP://LOCALHOST", "http://localhost:80/chat"));
}

#[test]
fn browser_windows_are_chromium_or_firefox() {
    assert!(is_browser_window("Chrome_WidgetWin_1"));
    assert!(is_browser_window("MozillaWindowClass"));
    assert!(!is_browser_window("chrome_widgetwin_1"));
}

#[test]
fn registry_version_is_trimmed() {
    let ok = LatestPackage {
        version: " 1.2.3\n".into(),
    };
    assert_eq!(latest_version(&ok), Ok("1.2.3".to_owned()));
    let blank = LatestPackage {
        version: "  ".into(),
    };
    assert_eq!(
        latest_version(&blank),
        Err("npm registry 未返回 dsh 版本号".to_owned())
    );
}

fn release(tag: &str, page: &str, assets: Vec<(&str, &str)>) -> LatestRelease {
    LatestRelease {
        tag_name: tag.into(),
        html_url: page.into(),
        assets: assets
            .into_iter()
            .map(|(name, url)| ReleaseAsset {
                name: name.into(),
                browser_download_url: url.into(),
            })
            .collect(),
    }
}

const ASSET: &str =
    "https://github.com/LiarCoder/DeepSeekHarnessLauncher/releases/download/v1/deepseek-harness-launcher.exe";

#[test]
fn release_errors_name_the_missing_part() {
    assert_eq!(
        latest_launcher_release(&release("v1", " ", vec![])).unwrap_err(),
        "GitHub Release 未返回发布页地址"
    );
    assert_eq!(
        latest_launcher_release(&release("v1", "p", vec![("DeepSeek-Harness-Launcher.EXE", " ")]))
            .unwrap_err(),
        "GitHub Release 未返回 Launcher 安装包地址"
    );
    assert_eq!(
        latest_launcher_release(&release(
            "v1",
            "p",
            vec![("deepseek-harness-launcher.exe", "https://evil.example/x.exe")]
        ))
        .unwrap_err(),
        "GitHub Release Launcher 安装包地址无效"
    );
    let found = latest_launcher_release(&release(
        " v1 ",
        " p ",
        vec![("notes.txt", "x"), (" deepseek-harness-launcher.exe ", ASSET)],
    ))
    .unwrap();
    assert_eq!(found.version, "v1");
    assert_eq!(found.page_url, "p");
    assert_eq!(found.asset_url, ASSET);
}

#[test]
fn download_addresses_must_be_https_release_assets() {
    assert_eq!(
        split_https_url("http://github.com/x").unwrap_err(),
        "更新地址必须使用 HTTPS"
    );
    assert_eq!(split_https_url("https://github.com").unwrap_err(), "更新地址缺少请求路径");
    assert_eq!(split_https_url("https:///x").unwrap_err(), "更新地址无效");
    assert_eq!(split_https_url("https://github.com/").unwrap_err(), "更新地址无效");
    assert_eq!(
        launcher_asset_location("https://example.com/LiarCoder/DeepSeekHarnessLauncher/releases/download/x")
            .unwrap_err(),
        "GitHub Release Launcher 安装包地址无效"
    );
    assert_eq!(
        launcher_asset_location("https://GitHub.com/LiarCoder/DeepSeekHarnessLauncher/releases/download/v1/a.exe")
            .unwrap(),
        (
            "GitHub.com".to_owned(),
            "/LiarCoder/DeepSeekHarnessLauncher/releases/download/v1/a.exe".to_owned()
        )
    );
}

#[test]
fn downloads_and_statuses_are_checked() {
    assert_eq!(
        accept_launcher_asset(Vec::new()).unwrap_err(),
        "GitHub Release Launcher 安装包为空"
    );
    assert_eq!(accept_launcher_asset(vec![1, 2]).unwrap(), vec![1, 2]);
    assert!(check_status(200).is_ok());
    assert!(check_status(299).is_ok());
    assert_eq!(check_status(404).unwrap_err(), "更新服务返回 HTTP 404");
    assert_eq!(check_status(300).unwrap_err(), "更新服务返回 HTTP 300");
    assert_eq!(user_agent("0.2.0"), "DeepSeekHarnessLauncher/0.2.0");
}

#[test]
fn harness_runs_on_the_chosen_port() {
    assert_eq!(choose_port(true, 51000), 3080);
    assert_eq!(choose_port(false, 51000), 51000);
    assert_eq!(web_ui_url_for(3080), "http://127.0.0.1:3080/");
    assert_eq!(harness_args(51000), vec!["web", "--port", "51000"]);
}

#[test]
fn harness_state_follows_its_lifecycle() {
    let mut manager = HarnessProcessManager::new();
    assert!(!manager.is_running());
    assert!(manager.existing_session().is_none());

    manager.started(7, "http://127.0.0.1:3080/".into());
    assert!(manager.is_running());
    assert_eq!(manager.process_id(), Some(7));
    assert_eq!(
        manager.existing_session(),
        Some(Ok((7, "http://127.0.0.1:3080/".to_owned())))
    );

    manager.mark_ready();
    assert_eq!(manager.stop(), Some(7));
    manager.finish_stop();
    assert!(!manager.is_running());
    assert_eq!(manager.web_ui_url(), None);
    // a stopped Harness exits quietly
    assert!(!manager.exited());
}

#[test]
fn only_a_ready_harness_exits_unexpectedly() {
    let mut early = HarnessProcessManager::new();
    early.started(1, "u".into());
    assert!(!early.exited());

    let mut serving = HarnessProcessManager::new();
    serving.started(1, "u".into());
    serving.mark_ready();
    assert!(serving.exited());
    assert_eq!(serving.process_id(), None);
}

#[test]
fn tab_cycle_finds_the_web_ui_tab() {
    let (mut cycle, step) = TabCycle::start("New Tab - Chrome".into());
    assert_eq!(step, CycleStep::SendNextTab);
    assert_eq!(cycle.keys_sent(true), CycleStep::ReadTitle);
    assert_eq!(cycle.title_read("Docs - Chrome"), CycleStep::SendNextTab);
    assert_eq!(cycle.keys_sent(true), CycleStep::ReadTitle);
    assert_eq!(cycle.title_read("deepseek harness - Chrome"), CycleStep::Done(true));
}

#[test]
fn tab_cycle_stops_when_it_comes_back() {
    let (mut cycle, _) = TabCycle::start("A".into());
    assert_eq!(cycle.keys_sent(true), CycleStep::ReadTitle);
    assert_eq!(cycle.title_read("A"), CycleStep::Done(false));
    let (_, step) = TabCycle::start(String::new());
    assert_eq!(step, CycleStep::Done(false));
    let (mut failing, _) = TabCycle::start("A".into());
    assert_eq!(failing.keys_sent(false), CycleStep::Done(false));
}

#[test]
fn tab_cycle_steps_back_after_thirty_two_tabs() {
    let (mut cycle, _) = TabCycle::start("start".into());
    let mut forward = 0;
    let mut step = CycleStep::SendNextTab;
    while step == CycleStep::SendNextTab {
        forward += 1;
        assert_eq!(cycle.keys_sent(true), CycleStep::ReadTitle);
        step = cycle.title_read(&format!("tab {forward}"));
    }
    assert_eq!(forward, 32);
    let mut back = 0;
    while step == CycleStep::SendPreviousTab {
        back += 1;
        step = cycle.keys_sent(true);
    }
    assert_eq!(back, 32);
    assert_eq!(step, CycleStep::Done(false));
}

#[test]
fn selected_tab_and_address_matching() {
    assert_eq!(selected_tab(&vec![None, Some(false), Some(true), Some(true)]), Some(2));
    assert_eq!(selected_tab(&vec![None, Some(false)]), None);
    let addresses = vec!["search".to_owned(), "127.0.0.1:3080/chat".to_owned()];
    assert!(any_address_matches(&addresses, "http://127.0.0.1:3080/"));
    assert!(!any_address_matches(&addresses, "http://127.0.0.1:3081/"));
}

#[test]
fn parent_drops_the_last_component() {
    assert_eq!(parent_path("C:\\a\\b"), Some("C:\\a".to_owned()));
    assert_eq!(parent_path("C:\\a\\b\\"), Some("C:\\a".to_owned()));
    assert_eq!(parent_path("C:\\a\\\\b"), Some("C:\\a".to_owned()));
    assert_eq!(parent_path("C:\\a\\.\\b\\."), Some("C:\\a".to_owned()));
    assert_eq!(parent_path("C:\\a"), Some("C:\\".to_owned()));
    assert_eq!(parent_path("C:/a/b"), Some("C:/a".to_owned()));
    assert_eq!(parent_path("a"), Some(String::new()));
    assert_eq!(parent_path("a\\.."), Some("a".to_owned()));
    assert_eq!(parent_path(".\\a"), Some(".".to_owned()));
    assert_eq!(parent_path("."), Some(String::new()));
    assert_eq!(parent_path("C:a"), Some("C:".to_owned()));
}

#[test]
fn roots_drives_and_empty_paths_have_no_parent() {
    assert_eq!(parent_path("C:\\"), None);
    assert_eq!(parent_path("C:"), None);
    assert_eq!(parent_path("\\"), None);
    assert_eq!(parent_path(""), None);
}

#[test]
fn network_device_and_verbatim_prefixes_end_like_roots() {
    assert_eq!(parent_path("\\\\server\\share"), None);
    assert_eq!(parent_path("\\\\server\\share\\"), None);
    assert_eq!(parent_path("\\\\server\\share\\x"), Some("\\\\server\\share\\".to_owned()));
    assert_eq!(parent_path("//server/share/x/y"), Some("//server/share/x".to_owned()));
    assert_eq!(parent_path("\\\\.\\COM42"), None);
    assert_eq!(parent_path("\\\\?\\C:"), None);
    assert_eq!(parent_path("\\\\?\\C:\\"), None);
    assert_eq!(parent_path("\\\\?\\C:\\a\\b"), Some("\\\\?\\C:\\a".to_owned()));
    assert_eq!(
        parent_path("\\\\?\\UNC\\server\\share\\a"),
        Some("\\\\?\\UNC\\server\\share\\".to_owned())
    );
    assert_eq!(parent_path("\\\\?\\cat_pics"), None);
    assert_eq!(parent_path("\\\\server"), Some("\\".to_owned()));
}

#[test]
fn verbatim_paths_split_only_at_backslashes_and_keep_dots() {
    assert_eq!(parent_path("\\\\?\\C:\\a/b"), Some("\\\\?\\C:\\".to_owned()));
    assert_eq!(parent_path("\\\\?\\C:\\a\\."), Some("\\\\?\\C:\\a".to_owned()));
    assert_eq!(parent_path("C:\\a\\."), Some("C:\\".to_owned()));
}

#[test]
fn pnpm_bin_is_three_levels_above_its_root() {
    assert_eq!(
        pnpm_global_bin("C:\\Users\\x\\AppData\\Local\\pnpm\\global\\5\\node_modules"),
        Some("C:\\Users\\x\\AppData\\Local\\pnpm".to_owned())
    );
    assert_eq!(pnpm_global_bin("C:\\a\\b"), None);
}

#[test]
fn bun_bin_prefers_bun_install() {
    assert_eq!(
        bun_global_bin(Some("D:\\bun"), Some("C:\\Users\\x")),
        Some("D:\\bun\\bin".to_owned())
    );
    assert_eq!(
        bun_global_bin(None, Some("C:\\Users\\x")),
        Some("C:\\Users\\x\\.bun\\bin".to_owned())
    );
    assert_eq!(bun_global_bin(None, None), None);
}

#[test]
fn dsh_sits_directly_under_its_bin_directory() {
    assert!(directly_under("C:\\Users\\x\\npm\\dsh.cmd", "c:/users/x/npm/"));
    assert!(!directly_under("C:\\Users\\x\\npm\\bin\\dsh.cmd", "C:\\Users\\x\\npm"));
    assert!(!directly_under("C:\\", "C:\\"));
}

#[test]
fn accepted_release_assets_can_be_downloaded() {
    let found = latest_launcher_release(&release(
        "v1",
        "p",
        vec![("deepseek-harness-launcher.exe", ASSET)],
    ))
    .unwrap();
    assert_eq!(
        launcher_asset_location(&found.asset_url).unwrap(),
        (
            "github.com".to_owned(),
            "/LiarCoder/DeepSeekHarnessLauncher/releases/download/v1/deepseek-harness-launcher.exe"
                .to_owned()
        )
    );
}

#[test]
fn taskkill_stops_the_whole_process_tree() {
    assert_eq!(taskkill_args(4242), vec!["/PID", "4242", "/T", "/F"]);
}

fn text(value: &str) -> SearchEvent {
    SearchEvent::Text(value.to_owned())
}

#[test]
fn search_activates_a_browser_window_showing_the_web_ui() {
    let (mut search, step) = WebUiSearch::start("http://127.0.0.1:3080/".into(), 2);
    assert!(matches!(step, SearchStep::ReadClass(0)));
    assert!(matches!(search.advance(text("Notepad")), SearchStep::ReadClass(1)));
    assert!(matches!(search.advance(text("MozillaWindowClass")), SearchStep::ReadTitle(1)));
    assert!(matches!(
        search.advance(text("DeepSeek Harness — Mozilla Firefox")),
        SearchStep::Activate(1)
    ));
    assert!(matches!(search.advance(SearchEvent::Succeeded), SearchStep::Done(true)));
}

#[test]
fn search_selects_matching_tabs_and_restores_after_a_miss() {
    let (mut search, _) = WebUiSearch::start("http://127.0.0.1:3080/".into(), 1);
    assert!(matches!(search.advance(text("Chrome_WidgetWin_1")), SearchStep::ReadTitle(0)));
    assert!(matches!(search.advance(text("News - Chrome")), SearchStep::ListTabs(0)));
    let step = search.advance(SearchEvent::Tabs(vec![Some(false), Some(true), None]));
    assert!(matches!(step, SearchStep::ReadTabTitle(0, 0)));
    assert!(matches!(search.advance(text("DeepSeek Harness")), SearchStep::SelectTab(0, 0)));
    assert!(matches!(search.advance(SearchEvent::Succeeded), SearchStep::ReadAddresses(0, 0)));
    let other = || SearchEvent::Addresses {
        values: vec!["http://127.0.0.1:3081/".into()],
        complete: true,
    };
    assert!(matches!(search.advance(other()), SearchStep::ReadAddresses(0, 1)));
    assert!(matches!(search.advance(other()), SearchStep::ReadAddresses(0, 2)));
    assert!(matches!(search.advance(other()), SearchStep::RestoreTab(0, Some(1))));
    assert!(matches!(search.advance(SearchEvent::Failed), SearchStep::ReadTabTitle(0, 1)));
    assert!(matches!(search.advance(text("News")), SearchStep::ReadTabTitle(0, 2)));
    assert!(matches!(search.advance(text("deepseek harness")), SearchStep::SelectTab(0, 2)));
    assert!(matches!(search.advance(SearchEvent::Succeeded), SearchStep::ReadAddresses(0, 0)));
    let step = search.advance(SearchEvent::Addresses {
        values: vec!["search".into(), "127.0.0.1:3080/chat".into()],
        complete: true,
    });
    assert!(matches!(step, SearchStep::Activate(0)));
    assert!(matches!(search.advance(SearchEvent::Succeeded), SearchStep::Done(true)));
}

#[test]
fn search_cycles_chromium_tabs_when_nothing_else_matched() {
    let (mut search, _) = WebUiSearch::start("http://127.0.0.1:3080/".into(), 2);
    assert!(matches!(search.advance(text("Chrome_WidgetWin_1")), SearchStep::ReadTitle(0)));
    assert!(matches!(search.advance(text("News")), SearchStep::ListTabs(0)));
    assert!(matches!(search.advance(SearchEvent::Tabs(vec![])), SearchStep::ReadClass(1)));
    assert!(matches!(search.advance(text("Shell_TrayWnd")), SearchStep::ReadClass(0)));
    assert!(matches!(search.advance(text("Chrome_WidgetWin_1")), SearchStep::Focus(0)));
    assert!(matches!(search.advance(SearchEvent::Focused(true)), SearchStep::CycleTabs(0)));
    assert!(matches!(search.advance(SearchEvent::Cycled(false)), SearchStep::ReadClass(1)));
    assert!(matches!(search.advance(text("MozillaWindowClass")), SearchStep::Done(false)));
}

#[test]
fn search_ends_on_a_failure() {
    let (mut search, _) = WebUiSearch::start("http://127.0.0.1:3080/".into(), 1);
    assert!(matches!(search.advance(text("Chrome_WidgetWin_1")), SearchStep::ReadTitle(0)));
    assert!(matches!(search.advance(SearchEvent::Failed), SearchStep::Done(false)));
    let (_, step) = WebUiSearch::start("http://127.0.0.1:3080/".into(), 0);
    assert!(matches!(step, SearchStep::Done(false)));
}

#[test]
fn same_origin_ignores_case_and_query() {
    let target = "http://127.0.0.1:3080/";
    assert!(same_origin("HTTP://LocalHost:3080/Chat", "http://localhost:3080/"));
    assert!(same_origin("http://localhost:3080/chat", "HTTP://LOCALHOST:3080"));
    assert!(same_origin("http://127.0.0.1:3080/chat?q#f", target));
    assert!(same_origin("127.0.0.1:3080?q#f", target));
    assert!(!same_origin("http://127.0.0.1:3081/?q#f", target));
    assert!(!same_origin("ftp://x", "ftp://x"));
}

#[test]
fn commands_are_looked_for_directory_by_directory() {
    let directories = vec!["C:\\bin".to_owned(), "D:\\tools\\".to_owned()];
    assert_eq!(
        candidate_paths(&directories, "dsh"),
        vec![
            "C:\\bin\\dsh.exe",
            "C:\\bin\\dsh.cmd",
            "C:\\bin\\dsh.bat",
            "C:\\bin\\dsh.com",
            "C:\\bin\\dsh",
            "D:\\tools\\dsh.exe",
            "D:\\tools\\dsh.cmd",
            "D:\\tools\\dsh.bat",
            "D:\\tools\\dsh.com",
            "D:\\tools\\dsh",
        ]
    );
    assert_eq!(candidate_paths(&directories, "npm.cmd"), vec!["C:\\bin\\npm.cmd", "D:\\tools\\npm.cmd"]);
    assert!(candidate_paths(&Vec::new(), "dsh").is_empty());
}

#[test]
fn command_waits_end_in_time() {
    assert!(matches!(command_wait(CommandPoll::Exited(false), false, "x"), CommandWait::Finished(false)));
    assert!(matches!(command_wait(CommandPoll::Running, true, "x"), CommandWait::Sleep));
    assert!(matches!(
        command_wait(CommandPoll::Running, false, "C:\\npm.cmd"),
        CommandWait::Abandon(message) if message == "命令执行超时：C:\\npm.cmd"
    ));
    assert!(matches!(
        command_wait(CommandPoll::Failed("denied".into()), true, "x"),
        CommandWait::Abandon(message) if message == "等待命令结束失败：denied"
    ));
}

#[test]
fn startup_waits_for_the_port_until_the_deadline() {
    assert_eq!(startup_check(true, true), StartupCheck::Probe);
    assert_eq!(startup_check(true, false), StartupCheck::Exited);
    assert_eq!(startup_check(false, true), StartupCheck::TimedOut);
    assert_eq!(startup_check(false, false), StartupCheck::TimedOut);
}
