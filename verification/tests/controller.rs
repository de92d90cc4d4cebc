use deepseek_harness_launcher::command::ResolvedCommand;
use deepseek_harness_launcher::controller::{
    Controller, DshUpdateInfo, Effect, LauncherUpdateInfo, LogLevel, MenuEntry, MessageKind,
    WorkerEvent, COMMAND_DSH_UPDATE, COMMAND_EXIT, COMMAND_LAUNCHER_UPDATE, COMMAND_LOG,
    COMMAND_OPEN, COMMAND_RESTART,
};
use deepseek_harness_launcher::dsh::{PackageManager, PackageManagerKind};

fn is_start(effect: &Effect, open: bool) -> bool {
    matches!(effect, Effect::StartHarness { open_browser } if *open_browser == open)
}

fn has_start(effects: &[Effect]) -> bool {
    effects.iter().any(|effect| matches!(effect, Effect::StartHarness { .. }))
}

fn shown(effect: &Effect) -> Option<(MessageKind, String)> {
    match effect {
        Effect::ShowMessage { kind, text } => Some((*kind, text.clone())),
        _ => None,
    }
}

fn dsh_info(installed: &str, latest: &str) -> DshUpdateInfo {
    DshUpdateInfo {
        installed_version: installed.into(),
        latest_version: latest.into(),
        manager: PackageManager {
            kind: PackageManagerKind::Npm,
            command: ResolvedCommand::new("C:\\npm.cmd".into()),
        },
    }
}

#[test]
fn new_controller_shows_both_versions() {
    let controller = Controller::new("0.2.0");
    assert_eq!(controller.dsh_version_label, "dsh 版本：未知 - 检查更新");
    assert_eq!(controller.launcher_version_label, "Launcher 版本：v0.2.0 - 检查更新");
    assert!(!controller.operation_in_progress && !controller.exiting);
}

#[test]
fn first_tick_starts_and_reads_the_version() {
    let mut controller = Controller::new("0.2.0");
    let effects = controller.on_timer();
    assert_eq!(effects.len(), 4);
    assert!(matches!(&effects[0], Effect::Log { level: LogLevel::Info, message } if message == "正在启动 DeepSeek Harness"));
    assert!(is_start(&effects[1], true));
    assert!(matches!(effects[2], Effect::RefreshVersion));
    assert!(matches!(effects[3], Effect::PollOpenRequest));
    assert!(controller.operation_in_progress);

    let later = controller.on_timer();
    assert_eq!(later.len(), 1);
    assert!(matches!(later[0], Effect::PollOpenRequest));
}

#[test]
fn busy_launcher_ignores_restart_and_update_commands() {
    let mut controller = Controller::new("0.2.0");
    let _ = controller.on_timer();
    for command in [COMMAND_RESTART, COMMAND_DSH_UPDATE, COMMAND_LAUNCHER_UPDATE] {
        assert!(controller.handle_command(command).is_empty());
    }
    assert!(matches!(controller.handle_command(COMMAND_OPEN)[0], Effect::OpenWebUi));
    assert!(matches!(controller.handle_command(COMMAND_LOG)[0], Effect::OpenLog));
    assert!(controller.handle_command(4242).is_empty());
}

#[test]
fn start_result_is_recorded_or_reported() {
    let mut controller = Controller::new("0.2.0");
    let _ = controller.on_timer();
    let effects = controller.handle_worker_event(WorkerEvent::StartFinished {
        result: Ok((9, "http://127.0.0.1:3080/".into())),
        open_browser: true,
    });
    assert!(!controller.operation_in_progress);
    assert!(matches!(&effects[0], Effect::SaveState { process_id: 9, web_ui_url } if web_ui_url == "http://127.0.0.1:3080/"));
    assert!(matches!(&effects[1], Effect::Log { message, .. } if message == "DeepSeek Harness 已就绪：http://127.0.0.1:3080/"));
    assert!(matches!(effects[2], Effect::OpenWebUi));

    let _ = controller.begin_start(false, true);
    let failed = controller.handle_start_finished(Err("端口被占用".into()), false);
    assert!(matches!(failed[0], Effect::ClearState));
    assert_eq!(
        shown(&failed[2]),
        Some((MessageKind::Error, "DeepSeek Harness 启动失败：\r\n\r\n端口被占用".to_owned()))
    );
}

#[test]
fn unexpected_exit_restarts_once() {
    let mut controller = Controller::new("0.2.0");
    let first = controller.handle_unexpected_exit();
    assert_eq!(first.len(), 3);
    assert!(is_start(&first[2], false));
    let _ = controller.handle_start_finished(Ok((1, "u".into())), false);

    let second = controller.handle_unexpected_exit();
    assert!(!has_start(&second));
    assert_eq!(
        shown(&second[1]),
        Some((
            MessageKind::Error,
            "DeepSeek Harness 再次意外退出，启动器已停止自动重启。".to_owned()
        ))
    );

    // a manual restart renews the budget
    let _ = controller.handle_command(COMMAND_RESTART);
    let _ = controller.handle_worker_event(WorkerEvent::RestartStopped { open_browser: true });
    let _ = controller.handle_start_finished(Ok((2, "u".into())), true);
    assert!(has_start(&controller.handle_unexpected_exit()));
}

#[test]
fn exit_is_permanent_and_starts_nothing() {
    let mut controller = Controller::new("0.2.0");
    let effects = controller.handle_command(COMMAND_EXIT);
    assert!(matches!(effects[0], Effect::RemoveTrayIcon));
    assert!(matches!(effects[2], Effect::StopForExit));
    assert!(controller.exiting);
    assert!(controller.handle_command(COMMAND_EXIT).is_empty());
    assert!(controller.handle_unexpected_exit().is_empty());
    assert!(!has_start(&controller.on_timer()));
    let restarted = controller.handle_worker_event(WorkerEvent::RestartStopped { open_browser: true });
    assert!(matches!(restarted[1], Effect::Quit));
    let finished = controller.handle_worker_event(WorkerEvent::ExitFinished);
    assert!(matches!(finished[0], Effect::ClearState));
    assert!(matches!(finished[1], Effect::Quit));
    assert!(controller.exiting);
}

#[test]
fn current_dsh_is_reported_as_latest() {
    let mut controller = Controller::new("0.2.0");
    let _ = controller.handle_command(COMMAND_DSH_UPDATE);
    let effects = controller.handle_dsh_update_check_finished(Ok(dsh_info("1.2.0", "v1.2.0")));
    assert!(!controller.operation_in_progress);
    assert_eq!(controller.dsh_version_label, "dsh 版本：v1.2.0 - 检查更新");
    assert_eq!(
        shown(&effects[0]),
        Some((MessageKind::Info, "当前已是最新版（v1.2.0）。".to_owned()))
    );
}

#[test]
fn newer_dsh_is_offered_and_installed() {
    let mut controller = Controller::new("0.2.0");
    let _ = controller.handle_command(COMMAND_DSH_UPDATE);
    let effects = controller.handle_dsh_update_check_finished(Ok(dsh_info("1.2.0", "1.3.0")));
    assert!(controller.operation_in_progress);
    let Effect::AskDshUpdate { prompt, info } = &effects[0] else {
        panic!("a question is asked");
    };
    assert_eq!(
        prompt,
        "发现 DeepSeek Harness 新版本：\r\n\r\n当前版本：v1.2.0\r\n最新版本：v1.3.0\r\n\r\n是否立即更新？"
    );
    let install = controller.dsh_update_answered(true, info.clone());
    assert!(matches!(&install[1], Effect::Log { message, .. } if message == "使用 npm 更新 DeepSeek Harness"));
    assert!(matches!(install[2], Effect::InstallDshUpdate { .. }));

    let done = controller.handle_worker_event(WorkerEvent::DshUpdateInstalled {
        result: Ok(String::new()),
        latest_version: "1.3.0".into(),
    });
    assert_eq!(
        shown(&done[0]),
        Some((MessageKind::Info, "DeepSeek Harness 已更新到 v1.3.0，即将重启服务。".to_owned()))
    );
    assert!(is_start(&done[2], true));
    assert_eq!(controller.dsh_version_label, "dsh 版本：v1.3.0 - 检查更新");
}

#[test]
fn declined_update_frees_the_launcher() {
    let mut controller = Controller::new("0.2.0");
    let _ = controller.handle_command(COMMAND_DSH_UPDATE);
    assert!(controller.dsh_update_answered(false, dsh_info("1", "2")).is_empty());
    assert!(!controller.operation_in_progress);
}

#[test]
fn failed_update_restarts_the_harness() {
    let mut controller = Controller::new("0.2.0");
    let _ = controller.handle_command(COMMAND_DSH_UPDATE);
    let effects = controller.handle_dsh_update_installed(Err("EPERM".into()), "1.3.0");
    assert!(matches!(&effects[0], Effect::Log { level: LogLevel::Error, message } if message == "安装 DeepSeek Harness 更新失败：EPERM"));
    assert!(is_start(&effects[3], true));
}

#[test]
fn launcher_update_flow() {
    let mut controller = Controller::new("0.2.0");
    let _ = controller.handle_command(COMMAND_LAUNCHER_UPDATE);
    let info = LauncherUpdateInfo {
        installed_version: "0.2.0".into(),
        latest_version: "v0.3.0".into(),
        asset_url: "https://github.com/a".into(),
    };
    let asked = controller.handle_launcher_update_check_finished(Ok(info.clone()));
    assert!(matches!(&asked[0], Effect::AskLauncherUpdate { prompt, .. }
        if prompt == "发现 Launcher 新版本：\r\n\r\n当前版本：v0.2.0\r\n最新版本：v0.3.0\r\n\r\n是否立即下载并重启 Launcher？"));
    let download = controller.launcher_update_answered(true, info);
    assert!(matches!(&download[1], Effect::DownloadLauncherUpdate { asset_url } if asset_url == "https://github.com/a"));

    let staged = controller.handle_launcher_update_downloaded(Ok("C:\\t\\d.exe".into()));
    assert!(matches!(&staged[0], Effect::InstallLauncherUpdate { download_path } if download_path == "C:\\t\\d.exe"));

    let failed = controller.launcher_update_installed(Err("denied".into()), "C:\\t\\d.exe".into());
    assert!(matches!(&failed[0], Effect::RemoveFile { path } if path == "C:\\t\\d.exe"));
    assert!(!controller.operation_in_progress);

    let _ = controller.handle_command(COMMAND_LAUNCHER_UPDATE);
    let installed = controller.launcher_update_installed(Ok(()), "C:\\t\\d.exe".into());
    assert!(matches!(installed[4], Effect::StopForExit));
    assert!(controller.exiting);
}

#[test]
fn launcher_check_errors_are_shown() {
    let mut controller = Controller::new("0.2.0");
    let _ = controller.handle_command(COMMAND_LAUNCHER_UPDATE);
    let effects = controller.handle_launcher_update_check_finished(Err("offline".into()));
    assert_eq!(
        shown(&effects[1]),
        Some((MessageKind::Error, "检查 Launcher 更新失败：\r\n\r\noffline".to_owned()))
    );
    let failed_download = controller.handle_launcher_update_downloaded(Err("404".into()));
    assert_eq!(
        shown(&failed_download[0]),
        Some((MessageKind::Error, "下载或安装 Launcher 更新失败：\r\n\r\n404".to_owned()))
    );
}

#[test]
fn version_errors_reset_the_label() {
    let mut controller = Controller::new("0.2.0");
    let _ = controller.handle_version_finished(Ok(deepseek_harness_launcher::controller::VersionInfo {
        version: "v1.0".into(),
        manager_name: "npm".into(),
    }));
    assert_eq!(controller.dsh_version_label, "dsh 版本：v1.0 - 检查更新");
    let effects = controller.handle_version_finished(Err("missing".into()));
    assert_eq!(controller.dsh_version_label, "dsh 版本：未知 - 检查更新");
    assert!(matches!(&effects[0], Effect::Log { message, .. } if message == "读取 DeepSeek Harness 版本失败：missing"));
}

#[test]
fn open_failures_are_reported() {
    let controller = Controller::new("0.2.0");
    let effects = controller.web_ui_open_failed("code 2");
    assert_eq!(
        shown(&effects[1]),
        Some((MessageKind::Error, "无法打开默认浏览器：\r\n\r\ncode 2".to_owned()))
    );
    let effects = controller.log_open_failed("code 3");
    assert!(matches!(&effects[0], Effect::Log { message, .. } if message == "无法打开日志文件：code 3"));
}

#[test]
fn menu_disables_commands_while_busy() {
    let mut controller = Controller::new("0.2.0");
    let idle = controller.context_menu(true);
    assert_eq!(idle.len(), 8);
    assert!(matches!(&idle[0], MenuEntry::Item { command, label, enabled: true } if *command == COMMAND_OPEN && label == "打开 Web UI"));
    assert!(matches!(idle[3], MenuEntry::Separator));
    assert!(matches!(&idle[4], MenuEntry::Item { label, enabled: true, .. } if label == "dsh 版本：未知 - 检查更新"));

    let _ = controller.on_timer();
    let busy = controller.context_menu(true);
    assert!(matches!(busy[0], MenuEntry::Item { enabled: false, .. }));
    assert!(matches!(busy[1], MenuEntry::Item { enabled: false, .. }));
    assert!(matches!(busy[2], MenuEntry::Item { enabled: true, .. }));
    assert!(matches!(busy[7], MenuEntry::Item { enabled: true, .. }));

    let stopped = Controller::new("0.2.0").context_menu(false);
    assert!(matches!(stopped[0], MenuEntry::Item { enabled: false, .. }));
}

#[test]
fn exit_stops_the_harness_even_while_busy() {
    let mut controller = Controller::new("0.2.0");
    let _ = controller.handle_command(COMMAND_DSH_UPDATE);
    assert!(controller.operation_in_progress);
    let effects = controller.handle_command(COMMAND_EXIT);
    assert!(matches!(effects.first(), Some(Effect::RemoveTrayIcon)));
    assert!(matches!(effects.last(), Some(Effect::StopForExit)));
    assert!(controller.exiting);
    let finished = controller.handle_worker_event(WorkerEvent::ExitFinished);
    assert_eq!(finished.len(), 2);
    assert!(matches!(finished[0], Effect::ClearState));
    assert!(matches!(finished[1], Effect::Quit));
}

#[test]
fn unexpected_exit_while_busy_restarts_once_the_operation_ends() {
    let mut controller = Controller::new("0.2.0");
    let _ = controller.on_timer();
    let _ = controller.handle_start_finished(Ok((1, "u".into())), true);
    let _ = controller.handle_command(COMMAND_DSH_UPDATE);
    assert!(controller.operation_in_progress);

    let exited = controller.handle_unexpected_exit();
    assert_eq!(exited.len(), 1);
    assert!(!has_start(&exited));
    assert!(controller.restart_pending);
    assert!(!controller.automatic_restart_used);

    // still busy: the tick waits
    assert!(!has_start(&controller.on_timer()));

    let _ = controller.handle_dsh_update_check_finished(Ok(dsh_info("1.0.0", "1.0.0")));
    assert!(!controller.operation_in_progress);
    let tick = controller.on_timer();
    assert_eq!(tick.len(), 3);
    assert!(is_start(&tick[1], false));
    assert!(matches!(tick[2], Effect::PollOpenRequest));
    assert!(controller.automatic_restart_used);
    assert!(!controller.restart_pending);

    let _ = controller.handle_start_finished(Ok((2, "u".into())), false);
    assert!(!has_start(&controller.handle_unexpected_exit()));
}
