//! The tray launcher's decisions.
//!
//! The launcher reacts to timer ticks, menu commands, the answers of its dialogs and the
//! completion of its background operations. Each reaction is a transition of `Controller`
//! that yields the `Effect`s to perform, in order: log lines, dialogs, and background
//! operations whose completion comes back as a `WorkerEvent`.
use vstd::prelude::*;
use vstd::string::StringExecFns;
use crate::dsh::{spec_display_name, PackageManager};
use crate::version::{
    spec_trim_version, spec_version_label, spec_versions_equal, trim_version, unknown_version_label,
    version_label, versions_equal,
};

verus! {

/// Tray menu command: open the Web UI.
pub const COMMAND_OPEN: usize = 1001;

/// Tray menu command: restart the Harness.
pub const COMMAND_RESTART: usize = 1002;

/// Tray menu command: open the current log file.
pub const COMMAND_LOG: usize = 1003;

/// Tray menu command: check for a `dsh` update.
pub const COMMAND_DSH_UPDATE: usize = 1004;

/// Tray menu command: check for a launcher update.
pub const COMMAND_LAUNCHER_UPDATE: usize = 1005;

/// Tray menu command: exit.
pub const COMMAND_EXIT: usize = 1006;

/// Severity of a log line.
#[derive(Clone, Copy, Debug, PartialEq, Eq, Structural)]
pub enum LogLevel {
    Info,
    Error,
}

/// Icon of a message box.
#[derive(Clone, Copy, Debug, PartialEq, Eq, Structural)]
pub enum MessageKind {
    Info,
    Error,
}

/// The installed `dsh` version and the manager that installed it.
#[derive(Clone, Debug)]
pub struct VersionInfo {
    pub version: String,
    pub manager_name: String,
}

/// The installed and latest `dsh` versions.
#[derive(Clone, Debug)]
pub struct DshUpdateInfo {
    pub installed_version: String,
    pub latest_version: String,
    pub manager: PackageManager,
}

/// The installed and latest launcher versions.
#[derive(Clone, Debug)]
pub struct LauncherUpdateInfo {
    pub installed_version: String,
    pub latest_version: String,
    pub asset_url: String,
}

/// The completion of a background operation.
#[derive(Debug)]
pub enum WorkerEvent {
    /// `StartHarness` finished with the process id and Web UI address, or an error.
    StartFinished { result: Result<(u32, String), String>, open_browser: bool },
    /// `RefreshVersion` finished.
    VersionFinished(Result<VersionInfo, String>),
    /// `CheckDshUpdate` finished.
    DshUpdateCheckFinished(Result<DshUpdateInfo, String>),
    /// `InstallDshUpdate` finished with the update's output, or an error.
    DshUpdateInstalled { result: Result<String, String>, latest_version: String },
    /// `CheckLauncherUpdate` finished.
    LauncherUpdateCheckFinished(Result<LauncherUpdateInfo, String>),
    /// `DownloadLauncherUpdate` finished with the path of the saved file, or an error.
    LauncherUpdateDownloaded(Result<String, String>),
    /// `StopForRestart` finished.
    RestartStopped { open_browser: bool },
    /// `StopForExit` finished.
    ExitFinished,
}

/// Something the launcher must do.
#[derive(Debug)]
pub enum Effect {
    Log { level: LogLevel, message: String },
    ShowMessage { kind: MessageKind, text: String },
    /// Record the running Harness in the state file.
    SaveState { process_id: u32, web_ui_url: String },
    /// Remove the state file.
    ClearState,
    /// In the background: start the Harness and wait until it serves; reports `StartFinished`.
    StartHarness { open_browser: bool },
    /// In the background: stop the Harness and remove the state file; reports `RestartStopped`.
    StopForRestart { open_browser: bool },
    /// Remove the tray icon.
    RemoveTrayIcon,
    /// In the background: stop the Harness; reports `ExitFinished`.
    StopForExit,
    /// In the background: read the installed `dsh` version; reports `VersionFinished`.
    RefreshVersion,
    /// Consume a pending request of a second launcher instance to open the Web UI, and open
    /// it if there was one.
    PollOpenRequest,
    /// Open the Web UI in the browser, if the Harness is running.
    OpenWebUi,
    /// Open the current log file.
    OpenLog,
    /// In the background: read the installed and latest `dsh` versions; reports
    /// `DshUpdateCheckFinished`.
    CheckDshUpdate,
    /// Ask the yes/no question `prompt`; the answer goes to `Controller::dsh_update_answered`.
    AskDshUpdate { prompt: String, info: DshUpdateInfo },
    /// In the background: stop the Harness, remove the state file and run the update;
    /// reports `DshUpdateInstalled`.
    InstallDshUpdate { info: DshUpdateInfo },
    /// In the background: read the latest launcher release; reports
    /// `LauncherUpdateCheckFinished`.
    CheckLauncherUpdate,
    /// Ask the yes/no question `prompt`; the answer goes to
    /// `Controller::launcher_update_answered`.
    AskLauncherUpdate { prompt: String, info: LauncherUpdateInfo },
    /// In the background: download and save the launcher; reports `LauncherUpdateDownloaded`.
    DownloadLauncherUpdate { asset_url: String },
    /// Stage the downloaded launcher and its replacement script; the outcome goes to
    /// `Controller::launcher_update_installed`.
    InstallLauncherUpdate { download_path: String },
    /// Delete a file, ignoring failure.
    RemoveFile { path: String },
    /// Leave the message loop.
    Quit,
}

/// The abstract form of an `Effect`.
pub enum EffectView {
    Log { level: LogLevel, message: Seq<char> },
    ShowMessage { kind: MessageKind, text: Seq<char> },
    SaveState { process_id: u32, web_ui_url: Seq<char> },
    ClearState,
    StartHarness { open_browser: bool },
    StopForRestart { open_browser: bool },
    RemoveTrayIcon,
    StopForExit,
    RefreshVersion,
    PollOpenRequest,
    OpenWebUi,
    OpenLog,
    CheckDshUpdate,
    AskDshUpdate { prompt: Seq<char>, info: DshUpdateInfo },
    InstallDshUpdate { info: DshUpdateInfo },
    CheckLauncherUpdate,
    AskLauncherUpdate { prompt: Seq<char>, info: LauncherUpdateInfo },
    DownloadLauncherUpdate { asset_url: Seq<char> },
    InstallLauncherUpdate { download_path: Seq<char> },
    RemoveFile { path: Seq<char> },
    Quit,
}

impl View for Effect {
    type V = EffectView;

    open spec fn view(&self) -> EffectView {
        match self {
            Effect::Log { level, message } => EffectView::Log { level: *level, message: message@ },
            Effect::ShowMessage { kind, text } => EffectView::ShowMessage { kind: *kind, text: text@ },
            Effect::SaveState { process_id, web_ui_url } => EffectView::SaveState {
                process_id: *process_id,
                web_ui_url: web_ui_url@,
            },
            Effect::ClearState => EffectView::ClearState,
            Effect::StartHarness { open_browser } => EffectView::StartHarness {
                open_browser: *open_browser,
            },
            Effect::StopForRestart { open_browser } => EffectView::StopForRestart {
                open_browser: *open_browser,
            },
            Effect::RemoveTrayIcon => EffectView::RemoveTrayIcon,
            Effect::StopForExit => EffectView::StopForExit,
            Effect::RefreshVersion => EffectView::RefreshVersion,
            Effect::PollOpenRequest => EffectView::PollOpenRequest,
            Effect::OpenWebUi => EffectView::OpenWebUi,
            Effect::OpenLog => EffectView::OpenLog,
            Effect::CheckDshUpdate => EffectView::CheckDshUpdate,
            Effect::AskDshUpdate { prompt, info } => EffectView::AskDshUpdate {
                prompt: prompt@,
                info: *info,
            },
            Effect::InstallDshUpdate { info } => EffectView::InstallDshUpdate { info: *info },
            Effect::CheckLauncherUpdate => EffectView::CheckLauncherUpdate,
            Effect::AskLauncherUpdate { prompt, info } => EffectView::AskLauncherUpdate {
                prompt: prompt@,
                info: *info,
            },
            Effect::DownloadLauncherUpdate { asset_url } => EffectView::DownloadLauncherUpdate {
                asset_url: asset_url@,
            },
            Effect::InstallLauncherUpdate { download_path } => EffectView::InstallLauncherUpdate {
                download_path: download_path@,
            },
            Effect::RemoveFile { path } => EffectView::RemoveFile { path: path@ },
            Effect::Quit => EffectView::Quit,
        }
    }
}

/// The views of a list of effects.
pub open spec fn effect_views(effects: Seq<Effect>) -> Seq<EffectView> {
    effects.map_values(|e: Effect| e@)
}

/// The launcher's state.
#[derive(Debug)]
pub struct Controller {
    /// A background operation (start, restart, update check or installation, exit) is under
    /// way; further commands that start one are ignored.
    pub operation_in_progress: bool,
    /// The Harness has already been restarted once after exiting unexpectedly.
    pub automatic_restart_used: bool,
    /// The Harness exited unexpectedly while an operation was under way; it is restarted
    /// automatically once that operation has ended.
    pub restart_pending: bool,
    /// The launcher is shutting down.
    pub exiting: bool,
    /// The first start has been requested.
    pub initial_started: bool,
    /// The tray menu label of the `dsh` version.
    pub dsh_version_label: String,
    /// The tray menu label of the launcher version.
    pub launcher_version_label: String,
}

/// The abstract form of a `Controller`.
pub struct ControllerView {
    pub operation_in_progress: bool,
    pub automatic_restart_used: bool,
    pub restart_pending: bool,
    pub exiting: bool,
    pub initial_started: bool,
    pub dsh_version_label: Seq<char>,
    pub launcher_version_label: Seq<char>,
}

impl View for Controller {
    type V = ControllerView;

    open spec fn view(&self) -> ControllerView {
        ControllerView {
            operation_in_progress: self.operation_in_progress,
            automatic_restart_used: self.automatic_restart_used,
            restart_pending: self.restart_pending,
            exiting: self.exiting,
            initial_started: self.initial_started,
            dsh_version_label: self.dsh_version_label@,
            launcher_version_label: self.launcher_version_label@,
        }
    }
}

/// An entry of the tray menu.
#[derive(Debug)]
pub enum MenuEntry {
    Item { command: usize, label: String, enabled: bool },
    Separator,
}

/// The abstract form of a `MenuEntry`.
pub enum MenuEntryView {
    Item { command: usize, label: Seq<char>, enabled: bool },
    Separator,
}

impl View for MenuEntry {
    type V = MenuEntryView;

    open spec fn view(&self) -> MenuEntryView {
        match self {
            MenuEntry::Item { command, label, enabled } => MenuEntryView::Item {
                command: *command,
                label: label@,
                enabled: *enabled,
            },
            MenuEntry::Separator => MenuEntryView::Separator,
        }
    }
}

/// Everything the launcher reacts to.
pub enum Input {
    Tick,
    Command(usize),
    UnexpectedExit,
    Worker(WorkerEvent),
    DshUpdateAnswered { yes: bool, info: DshUpdateInfo },
    LauncherUpdateAnswered { yes: bool, info: LauncherUpdateInfo },
    LauncherUpdateInstalled { result: Result<(), String>, download_path: String },
    WebUiOpenFailed(String),
    LogOpenFailed(String),
}

/// A log line.
pub open spec fn log(level: LogLevel, message: Seq<char>) -> EffectView {
    EffectView::Log { level, message }
}

/// A message box.
pub open spec fn show(kind: MessageKind, text: Seq<char>) -> EffectView {
    EffectView::ShowMessage { kind, text }
}

/// The state with a different busy flag.
pub open spec fn with_busy(s: ControllerView, busy: bool) -> ControllerView {
    ControllerView { operation_in_progress: busy, ..s }
}

/// Starting the Harness, unless an operation is under way or the launcher is exiting.
/// `reset_restart_budget` allows one more automatic restart afterwards; a start also takes the
/// place of a pending automatic restart.
pub open spec fn spec_begin_start(s: ControllerView, open_browser: bool, reset_restart_budget: bool) -> (
    ControllerView,
    Seq<EffectView>,
) {
    if s.operation_in_progress || s.exiting {
        (s, Seq::empty())
    } else {
        (
            ControllerView {
                operation_in_progress: true,
                automatic_restart_used: if reset_restart_budget {
                    false
                } else {
                    s.automatic_restart_used
                },
                restart_pending: false,
                ..s
            },
            seq![
                log(LogLevel::Info, "正在启动 DeepSeek Harness"@),
                EffectView::StartHarness { open_browser },
            ],
        )
    }
}

/// Restarting the Harness, unless an operation is under way or the launcher is exiting.
pub open spec fn spec_begin_restart(s: ControllerView, open_browser: bool) -> (
    ControllerView,
    Seq<EffectView>,
) {
    if s.operation_in_progress || s.exiting {
        (s, Seq::empty())
    } else {
        (
            with_busy(s, true),
            seq![
                log(LogLevel::Info, "正在停止 DeepSeek Harness"@),
                EffectView::StopForRestart { open_browser },
            ],
        )
    }
}

/// Beginning to exit, once.
pub open spec fn spec_begin_exit(s: ControllerView) -> (ControllerView, Seq<EffectView>) {
    if s.exiting {
        (s, Seq::empty())
    } else {
        (
            ControllerView { exiting: true, operation_in_progress: true, ..s },
            seq![
                EffectView::RemoveTrayIcon,
                log(LogLevel::Info, "正在退出启动器并停止 DeepSeek Harness"@),
                EffectView::StopForExit,
            ],
        )
    }
}

/// Checking for a `dsh` update, unless an operation is under way or the launcher is exiting.
pub open spec fn spec_begin_dsh_update_check(s: ControllerView) -> (ControllerView, Seq<EffectView>) {
    if s.operation_in_progress || s.exiting {
        (s, Seq::empty())
    } else {
        (
            with_busy(s, true),
            seq![log(LogLevel::Info, "正在检查 DeepSeek Harness 更新"@), EffectView::CheckDshUpdate],
        )
    }
}

/// Checking for a launcher update, unless an operation is under way or the launcher is exiting.
pub open spec fn spec_begin_launcher_update_check(s: ControllerView) -> (
    ControllerView,
    Seq<EffectView>,
) {
    if s.operation_in_progress || s.exiting {
        (s, Seq::empty())
    } else {
        (
            with_busy(s, true),
            seq![log(LogLevel::Info, "正在检查 Launcher 更新"@), EffectView::CheckLauncherUpdate],
        )
    }
}

/// The automatic restart that was put off while an operation was under way, once the launcher
/// is idle and not exiting.
pub open spec fn spec_pending_restart(s: ControllerView) -> (ControllerView, Seq<EffectView>) {
    if s.restart_pending && !s.operation_in_progress && !s.exiting {
        spec_begin_start(ControllerView { automatic_restart_used: true, ..s }, false, false)
    } else {
        (s, Seq::empty())
    }
}

/// A timer tick: the first one starts the Harness and reads the `dsh` version; a tick that
/// finds the launcher idle carries out a pending automatic restart; every tick that is not
/// during exit looks for a request to open the Web UI.
pub open spec fn spec_on_timer(s: ControllerView) -> (ControllerView, Seq<EffectView>) {
    let (s1, e1) = if !s.initial_started {
        let (t, e) = spec_begin_start(ControllerView { initial_started: true, ..s }, true, true);
        (t, e.push(EffectView::RefreshVersion))
    } else {
        (s, Seq::empty())
    };
    let (s2, e2) = spec_pending_restart(s1);
    let e3 = e1 + e2;
    if !s2.exiting {
        (s2, e3.push(EffectView::PollOpenRequest))
    } else {
        (s2, e3)
    }
}

/// A tray menu command.
pub open spec fn spec_handle_command(s: ControllerView, command: usize) -> (
    ControllerView,
    Seq<EffectView>,
) {
    if command == COMMAND_OPEN {
        (s, seq![EffectView::OpenWebUi])
    } else if command == COMMAND_RESTART {
        spec_begin_restart(s, true)
    } else if command == COMMAND_LOG {
        (s, seq![EffectView::OpenLog])
    } else if command == COMMAND_DSH_UPDATE {
        spec_begin_dsh_update_check(s)
    } else if command == COMMAND_LAUNCHER_UPDATE {
        spec_begin_launcher_update_check(s)
    } else if command == COMMAND_EXIT {
        spec_begin_exit(s)
    } else {
        (s, Seq::empty())
    }
}

/// The Harness exited without being asked to: it is restarted once, without opening the
/// browser, at once when the launcher is idle, else as soon as the operation under way has
/// ended; a second unexpected exit is only reported.
pub open spec fn spec_handle_unexpected_exit(s: ControllerView) -> (
    ControllerView,
    Seq<EffectView>,
) {
    if s.exiting {
        (s, Seq::empty())
    } else if !s.automatic_restart_used && s.operation_in_progress {
        (
            ControllerView { restart_pending: true, ..s },
            seq![log(LogLevel::Error, "DeepSeek Harness 意外退出，准备自动重启一次"@)],
        )
    } else if !s.automatic_restart_used {
        let (t, e) = spec_begin_start(
            ControllerView { automatic_restart_used: true, ..s },
            false,
            false,
        );
        (t, seq![log(LogLevel::Error, "DeepSeek Harness 意外退出，准备自动重启一次"@)] + e)
    } else {
        (
            s,
            seq![
                log(LogLevel::Error, "DeepSeek Harness 再次意外退出，停止自动重启"@),
                show(MessageKind::Error, "DeepSeek Harness 再次意外退出，启动器已停止自动重启。"@),
            ],
        )
    }
}

/// The end of a start attempt.
pub open spec fn spec_handle_start_finished(
    s: ControllerView,
    result: Result<(u32, String), String>,
    open_browser: bool,
) -> (ControllerView, Seq<EffectView>) {
    let t = with_busy(s, false);
    match result {
        Ok((process_id, web_ui_url)) => {
            let e = seq![
                EffectView::SaveState { process_id, web_ui_url: web_ui_url@ },
                log(LogLevel::Info, "DeepSeek Harness 已就绪："@ + web_ui_url@),
            ];
            (t, if open_browser {
                e.push(EffectView::OpenWebUi)
            } else {
                e
            })
        },
        Err(error) => (
            t,
            seq![
                EffectView::ClearState,
                log(LogLevel::Error, "DeepSeek Harness 启动失败："@ + error@),
                show(MessageKind::Error, "DeepSeek Harness 启动失败：\r\n\r\n"@ + error@),
            ],
        ),
    }
}

/// The end of reading the `dsh` version.
pub open spec fn spec_handle_version_finished(s: ControllerView, result: Result<VersionInfo, String>) -> (
    ControllerView,
    Seq<EffectView>,
) {
    match result {
        Ok(info) => (
            ControllerView { dsh_version_label: spec_version_label("dsh"@, info.version@), ..s },
            Seq::empty(),
        ),
        Err(error) => (
            ControllerView { dsh_version_label: "dsh"@ + " 版本：未知 - 检查更新"@, ..s },
            seq![log(LogLevel::Error, "读取 DeepSeek Harness 版本失败："@ + error@)],
        ),
    }
}

/// The question asked before updating `dsh`.
pub open spec fn dsh_update_prompt(info: DshUpdateInfo) -> Seq<char> {
    "发现 DeepSeek Harness 新版本：\r\n\r\n当前版本：v"@ + spec_trim_version(info.installed_version@)
        + "\r\n最新版本：v"@ + spec_trim_version(info.latest_version@) + "\r\n\r\n是否立即更新？"@
}

/// The end of a `dsh` update check: already current, or ask whether to update.
pub open spec fn spec_handle_dsh_update_check_finished(
    s: ControllerView,
    result: Result<DshUpdateInfo, String>,
) -> (ControllerView, Seq<EffectView>) {
    match result {
        Err(error) => (
            with_busy(s, false),
            seq![
                log(LogLevel::Error, "检查 DeepSeek Harness 更新失败："@ + error@),
                show(MessageKind::Error, "检查或安装更新失败：\r\n\r\n"@ + error@),
            ],
        ),
        Ok(info) => {
            let t = ControllerView {
                dsh_version_label: spec_version_label("dsh"@, info.installed_version@),
                ..s
            };
            if spec_versions_equal(info.installed_version@, info.latest_version@) {
                (
                    with_busy(t, false),
                    seq![
                        show(
                            MessageKind::Info,
                            "当前已是最新版（v"@ + spec_trim_version(info.installed_version@)
                                + "）。"@,
                        ),
                    ],
                )
            } else {
                (t, seq![EffectView::AskDshUpdate { prompt: dsh_update_prompt(info), info }])
            }
        },
    }
}

/// The answer to the `dsh` update question: install, or give up.
pub open spec fn spec_dsh_update_answered(s: ControllerView, yes: bool, info: DshUpdateInfo) -> (
    ControllerView,
    Seq<EffectView>,
) {
    if yes {
        (
            s,
            seq![
                log(LogLevel::Info, "正在停止 DeepSeek Harness 以安装更新"@),
                log(
                    LogLevel::Info,
                    "使用 "@ + spec_display_name(info.manager.kind) + " 更新 DeepSeek Harness"@,
                ),
                EffectView::InstallDshUpdate { info },
            ],
        )
    } else {
        (with_busy(s, false), Seq::empty())
    }
}

/// The end of a `dsh` update; the Harness is started again either way.
pub open spec fn spec_handle_dsh_update_installed(
    s: ControllerView,
    result: Result<String, String>,
    latest_version: Seq<char>,
) -> (ControllerView, Seq<EffectView>) {
    match result {
        Ok(_) => {
            let t = ControllerView {
                dsh_version_label: spec_version_label("dsh"@, latest_version),
                operation_in_progress: false,
                ..s
            };
            let (u, e) = spec_begin_start(t, true, true);
            (
                u,
                seq![
                    show(
                        MessageKind::Info,
                        "DeepSeek Harness 已更新到 v"@ + spec_trim_version(latest_version)
                            + "，即将重启服务。"@,
                    ),
                ] + e,
            )
        },
        Err(error) => {
            let (u, e) = spec_begin_start(with_busy(s, false), true, true);
            (
                u,
                seq![
                    log(LogLevel::Error, "安装 DeepSeek Harness 更新失败："@ + error@),
                    show(
                        MessageKind::Error,
                        "检查或安装更新失败，正在尝试重新启动 Harness：\r\n\r\n"@ + error@,
                    ),
                ] + e,
            )
        },
    }
}

/// The question asked before updating the launcher.
pub open spec fn launcher_update_prompt(info: LauncherUpdateInfo) -> Seq<char> {
    "发现 Launcher 新版本：\r\n\r\n当前版本：v"@ + spec_trim_version(info.installed_version@)
        + "\r\n最新版本：v"@ + spec_trim_version(info.latest_version@)
        + "\r\n\r\n是否立即下载并重启 Launcher？"@
}

/// The end of a launcher update check: already current, or ask whether to update.
pub open spec fn spec_handle_launcher_update_check_finished(
    s: ControllerView,
    result: Result<LauncherUpdateInfo, String>,
) -> (ControllerView, Seq<EffectView>) {
    match result {
        Err(error) => (
            with_busy(s, false),
            seq![
                log(LogLevel::Error, "检查 Launcher 更新失败："@ + error@),
                show(MessageKind::Error, "检查 Launcher 更新失败：\r\n\r\n"@ + error@),
            ],
        ),
        Ok(info) => {
            let t = ControllerView {
                launcher_version_label: spec_version_label("Launcher"@, info.installed_version@),
                ..s
            };
            if spec_versions_equal(info.installed_version@, info.latest_version@) {
                (
                    with_busy(t, false),
                    seq![
                        show(
                            MessageKind::Info,
                            "当前 Launcher 已是最新版（v"@ + spec_trim_version(info.installed_version@)
                                + "）。"@,
                        ),
                    ],
                )
            } else {
                (
                    t,
                    seq![EffectView::AskLauncherUpdate { prompt: launcher_update_prompt(info), info }],
                )
            }
        },
    }
}

/// The answer to the launcher update question: download, or give up.
pub open spec fn spec_launcher_update_answered(
    s: ControllerView,
    yes: bool,
    info: LauncherUpdateInfo,
) -> (ControllerView, Seq<EffectView>) {
    if yes {
        (
            s,
            seq![
                log(LogLevel::Info, "正在下载 Launcher 更新"@),
                EffectView::DownloadLauncherUpdate { asset_url: info.asset_url@ },
            ],
        )
    } else {
        (with_busy(s, false), Seq::empty())
    }
}

/// The end of a launcher download.
pub open spec fn spec_handle_launcher_update_downloaded(s: ControllerView, result: Result<String, String>) -> (
    ControllerView,
    Seq<EffectView>,
) {
    match result {
        Ok(path) => (s, seq![EffectView::InstallLauncherUpdate { download_path: path@ }]),
        Err(error) => (
            with_busy(s, false),
            seq![show(MessageKind::Error, "下载或安装 Launcher 更新失败：\r\n\r\n"@ + error@)],
        ),
    }
}

/// The outcome of staging the downloaded launcher: on success the launcher exits so that the
/// replacement can take its place; on failure the download is removed.
pub open spec fn spec_launcher_update_installed(
    s: ControllerView,
    result: Result<(), String>,
    download_path: Seq<char>,
) -> (ControllerView, Seq<EffectView>) {
    match result {
        Err(error) => (
            with_busy(s, false),
            seq![
                EffectView::RemoveFile { path: download_path },
                log(LogLevel::Error, "安装 Launcher 更新失败："@ + error@),
                show(MessageKind::Error, "下载或安装 Launcher 更新失败：\r\n\r\n"@ + error@),
            ],
        ),
        Ok(_) => {
            let (t, e) = spec_begin_exit(with_busy(s, false));
            (
                t,
                seq![
                    log(LogLevel::Info, "Launcher 更新已准备完成，正在重启启动器"@),
                    show(MessageKind::Info, "Launcher 更新已下载，应用即将重启。"@),
                ] + e,
            )
        },
    }
}

/// The completion of a background operation.
pub open spec fn spec_handle_worker_event(s: ControllerView, event: WorkerEvent) -> (
    ControllerView,
    Seq<EffectView>,
) {
    match event {
        WorkerEvent::StartFinished { result, open_browser } => spec_handle_start_finished(
            s,
            result,
            open_browser,
        ),
        WorkerEvent::VersionFinished(result) => spec_handle_version_finished(s, result),
        WorkerEvent::DshUpdateCheckFinished(result) => spec_handle_dsh_update_check_finished(
            s,
            result,
        ),
        WorkerEvent::DshUpdateInstalled { result, latest_version } =>
            spec_handle_dsh_update_installed(s, result, latest_version@),
        WorkerEvent::LauncherUpdateCheckFinished(result) =>
            spec_handle_launcher_update_check_finished(s, result),
        WorkerEvent::LauncherUpdateDownloaded(result) => spec_handle_launcher_update_downloaded(
            s,
            result,
        ),
        WorkerEvent::RestartStopped { open_browser } => if s.exiting {
            (with_busy(s, false), seq![EffectView::ClearState, EffectView::Quit])
        } else {
            spec_begin_start(with_busy(s, false), open_browser, true)
        },
        WorkerEvent::ExitFinished => (
            with_busy(s, false),
            seq![EffectView::ClearState, EffectView::Quit],
        ),
    }
}

/// Opening the browser failed.
pub open spec fn spec_web_ui_open_failed(error: Seq<char>) -> Seq<EffectView> {
    seq![
        log(LogLevel::Error, "无法打开默认浏览器："@ + error),
        show(MessageKind::Error, "无法打开默认浏览器：\r\n\r\n"@ + error),
    ]
}

/// Opening the log file failed.
pub open spec fn spec_log_open_failed(error: Seq<char>) -> Seq<EffectView> {
    seq![
        log(LogLevel::Error, "无法打开日志文件："@ + error),
        show(MessageKind::Error, "无法打开日志文件：\r\n\r\n"@ + error),
    ]
}

/// Any reaction of the launcher.
pub open spec fn spec_step(s: ControllerView, input: Input) -> (ControllerView, Seq<EffectView>) {
    match input {
        Input::Tick => spec_on_timer(s),
        Input::Command(c) => spec_handle_command(s, c),
        Input::UnexpectedExit => spec_handle_unexpected_exit(s),
        Input::Worker(e) => spec_handle_worker_event(s, e),
        Input::DshUpdateAnswered { yes, info } => spec_dsh_update_answered(s, yes, info),
        Input::LauncherUpdateAnswered { yes, info } => spec_launcher_update_answered(s, yes, info),
        Input::LauncherUpdateInstalled { result, download_path } => spec_launcher_update_installed(
            s,
            result,
            download_path@,
        ),
        Input::WebUiOpenFailed(error) => (s, spec_web_ui_open_failed(error@)),
        Input::LogOpenFailed(error) => (s, spec_log_open_failed(error@)),
    }
}

/// The tray menu: opening the Web UI needs a running Harness and no operation under way;
/// restarting and the two update checks need no operation under way and no exit.
pub open spec fn spec_context_menu(s: ControllerView, harness_running: bool) -> Seq<MenuEntryView> {
    let idle = !s.operation_in_progress;
    seq![
        MenuEntryView::Item {
            command: COMMAND_OPEN,
            label: "打开 Web UI"@,
            enabled: idle && harness_running,
        },
        MenuEntryView::Item {
            command: COMMAND_RESTART,
            label: "重启 Harness"@,
            enabled: idle && !s.exiting,
        },
        MenuEntryView::Item { command: COMMAND_LOG, label: "查看日志"@, enabled: true },
        MenuEntryView::Separator,
        MenuEntryView::Item {
            command: COMMAND_DSH_UPDATE,
            label: s.dsh_version_label,
            enabled: idle && !s.exiting,
        },
        MenuEntryView::Item {
            command: COMMAND_LAUNCHER_UPDATE,
            label: s.launcher_version_label,
            enabled: idle && !s.exiting,
        },
        MenuEntryView::Separator,
        MenuEntryView::Item { command: COMMAND_EXIT, label: "退出"@, enabled: true },
    ]
}

fn message(prefix: &str, detail: &str) -> (r: String)
    ensures
        r@ == prefix@ + detail@,
{
    String::from_str(prefix).concat(detail)
}

fn log_effect(level: LogLevel, message: String) -> (r: Effect)
    ensures
        r@ == log(level, message@),
{
    Effect::Log { level, message }
}

fn show_effect(kind: MessageKind, text: String) -> (r: Effect)
    ensures
        r@ == show(kind, text@),
{
    Effect::ShowMessage { kind, text }
}

fn append_effects(a: &mut Vec<Effect>, b: Vec<Effect>)
    ensures
        effect_views(final(a)@) == effect_views(old(a)@) + effect_views(b@),
{
    let mut b = b;
    let ghost old_a = a@;
    let ghost old_b = b@;
    a.append(&mut b);
    assert(a@ == old_a + old_b);
    assert(effect_views(a@) =~= effect_views(old_a) + effect_views(old_b));
}

impl Controller {
    /// The state at launch: nothing started, the `dsh` version unknown.
    pub fn new(launcher_version: &str) -> (r: Self)
        ensures
            r@ == (ControllerView {
                operation_in_progress: false,
                automatic_restart_used: false,
                restart_pending: false,
                exiting: false,
                initial_started: false,
                dsh_version_label: "dsh"@ + " 版本：未知 - 检查更新"@,
                launcher_version_label: spec_version_label("Launcher"@, launcher_version@),
            }),
    {
        Controller {
            operation_in_progress: false,
            automatic_restart_used: false,
            restart_pending: false,
            exiting: false,
            initial_started: false,
            dsh_version_label: unknown_version_label("dsh"),
            launcher_version_label: version_label("Launcher", launcher_version),
        }
    }

    /// Starts the Harness, unless an operation is under way or the launcher is exiting.
    pub fn begin_start(&mut self, open_browser: bool, reset_restart_budget: bool) -> (r: Vec<Effect>)
        ensures
            (final(self)@, effect_views(r@)) == spec_begin_start(
                old(self)@,
                open_browser,
                reset_restart_budget,
            ),
    {
        let mut r: Vec<Effect> = Vec::new();
        if self.operation_in_progress || self.exiting {
            assert(effect_views(r@) =~= Seq::<EffectView>::empty());
            return r;
        }
        self.operation_in_progress = true;
        self.restart_pending = false;
        if reset_restart_budget {
            self.automatic_restart_used = false;
        }
        r.push(log_effect(LogLevel::Info, String::from_str("正在启动 DeepSeek Harness")));
        r.push(Effect::StartHarness { open_browser });
        assert(effect_views(r@) =~= seq![
            log(LogLevel::Info, "正在启动 DeepSeek Harness"@),
            EffectView::StartHarness { open_browser },
        ]);
        r
    }

    /// Restarts the Harness, unless an operation is under way or the launcher is exiting.
    pub fn begin_restart(&mut self, open_browser: bool) -> (r: Vec<Effect>)
        ensures
            (final(self)@, effect_views(r@)) == spec_begin_restart(old(self)@, open_browser),
    {
        let mut r: Vec<Effect> = Vec::new();
        if self.operation_in_progress || self.exiting {
            assert(effect_views(r@) =~= Seq::<EffectView>::empty());
            return r;
        }
        self.operation_in_progress = true;
        r.push(log_effect(LogLevel::Info, String::from_str("正在停止 DeepSeek Harness")));
        r.push(Effect::StopForRestart { open_browser });
        assert(effect_views(r@) =~= seq![
            log(LogLevel::Info, "正在停止 DeepSeek Harness"@),
            EffectView::StopForRestart { open_browser },
        ]);
        r
    }

    /// Begins exiting: hides the tray icon and stops the Harness; only the first call acts.
    pub fn begin_exit(&mut self) -> (r: Vec<Effect>)
        ensures
            (final(self)@, effect_views(r@)) == spec_begin_exit(old(self)@),
    {
        let mut r: Vec<Effect> = Vec::new();
        if self.exiting {
            assert(effect_views(r@) =~= Seq::<EffectView>::empty());
            return r;
        }
        self.exiting = true;
        self.operation_in_progress = true;
        r.push(Effect::RemoveTrayIcon);
        r.push(
            log_effect(LogLevel::Info, String::from_str("正在退出启动器并停止 DeepSeek Harness")),
        );
        r.push(Effect::StopForExit);
        assert(effect_views(r@) =~= seq![
            EffectView::RemoveTrayIcon,
            log(LogLevel::Info, "正在退出启动器并停止 DeepSeek Harness"@),
            EffectView::StopForExit,
        ]);
        r
    }

    /// Checks for a `dsh` update, unless an operation is under way or the launcher is exiting.
    pub fn begin_dsh_update_check(&mut self) -> (r: Vec<Effect>)
        ensures
            (final(self)@, effect_views(r@)) == spec_begin_dsh_update_check(old(self)@),
    {
        let mut r: Vec<Effect> = Vec::new();
        if self.operation_in_progress || self.exiting {
            assert(effect_views(r@) =~= Seq::<EffectView>::empty());
            return r;
        }
        self.operation_in_progress = true;
        r.push(log_effect(LogLevel::Info, String::from_str("正在检查 DeepSeek Harness 更新")));
        r.push(Effect::CheckDshUpdate);
        assert(effect_views(r@) =~= seq![
            log(LogLevel::Info, "正在检查 DeepSeek Harness 更新"@),
            EffectView::CheckDshUpdate,
        ]);
        r
    }

    /// Checks for a launcher update, unless an operation is under way or the launcher is
    /// exiting.
    pub fn begin_launcher_update_check(&mut self) -> (r: Vec<Effect>)
        ensures
            (final(self)@, effect_views(r@)) == spec_begin_launcher_update_check(old(self)@),
    {
        let mut r: Vec<Effect> = Vec::new();
        if self.operation_in_progress || self.exiting {
            assert(effect_views(r@) =~= Seq::<EffectView>::empty());
            return r;
        }
        self.operation_in_progress = true;
        r.push(log_effect(LogLevel::Info, String::from_str("正在检查 Launcher 更新")));
        r.push(Effect::CheckLauncherUpdate);
        assert(effect_views(r@) =~= seq![
            log(LogLevel::Info, "正在检查 Launcher 更新"@),
            EffectView::CheckLauncherUpdate,
        ]);
        r
    }

    /// A timer tick.
    pub fn on_timer(&mut self) -> (r: Vec<Effect>)
        ensures
            (final(self)@, effect_views(r@)) == spec_on_timer(old(self)@),
    {
        let mut r: Vec<Effect> = Vec::new();
        if !self.initial_started {
            self.initial_started = true;
            let started = self.begin_start(true, true);
            append_effects(&mut r, started);
            let ghost before = r@;
            r.push(Effect::RefreshVersion);
            assert(effect_views(r@) =~= effect_views(before).push(EffectView::RefreshVersion));
        }
        proof {
            if old(self)@.initial_started {
                assert(effect_views(r@) =~= Seq::<EffectView>::empty());
            }
        }
        let ghost first = r@;
        let ghost middle = self@;
        if self.restart_pending && !self.operation_in_progress && !self.exiting {
            self.automatic_restart_used = true;
            let started = self.begin_start(false, false);
            append_effects(&mut r, started);
        } else {
            assert(effect_views(r@) =~= effect_views(first) + Seq::<EffectView>::empty());
        }
        assert(effect_views(r@) == effect_views(first) + spec_pending_restart(middle).1);
        if !self.exiting {
            let ghost before = r@;
            r.push(Effect::PollOpenRequest);
            assert(effect_views(r@) =~= effect_views(before).push(EffectView::PollOpenRequest));
        }
        r
    }

    /// A tray menu command; unknown commands are ignored.
    pub fn handle_command(&mut self, command: usize) -> (r: Vec<Effect>)
        ensures
            (final(self)@, effect_views(r@)) == spec_handle_command(old(self)@, command),
    {
        if command == COMMAND_OPEN {
            let mut r: Vec<Effect> = Vec::new();
            r.push(Effect::OpenWebUi);
            assert(effect_views(r@) =~= seq![EffectView::OpenWebUi]);
            r
        } else if command == COMMAND_RESTART {
            self.begin_restart(true)
        } else if command == COMMAND_LOG {
            let mut r: Vec<Effect> = Vec::new();
            r.push(Effect::OpenLog);
            assert(effect_views(r@) =~= seq![EffectView::OpenLog]);
            r
        } else if command == COMMAND_DSH_UPDATE {
            self.begin_dsh_update_check()
        } else if command == COMMAND_LAUNCHER_UPDATE {
            self.begin_launcher_update_check()
        } else if command == COMMAND_EXIT {
            self.begin_exit()
        } else {
            let r: Vec<Effect> = Vec::new();
            assert(effect_views(r@) =~= Seq::<EffectView>::empty());
            r
        }
    }

    /// The Harness exited without being asked to.
    pub fn handle_unexpected_exit(&mut self) -> (r: Vec<Effect>)
        ensures
            (final(self)@, effect_views(r@)) == spec_handle_unexpected_exit(old(self)@),
    {
        let mut r: Vec<Effect> = Vec::new();
        if self.exiting {
            assert(effect_views(r@) =~= Seq::<EffectView>::empty());
            return r;
        }
        if !self.automatic_restart_used && self.operation_in_progress {
            self.restart_pending = true;
            r.push(
                log_effect(
                    LogLevel::Error,
                    String::from_str("DeepSeek Harness 意外退出，准备自动重启一次"),
                ),
            );
            assert(effect_views(r@) =~= seq![
                log(LogLevel::Error, "DeepSeek Harness 意外退出，准备自动重启一次"@),
            ]);
            return r;
        }
        if !self.automatic_restart_used {
            self.automatic_restart_used = true;
            r.push(
                log_effect(
                    LogLevel::Error,
                    String::from_str("DeepSeek Harness 意外退出，准备自动重启一次"),
                ),
            );
            let started = self.begin_start(false, false);
            append_effects(&mut r, started);
            assert(effect_views(r@) =~= seq![
                log(LogLevel::Error, "DeepSeek Harness 意外退出，准备自动重启一次"@),
            ] + spec_begin_start(
                ControllerView { automatic_restart_used: true, ..old(self)@ },
                false,
                false,
            ).1);
        } else {
            r.push(
                log_effect(
                    LogLevel::Error,
                    String::from_str("DeepSeek Harness 再次意外退出，停止自动重启"),
                ),
            );
            r.push(
                show_effect(
                    MessageKind::Error,
                    String::from_str("DeepSeek Harness 再次意外退出，启动器已停止自动重启。"),
                ),
            );
            assert(effect_views(r@) =~= seq![
                log(LogLevel::Error, "DeepSeek Harness 再次意外退出，停止自动重启"@),
                show(MessageKind::Error, "DeepSeek Harness 再次意外退出，启动器已停止自动重启。"@),
            ]);
        }
        r
    }

    /// The end of a start attempt.
    pub fn handle_start_finished(
        &mut self,
        result: Result<(u32, String), String>,
        open_browser: bool,
    ) -> (r: Vec<Effect>)
        ensures
            (final(self)@, effect_views(r@)) == spec_handle_start_finished(
                old(self)@,
                result,
                open_browser,
            ),
    {
        self.operation_in_progress = false;
        let mut r: Vec<Effect> = Vec::new();
        match result {
            Ok((process_id, web_ui_url)) => {
                let ready = message("DeepSeek Harness 已就绪：", web_ui_url.as_str());
                r.push(Effect::SaveState { process_id, web_ui_url });
                r.push(log_effect(LogLevel::Info, ready));
                if open_browser {
                    r.push(Effect::OpenWebUi);
                }
                assert(effect_views(r@) =~= spec_handle_start_finished(
                    old(self)@,
                    result,
                    open_browser,
                ).1);
            },
            Err(error) => {
                r.push(Effect::ClearState);
                r.push(log_effect(LogLevel::Error, message("DeepSeek Harness 启动失败：", error.as_str())));
                r.push(
                    show_effect(
                        MessageKind::Error,
                        message("DeepSeek Harness 启动失败：\r\n\r\n", error.as_str()),
                    ),
                );
                assert(effect_views(r@) =~= spec_handle_start_finished(
                    old(self)@,
                    result,
                    open_browser,
                ).1);
            },
        }
        r
    }

    /// The end of reading the `dsh` version; updates the menu label.
    pub fn handle_version_finished(&mut self, result: Result<VersionInfo, String>) -> (r: Vec<
        Effect,
    >)
        ensures
            (final(self)@, effect_views(r@)) == spec_handle_version_finished(old(self)@, result),
    {
        let mut r: Vec<Effect> = Vec::new();
        match result {
            Ok(info) => {
                self.dsh_version_label = version_label("dsh", info.version.as_str());
                assert(effect_views(r@) =~= Seq::<EffectView>::empty());
            },
            Err(error) => {
                r.push(
                    log_effect(
                        LogLevel::Error,
                        message("读取 DeepSeek Harness 版本失败：", error.as_str()),
                    ),
                );
                self.dsh_version_label = unknown_version_label("dsh");
                assert(effect_views(r@) =~= seq![
                    log(LogLevel::Error, "读取 DeepSeek Harness 版本失败："@ + error@),
                ]);
            },
        }
        r
    }

    /// The end of a `dsh` update check.
    pub fn handle_dsh_update_check_finished(&mut self, result: Result<DshUpdateInfo, String>) -> (r:
        Vec<Effect>)
        ensures
            (final(self)@, effect_views(r@)) == spec_handle_dsh_update_check_finished(
                old(self)@,
                result,
            ),
    {
        let mut r: Vec<Effect> = Vec::new();
        match result {
            Err(error) => {
                self.operation_in_progress = false;
                r.push(
                    log_effect(
                        LogLevel::Error,
                        message("检查 DeepSeek Harness 更新失败：", error.as_str()),
                    ),
                );
                r.push(
                    show_effect(MessageKind::Error, message("检查或安装更新失败：\r\n\r\n", error.as_str())),
                );
                assert(effect_views(r@) =~= spec_handle_dsh_update_check_finished(
                    old(self)@,
                    result,
                ).1);
            },
            Ok(info) => {
                self.dsh_version_label = version_label("dsh", info.installed_version.as_str());
                let installed = trim_version(info.installed_version.as_str());
                if versions_equal(info.installed_version.as_str(), info.latest_version.as_str()) {
                    self.operation_in_progress = false;
                    let mut text = message("当前已是最新版（v", installed.as_str());
                    text.append("）。");
                    r.push(show_effect(MessageKind::Info, text));
                } else {
                    let latest = trim_version(info.latest_version.as_str());
                    let mut prompt = message(
                        "发现 DeepSeek Harness 新版本：\r\n\r\n当前版本：v",
                        installed.as_str(),
                    );
                    prompt.append("\r\n最新版本：v");
                    prompt.append(latest.as_str());
                    prompt.append("\r\n\r\n是否立即更新？");
                    r.push(Effect::AskDshUpdate { prompt, info });
                }
                assert(effect_views(r@) =~= spec_handle_dsh_update_check_finished(
                    old(self)@,
                    result,
                ).1);
            },
        }
        r
    }

    /// The answer to the `dsh` update question.
    pub fn dsh_update_answered(&mut self, yes: bool, info: DshUpdateInfo) -> (r: Vec<Effect>)
        ensures
            (final(self)@, effect_views(r@)) == spec_dsh_update_answered(old(self)@, yes, info),
    {
        let mut r: Vec<Effect> = Vec::new();
        if yes {
            r.push(log_effect(LogLevel::Info, String::from_str("正在停止 DeepSeek Harness 以安装更新")));
            let mut using = message("使用 ", info.manager.display_name());
            using.append(" 更新 DeepSeek Harness");
            r.push(log_effect(LogLevel::Info, using));
            r.push(Effect::InstallDshUpdate { info });
            assert(effect_views(r@) =~= spec_dsh_update_answered(old(self)@, yes, info).1);
        } else {
            self.operation_in_progress = false;
            assert(effect_views(r@) =~= Seq::<EffectView>::empty());
        }
        r
    }

    /// The end of a `dsh` update.
    pub fn handle_dsh_update_installed(
        &mut self,
        result: Result<String, String>,
        latest_version: &str,
    ) -> (r: Vec<Effect>)
        ensures
            (final(self)@, effect_views(r@)) == spec_handle_dsh_update_installed(
                old(self)@,
                result,
                latest_version@,
            ),
    {
        let mut r: Vec<Effect> = Vec::new();
        match result {
            Ok(_) => {
                self.dsh_version_label = version_label("dsh", latest_version);
                self.operation_in_progress = false;
                let trimmed = trim_version(latest_version);
                let mut text = message("DeepSeek Harness 已更新到 v", trimmed.as_str());
                text.append("，即将重启服务。");
                r.push(show_effect(MessageKind::Info, text));
            },
            Err(error) => {
                self.operation_in_progress = false;
                r.push(
                    log_effect(
                        LogLevel::Error,
                        message("安装 DeepSeek Harness 更新失败：", error.as_str()),
                    ),
                );
                r.push(
                    show_effect(
                        MessageKind::Error,
                        message(
                            "检查或安装更新失败，正在尝试重新启动 Harness：\r\n\r\n",
                            error.as_str(),
                        ),
                    ),
                );
            },
        }
        let ghost shown = r@;
        let ghost middle = self@;
        let started = self.begin_start(true, true);
        append_effects(&mut r, started);
        assert(effect_views(r@) =~= effect_views(shown) + spec_begin_start(middle, true, true).1);
        r
    }

    /// The end of a launcher update check.
    pub fn handle_launcher_update_check_finished(
        &mut self,
        result: Result<LauncherUpdateInfo, String>,
    ) -> (r: Vec<Effect>)
        ensures
            (final(self)@, effect_views(r@)) == spec_handle_launcher_update_check_finished(
                old(self)@,
                result,
            ),
    {
        let mut r: Vec<Effect> = Vec::new();
        match result {
            Err(error) => {
                self.operation_in_progress = false;
                r.push(log_effect(LogLevel::Error, message("检查 Launcher 更新失败：", error.as_str())));
                r.push(
                    show_effect(
                        MessageKind::Error,
                        message("检查 Launcher 更新失败：\r\n\r\n", error.as_str()),
                    ),
                );
                assert(effect_views(r@) =~= spec_handle_launcher_update_check_finished(
                    old(self)@,
                    result,
                ).1);
            },
            Ok(info) => {
                self.launcher_version_label = version_label(
                    "Launcher",
                    info.installed_version.as_str(),
                );
                let installed = trim_version(info.installed_version.as_str());
                if versions_equal(info.installed_version.as_str(), info.latest_version.as_str()) {
                    self.operation_in_progress = false;
                    let mut text = message("当前 Launcher 已是最新版（v", installed.as_str());
                    text.append("）。");
                    r.push(show_effect(MessageKind::Info, text));
                } else {
                    let latest = trim_version(info.latest_version.as_str());
                    let mut prompt = message(
                        "发现 Launcher 新版本：\r\n\r\n当前版本：v",
                        installed.as_str(),
                    );
                    prompt.append("\r\n最新版本：v");
                    prompt.append(latest.as_str());
                    prompt.append("\r\n\r\n是否立即下载并重启 Launcher？");
                    r.push(Effect::AskLauncherUpdate { prompt, info });
                }
                assert(effect_views(r@) =~= spec_handle_launcher_update_check_finished(
                    old(self)@,
                    result,
                ).1);
            },
        }
        r
    }

    /// The answer to the launcher update question.
    pub fn launcher_update_answered(&mut self, yes: bool, info: LauncherUpdateInfo) -> (r: Vec<
        Effect,
    >)
        ensures
            (final(self)@, effect_views(r@)) == spec_launcher_update_answered(old(self)@, yes, info),
    {
        let mut r: Vec<Effect> = Vec::new();
        if !yes {
            self.operation_in_progress = false;
            assert(effect_views(r@) =~= Seq::<EffectView>::empty());
            return r;
        }
        r.push(log_effect(LogLevel::Info, String::from_str("正在下载 Launcher 更新")));
        r.push(Effect::DownloadLauncherUpdate { asset_url: info.asset_url });
        assert(effect_views(r@) =~= spec_launcher_update_answered(old(self)@, yes, info).1);
        r
    }

    /// The end of a launcher download.
    pub fn handle_launcher_update_downloaded(&mut self, result: Result<String, String>) -> (r: Vec<
        Effect,
    >)
        ensures
            (final(self)@, effect_views(r@)) == spec_handle_launcher_update_downloaded(
                old(self)@,
                result,
            ),
    {
        let mut r: Vec<Effect> = Vec::new();
        match result {
            Ok(path) => {
                r.push(Effect::InstallLauncherUpdate { download_path: path });
            },
            Err(error) => {
                self.operation_in_progress = false;
                r.push(
                    show_effect(
                        MessageKind::Error,
                        message("下载或安装 Launcher 更新失败：\r\n\r\n", error.as_str()),
                    ),
                );
            },
        }
        assert(effect_views(r@) =~= spec_handle_launcher_update_downloaded(old(self)@, result).1);
        r
    }

    /// The outcome of staging the downloaded launcher.
    pub fn launcher_update_installed(&mut self, result: Result<(), String>, download_path: String) -> (r:
        Vec<Effect>)
        ensures
            (final(self)@, effect_views(r@)) == spec_launcher_update_installed(
                old(self)@,
                result,
                download_path@,
            ),
    {
        let mut r: Vec<Effect> = Vec::new();
        match result {
            Err(error) => {
                self.operation_in_progress = false;
                r.push(Effect::RemoveFile { path: download_path });
                r.push(log_effect(LogLevel::Error, message("安装 Launcher 更新失败：", error.as_str())));
                r.push(
                    show_effect(
                        MessageKind::Error,
                        message("下载或安装 Launcher 更新失败：\r\n\r\n", error.as_str()),
                    ),
                );
                assert(effect_views(r@) =~= spec_launcher_update_installed(
                    old(self)@,
                    result,
                    download_path@,
                ).1);
            },
            Ok(_) => {
                self.operation_in_progress = false;
                r.push(
                    log_effect(
                        LogLevel::Info,
                        String::from_str("Launcher 更新已准备完成，正在重启启动器"),
                    ),
                );
                r.push(
                    show_effect(
                        MessageKind::Info,
                        String::from_str("Launcher 更新已下载，应用即将重启。"),
                    ),
                );
                let ghost shown = r@;
                let ghost middle = self@;
                let exiting = self.begin_exit();
                append_effects(&mut r, exiting);
                assert(effect_views(r@) =~= effect_views(shown) + spec_begin_exit(middle).1);
            },
        }
        r
    }

    /// The completion of a background operation.
    pub fn handle_worker_event(&mut self, event: WorkerEvent) -> (r: Vec<Effect>)
        ensures
            (final(self)@, effect_views(r@)) == spec_handle_worker_event(old(self)@, event),
    {
        match event {
            WorkerEvent::StartFinished { result, open_browser } => self.handle_start_finished(
                result,
                open_browser,
            ),
            WorkerEvent::VersionFinished(result) => self.handle_version_finished(result),
            WorkerEvent::DshUpdateCheckFinished(result) => self.handle_dsh_update_check_finished(
                result,
            ),
            WorkerEvent::DshUpdateInstalled { result, latest_version } => self.handle_dsh_update_installed(
                result,
                latest_version.as_str(),
            ),
            WorkerEvent::LauncherUpdateCheckFinished(result) =>
                self.handle_launcher_update_check_finished(result),
            WorkerEvent::LauncherUpdateDownloaded(result) => self.handle_launcher_update_downloaded(
                result,
            ),
            WorkerEvent::RestartStopped { open_browser } => {
                if self.exiting {
                    self.operation_in_progress = false;
                    let mut r: Vec<Effect> = Vec::new();
                    r.push(Effect::ClearState);
                    r.push(Effect::Quit);
                    assert(effect_views(r@) =~= seq![EffectView::ClearState, EffectView::Quit]);
                    r
                } else {
                    self.operation_in_progress = false;
                    self.begin_start(open_browser, true)
                }
            },
            WorkerEvent::ExitFinished => {
                self.operation_in_progress = false;
                let mut r: Vec<Effect> = Vec::new();
                r.push(Effect::ClearState);
                r.push(Effect::Quit);
                assert(effect_views(r@) =~= seq![EffectView::ClearState, EffectView::Quit]);
                r
            },
        }
    }

    /// Opening the browser failed: log and report the error.
    pub fn web_ui_open_failed(&self, error: &str) -> (r: Vec<Effect>)
        ensures
            effect_views(r@) == spec_web_ui_open_failed(error@),
    {
        let mut r: Vec<Effect> = Vec::new();
        r.push(log_effect(LogLevel::Error, message("无法打开默认浏览器：", error)));
        r.push(show_effect(MessageKind::Error, message("无法打开默认浏览器：\r\n\r\n", error)));
        assert(effect_views(r@) =~= spec_web_ui_open_failed(error@));
        r
    }

    /// Opening the log file failed: log and report the error.
    pub fn log_open_failed(&self, error: &str) -> (r: Vec<Effect>)
        ensures
            effect_views(r@) == spec_log_open_failed(error@),
    {
        let mut r: Vec<Effect> = Vec::new();
        r.push(log_effect(LogLevel::Error, message("无法打开日志文件：", error)));
        r.push(show_effect(MessageKind::Error, message("无法打开日志文件：\r\n\r\n", error)));
        assert(effect_views(r@) =~= spec_log_open_failed(error@));
        r
    }

    /// The tray menu for the current state.
    pub fn context_menu(&self, harness_running: bool) -> (r: Vec<MenuEntry>)
        ensures
            r@.map_values(|e: MenuEntry| e@) == spec_context_menu(self@, harness_running),
    {
        let idle = !self.operation_in_progress;
        let mut r: Vec<MenuEntry> = Vec::new();
        r.push(
            MenuEntry::Item {
                command: COMMAND_OPEN,
                label: String::from_str("打开 Web UI"),
                enabled: idle && harness_running,
            },
        );
        r.push(
            MenuEntry::Item {
                command: COMMAND_RESTART,
                label: String::from_str("重启 Harness"),
                enabled: idle && !self.exiting,
            },
        );
        r.push(
            MenuEntry::Item {
                command: COMMAND_LOG,
                label: String::from_str("查看日志"),
                enabled: true,
            },
        );
        r.push(MenuEntry::Separator);
        r.push(
            MenuEntry::Item {
                command: COMMAND_DSH_UPDATE,
                label: self.dsh_version_label.clone(),
                enabled: idle && !self.exiting,
            },
        );
        r.push(
            MenuEntry::Item {
                command: COMMAND_LAUNCHER_UPDATE,
                label: self.launcher_version_label.clone(),
                enabled: idle && !self.exiting,
            },
        );
        r.push(MenuEntry::Separator);
        r.push(
            MenuEntry::Item { command: COMMAND_EXIT, label: String::from_str("退出"), enabled: true },
        );
        assert(r@.map_values(|e: MenuEntry| e@) =~= spec_context_menu(self@, harness_running));
        r
    }
}

/// An effect that runs an operation in the background.
pub open spec fn launches_operation(e: EffectView) -> bool {
    ||| e is StartHarness
    ||| e is StopForRestart
    ||| e is StopForExit
    ||| e is CheckDshUpdate
    ||| e is InstallDshUpdate
    ||| e is CheckLauncherUpdate
    ||| e is DownloadLauncherUpdate
}

/// No effect in the list runs an operation in the background.
pub open spec fn launches_nothing(effects: Seq<EffectView>) -> bool {
    forall|i: int| 0 <= i < effects.len() ==> !launches_operation(#[trigger] effects[i])
}

/// No effect in the list starts the Harness.
pub open spec fn starts_nothing(effects: Seq<EffectView>) -> bool {
    forall|i: int| 0 <= i < effects.len() ==> !(#[trigger] effects[i] is StartHarness)
}

/// The answers to update questions come while the update check keeps the launcher busy.
pub open spec fn answers_while_busy(s: ControllerView, input: Input) -> bool {
    (input is DshUpdateAnswered || input is LauncherUpdateAnswered) ==> s.operation_in_progress
}

/// Once the launcher has begun to exit, it stays exiting.
pub proof fn exiting_is_permanent(s: ControllerView, input: Input)
    ensures
        s.exiting ==> spec_step(s, input).0.exiting,
{
}

/// Once the launcher has begun to exit, nothing starts the Harness again.
pub proof fn no_start_while_exiting(s: ControllerView, input: Input)
    requires
        s.exiting,
    ensures
        starts_nothing(spec_step(s, input).1),
{
    let e = spec_step(s, input).1;
    assert forall|i: int| 0 <= i < e.len() implies !(#[trigger] e[i] is StartHarness) by {
        match input {
            Input::Worker(WorkerEvent::DshUpdateInstalled { result, latest_version }) => {
                match result {
                    Ok(_) => {
                        assert(e =~= seq![e[0]]);
                    },
                    Err(_) => {
                        assert(e =~= seq![e[0], e[1]]);
                    },
                }
            },
            Input::LauncherUpdateInstalled { result, download_path } => {
                match result {
                    Ok(_) => {
                        assert(e =~= seq![e[0], e[1]]);
                    },
                    Err(_) => {},
                }
            },
            _ => {},
        }
    }
}

/// While an operation is under way, restart and update commands do nothing.
pub proof fn busy_launcher_ignores_commands(s: ControllerView, command: usize)
    requires
        s.operation_in_progress || s.exiting,
        command == COMMAND_RESTART || command == COMMAND_DSH_UPDATE || command
            == COMMAND_LAUNCHER_UPDATE,
    ensures
        spec_step(s, Input::Command(command)) == (s, Seq::<EffectView>::empty()),
{
}

/// While an operation is under way, ticks, unexpected exits and every command but exit start
/// no other background operation.
pub proof fn one_operation_at_a_time(s: ControllerView, input: Input)
    requires
        s.operation_in_progress,
        input is Tick || input is UnexpectedExit || (input matches Input::Command(c) && c
            != COMMAND_EXIT),
    ensures
        launches_nothing(spec_step(s, input).1),
{
    let e = spec_step(s, input).1;
    assert forall|i: int| 0 <= i < e.len() implies !launches_operation(#[trigger] e[i]) by {
        match input {
            Input::UnexpectedExit => {
                if !s.exiting && !s.automatic_restart_used {
                    assert(e =~= seq![e[0]]);
                }
            },
            Input::Tick => {
                if !s.initial_started {
                    if !s.exiting {
                        assert(e =~= seq![EffectView::RefreshVersion, EffectView::PollOpenRequest]);
                    } else {
                        assert(e =~= seq![EffectView::RefreshVersion]);
                    }
                }
            },
            _ => {},
        }
    }
}

/// Whatever starts an operation in the background leaves the launcher busy until that
/// operation reports back.
pub proof fn operations_keep_the_launcher_busy(s: ControllerView, input: Input)
    requires
        answers_while_busy(s, input),
    ensures
        !launches_nothing(spec_step(s, input).1) ==> spec_step(s, input).0.operation_in_progress,
{
    let (t, e) = spec_step(s, input);
    if !t.operation_in_progress {
        assert forall|i: int| 0 <= i < e.len() implies !launches_operation(#[trigger] e[i]) by {
            match input {
                Input::UnexpectedExit => {
                    if !s.exiting && !s.automatic_restart_used {
                        assert(e =~= seq![e[0]]);
                    }
                },
                Input::Tick => {
                    if !s.initial_started {
                        if !t.exiting {
                            assert(e =~= seq![EffectView::RefreshVersion, EffectView::PollOpenRequest]);
                        } else {
                            assert(e =~= seq![EffectView::RefreshVersion]);
                        }
                    }
                },
                Input::Worker(WorkerEvent::DshUpdateInstalled { result, latest_version }) => {
                    match result {
                        Ok(_) => {
                            assert(e =~= seq![e[0]]);
                        },
                        Err(_) => {
                            assert(e =~= seq![e[0], e[1]]);
                        },
                    }
                },
                Input::LauncherUpdateInstalled { result, download_path } => {
                    match result {
                        Ok(_) => {
                            assert(e =~= seq![e[0], e[1]]);
                        },
                        Err(_) => {},
                    }
                },
                _ => {},
            }
        }
    }
}

/// An unexpected exit while the launcher is not exiting and has not used its automatic
/// restart leads to a restart without opening the browser: at once when the launcher is idle;
/// while an operation is under way, the budget stays unused and the restart is put off until
/// that operation has ended. Once the restart is used, a further unexpected exit starts nothing
/// and changes nothing.
pub proof fn automatic_restart_happens_once(s: ControllerView)
    ensures
        s.automatic_restart_used ==> {
            let (t, e) = spec_handle_unexpected_exit(s);
            &&& t == s
            &&& starts_nothing(e)
        },
        !s.exiting && !s.automatic_restart_used && !s.operation_in_progress ==> {
            let (t, e) = spec_handle_unexpected_exit(s);
            &&& t.automatic_restart_used
            &&& t.operation_in_progress
            &&& e.len() == 3
            &&& e[2] == (EffectView::StartHarness { open_browser: false })
        },
        !s.exiting && !s.automatic_restart_used && s.operation_in_progress ==> {
            let (t, e) = spec_handle_unexpected_exit(s);
            &&& !t.automatic_restart_used
            &&& t.restart_pending
            &&& t.operation_in_progress
            &&& starts_nothing(e)
        },
{
    let (t, e) = spec_handle_unexpected_exit(s);
    if s.automatic_restart_used && !s.exiting {
        assert forall|i: int| 0 <= i < e.len() implies !(#[trigger] e[i] is StartHarness) by {
            assert(e =~= seq![e[0], e[1]]);
        }
    }
    if !s.exiting && !s.automatic_restart_used && s.operation_in_progress {
        assert forall|i: int| 0 <= i < e.len() implies !(#[trigger] e[i] is StartHarness) by {
            assert(e =~= seq![e[0]]);
        }
    }
}

/// A restart that was put off is carried out by the first tick that finds the launcher idle
/// and not exiting: it starts the Harness without opening the browser and uses the budget.
pub proof fn pending_restart_happens_when_idle(s: ControllerView)
    requires
        s.restart_pending,
        !s.operation_in_progress,
        !s.exiting,
        s.initial_started,
    ensures
        ({
            let (t, e) = spec_on_timer(s);
            &&& t.automatic_restart_used
            &&& !t.restart_pending
            &&& t.operation_in_progress
            &&& e.len() == 3
            &&& e[1] == (EffectView::StartHarness { open_browser: false })
            &&& e[2] == EffectView::PollOpenRequest
        }),
{
    let (t, e) = spec_on_timer(s);
    assert(e.len() == 3);
}

/// A restart that was put off is only dropped together with a start of the Harness, or when
/// the launcher begins to exit.
pub proof fn pending_restart_is_not_dropped(s: ControllerView, input: Input)
    ensures
        s.restart_pending && !spec_step(s, input).0.restart_pending ==> !starts_nothing(
            spec_step(s, input).1,
        ) || spec_step(s, input).0.exiting,
{
    let (t, e) = spec_step(s, input);
    if s.restart_pending && !t.restart_pending && !t.exiting {
        match input {
            Input::Tick => {
                if !s.initial_started {
                    assert(e[1] is StartHarness);
                } else {
                    assert(e[1] is StartHarness);
                }
            },
            Input::Command(c) => {},
            Input::UnexpectedExit => {
                assert(e[2] is StartHarness);
            },
            Input::Worker(WorkerEvent::DshUpdateInstalled { result, latest_version }) => {
                match result {
                    Ok(_) => {
                        assert(e[2] is StartHarness);
                    },
                    Err(_) => {
                        assert(e[3] is StartHarness);
                    },
                }
            },
            Input::Worker(WorkerEvent::RestartStopped { open_browser }) => {
                assert(e[1] is StartHarness);
            },
            _ => {},
        }
    }
}

/// The automatic restart is allowed again only together with a start of the Harness.
pub proof fn restart_budget_resets_only_on_start(s: ControllerView, input: Input)
    ensures
        s.automatic_restart_used && !spec_step(s, input).0.automatic_restart_used ==> !starts_nothing(
            spec_step(s, input).1,
        ),
{
    let (t, e) = spec_step(s, input);
    if s.automatic_restart_used && !t.automatic_restart_used {
        match input {
            Input::Tick => {
                assert(e[0] == log(LogLevel::Info, "正在启动 DeepSeek Harness"@));
                assert(e[1] is StartHarness);
            },
            Input::Command(c) => {},
            Input::Worker(WorkerEvent::DshUpdateInstalled { result, latest_version }) => {
                match result {
                    Ok(_) => {
                        assert(e[2] is StartHarness);
                    },
                    Err(_) => {
                        assert(e[3] is StartHarness);
                    },
                }
            },
            Input::Worker(WorkerEvent::RestartStopped { open_browser }) => {
                assert(e[1] is StartHarness);
            },
            _ => {},
        }
    }
}

/// An exit request is honoured whatever the launcher is doing: the first one hides the tray
/// icon and stops the Harness, even while another operation is under way; once the launcher
/// is exiting, a further request changes nothing.
pub proof fn exit_stops_the_harness(s: ControllerView)
    ensures
        !s.exiting ==> ({
            let (t, e) = spec_step(s, Input::Command(COMMAND_EXIT));
            &&& t.exiting
            &&& e.len() > 0
            &&& e[0] == EffectView::RemoveTrayIcon
            &&& e.last() == EffectView::StopForExit
        }),
        s.exiting ==> spec_step(s, Input::Command(COMMAND_EXIT)) == (s, Seq::<EffectView>::empty()),
{
}

/// Once the launcher is exiting, the Harness having stopped (for the exit, or for a restart
/// that was under way) ends in removing the state file and leaving the message loop.
pub proof fn exiting_launcher_quits_when_the_harness_stops(s: ControllerView, open_browser: bool)
    requires
        s.exiting,
    ensures
        spec_step(s, Input::Worker(WorkerEvent::ExitFinished)).1 == seq![
            EffectView::ClearState,
            EffectView::Quit,
        ],
        spec_step(s, Input::Worker(WorkerEvent::RestartStopped { open_browser })).1 == seq![
            EffectView::ClearState,
            EffectView::Quit,
        ],
{
}

/// A `dsh` update runs with the package manager that the update check found: the question
/// carries the check's findings, and answering yes installs with exactly those. When the
/// installed version is already the latest, nothing is asked and the launcher is free again.
pub proof fn updates_use_the_detected_manager(s: ControllerView, info: DshUpdateInfo)
    ensures
        !spec_versions_equal(info.installed_version@, info.latest_version@) ==> {
            let (t, e) = spec_step(s, Input::Worker(WorkerEvent::DshUpdateCheckFinished(Ok(info))));
            &&& e == seq![EffectView::AskDshUpdate { prompt: dsh_update_prompt(info), info }]
            &&& spec_step(t, Input::DshUpdateAnswered { yes: true, info }).1.last()
                == EffectView::InstallDshUpdate { info }
        },
        spec_versions_equal(info.installed_version@, info.latest_version@) ==> {
            let (t, e) = spec_step(s, Input::Worker(WorkerEvent::DshUpdateCheckFinished(Ok(info))));
            &&& !t.operation_in_progress
            &&& launches_nothing(e)
            &&& e.len() == 1
            &&& e[0] is ShowMessage
        },
{
    let (t, e) = spec_step(s, Input::Worker(WorkerEvent::DshUpdateCheckFinished(Ok(info))));
    if spec_versions_equal(info.installed_version@, info.latest_version@) {
        assert forall|i: int| 0 <= i < e.len() implies !launches_operation(#[trigger] e[i]) by {
            assert(i == 0);
        }
    }
}

/// Each tray menu item does what its label says: the item labelled with the `dsh` version is
/// the one that checks for a `dsh` update, and the item labelled with the Launcher version the
/// one that checks for a Launcher update; both are in the menu, and choosing either on an idle
/// launcher starts its own check and not the other.
pub proof fn menu_items_match_their_labels(s: ControllerView, harness_running: bool)
    ensures
        ({
            let m = spec_context_menu(s, harness_running);
            &&& forall|i: int|
                #![trigger m[i]]
                0 <= i < m.len() ==> (m[i] matches MenuEntryView::Item { command, label, .. } ==> (
                command == COMMAND_DSH_UPDATE ==> label == s.dsh_version_label) && (command
                == COMMAND_LAUNCHER_UPDATE ==> label == s.launcher_version_label))
            &&& exists|i: int|
                #![trigger m[i]]
                0 <= i < m.len() && (m[i] matches MenuEntryView::Item { command, .. } && command
                    == COMMAND_DSH_UPDATE)
            &&& exists|i: int|
                #![trigger m[i]]
                0 <= i < m.len() && (m[i] matches MenuEntryView::Item { command, .. } && command
                    == COMMAND_LAUNCHER_UPDATE)
        }),
        !s.operation_in_progress && !s.exiting ==> ({
            let e = spec_step(s, Input::Command(COMMAND_LAUNCHER_UPDATE)).1;
            e.contains(EffectView::CheckLauncherUpdate) && !e.contains(EffectView::CheckDshUpdate)
        }),
        !s.operation_in_progress && !s.exiting ==> ({
            let e = spec_step(s, Input::Command(COMMAND_DSH_UPDATE)).1;
            e.contains(EffectView::CheckDshUpdate) && !e.contains(EffectView::CheckLauncherUpdate)
        }),
{
    let m = spec_context_menu(s, harness_running);
    assert(m[4] matches MenuEntryView::Item { command, .. } && command == COMMAND_DSH_UPDATE);
    assert(m[5] matches MenuEntryView::Item { command, .. } && command == COMMAND_LAUNCHER_UPDATE);
    if !s.operation_in_progress && !s.exiting {
        let e = spec_step(s, Input::Command(COMMAND_LAUNCHER_UPDATE)).1;
        assert(e[1] == EffectView::CheckLauncherUpdate);
        assert(!e.contains(EffectView::CheckDshUpdate)) by {
            assert(e.len() == 2);
            assert(e[0] != EffectView::CheckDshUpdate);
        }
        let f = spec_step(s, Input::Command(COMMAND_DSH_UPDATE)).1;
        assert(f[1] == EffectView::CheckDshUpdate);
        assert(!f.contains(EffectView::CheckLauncherUpdate)) by {
            assert(f.len() == 2);
            assert(f[0] != EffectView::CheckLauncherUpdate);
        }
    }
}

} // verus!
