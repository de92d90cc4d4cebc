//! Replacing the launcher with a downloaded release.
use vstd::prelude::*;
use vstd::string::StringExecFns;
use crate::text::{decimal, decimal_chars, string_of};

verus! {

/// The batch script that waits for the launcher to exit, moves the staged executable over it
/// (retrying for up to 30 seconds), and starts the launcher again. The process id and both
/// paths come from the environment.
pub const UPDATE_SCRIPT: &'static str = "@echo off
setlocal
:wait_for_launcher
tasklist /FI \"PID eq %DSH_LAUNCHER_UPDATE_PARENT_PID%\" /NH | findstr /R /C:\" %DSH_LAUNCHER_UPDATE_PARENT_PID% \" >nul
if not errorlevel 1 (
    timeout /t 1 /nobreak >nul
    goto wait_for_launcher
)

set /A attempts=0
:replace_launcher
move /Y \"%DSH_LAUNCHER_UPDATE_SOURCE%\" \"%DSH_LAUNCHER_UPDATE_TARGET%\" >nul
if not errorlevel 1 goto restart_launcher
set /A attempts+=1
if %attempts% GEQ 30 goto restore_launcher
timeout /t 1 /nobreak >nul
goto replace_launcher

:restore_launcher
start \"\" \"%DSH_LAUNCHER_UPDATE_TARGET%\"
del \"%DSH_LAUNCHER_UPDATE_SOURCE%\" >nul 2>nul
del \"%~f0\" >nul 2>nul
exit /b 1

:restart_launcher
start \"\" \"%DSH_LAUNCHER_UPDATE_TARGET%\"
del \"%~f0\" >nul 2>nul
exit /b 0
";

/// A download is a Windows executable when it starts with the `MZ` signature.
pub open spec fn is_executable(bytes: Seq<u8>) -> bool {
    bytes.len() >= 2 && bytes[0] == 0x4d && bytes[1] == 0x5a
}

/// The name of a file created by the updater: `<prefix>-<pid>-<timestamp>.<extension>`, with
/// `-<suffix>` before the extension when `suffix` is not zero.
pub open spec fn spec_unique_file_name(
    prefix: Seq<char>,
    process_id: u32,
    timestamp: u128,
    suffix: u32,
    extension: Seq<char>,
) -> Seq<char> {
    let base = prefix + "-"@ + decimal(process_id as nat) + "-"@ + decimal(timestamp as nat);
    if suffix == 0 {
        base + "."@ + extension
    } else {
        base + "-"@ + decimal(suffix as nat) + "."@ + extension
    }
}

/// Accepts a downloaded launcher only when it is a Windows executable.
pub fn validate_download(bytes: &[u8]) -> (r: Result<(), String>)
    ensures
        is_executable(bytes@) ==> r is Ok,
        !is_executable(bytes@) ==> (r matches Err(e) && e@ == "下载的 Launcher 文件格式无效"@),
{
    if bytes.len() < 2 || bytes[0] != 0x4d || bytes[1] != 0x5a {
        return Err(String::from_str("下载的 Launcher 文件格式无效"));
    }
    Ok(())
}

/// The file name that the `suffix`-th attempt uses for a fresh updater file.
pub fn unique_file_name(
    prefix: &str,
    process_id: u32,
    timestamp: u128,
    suffix: u32,
    extension: &str,
) -> (r: String)
    ensures
        r@ == spec_unique_file_name(prefix@, process_id, timestamp, suffix, extension@),
{
    let pid = decimal_chars(process_id as u128);
    let stamp = decimal_chars(timestamp);
    let mut name = String::from_str(prefix);
    name.append("-");
    name.append(string_of(pid.as_slice()).as_str());
    name.append("-");
    name.append(string_of(stamp.as_slice()).as_str());
    if suffix != 0 {
        let n = decimal_chars(suffix as u128);
        name.append("-");
        name.append(string_of(n.as_slice()).as_str());
    }
    name.append(".");
    name.append(extension);
    name
}

} // verus!
