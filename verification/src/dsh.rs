//! The `dsh` command, the package managers that can own its global installation, and how
//! their output is read.
use vstd::prelude::*;
use vstd::string::StringExecFns;
use crate::command::{
    parent_of, parent_path, spec_parent, string_views, CommandOutput, ResolvedCommand,
};
use crate::paths::{join, spec_join};
use crate::text::{
    chars_of, eq_ignore_case, equal_ignore_case, lines_of, lower, split_lines, string_of,
    to_lower, trim, trim_chars, trim_str,
};

verus! {

/// The npm package that provides `dsh`.
pub const PACKAGE_NAME: &'static str = "@deepseek-ai/dsh";

/// The global package managers that can install `dsh`.
#[derive(Clone, Copy, Debug, PartialEq, Eq, Structural)]
pub enum PackageManagerKind {
    Volta,
    Npm,
    Pnpm,
    Yarn,
    Bun,
    Cnpm,
}

/// A package manager found on `PATH`.
#[derive(Clone, Debug)]
pub struct PackageManager {
    pub kind: PackageManagerKind,
    pub command: ResolvedCommand,
}

/// The `dsh` command together with the package manager that installed it.
#[derive(Clone, Debug)]
pub struct DshInstallation {
    pub dsh: ResolvedCommand,
    pub manager: PackageManager,
}

/// The name shown to the user.
pub open spec fn spec_display_name(kind: PackageManagerKind) -> Seq<char> {
    match kind {
        PackageManagerKind::Volta => "Volta"@,
        PackageManagerKind::Npm => "npm"@,
        PackageManagerKind::Pnpm => "pnpm"@,
        PackageManagerKind::Yarn => "Yarn"@,
        PackageManagerKind::Bun => "Bun"@,
        PackageManagerKind::Cnpm => "cnpm"@,
    }
}

/// The executable name looked up on `PATH`.
pub open spec fn spec_command_name(kind: PackageManagerKind) -> Seq<char> {
    match kind {
        PackageManagerKind::Volta => "volta"@,
        PackageManagerKind::Npm => "npm"@,
        PackageManagerKind::Pnpm => "pnpm"@,
        PackageManagerKind::Yarn => "yarn"@,
        PackageManagerKind::Bun => "bun"@,
        PackageManagerKind::Cnpm => "cnpm"@,
    }
}

/// The arguments that update the global `dsh` installation to its latest release.
pub open spec fn spec_update_args(kind: PackageManagerKind) -> Seq<Seq<char>> {
    let latest = "@deepseek-ai/dsh@latest"@;
    match kind {
        PackageManagerKind::Volta => seq!["install"@, latest],
        PackageManagerKind::Npm | PackageManagerKind::Cnpm => seq!["install"@, "-g"@, latest],
        PackageManagerKind::Pnpm | PackageManagerKind::Bun => seq!["add"@, "-g"@, latest],
        PackageManagerKind::Yarn => seq!["global"@, "add"@, latest],
    }
}

/// The first line that is not blank, trimmed.
pub open spec fn first_nonblank(lines: Seq<Seq<char>>) -> Option<Seq<char>>
    decreases lines.len(),
{
    if lines.len() == 0 {
        None
    } else if trim(lines[0]).len() > 0 {
        Some(trim(lines[0]))
    } else {
        first_nonblank(lines.drop_first())
    }
}

/// The last line that is neither blank nor `undefined` (in any ASCII case), trimmed.
pub open spec fn last_path_line(lines: Seq<Seq<char>>) -> Option<Seq<char>>
    decreases lines.len(),
{
    if lines.len() == 0 {
        None
    } else if trim(lines.last()).len() > 0 && !eq_ignore_case(trim(lines.last()), "undefined"@) {
        Some(trim(lines.last()))
    } else {
        last_path_line(lines.drop_last())
    }
}

/// The directory a package manager printed.
pub open spec fn spec_output_path(output: Seq<char>) -> Option<Seq<char>> {
    last_path_line(split_lines(output))
}

/// The version `dsh --version` reported.
pub open spec fn spec_version(output: CommandOutput) -> Result<Seq<char>, Seq<char>> {
    if !output.success {
        Err("读取 dsh 版本失败："@ + trim(output.stderr@))
    } else {
        match first_nonblank(split_lines(output.stdout@)) {
            Some(v) => Ok(v),
            None => Err("dsh 未返回版本号"@),
        }
    }
}

/// Standard output and standard error of an update, each trimmed, on two lines.
pub open spec fn combined_output(output: CommandOutput) -> Seq<char> {
    trim(output.stdout@) + "\n"@ + trim(output.stderr@)
}

/// The outcome of an update command.
pub open spec fn spec_update_outcome(kind: PackageManagerKind, output: CommandOutput) -> Result<
    Seq<char>,
    Seq<char>,
> {
    if !output.success {
        Err(spec_display_name(kind) + " 更新失败："@ + trim(combined_output(output)))
    } else {
        Ok(trim(combined_output(output)))
    }
}

/// `'/'` replaced by `'\\'`.
pub open spec fn backslashed(c: char) -> char {
    if c == '/' {
        '\\'
    } else {
        c
    }
}

/// Text with its trailing `'\\'` and `'/'` characters removed.
pub open spec fn trim_trailing_separators(s: Seq<char>) -> Seq<char>
    decreases s.len(),
{
    if s.len() > 0 && (s.last() == '\\' || s.last() == '/') {
        trim_trailing_separators(s.drop_last())
    } else {
        s
    }
}

/// The form in which two paths are compared: no trailing separator, backslashes only,
/// ASCII lower case.
pub open spec fn spec_normalize_path(p: Seq<char>) -> Seq<char> {
    lower(trim_trailing_separators(p).map_values(|c: char| backslashed(c)))
}

/// pnpm's global bin directory, three levels above its global `node_modules` root.
pub open spec fn spec_pnpm_global_bin(root: Seq<char>) -> Option<Seq<char>> {
    match spec_parent(root) {
        Some(a) => match spec_parent(a) {
            Some(b) => spec_parent(b),
            None => None,
        },
        None => None,
    }
}

/// Bun's global bin directory when Bun does not report it: `bin` under `BUN_INSTALL` when that
/// is set, else `.bun\bin` under the user's profile directory.
pub open spec fn spec_bun_global_bin(bun_install: Option<Seq<char>>, profile: Option<Seq<char>>) -> Option<
    Seq<char>,
> {
    match bun_install {
        Some(install) => Some(spec_join(install, "bin"@)),
        None => match profile {
            Some(p) => Some(spec_join(spec_join(p, ".bun"@), "bin"@)),
            None => None,
        },
    }
}

/// The command at `command_path` sits directly in `directory`: its parent directory and
/// `directory` are equal once normalized.
pub open spec fn spec_directly_under(command_path: Seq<char>, directory: Seq<char>) -> bool {
    match spec_parent(command_path) {
        Some(parent) => spec_normalize_path(parent) == spec_normalize_path(directory),
        None => false,
    }
}

impl PackageManagerKind {
    /// The name shown to the user.
    pub fn display_name(self) -> (r: &'static str)
        ensures
            r@ == spec_display_name(self),
    {
        match self {
            PackageManagerKind::Volta => "Volta",
            PackageManagerKind::Npm => "npm",
            PackageManagerKind::Pnpm => "pnpm",
            PackageManagerKind::Yarn => "Yarn",
            PackageManagerKind::Bun => "Bun",
            PackageManagerKind::Cnpm => "cnpm",
        }
    }

    /// The executable name looked up on `PATH`.
    pub fn command_name(self) -> (r: &'static str)
        ensures
            r@ == spec_command_name(self),
    {
        match self {
            PackageManagerKind::Volta => "volta",
            PackageManagerKind::Npm => "npm",
            PackageManagerKind::Pnpm => "pnpm",
            PackageManagerKind::Yarn => "yarn",
            PackageManagerKind::Bun => "bun",
            PackageManagerKind::Cnpm => "cnpm",
        }
    }

    /// The arguments that install the latest `dsh` globally with this manager.
    pub fn update_args(self) -> (r: Vec<String>)
        ensures
            string_views(r@) == spec_update_args(self),
    {
        let mut r: Vec<String> = Vec::new();
        match self {
            PackageManagerKind::Volta => {
                r.push(String::from_str("install"));
            },
            PackageManagerKind::Npm | PackageManagerKind::Cnpm => {
                r.push(String::from_str("install"));
                r.push(String::from_str("-g"));
            },
            PackageManagerKind::Pnpm | PackageManagerKind::Bun => {
                r.push(String::from_str("add"));
                r.push(String::from_str("-g"));
            },
            PackageManagerKind::Yarn => {
                r.push(String::from_str("global"));
                r.push(String::from_str("add"));
            },
        }
        r.push(String::from_str(PACKAGE_NAME).concat("@latest"));
        proof {
            reveal_strlit("@deepseek-ai/dsh");
            reveal_strlit("@latest");
            reveal_strlit("@deepseek-ai/dsh@latest");
            assert(PACKAGE_NAME@ + "@latest"@ =~= "@deepseek-ai/dsh@latest"@);
        }
        assert(string_views(r@) =~= spec_update_args(self));
        r
    }
}

impl PackageManager {
    /// The name shown to the user.
    pub fn display_name(&self) -> (r: &'static str)
        ensures
            r@ == spec_display_name(self.kind),
    {
        self.kind.display_name()
    }

    /// The outcome of running this manager with `update_args`: the combined, trimmed output
    /// on success, an error naming the manager otherwise.
    pub fn run_update(&self, output: &CommandOutput) -> (r: Result<String, String>)
        ensures
            match (r, spec_update_outcome(self.kind, *output)) {
                (Ok(a), Ok(b)) => a@ == b,
                (Err(a), Err(b)) => a@ == b,
                _ => false,
            },
    {
        let mut combined = trim_str(output.stdout.as_str());
        combined.append("\n");
        let err = trim_str(output.stderr.as_str());
        combined.append(err.as_str());
        let trimmed = trim_str(combined.as_str());
        if !output.success {
            let mut message = String::from_str(self.display_name());
            message.append(" 更新失败：");
            message.append(trimmed.as_str());
            return Err(message);
        }
        Ok(trimmed)
    }
}

/// pnpm's global bin directory, derived from its global `node_modules` root.
pub fn pnpm_global_bin(root: &str) -> (r: Option<String>)
    ensures
        match r {
            Some(b) => spec_pnpm_global_bin(root@) == Some(b@),
            None => spec_pnpm_global_bin(root@) is None,
        },
{
    let chars = chars_of(root);
    let a = match parent_of(chars.as_slice()) {
        Some(a) => a,
        None => {
            return None;
        },
    };
    let b = match parent_of(a.as_slice()) {
        Some(b) => b,
        None => {
            return None;
        },
    };
    match parent_of(b.as_slice()) {
        Some(c) => Some(string_of(c.as_slice())),
        None => None,
    }
}

/// Bun's default global bin directory, from the `BUN_INSTALL` variable and the user's profile
/// directory, when either is known.
pub fn bun_global_bin(bun_install: Option<&str>, profile: Option<&str>) -> (r: Option<String>)
    ensures
        match r {
            Some(b) => spec_bun_global_bin(
                match bun_install {
                    Some(i) => Some(i@),
                    None => None,
                },
                match profile {
                    Some(p) => Some(p@),
                    None => None,
                },
            ) == Some(b@),
            None => bun_install is None && profile is None,
        },
{
    match bun_install {
        Some(install) => Some(join(install, "bin")),
        None => match profile {
            Some(p) => {
                let bun = join(p, ".bun");
                Some(join(bun.as_str(), "bin"))
            },
            None => None,
        },
    }
}

/// The located `dsh` command, or the error shown when it is not on `PATH`.
pub fn locate(found: Option<ResolvedCommand>) -> (r: Result<ResolvedCommand, String>)
    ensures
        match found {
            Some(c) => r == Ok::<ResolvedCommand, String>(c),
            None => r matches Err(e) && e@
                == "未找到 dsh，请先通过任意包管理器全局安装 @deepseek-ai/dsh，并确保命令在 PATH 中"@,
        },
{
    match found {
        Some(c) => Ok(c),
        None => Err(
            String::from_str(
                "未找到 dsh，请先通过任意包管理器全局安装 @deepseek-ai/dsh，并确保命令在 PATH 中",
            ),
        ),
    }
}

/// The installation made of the located `dsh` and the outcome of detecting its manager.
pub fn locate_installation(dsh: ResolvedCommand, manager: Result<PackageManager, String>) -> (r:
    Result<DshInstallation, String>)
    ensures
        match manager {
            Ok(m) => r == Ok::<DshInstallation, String>(DshInstallation { dsh, manager: m }),
            Err(e) => r == Err::<DshInstallation, String>(e),
        },
{
    match manager {
        Ok(m) => Ok(DshInstallation { dsh, manager: m }),
        Err(e) => Err(e),
    }
}

/// The version that `dsh --version` printed: its first non-blank line, trimmed.
pub fn version(output: &CommandOutput) -> (r: Result<String, String>)
    ensures
        match (r, spec_version(*output)) {
            (Ok(a), Ok(b)) => a@ == b,
            (Err(a), Err(b)) => a@ == b,
            _ => false,
        },
{
    if !output.success {
        let mut message = String::from_str("读取 dsh 版本失败：");
        let err = trim_str(output.stderr.as_str());
        message.append(err.as_str());
        return Err(message);
    }
    let chars = chars_of(output.stdout.as_str());
    let lines = lines_of(chars.as_slice());
    let ghost views = lines@.map_values(|l: Vec<char>| l@);
    let mut i: usize = 0;
    assert(views.subrange(0, views.len() as int) =~= views);
    while i < lines.len()
        invariant
            i <= lines.len(),
            views == lines@.map_values(|l: Vec<char>| l@),
            views == split_lines(output.stdout@),
            output.success,
            first_nonblank(views) == first_nonblank(views.subrange(i as int, views.len() as int)),
        decreases lines.len() - i,
    {
        let t = trim_chars(lines[i].as_slice());
        let ghost rest = views.subrange(i as int, views.len() as int);
        assert(rest[0] == lines@[i as int]@);
        if t.len() > 0 {
            assert(rest.len() > 0);
            assert(first_nonblank(rest) == Some(trim(rest[0])));
            assert(t@ == trim(rest[0]));
            assert(first_nonblank(split_lines(output.stdout@)) == Some(t@));
            let out = string_of(t.as_slice());
            assert(spec_version(*output) == Ok::<Seq<char>, Seq<char>>(t@));
            return Ok(out);
        }
        assert(rest.drop_first() =~= views.subrange(i + 1, views.len() as int));
        i = i + 1;
    }
    Err(String::from_str("dsh 未返回版本号"))
}

/// The directory a package manager printed: its last line that is neither blank nor
/// `undefined`, trimmed.
pub fn output_path(output: &str) -> (r: Option<String>)
    ensures
        match r {
            Some(p) => spec_output_path(output@) == Some(p@),
            None => spec_output_path(output@) is None,
        },
{
    let chars = chars_of(output);
    let lines = lines_of(chars.as_slice());
    let undefined = chars_of("undefined");
    let ghost views = lines@.map_values(|l: Vec<char>| l@);
    let mut i: usize = lines.len();
    assert(views.subrange(0, views.len() as int) =~= views);
    while i > 0
        invariant
            i <= lines.len(),
            views == lines@.map_values(|l: Vec<char>| l@),
            views == split_lines(output@),
            undefined@ == "undefined"@,
            last_path_line(views) == last_path_line(views.subrange(0, i as int)),
        decreases i,
    {
        let t = trim_chars(lines[i - 1].as_slice());
        let ghost rest = views.subrange(0, i as int);
        assert(rest.last() == lines@[i - 1]@);
        if t.len() > 0 && !equal_ignore_case(t.as_slice(), undefined.as_slice()) {
            return Some(string_of(t.as_slice()));
        }
        assert(rest.drop_last() =~= views.subrange(0, i - 1));
        i = i - 1;
    }
    None
}

/// A path in the form used for comparison.
pub fn normalize_path(path: &str) -> (r: String)
    ensures
        r@ == spec_normalize_path(path@),
{
    let chars = chars_of(path);
    let mut end: usize = chars.len();
    assert(chars@.subrange(0, chars.len() as int) =~= chars@);
    while end > 0 && (chars[end - 1] == '\\' || chars[end - 1] == '/')
        invariant
            end <= chars.len(),
            chars@ == path@,
            trim_trailing_separators(path@) == trim_trailing_separators(
                chars@.subrange(0, end as int),
            ),
        decreases end,
    {
        assert(chars@.subrange(0, end as int).drop_last() =~= chars@.subrange(0, end - 1));
        end = end - 1;
    }
    let ghost kept = chars@.subrange(0, end as int);
    assert(trim_trailing_separators(kept) == kept);
    let mut swapped: Vec<char> = Vec::new();
    let mut i: usize = 0;
    while i < end
        invariant
            i <= end <= chars.len(),
            kept == chars@.subrange(0, end as int),
            swapped@ == kept.take(i as int).map_values(|c: char| backslashed(c)),
        decreases end - i,
    {
        let c = chars[i];
        swapped.push(if c == '/' {
            '\\'
        } else {
            c
        });
        i = i + 1;
        assert(swapped@ =~= kept.take(i as int).map_values(|c: char| backslashed(c)));
    }
    assert(kept.take(end as int) =~= kept);
    let lowered = to_lower(swapped.as_slice());
    string_of(lowered.as_slice())
}

/// Whether two paths name the same directory once normalized.
pub fn paths_equal(left: &str, right: &str) -> (r: bool)
    ensures
        r == (spec_normalize_path(left@) == spec_normalize_path(right@)),
{
    let l = normalize_path(left);
    let r = normalize_path(right);
    l == r
}

/// Whether the command at `command_path` sits directly in `directory`.
pub fn directly_under(command_path: &str, directory: &str) -> (r: bool)
    ensures
        r == spec_directly_under(command_path@, directory@),
{
    match parent_path(command_path) {
        Some(parent) => paths_equal(parent.as_str(), directory),
        None => false,
    }
}

/// Updating installs the latest `@deepseek-ai/dsh` as a global package with every manager:
/// Volta, whose installs are always global, with `install`; npm and cnpm with `install -g`;
/// pnpm and Bun with `add -g`; Yarn with `global add`. The package always comes last, and every
/// manager but Volta and Yarn is given `-g`.
pub proof fn updates_install_the_latest_package_globally(kind: PackageManagerKind)
    ensures
        spec_update_args(kind).len() >= 2,
        spec_update_args(kind).last() == "@deepseek-ai/dsh@latest"@,
        kind != PackageManagerKind::Volta && kind != PackageManagerKind::Yarn ==> spec_update_args(
            kind,
        ).len() == 3 && spec_update_args(kind)[1] == "-g"@,
        kind == PackageManagerKind::Volta ==> spec_update_args(kind) == seq![
            "install"@,
            "@deepseek-ai/dsh@latest"@,
        ],
        kind == PackageManagerKind::Npm || kind == PackageManagerKind::Cnpm ==> spec_update_args(
            kind,
        ) == seq!["install"@, "-g"@, "@deepseek-ai/dsh@latest"@],
        kind == PackageManagerKind::Pnpm || kind == PackageManagerKind::Bun ==> spec_update_args(
            kind,
        ) == seq!["add"@, "-g"@, "@deepseek-ai/dsh@latest"@],
        kind == PackageManagerKind::Yarn ==> spec_update_args(kind) == seq![
            "global"@,
            "add"@,
            "@deepseek-ai/dsh@latest"@,
        ],
{
}

} // verus!

