//! Deciding whether a package manager owns the global `dsh` installation.
//!
//! Each manager is asked a fixed series of questions (commands to run, directories to look
//! at). The check is a state machine: the caller performs each `Probe` and hands back the
//! `Answer`, until the check reaches a conclusion.
use vstd::prelude::*;
use vstd::string::StringExecFns;
use crate::command::{string_views, CommandOutput};
use crate::dsh::{
    output_path, pnpm_global_bin, spec_output_path, spec_pnpm_global_bin, PackageManagerKind,
    PACKAGE_NAME,
};
use crate::paths::{join, spec_join};
use crate::text::{chars_of, contains, contains_seq, lower, to_lower};

verus! {

/// A question about the machine that the check needs answered.
#[derive(Debug)]
pub enum Probe {
    /// Run the package manager with `args`; answered with `Answer::Output`.
    Run { args: Vec<String> },
    /// Whether something exists at `path`; answered with `Answer::Exists`.
    PathExists { path: String },
    /// Bun's default global bin directory; answered with `Answer::Directory`.
    BunDefaultBin,
    /// Whether the `dsh` command sits directly in `directory`; answered with `Answer::Exists`.
    DshDirectlyUnder { directory: String },
}

/// The abstract form of a `Probe`.
pub enum ProbeView {
    Run { args: Seq<Seq<char>> },
    PathExists { path: Seq<char> },
    BunDefaultBin,
    DshDirectlyUnder { directory: Seq<char> },
}

impl View for Probe {
    type V = ProbeView;

    open spec fn view(&self) -> ProbeView {
        match self {
            Probe::Run { args } => ProbeView::Run { args: string_views(args@) },
            Probe::PathExists { path } => ProbeView::PathExists { path: path@ },
            Probe::BunDefaultBin => ProbeView::BunDefaultBin,
            Probe::DshDirectlyUnder { directory } => ProbeView::DshDirectlyUnder {
                directory: directory@,
            },
        }
    }
}

/// The answer to a `Probe`.
#[derive(Debug)]
pub enum Answer {
    /// The command's output, or `None` when it could not be run to completion.
    Output(Option<CommandOutput>),
    Exists(bool),
    Directory(Option<String>),
}

/// How far a check has come.
#[derive(Debug)]
pub enum Stage {
    VoltaWhich,
    NodeRoot,
    NodePackage { root: String },
    NodeBin { root: String },
    NodeUnderBin,
    NodeConfig,
    NodeUnderConfig,
    YarnDir,
    YarnPackage,
    YarnBin,
    YarnUnder,
    BunList,
    BunBin,
    BunDefault,
    BunUnder,
    Finished,
}

/// The abstract form of a `Stage`.
pub enum StageView {
    VoltaWhich,
    NodeRoot,
    NodePackage { root: Seq<char> },
    NodeBin { root: Seq<char> },
    NodeUnderBin,
    NodeConfig,
    NodeUnderConfig,
    YarnDir,
    YarnPackage,
    YarnBin,
    YarnUnder,
    BunList,
    BunBin,
    BunDefault,
    BunUnder,
    Finished,
}

impl View for Stage {
    type V = StageView;

    open spec fn view(&self) -> StageView {
        match self {
            Stage::VoltaWhich => StageView::VoltaWhich,
            Stage::NodeRoot => StageView::NodeRoot,
            Stage::NodePackage { root } => StageView::NodePackage { root: root@ },
            Stage::NodeBin { root } => StageView::NodeBin { root: root@ },
            Stage::NodeUnderBin => StageView::NodeUnderBin,
            Stage::NodeConfig => StageView::NodeConfig,
            Stage::NodeUnderConfig => StageView::NodeUnderConfig,
            Stage::YarnDir => StageView::YarnDir,
            Stage::YarnPackage => StageView::YarnPackage,
            Stage::YarnBin => StageView::YarnBin,
            Stage::YarnUnder => StageView::YarnUnder,
            Stage::BunList => StageView::BunList,
            Stage::BunBin => StageView::BunBin,
            Stage::BunDefault => StageView::BunDefault,
            Stage::BunUnder => StageView::BunUnder,
            Stage::Finished => StageView::Finished,
        }
    }
}

/// What the check wants next.
#[derive(Debug)]
pub enum Step {
    Ask(Probe),
    /// The conclusion: whether the manager owns `dsh`.
    Decided(bool),
}

/// The abstract form of a `Step`.
pub enum StepView {
    Ask(ProbeView),
    Decided(bool),
}

impl View for Step {
    type V = StepView;

    open spec fn view(&self) -> StepView {
        match self {
            Step::Ask(p) => StepView::Ask(p@),
            Step::Decided(b) => StepView::Decided(*b),
        }
    }
}

/// An ownership check in progress for one kind of manager.
#[derive(Debug)]
pub struct OwnershipCheck {
    pub kind: PackageManagerKind,
    pub stage: Stage,
}

/// Ask the manager to run with `args`.
pub open spec fn run(args: Seq<Seq<char>>) -> StepView {
    StepView::Ask(ProbeView::Run { args })
}

/// Ask whether `dsh` sits directly in `directory`.
pub open spec fn under(directory: Seq<char>) -> StepView {
    StepView::Ask(ProbeView::DshDirectlyUnder { directory })
}

/// The check has reached a conclusion.
pub open spec fn conclusion(b: bool) -> (StageView, StepView) {
    (StageView::Finished, StepView::Decided(b))
}

/// Where the `dsh` package sits under a global `node_modules` directory.
pub open spec fn node_package_path(modules: Seq<char>) -> Seq<char> {
    spec_join(spec_join(modules, "@deepseek-ai"@), "dsh"@)
}

/// Where the `dsh` package sits under Yarn's global directory.
pub open spec fn yarn_package_path(directory: Seq<char>) -> Seq<char> {
    node_package_path(spec_join(directory, "node_modules"@))
}

/// npm, pnpm and cnpm are checked through their global `node_modules` root.
pub open spec fn is_node_manager(kind: PackageManagerKind) -> bool {
    kind == PackageManagerKind::Npm || kind == PackageManagerKind::Pnpm || kind
        == PackageManagerKind::Cnpm
}

/// The first stage and question of a check.
pub open spec fn spec_start(kind: PackageManagerKind) -> (StageView, StepView) {
    match kind {
        PackageManagerKind::Volta => (StageView::VoltaWhich, run(seq!["which"@, "dsh"@])),
        PackageManagerKind::Npm | PackageManagerKind::Pnpm | PackageManagerKind::Cnpm => (
            StageView::NodeRoot,
            run(seq!["root"@, "-g"@]),
        ),
        PackageManagerKind::Yarn => (StageView::YarnDir, run(seq!["global"@, "dir"@])),
        PackageManagerKind::Bun => (StageView::BunList, run(seq!["pm"@, "ls"@, "-g"@])),
    }
}

/// The arguments that print a node manager's global bin directory.
pub open spec fn node_bin_args(kind: PackageManagerKind) -> Seq<Seq<char>> {
    if kind == PackageManagerKind::Pnpm {
        seq!["bin"@, "-g"@]
    } else {
        seq!["prefix"@, "-g"@]
    }
}

/// The directory printed by a command that succeeded.
pub open spec fn printed_directory(output: Option<CommandOutput>) -> Option<Seq<char>> {
    match output {
        Some(o) => if o.success {
            spec_output_path(o.stdout@)
        } else {
            None
        },
        None => None,
    }
}

/// Volta reports a `dsh` that belongs to the `@deepseek-ai` package.
pub open spec fn volta_reports_dsh(output: CommandOutput) -> bool {
    output.success && contains(lower(output.stdout@), "@deepseek-ai"@) && contains(
        lower(output.stdout@),
        "dsh"@,
    )
}

/// The next stage and question of a check, given the answer to the last question.
/// An answer of the wrong form ends the check with a negative conclusion.
pub open spec fn spec_advance(kind: PackageManagerKind, stage: StageView, answer: Answer) -> (
    StageView,
    StepView,
) {
    match (stage, answer) {
        (StageView::VoltaWhich, Answer::Output(Some(o))) => conclusion(volta_reports_dsh(o)),
        (StageView::NodeRoot, Answer::Output(o)) => match printed_directory(o) {
            Some(root) => if is_node_manager(kind) {
                (
                    StageView::NodePackage { root },
                    StepView::Ask(ProbeView::PathExists { path: node_package_path(root) }),
                )
            } else {
                conclusion(false)
            },
            None => conclusion(false),
        },
        (StageView::NodePackage { root }, Answer::Exists(true)) => if is_node_manager(kind) {
            (StageView::NodeBin { root }, run(node_bin_args(kind)))
        } else {
            conclusion(false)
        },
        (StageView::NodeBin { root }, Answer::Output(Some(o))) => match spec_output_path(
            o.stdout@,
        ) {
            Some(bin) => (StageView::NodeUnderBin, under(bin)),
            None => if kind == PackageManagerKind::Pnpm {
                match spec_pnpm_global_bin(root) {
                    Some(bin) => (StageView::NodeUnderBin, under(bin)),
                    None => conclusion(false),
                }
            } else {
                conclusion(false)
            },
        },
        (StageView::NodeUnderBin, Answer::Exists(b)) => if b {
            conclusion(true)
        } else if kind == PackageManagerKind::Pnpm {
            (StageView::NodeConfig, run(seq!["config"@, "get"@, "global-bin-dir"@]))
        } else {
            conclusion(false)
        },
        (StageView::NodeConfig, Answer::Output(Some(o))) => match spec_output_path(o.stdout@) {
            Some(dir) => (StageView::NodeUnderConfig, under(dir)),
            None => conclusion(false),
        },
        (StageView::NodeUnderConfig, Answer::Exists(b)) => conclusion(b),
        (StageView::YarnDir, Answer::Output(o)) => match printed_directory(o) {
            Some(dir) => (
                StageView::YarnPackage,
                StepView::Ask(ProbeView::PathExists { path: yarn_package_path(dir) }),
            ),
            None => conclusion(false),
        },
        (StageView::YarnPackage, Answer::Exists(true)) => (
            StageView::YarnBin,
            run(seq!["global"@, "bin"@]),
        ),
        (StageView::YarnBin, Answer::Output(o)) => match printed_directory(o) {
            Some(bin) => (StageView::YarnUnder, under(bin)),
            None => conclusion(false),
        },
        (StageView::YarnUnder, Answer::Exists(b)) => conclusion(b),
        (StageView::BunList, Answer::Output(Some(o))) => if o.success && contains(
            o.stdout@,
            PACKAGE_NAME@,
        ) {
            (StageView::BunBin, run(seq!["pm"@, "bin"@, "-g"@]))
        } else {
            conclusion(false)
        },
        (StageView::BunBin, Answer::Output(o)) => match printed_directory(o) {
            Some(bin) => (StageView::BunUnder, under(bin)),
            None => (StageView::BunDefault, StepView::Ask(ProbeView::BunDefaultBin)),
        },
        (StageView::BunDefault, Answer::Directory(Some(bin))) => (StageView::BunUnder, under(bin@)),
        (StageView::BunUnder, Answer::Exists(b)) => conclusion(b),
        _ => conclusion(false),
    }
}

fn strings2(a: &str, b: &str) -> (r: Vec<String>)
    ensures
        string_views(r@) == seq![a@, b@],
{
    let mut r: Vec<String> = Vec::new();
    r.push(String::from_str(a));
    r.push(String::from_str(b));
    assert(string_views(r@) =~= seq![a@, b@]);
    r
}

fn strings3(a: &str, b: &str, c: &str) -> (r: Vec<String>)
    ensures
        string_views(r@) == seq![a@, b@, c@],
{
    let mut r: Vec<String> = Vec::new();
    r.push(String::from_str(a));
    r.push(String::from_str(b));
    r.push(String::from_str(c));
    assert(string_views(r@) =~= seq![a@, b@, c@]);
    r
}

fn printed_directory_of(output: &Option<CommandOutput>) -> (r: Option<String>)
    ensures
        match r {
            Some(d) => printed_directory(*output) == Some(d@),
            None => printed_directory(*output) is None,
        },
{
    match output {
        Some(o) => if o.success {
            output_path(o.stdout.as_str())
        } else {
            None
        },
        None => None,
    }
}

fn volta_reports_dsh_exec(o: &CommandOutput) -> (r: bool)
    ensures
        r == volta_reports_dsh(*o),
{
    if !o.success {
        return false;
    }
    let out = chars_of(o.stdout.as_str());
    let lowered = to_lower(out.as_slice());
    let scope = chars_of("@deepseek-ai");
    let name = chars_of("dsh");
    contains_seq(lowered.as_slice(), scope.as_slice()) && contains_seq(
        lowered.as_slice(),
        name.as_slice(),
    )
}

fn lists_package(o: &CommandOutput) -> (r: bool)
    ensures
        r == (o.success && contains(o.stdout@, PACKAGE_NAME@)),
{
    if !o.success {
        return false;
    }
    let out = chars_of(o.stdout.as_str());
    let name = chars_of(PACKAGE_NAME);
    contains_seq(out.as_slice(), name.as_slice())
}

fn node_package_path_of(modules: &str) -> (r: String)
    ensures
        r@ == node_package_path(modules@),
{
    let scope = join(modules, "@deepseek-ai");
    join(scope.as_str(), "dsh")
}

fn ask_under(directory: String) -> (r: Step)
    ensures
        r@ == under(directory@),
{
    Step::Ask(Probe::DshDirectlyUnder { directory })
}

impl OwnershipCheck {
    /// Begins checking a manager of `kind`; the step is always a first question.
    pub fn start(kind: PackageManagerKind) -> (r: (Self, Step))
        ensures
            r.0.kind == kind,
            (r.0.stage@, r.1@) == spec_start(kind),
    {
        match kind {
            PackageManagerKind::Volta => (
                OwnershipCheck { kind, stage: Stage::VoltaWhich },
                Step::Ask(Probe::Run { args: strings2("which", "dsh") }),
            ),
            PackageManagerKind::Npm | PackageManagerKind::Pnpm | PackageManagerKind::Cnpm => (
                OwnershipCheck { kind, stage: Stage::NodeRoot },
                Step::Ask(Probe::Run { args: strings2("root", "-g") }),
            ),
            PackageManagerKind::Yarn => (
                OwnershipCheck { kind, stage: Stage::YarnDir },
                Step::Ask(Probe::Run { args: strings2("global", "dir") }),
            ),
            PackageManagerKind::Bun => (
                OwnershipCheck { kind, stage: Stage::BunList },
                Step::Ask(Probe::Run { args: strings3("pm", "ls", "-g") }),
            ),
        }
    }

    /// Feeds the answer to the last question and returns the next question or the conclusion.
    pub fn advance(&mut self, answer: Answer) -> (r: Step)
        ensures
            final(self).kind == old(self).kind,
            (final(self).stage@, r@) == spec_advance(old(self).kind, old(self).stage@, answer),
    {
        let kind = self.kind;
        let is_node = kind == PackageManagerKind::Npm || kind == PackageManagerKind::Pnpm || kind
            == PackageManagerKind::Cnpm;
        let mut stage = Stage::Finished;
        std::mem::swap(&mut stage, &mut self.stage);
        match (stage, answer) {
            (Stage::VoltaWhich, Answer::Output(Some(o))) => Step::Decided(volta_reports_dsh_exec(&o)),
            (Stage::NodeRoot, Answer::Output(o)) => match printed_directory_of(&o) {
                Some(root) => if is_node {
                    let path = node_package_path_of(root.as_str());
                    self.stage = Stage::NodePackage { root };
                    Step::Ask(Probe::PathExists { path })
                } else {
                    Step::Decided(false)
                },
                None => Step::Decided(false),
            },
            (Stage::NodePackage { root }, Answer::Exists(true)) => if is_node {
                let args = if kind == PackageManagerKind::Pnpm {
                    strings2("bin", "-g")
                } else {
                    strings2("prefix", "-g")
                };
                self.stage = Stage::NodeBin { root };
                Step::Ask(Probe::Run { args })
            } else {
                Step::Decided(false)
            },
            (Stage::NodeBin { root }, Answer::Output(Some(o))) => match output_path(
                o.stdout.as_str(),
            ) {
                Some(bin) => {
                    self.stage = Stage::NodeUnderBin;
                    ask_under(bin)
                },
                None => if kind == PackageManagerKind::Pnpm {
                    match pnpm_global_bin(root.as_str()) {
                        Some(bin) => {
                            self.stage = Stage::NodeUnderBin;
                            ask_under(bin)
                        },
                        None => Step::Decided(false),
                    }
                } else {
                    Step::Decided(false)
                },
            },
            (Stage::NodeUnderBin, Answer::Exists(b)) => if b {
                Step::Decided(true)
            } else if kind == PackageManagerKind::Pnpm {
                self.stage = Stage::NodeConfig;
                Step::Ask(Probe::Run { args: strings3("config", "get", "global-bin-dir") })
            } else {
                Step::Decided(false)
            },
            (Stage::NodeConfig, Answer::Output(Some(o))) => match output_path(o.stdout.as_str()) {
                Some(dir) => {
                    self.stage = Stage::NodeUnderConfig;
                    ask_under(dir)
                },
                None => Step::Decided(false),
            },
            (Stage::NodeUnderConfig, Answer::Exists(b)) => Step::Decided(b),
            (Stage::YarnDir, Answer::Output(o)) => match printed_directory_of(&o) {
                Some(dir) => {
                    self.stage = Stage::YarnPackage;
                    let modules = join(dir.as_str(), "node_modules");
                    Step::Ask(Probe::PathExists { path: node_package_path_of(modules.as_str()) })
                },
                None => Step::Decided(false),
            },
            (Stage::YarnPackage, Answer::Exists(true)) => {
                self.stage = Stage::YarnBin;
                Step::Ask(Probe::Run { args: strings2("global", "bin") })
            },
            (Stage::YarnBin, Answer::Output(o)) => match printed_directory_of(&o) {
                Some(bin) => {
                    self.stage = Stage::YarnUnder;
                    ask_under(bin)
                },
                None => Step::Decided(false),
            },
            (Stage::YarnUnder, Answer::Exists(b)) => Step::Decided(b),
            (Stage::BunList, Answer::Output(Some(o))) => if lists_package(&o) {
                self.stage = Stage::BunBin;
                Step::Ask(Probe::Run { args: strings3("pm", "bin", "-g") })
            } else {
                Step::Decided(false)
            },
            (Stage::BunBin, Answer::Output(o)) => match printed_directory_of(&o) {
                Some(bin) => {
                    self.stage = Stage::BunUnder;
                    ask_under(bin)
                },
                None => {
                    self.stage = Stage::BunDefault;
                    Step::Ask(Probe::BunDefaultBin)
                },
            },
            (Stage::BunDefault, Answer::Directory(Some(bin))) => {
                self.stage = Stage::BunUnder;
                ask_under(bin)
            },
            (Stage::BunUnder, Answer::Exists(b)) => Step::Decided(b),
            _ => Step::Decided(false),
        }
    }
}

/// A manager other than Volta is credited with `dsh` only when the last question was whether
/// `dsh` sits directly in a bin directory it reported, and the answer was yes; Volta only when
/// `volta which dsh` succeeded and named the `@deepseek-ai` package.
pub proof fn ownership_requires_confirmation(
    kind: PackageManagerKind,
    stage: StageView,
    answer: Answer,
)
    ensures
        spec_advance(kind, stage, answer).1 == StepView::Decided(true) ==> {
            ||| (stage is VoltaWhich && (answer matches Answer::Output(Some(o)) && volta_reports_dsh(o)))
            ||| ((stage is NodeUnderBin || stage is NodeUnderConfig || stage is YarnUnder
                || stage is BunUnder) && answer == Answer::Exists(true))
        },
{
}

/// Every conclusion ends the check, and a finished check stays finished with a negative conclusion.
pub proof fn conclusions_are_final(kind: PackageManagerKind, stage: StageView, answer: Answer)
    ensures
        spec_advance(kind, stage, answer).1 is Decided ==> spec_advance(kind, stage, answer).0
            is Finished,
        stage is Finished ==> spec_advance(kind, stage, answer) == conclusion(false),
{
}

/// How many more questions a check can ask at most from a stage.
pub open spec fn questions_left(stage: StageView) -> nat {
    match stage {
        StageView::VoltaWhich => 1,
        StageView::NodeRoot => 6,
        StageView::NodePackage { .. } => 5,
        StageView::NodeBin { .. } => 4,
        StageView::NodeUnderBin => 3,
        StageView::NodeConfig => 2,
        StageView::NodeUnderConfig => 1,
        StageView::YarnDir => 4,
        StageView::YarnPackage => 3,
        StageView::YarnBin => 2,
        StageView::YarnUnder => 1,
        StageView::BunList => 4,
        StageView::BunBin => 3,
        StageView::BunDefault => 2,
        StageView::BunUnder => 1,
        StageView::Finished => 0,
    }
}

/// Every check comes to a conclusion: each answer moves it to a stage with fewer questions
/// left, and it starts with at most six.
pub proof fn ownership_checks_end(kind: PackageManagerKind, stage: StageView, answer: Answer)
    ensures
        questions_left(spec_start(kind).0) <= 6,
        !(stage is Finished) ==> questions_left(spec_advance(kind, stage, answer).0)
            < questions_left(stage),
        spec_advance(kind, stage, answer).1 is Ask ==> !(spec_advance(kind, stage, answer).0 is Finished),
{
}

/// cnpm is checked exactly as npm is, question for question, whatever the answers.
pub proof fn cnpm_is_checked_like_npm(stage: StageView, answer: Answer)
    ensures
        spec_start(PackageManagerKind::Cnpm) == spec_start(PackageManagerKind::Npm),
        spec_advance(PackageManagerKind::Cnpm, stage, answer) == spec_advance(
            PackageManagerKind::Npm,
            stage,
            answer,
        ),
{
}

/// Once the package is found under a node manager's global root, the manager is asked for its
/// global bin directory: npm and cnpm with `prefix -g`, pnpm with `bin -g`.
pub proof fn node_managers_are_asked_for_their_bin_directory(root: Seq<char>)
    ensures
        spec_advance(
            PackageManagerKind::Npm,
            StageView::NodePackage { root },
            Answer::Exists(true),
        ) == (StageView::NodeBin { root }, StepView::Ask(
            ProbeView::Run { args: seq!["prefix"@, "-g"@] },
        )),
        spec_advance(
            PackageManagerKind::Cnpm,
            StageView::NodePackage { root },
            Answer::Exists(true),
        ) == (StageView::NodeBin { root }, StepView::Ask(
            ProbeView::Run { args: seq!["prefix"@, "-g"@] },
        )),
        spec_advance(
            PackageManagerKind::Pnpm,
            StageView::NodePackage { root },
            Answer::Exists(true),
        ) == (StageView::NodeBin { root }, StepView::Ask(
            ProbeView::Run { args: seq!["bin"@, "-g"@] },
        )),
{
}

/// Every check starts by asking the manager itself: Volta with `which dsh`, npm, pnpm and cnpm
/// with `root -g` for their global `node_modules`, Yarn with `global dir`, Bun with `pm ls -g`.
pub proof fn checks_start_with_the_managers_own_query()
    ensures
        spec_start(PackageManagerKind::Volta).1 == StepView::Ask(
            ProbeView::Run { args: seq!["which"@, "dsh"@] },
        ),
        spec_start(PackageManagerKind::Npm).1 == StepView::Ask(
            ProbeView::Run { args: seq!["root"@, "-g"@] },
        ),
        spec_start(PackageManagerKind::Pnpm).1 == StepView::Ask(
            ProbeView::Run { args: seq!["root"@, "-g"@] },
        ),
        spec_start(PackageManagerKind::Cnpm).1 == StepView::Ask(
            ProbeView::Run { args: seq!["root"@, "-g"@] },
        ),
        spec_start(PackageManagerKind::Yarn).1 == StepView::Ask(
            ProbeView::Run { args: seq!["global"@, "dir"@] },
        ),
        spec_start(PackageManagerKind::Bun).1 == StepView::Ask(
            ProbeView::Run { args: seq!["pm"@, "ls"@, "-g"@] },
        ),
{
}

} // verus!
