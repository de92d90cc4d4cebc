//! Finding the package manager that installed `dsh`.
//!
//! Managers are tried in a fixed order. A manager that is not on `PATH` is skipped; one that
//! is found is asked the questions of its `OwnershipCheck`. The first manager whose check
//! ends in a positive conclusion is the owner; when none is, the error lists the managers that
//! were found but could not be confirmed.
use vstd::prelude::*;
use vstd::string::StringExecFns;
use crate::command::ResolvedCommand;
use crate::dsh::{spec_command_name, spec_display_name, PackageManager, PackageManagerKind};
use crate::ownership::{
    spec_advance, spec_start, Answer, OwnershipCheck, Probe, ProbeView, StageView, Step,
    StepView,
};

verus! {

/// How many kinds of managers are tried.
pub const MANAGER_COUNT: usize = 6;

/// The order in which managers are tried.
pub open spec fn kind_at(i: int) -> PackageManagerKind {
    if i == 0 {
        PackageManagerKind::Volta
    } else if i == 1 {
        PackageManagerKind::Npm
    } else if i == 2 {
        PackageManagerKind::Pnpm
    } else if i == 3 {
        PackageManagerKind::Yarn
    } else if i == 4 {
        PackageManagerKind::Bun
    } else {
        PackageManagerKind::Cnpm
    }
}

fn kind_at_exec(i: usize) -> (r: PackageManagerKind)
    ensures
        r == kind_at(i as int),
{
    if i == 0 {
        PackageManagerKind::Volta
    } else if i == 1 {
        PackageManagerKind::Npm
    } else if i == 2 {
        PackageManagerKind::Pnpm
    } else if i == 3 {
        PackageManagerKind::Yarn
    } else if i == 4 {
        PackageManagerKind::Bun
    } else {
        PackageManagerKind::Cnpm
    }
}

/// The display names of `kinds`, separated by `、`.
pub open spec fn joined_names(kinds: Seq<PackageManagerKind>) -> Seq<char>
    decreases kinds.len(),
{
    if kinds.len() == 0 {
        Seq::<char>::empty()
    } else if kinds.len() == 1 {
        spec_display_name(kinds[0])
    } else {
        joined_names(kinds.drop_last()) + "、"@ + spec_display_name(kinds.last())
    }
}

/// The error reported when no manager could be confirmed as the owner.
pub open spec fn no_owner_message(available: Seq<PackageManagerKind>) -> Seq<char> {
    "无法确认 dsh 的安装来源，"@ + if available.len() == 0 {
        "未找到可用的全局包管理器"@
    } else {
        "已找到但无法确认归属："@ + joined_names(available)
    }
}

/// What the detection wants next.
#[derive(Debug)]
pub enum DetectStep {
    /// Look up the executable `name` on `PATH` and hand the result to `Detection::found`.
    FindCommand { name: String },
    /// Answer `probe` about the manager at `command` and hand the answer to `Detection::answer`.
    Probe { command: ResolvedCommand, probe: Probe },
    /// The owner, or why none was found.
    Finished(Result<PackageManager, String>),
}

/// The abstract form of a `DetectStep`.
pub enum DetectStepView {
    FindCommand { name: Seq<char> },
    Probe { command: ResolvedCommand, probe: ProbeView },
    Finished(Result<PackageManager, Seq<char>>),
}

impl View for DetectStep {
    type V = DetectStepView;

    open spec fn view(&self) -> DetectStepView {
        match self {
            DetectStep::FindCommand { name } => DetectStepView::FindCommand { name: name@ },
            DetectStep::Probe { command, probe } => DetectStepView::Probe {
                command: *command,
                probe: probe@,
            },
            DetectStep::Finished(Ok(m)) => DetectStepView::Finished(Ok(*m)),
            DetectStep::Finished(Err(e)) => DetectStepView::Finished(Err(e@)),
        }
    }
}

/// A detection in progress.
#[derive(Debug)]
pub struct Detection {
    /// Index in `kind_at` of the manager being looked at.
    pub next: usize,
    /// Managers found on `PATH` whose checks ended negatively, in order.
    pub available: Vec<PackageManagerKind>,
    /// The manager whose ownership check is in progress.
    pub current: Option<(ResolvedCommand, OwnershipCheck)>,
}

/// The step after the manager at `next - 1` has been dealt with.
pub open spec fn spec_move_on(available: Seq<PackageManagerKind>, next: int) -> DetectStepView {
    if next < MANAGER_COUNT {
        (DetectStepView::FindCommand { name: spec_command_name(kind_at(next)) })
    } else {
        DetectStepView::Finished(Err(no_owner_message(available)))
    }
}


/// The abstract form of a `Detection`: the manager being looked at, the managers found but not
/// confirmed, and the command and stage of the check in progress.
pub struct DetectionView {
    pub next: usize,
    pub available: Seq<PackageManagerKind>,
    pub current: Option<(ResolvedCommand, StageView)>,
}

impl View for Detection {
    type V = DetectionView;

    open spec fn view(&self) -> DetectionView {
        DetectionView {
            next: self.next,
            available: self.available@,
            current: match self.current {
                Some((c, check)) => Some((c, check.stage@)),
                None => None,
            },
        }
    }
}

/// A detection that has not looked at any manager yet.
pub open spec fn initial_detection() -> DetectionView {
    DetectionView { next: 0, available: Seq::empty(), current: None }
}

/// The first question of the check of `kind`.
pub open spec fn first_probe(kind: PackageManagerKind) -> ProbeView {
    match spec_start(kind).1 {
        StepView::Ask(p) => p,
        StepView::Decided(_) => arbitrary(),
    }
}

/// The detection after learning where the manager being looked at was found, if anywhere.
pub open spec fn spec_found(d: DetectionView, command: Option<ResolvedCommand>) -> (
    DetectionView,
    DetectStepView,
) {
    match command {
        None => (
            DetectionView { next: (d.next + 1) as usize, current: None, ..d },
            spec_move_on(d.available, d.next + 1),
        ),
        Some(c) => (
            DetectionView { current: Some((c, spec_start(kind_at(d.next as int)).0)), ..d },
            DetectStepView::Probe { command: c, probe: first_probe(kind_at(d.next as int)) },
        ),
    }
}

/// The detection after an answer to the check in progress: the next question, the owner, or
/// the next manager.
pub open spec fn spec_answer(d: DetectionView, answer: Answer) -> (DetectionView, DetectStepView) {
    let kind = kind_at(d.next as int);
    let (command, stage) = match d.current {
        Some(cs) => cs,
        None => arbitrary(),
    };
    let (next_stage, step) = spec_advance(kind, stage, answer);
    match step {
        StepView::Ask(p) => (
            DetectionView { current: Some((command, next_stage)), ..d },
            DetectStepView::Probe { command, probe: p },
        ),
        StepView::Decided(true) => (
            DetectionView { current: None, ..d },
            DetectStepView::Finished(Ok(PackageManager { kind, command })),
        ),
        StepView::Decided(false) => (
            DetectionView {
                next: (d.next + 1) as usize,
                available: d.available.push(kind),
                current: None,
            },
            spec_move_on(d.available.push(kind), d.next + 1),
        ),
    }
}

impl Detection {
    /// The command of the manager whose check is in progress.
    pub open spec fn current_command(&self) -> ResolvedCommand {
        match self.current {
            Some((c, _)) => c,
            None => arbitrary(),
        }
    }

    /// The stage of the check in progress.
    pub open spec fn current_stage(&self) -> StageView {
        match self.current {
            Some((_, check)) => check.stage@,
            None => arbitrary(),
        }
    }

    /// The detection is waiting for the result of a `FindCommand` step.
    pub open spec fn awaits_command(&self) -> bool {
        self.next < MANAGER_COUNT && self.current is None
    }

    /// The detection is waiting for the answer to a `Probe` step.
    pub open spec fn awaits_answer(&self) -> bool {
        &&& self.next < MANAGER_COUNT
        &&& self.current matches Some(c) && c.1.kind == kind_at(self.next as int)
    }

    /// Moves to the next manager in order.
    fn move_on(&mut self) -> (r: DetectStep)
        requires
            old(self).next < MANAGER_COUNT,
            old(self).current is None,
        ensures
            final(self).next == old(self).next + 1,
            final(self).available == old(self).available,
            final(self).current is None,
            r@ == spec_move_on(old(self).available@, old(self).next + 1),
    {
        self.next = self.next + 1;
        if self.next < MANAGER_COUNT {
            let kind = kind_at_exec(self.next);
            DetectStep::FindCommand { name: String::from_str(kind.command_name()) }
        } else {
            DetectStep::Finished(Err(no_owner_error(&self.available)))
        }
    }

    /// Hands over where the manager being looked at was found on `PATH`, if anywhere.
    pub fn found(&mut self, command: Option<ResolvedCommand>) -> (r: DetectStep)
        requires
            old(self).awaits_command(),
        ensures
            (final(self)@, r@) == spec_found(old(self)@, command),
            final(self).available == old(self).available,
            match command {
                None => final(self).next == old(self).next + 1 && final(self).current is None
                    && r@ == spec_move_on(old(self).available@, old(self).next + 1),
                Some(c) => {
                    &&& final(self).next == old(self).next
                    &&& final(self).awaits_answer()
                    &&& final(self).current_command() == c
                    &&& r@ is Probe
                    &&& r@->command == c
                    &&& (final(self).current_stage(), StepView::Ask(r@->probe)) == spec_start(
                        kind_at(old(self).next as int),
                    )
                },
            },
    {
        match command {
            None => self.move_on(),
            Some(c) => {
                let kind = kind_at_exec(self.next);
                let (check, step) = OwnershipCheck::start(kind);
                match step {
                    Step::Ask(probe) => {
                        let command = c.duplicate();
                        self.current = Some((c, check));
                        DetectStep::Probe { command, probe }
                    },
                    Step::Decided(_) => {
                        // every check begins with a question
                        proof {
                            assert(false);
                        }
                        DetectStep::Finished(Err(String::new()))
                    },
                }
            },
        }
    }

    /// Hands over the answer to the last `Probe` step.
    pub fn answer(&mut self, answer: Answer) -> (r: DetectStep)
        requires
            old(self).awaits_answer(),
        ensures
            (final(self)@, r@) == spec_answer(old(self)@, answer),
            ({
                let kind = kind_at(old(self).next as int);
                let command = old(self).current_command();
                let (stage, step) = spec_advance(kind, old(self).current_stage(), answer);
                match step {
                    StepView::Ask(p) => {
                        &&& final(self).next == old(self).next
                        &&& final(self).available == old(self).available
                        &&& final(self).awaits_answer()
                        &&& final(self).current_command() == command
                        &&& final(self).current_stage() == stage
                        &&& r@ == (DetectStepView::Probe { command, probe: p })
                    },
                    StepView::Decided(true) => r@ == DetectStepView::Finished(
                        Ok((PackageManager { kind, command })),
                    ),
                    StepView::Decided(false) => {
                        &&& final(self).next == old(self).next + 1
                        &&& final(self).current is None
                        &&& final(self).available@ == old(self).available@.push(kind)
                        &&& r@ == spec_move_on(old(self).available@.push(kind), old(self).next + 1)
                    },
                }
            }),
    {
        let mut current = None;
        std::mem::swap(&mut current, &mut self.current);
        let (command, mut check) = match current {
            Some(c) => c,
            None => {
                proof {
                    assert(false);
                }
                return DetectStep::Finished(Err(String::new()));
            },
        };
        let kind = check.kind;
        let step = check.advance(answer);
        match step {
            Step::Ask(probe) => {
                let copy = command.duplicate();
                self.current = Some((command, check));
                DetectStep::Probe { command: copy, probe }
            },
            Step::Decided(true) => DetectStep::Finished(Ok(PackageManager { kind, command })),
            Step::Decided(false) => {
                self.available.push(kind);
                self.move_on()
            },
        }
    }
}

impl PackageManager {
    /// Begins detecting which manager installed `dsh`; the first step looks up Volta.
    pub fn detect() -> (r: (Detection, DetectStep))
        ensures
            r.0@ == initial_detection(),
            r.0.next == 0,
            r.0.available@ == Seq::<PackageManagerKind>::empty(),
            r.0.awaits_command(),
            r.1@ == (DetectStepView::FindCommand { name: spec_command_name(kind_at(0)) }),
    {
        let kind = kind_at_exec(0);
        (
            Detection { next: 0, available: Vec::new(), current: None },
            DetectStep::FindCommand { name: String::from_str(kind.command_name()) },
        )
    }
}

fn joined_names_exec(kinds: &Vec<PackageManagerKind>) -> (r: String)
    ensures
        r@ == joined_names(kinds@),
{
    let mut r = String::new();
    let mut i: usize = 0;
    while i < kinds.len()
        invariant
            i <= kinds.len(),
            r@ == joined_names(kinds@.take(i as int)),
        decreases kinds.len() - i,
    {
        assert(kinds@.take(i + 1).drop_last() =~= kinds@.take(i as int));
        if i > 0 {
            r.append("、");
        } else {
            assert(r@ == Seq::<char>::empty());
            assert(kinds@.take(1) =~= seq![kinds@[0]]);
        }
        r.append(kinds[i].display_name());
        i = i + 1;
    }
    assert(kinds@.take(kinds.len() as int) =~= kinds@);
    r
}

fn no_owner_error(available: &Vec<PackageManagerKind>) -> (r: String)
    ensures
        r@ == no_owner_message(available@),
{
    let mut r = String::from_str("无法确认 dsh 的安装来源，");
    if available.len() == 0 {
        r.append("未找到可用的全局包管理器");
    } else {
        r.append("已找到但无法确认归属：");
        let names = joined_names_exec(available);
        r.append(names.as_str());
    }
    r
}

/// What a check of `kind` at `stage` concludes when it is given `answers` from index `pos`
/// on, one per question; `None` when they run out before a conclusion.
pub open spec fn conclusion_of(
    kind: PackageManagerKind,
    stage: StageView,
    answers: Seq<Answer>,
    pos: int,
) -> Option<bool>
    decreases answers.len() - pos,
{
    if pos < 0 || pos >= answers.len() {
        None
    } else {
        let (next_stage, step) = spec_advance(kind, stage, answers[pos]);
        match step {
            StepView::Decided(b) => Some(b),
            StepView::Ask(_) => conclusion_of(kind, next_stage, answers, pos + 1),
        }
    }
}

/// The owner among the managers from index `k` on: the first one, in order, that was found
/// and whose check concludes positively on its answers; when there is none, the error that
/// lists the managers found, those in `available` first.
pub open spec fn first_owner(
    found: Seq<Option<ResolvedCommand>>,
    answers: Seq<Seq<Answer>>,
    k: int,
    available: Seq<PackageManagerKind>,
) -> Result<PackageManager, Seq<char>>
    decreases MANAGER_COUNT - k,
{
    if k < 0 || k >= MANAGER_COUNT {
        Err(no_owner_message(available))
    } else {
        match found[k] {
            None => first_owner(found, answers, k + 1, available),
            Some(c) => if conclusion_of(kind_at(k), spec_start(kind_at(k)).0, answers[k], 0) == Some(
                true,
            ) {
                Ok(PackageManager { kind: kind_at(k), command: c })
            } else {
                first_owner(found, answers, k + 1, available.push(kind_at(k)))
            },
        }
    }
}

/// The result of driving a detection from `d`: each `FindCommand` is answered from `found`
/// and each question about manager `k` with the next of `answers[k]`, from index `pos` on;
/// `None` when `fuel` steps do not reach the end.
pub open spec fn run_detection(
    d: DetectionView,
    found: Seq<Option<ResolvedCommand>>,
    answers: Seq<Seq<Answer>>,
    pos: int,
    fuel: nat,
) -> Option<Result<PackageManager, Seq<char>>>
    decreases fuel,
{
    if fuel == 0 {
        None
    } else {
        let k = d.next as int;
        let (d2, step) = if d.current is None {
            spec_found(d, found[k])
        } else {
            spec_answer(d, answers[k][pos])
        };
        match step {
            DetectStepView::Finished(r) => Some(r),
            _ => run_detection(
                d2,
                found,
                answers,
                if d.current is None || d2.next != d.next {
                    0
                } else {
                    pos + 1
                },
                (fuel - 1) as nat,
            ),
        }
    }
}

/// Enough steps to drive a detection through the managers from index `k` on.
pub open spec fn detection_budget(answers: Seq<Seq<Answer>>, k: int) -> nat
    decreases MANAGER_COUNT - k,
{
    if k < 0 || k >= MANAGER_COUNT {
        0
    } else {
        1 + answers[k].len() + detection_budget(answers, k + 1)
    }
}

/// Every manager that is found gets a check that concludes within its answers.
pub open spec fn checks_conclude(
    found: Seq<Option<ResolvedCommand>>,
    answers: Seq<Seq<Answer>>,
) -> bool {
    forall|k: int|
        0 <= k < MANAGER_COUNT && (#[trigger] found[k]) is Some ==> conclusion_of(
            kind_at(k),
            spec_start(kind_at(k)).0,
            answers[k],
            0,
        ) is Some
}

proof fn lemma_run_from_manager(
    d: DetectionView,
    found: Seq<Option<ResolvedCommand>>,
    answers: Seq<Seq<Answer>>,
    fuel: nat,
)
    requires
        0 <= d.next < MANAGER_COUNT,
        d.current is None,
        found.len() == MANAGER_COUNT,
        answers.len() == MANAGER_COUNT,
        checks_conclude(found, answers),
        fuel >= detection_budget(answers, d.next as int),
    ensures
        run_detection(d, found, answers, 0, fuel) == Some(
            first_owner(found, answers, d.next as int, d.available),
        ),
    decreases MANAGER_COUNT - d.next, answers[d.next as int].len() + 1,
{
    let k = d.next as int;
    let (d2, step) = spec_found(d, found[k]);
    match found[k] {
        None => {
            if k + 1 < MANAGER_COUNT {
                lemma_run_from_manager(d2, found, answers, (fuel - 1) as nat);
            }
        },
        Some(c) => {
            assert(found[k] is Some);
            lemma_run_in_check(d2, found, answers, 0, (fuel - 1) as nat);
        },
    }
}

proof fn lemma_run_in_check(
    d: DetectionView,
    found: Seq<Option<ResolvedCommand>>,
    answers: Seq<Seq<Answer>>,
    pos: int,
    fuel: nat,
)
    requires
        0 <= d.next < MANAGER_COUNT,
        d.current matches Some((c, stage)) && found[d.next as int] == Some(c)
            && conclusion_of(kind_at(d.next as int), stage, answers[d.next as int], pos) is Some,
        0 <= pos,
        found.len() == MANAGER_COUNT,
        answers.len() == MANAGER_COUNT,
        checks_conclude(found, answers),
        fuel >= answers[d.next as int].len() - pos + detection_budget(answers, d.next + 1),
    ensures
        ({
            let k = d.next as int;
            let (c, stage) = match d.current {
                Some(cs) => cs,
                None => arbitrary(),
            };
            run_detection(d, found, answers, pos, fuel) == Some(
                if conclusion_of(kind_at(k), stage, answers[k], pos) == Some(true) {
                    Ok(PackageManager { kind: kind_at(k), command: c })
                } else {
                    first_owner(found, answers, k + 1, d.available.push(kind_at(k)))
                },
            )
        }),
    decreases MANAGER_COUNT - d.next, answers[d.next as int].len() - pos,
{
    let k = d.next as int;
    let (c, stage) = match d.current {
        Some(cs) => cs,
        None => arbitrary(),
    };
    let (d2, step) = spec_answer(d, answers[k][pos]);
    let (next_stage, check_step) = spec_advance(kind_at(k), stage, answers[k][pos]);
    match check_step {
        StepView::Ask(_) => {
            lemma_run_in_check(d2, found, answers, pos + 1, (fuel - 1) as nat);
        },
        StepView::Decided(b) => {
            if !b && k + 1 < MANAGER_COUNT {
                lemma_run_from_manager(d2, found, answers, (fuel - 1) as nat);
            }
        },
    }
}

/// Driving a detection with where each manager was found and the answers to each check
/// gives the first manager, in the order Volta, npm, pnpm, Yarn, Bun, cnpm, that was found
/// and whose check concludes positively; when there is none, the error lists the managers
/// that were found, in that order.
pub proof fn detection_reports_the_first_owner(
    found: Seq<Option<ResolvedCommand>>,
    answers: Seq<Seq<Answer>>,
    fuel: nat,
)
    requires
        found.len() == MANAGER_COUNT,
        answers.len() == MANAGER_COUNT,
        checks_conclude(found, answers),
        fuel >= detection_budget(answers, 0),
    ensures
        run_detection(initial_detection(), found, answers, 0, fuel) == Some(
            first_owner(found, answers, 0, Seq::empty()),
        ),
{
    lemma_run_from_manager(initial_detection(), found, answers, fuel);
}

} // verus!
