//! The steps taken for one fetched submission, as a state machine: the caller
//! performs each returned action and reports what came of it as an event.
use vstd::prelude::*;
use vstd::string::*;
use crate::grading::{decision_of, read_decision, trimmed_of};
use crate::interrupt::interrupt_target_spec;
use crate::text::{render_source, source_of};
use crate::workspace::{workspace_key, workspace_key_of};

verus! {

/// A submission as fetched from the grading backend.
pub struct Submission {
    /// The backend's status word, e.g. `submitted`.
    pub status: String,
    /// The submitter's user id; negative where the backend gave none.
    pub user_id: i64,
    /// The submitted content, as markup.
    pub body: String,
}

/// Where the handling of a submission stands.
#[derive(PartialEq, Eq, Structural, Clone, Copy, Debug)]
pub enum Stage {
    AwaitName,
    AwaitWorkspace,
    AwaitScaffold,
    AwaitDependencies,
    AwaitSource,
    AwaitSpawn,
    Running,
    AwaitGrade,
    AwaitReport,
    Done,
}

/// What came of the last action.
pub enum Event {
    /// The submitter's display name was resolved.
    NameResolved(String),
    /// The display name could not be resolved.
    NameFailed,
    /// Whether the workspace directory already exists.
    WorkspaceChecked(bool),
    /// A scaffold, dependency or write step has finished.
    StepDone,
    /// The child process was started with this process id.
    Spawned(u32),
    /// The child process could not be started.
    SpawnFailed,
    /// The child process has ended, by itself or after an interrupt.
    ChildExited,
    /// One line typed by the operator at the grade prompt.
    OperatorLine(String),
    /// The grade report has been sent, or its failure logged.
    Reported,
}

/// What the caller is to do next.
pub enum Action {
    /// The submission does not await grading: nothing is done for it.
    Skip,
    /// The submission names no user: report the error and go on.
    ReportMissingUser,
    /// Resolve the display name of this user.
    ResolveName(i64),
    /// The display name could not be resolved: report it and go on.
    ReportNameFailure,
    /// The body could not be rendered: report it and go on.
    ReportRenderFailure,
    /// Check whether this workspace directory exists.
    CheckWorkspace(String),
    /// Create a new buildable project in this workspace directory.
    Scaffold(String),
    /// Declare the fixed build dependencies in this workspace.
    AddDependencies(String),
    /// Overwrite the entry-point source file of the workspace with the text.
    WriteSource(String, String),
    /// Build and start the program of this workspace as a child process.
    Spawn(String),
    /// Wait for the child process to end.
    Wait,
    /// Ask the operator for a grade decision.
    Prompt,
    /// Report this grade for this user.
    ReportGrade(i64, u8),
    /// The submission is finished with.
    Finish,
    /// The event does not fit the stage: nothing to do.
    Idle,
}

/// The abstract form of an event.
pub enum EventModel {
    NameResolved(Seq<char>),
    NameFailed,
    WorkspaceChecked(bool),
    StepDone,
    Spawned(u32),
    SpawnFailed,
    ChildExited,
    OperatorLine(Seq<char>),
    Reported,
}

/// The abstract form of an action.
pub enum ActionModel {
    Skip,
    ReportMissingUser,
    ResolveName(i64),
    ReportNameFailure,
    ReportRenderFailure,
    CheckWorkspace(Seq<char>),
    Scaffold(Seq<char>),
    AddDependencies(Seq<char>),
    WriteSource(Seq<char>, Seq<char>),
    Spawn(Seq<char>),
    Wait,
    Prompt,
    ReportGrade(i64, u8),
    Finish,
    Idle,
}

impl View for Event {
    type V = EventModel;

    open spec fn view(&self) -> EventModel {
        match self {
            Event::NameResolved(n) => EventModel::NameResolved(n@),
            Event::NameFailed => EventModel::NameFailed,
            Event::WorkspaceChecked(b) => EventModel::WorkspaceChecked(*b),
            Event::StepDone => EventModel::StepDone,
            Event::Spawned(p) => EventModel::Spawned(*p),
            Event::SpawnFailed => EventModel::SpawnFailed,
            Event::ChildExited => EventModel::ChildExited,
            Event::OperatorLine(l) => EventModel::OperatorLine(l@),
            Event::Reported => EventModel::Reported,
        }
    }
}

impl View for Action {
    type V = ActionModel;

    open spec fn view(&self) -> ActionModel {
        match self {
            Action::Skip => ActionModel::Skip,
            Action::ReportMissingUser => ActionModel::ReportMissingUser,
            Action::ResolveName(u) => ActionModel::ResolveName(*u),
            Action::ReportNameFailure => ActionModel::ReportNameFailure,
            Action::ReportRenderFailure => ActionModel::ReportRenderFailure,
            Action::CheckWorkspace(d) => ActionModel::CheckWorkspace(d@),
            Action::Scaffold(d) => ActionModel::Scaffold(d@),
            Action::AddDependencies(d) => ActionModel::AddDependencies(d@),
            Action::WriteSource(d, s) => ActionModel::WriteSource(d@, s@),
            Action::Spawn(d) => ActionModel::Spawn(d@),
            Action::Wait => ActionModel::Wait,
            Action::Prompt => ActionModel::Prompt,
            Action::ReportGrade(u, g) => ActionModel::ReportGrade(*u, *g),
            Action::Finish => ActionModel::Finish,
            Action::Idle => ActionModel::Idle,
        }
    }
}

/// The handling of one submission.
pub struct SubmissionRun {
    pub stage: Stage,
    pub user_id: i64,
    /// The submission body, as markup.
    pub body: String,
    /// The workspace directory, once the submitter's name is known.
    pub dir: String,
    /// The source text to build, once the body is rendered.
    pub source: String,
    /// The id of the running child process; zero while none runs.
    pub child: u32,
}

/// The abstract form of a submission's handling.
pub struct RunModel {
    pub stage: Stage,
    pub user_id: i64,
    pub body: Seq<char>,
    pub dir: Seq<char>,
    pub source: Seq<char>,
    pub child: u32,
}

impl View for SubmissionRun {
    type V = RunModel;

    open spec fn view(&self) -> RunModel {
        RunModel {
            stage: self.stage,
            user_id: self.user_id,
            body: self.body@,
            dir: self.dir@,
            source: self.source@,
            child: self.child,
        }
    }
}

/// The status word of a submission that awaits grading.
pub open spec fn submitted_status() -> Seq<char> {
    seq!['s', 'u', 'b', 'm', 'i', 't', 't', 'e', 'd']
}

/// A well-formed handling: a child id is held exactly while the child runs.
pub open spec fn run_wf(m: RunModel) -> bool {
    (m.stage == Stage::Running) <==> m.child != 0
}

/// The first state and action for a submission.
pub open spec fn start_spec(status: Seq<char>, user_id: i64, body: Seq<char>) -> (
    RunModel,
    ActionModel,
) {
    let m = RunModel {
        stage: Stage::Done,
        user_id,
        body,
        dir: Seq::empty(),
        source: Seq::empty(),
        child: 0,
    };
    if status != submitted_status() {
        (m, ActionModel::Skip)
    } else if user_id < 0 {
        (m, ActionModel::ReportMissingUser)
    } else {
        (RunModel { stage: Stage::AwaitName, ..m }, ActionModel::ResolveName(user_id))
    }
}

/// The next state and action, given the current state and what came of the
/// last action.
pub open spec fn next(m: RunModel, e: EventModel) -> (RunModel, ActionModel) {
    let done = RunModel { stage: Stage::Done, ..m };
    match (m.stage, e) {
        (Stage::AwaitName, EventModel::NameResolved(name)) => match source_of(m.body) {
            Some(src) => {
                let dir = workspace_key_of(name);
                (
                    RunModel { stage: Stage::AwaitWorkspace, dir, source: src, ..m },
                    ActionModel::CheckWorkspace(dir),
                )
            },
            None => (done, ActionModel::ReportRenderFailure),
        },
        (Stage::AwaitName, EventModel::NameFailed) => (done, ActionModel::ReportNameFailure),
        (Stage::AwaitWorkspace, EventModel::WorkspaceChecked(exists)) => if exists {
            (
                RunModel { stage: Stage::AwaitDependencies, ..m },
                ActionModel::AddDependencies(m.dir),
            )
        } else {
            (RunModel { stage: Stage::AwaitScaffold, ..m }, ActionModel::Scaffold(m.dir))
        },
        (Stage::AwaitScaffold, EventModel::StepDone) => (
            RunModel { stage: Stage::AwaitDependencies, ..m },
            ActionModel::AddDependencies(m.dir),
        ),
        (Stage::AwaitDependencies, EventModel::StepDone) => (
            RunModel { stage: Stage::AwaitSource, ..m },
            ActionModel::WriteSource(m.dir, m.source),
        ),
        (Stage::AwaitSource, EventModel::StepDone) => (
            RunModel { stage: Stage::AwaitSpawn, ..m },
            ActionModel::Spawn(m.dir),
        ),
        (Stage::AwaitSpawn, EventModel::Spawned(pid)) => if pid != 0 {
            (RunModel { stage: Stage::Running, child: pid, ..m }, ActionModel::Wait)
        } else {
            (RunModel { stage: Stage::AwaitGrade, ..m }, ActionModel::Prompt)
        },
        (Stage::AwaitSpawn, EventModel::SpawnFailed) => (
            RunModel { stage: Stage::AwaitGrade, ..m },
            ActionModel::Prompt,
        ),
        (Stage::Running, EventModel::ChildExited) => (
            RunModel { stage: Stage::AwaitGrade, child: 0, ..m },
            ActionModel::Prompt,
        ),
        (Stage::AwaitGrade, EventModel::OperatorLine(line)) => match decision_of(
            trimmed_of(line),
        ) {
            Some(d) => match d.code_spec() {
                Some(g) => (
                    RunModel { stage: Stage::AwaitReport, ..m },
                    ActionModel::ReportGrade(m.user_id, g),
                ),
                None => (done, ActionModel::Finish),
            },
            None => (m, ActionModel::Prompt),
        },
        (Stage::AwaitReport, EventModel::Reported) => (done, ActionModel::Finish),
        _ => (m, ActionModel::Idle),
    }
}

/// The actions returned for a sequence of events, from state `m` on.
pub open spec fn run_actions(m: RunModel, es: Seq<EventModel>) -> Seq<ActionModel>
    decreases es.len(),
{
    if es.len() == 0 {
        Seq::empty()
    } else {
        seq![next(m, es[0]).1] + run_actions(next(m, es[0]).0, es.drop_first())
    }
}

/// An action that reads or writes a workspace, or starts a process.
pub open spec fn touches_workspace(a: ActionModel) -> bool {
    match a {
        ActionModel::CheckWorkspace(_) | ActionModel::Scaffold(_) | ActionModel::AddDependencies(
            _,
        ) | ActionModel::WriteSource(_, _) | ActionModel::Spawn(_) => true,
        _ => false,
    }
}

/// Once a submission is done with, every further event is ignored.
pub proof fn lemma_done_is_final(m: RunModel, es: Seq<EventModel>)
    requires
        m.stage == Stage::Done,
    ensures
        forall|i: int| 0 <= i < run_actions(m, es).len() ==> run_actions(m, es)[i] == ActionModel::Idle,
    decreases es.len(),
{
    if es.len() > 0 {
        lemma_done_is_final(m, es.drop_first());
        let rest = run_actions(m, es.drop_first());
        assert(run_actions(m, es) == seq![ActionModel::Idle] + rest);
        assert forall|i: int| 0 <= i < run_actions(m, es).len() implies run_actions(m, es)[i]
            == ActionModel::Idle by {
            if i > 0 {
                assert(run_actions(m, es)[i] == rest[i - 1]);
            }
        }
    }
}

/// A submission whose status is not `submitted` is skipped: whatever events
/// follow, no workspace is checked, created or written and no process is
/// started for it.
pub proof fn lemma_unsubmitted_untouched(
    status: Seq<char>,
    user_id: i64,
    body: Seq<char>,
    es: Seq<EventModel>,
)
    requires
        status != submitted_status(),
    ensures
        start_spec(status, user_id, body).1 == ActionModel::Skip,
        forall|i: int|
            0 <= i < run_actions(start_spec(status, user_id, body).0, es).len()
                ==> !touches_workspace(
                #[trigger] run_actions(start_spec(status, user_id, body).0, es)[i],
            ),
{
    lemma_done_is_final(start_spec(status, user_id, body).0, es);
}

/// The workspace of a submission is named by the submitter's display name
/// alone, so two runs for the same name use the same directory; and where
/// that directory already exists it is reused as it is, with no new project
/// scaffolded into it.
pub proof fn lemma_workspace_reused(m1: RunModel, m2: RunModel, name: Seq<char>)
    requires
        m1.stage == Stage::AwaitName,
        m2.stage == Stage::AwaitName,
        source_of(m1.body) is Some,
        source_of(m2.body) is Some,
    ensures
        next(m1, EventModel::NameResolved(name)).0.dir == workspace_key_of(name),
        next(m2, EventModel::NameResolved(name)).0.dir == workspace_key_of(name),
        next(m2, EventModel::NameResolved(name)).1 == ActionModel::CheckWorkspace(
            workspace_key_of(name),
        ),
        ({
            let w = next(m2, EventModel::NameResolved(name)).0;
            let (after, a) = next(w, EventModel::WorkspaceChecked(true));
            a == ActionModel::AddDependencies(workspace_key_of(name)) && after.dir == w.dir
        }),
{
}

/// The active child handle is non-zero exactly while a child runs: every
/// step keeps that; it takes the child's id when the child starts, keeps it
/// until the child exits, and is cleared then.
pub proof fn lemma_handle_tracks_child(m: RunModel, e: EventModel)
    requires
        run_wf(m),
    ensures
        run_wf(next(m, e).0),
        m.stage == Stage::Running && !(e is ChildExited) ==> next(m, e).0.stage == Stage::Running
            && next(m, e).0.child == m.child,
        m.stage == Stage::Running && e is ChildExited ==> next(m, e).0.child == 0,
        m.stage == Stage::AwaitSpawn && e is Spawned && e->Spawned_0 != 0 ==> next(m, e).0.child
            == e->Spawned_0,
{
}

/// An interrupt reaches the running child and no other process, and is
/// dropped while no child runs.
pub proof fn lemma_interrupt_reaches_running_child(m: RunModel)
    requires
        run_wf(m),
    ensures
        m.stage == Stage::Running ==> interrupt_target_spec(m.child) == Some(m.child),
        m.stage != Stage::Running ==> interrupt_target_spec(m.child) is None,
{
}

/// At the grade prompt, `P`, `W` and `M` report grades 3, 2 and 1 for the
/// submitter, `-` ends without a report, and any other answer asks again
/// without reporting.
pub proof fn lemma_grade_prompt(m: RunModel, line: Seq<char>)
    requires
        m.stage == Stage::AwaitGrade,
    ensures
        trimmed_of(line) == seq!['P'] ==> next(m, EventModel::OperatorLine(line)).1
            == ActionModel::ReportGrade(m.user_id, 3),
        trimmed_of(line) == seq!['W'] ==> next(m, EventModel::OperatorLine(line)).1
            == ActionModel::ReportGrade(m.user_id, 2),
        trimmed_of(line) == seq!['M'] ==> next(m, EventModel::OperatorLine(line)).1
            == ActionModel::ReportGrade(m.user_id, 1),
        trimmed_of(line) == seq!['-'] ==> next(m, EventModel::OperatorLine(line)).1
            == ActionModel::Finish,
        decision_of(trimmed_of(line)) is None ==> next(m, EventModel::OperatorLine(line)) == (
            m,
            ActionModel::Prompt,
        ),
{
    assert(seq!['W'][0] != seq!['P'][0]);
    assert(seq!['M'][0] != seq!['P'][0] && seq!['M'][0] != seq!['W'][0]);
    assert(seq!['-'][0] != seq!['P'][0] && seq!['-'][0] != seq!['W'][0] && seq!['-'][0]
        != seq!['M'][0]);
}

/// Whether two strings hold the same characters.
fn same_text(a: &str, b: &str) -> (r: bool)
    ensures
        r == (a@ == b@),
{
    let n = a.unicode_len();
    if n != b.unicode_len() {
        return false;
    }
    let mut i: usize = 0;
    while i < n
        invariant
            n == a@.len() == b@.len(),
            i <= n,
            a@.subrange(0, i as int) == b@.subrange(0, i as int),
        decreases n - i,
    {
        if a.get_char(i) != b.get_char(i) {
            assert(a@[i as int] != b@[i as int]);
            return false;
        }
        assert(a@.subrange(0, i + 1) =~= a@.subrange(0, i as int).push(a@[i as int]));
        assert(b@.subrange(0, i + 1) =~= b@.subrange(0, i as int).push(b@[i as int]));
        i = i + 1;
    }
    assert(a@ =~= a@.subrange(0, n as int));
    assert(b@ =~= b@.subrange(0, n as int));
    true
}

fn copy_text(s: &String) -> (r: String)
    ensures
        r@ == s@,
{
    let mut r = String::new();
    r.append(s.as_str());
    r
}

impl SubmissionRun {
    /// The value for the active child handle: the running child's id, or zero.
    pub fn handle_value(&self) -> (r: u32)
        ensures
            r == (if self.stage == Stage::Running {
                self.child
            } else {
                0
            }),
            run_wf(self@) ==> r == self.child,
    {
        if self.stage == Stage::Running {
            self.child
        } else {
            0
        }
    }

    /// Begins the handling of a fetched submission.
    pub fn start(sub: &Submission) -> (r: (SubmissionRun, Action))
        ensures
            (r.0@, r.1@) == start_spec(sub.status@, sub.user_id, sub.body@),
            run_wf(r.0@),
    {
        let submitted = "submitted";
        proof {
            reveal_strlit("submitted");
            assert(submitted@ =~= submitted_status());
        }
        let mut run = SubmissionRun {
            stage: Stage::Done,
            user_id: sub.user_id,
            body: copy_text(&sub.body),
            dir: String::new(),
            source: String::new(),
            child: 0,
        };
        if !same_text(sub.status.as_str(), submitted) {
            (run, Action::Skip)
        } else if sub.user_id < 0 {
            (run, Action::ReportMissingUser)
        } else {
            run.stage = Stage::AwaitName;
            (run, Action::ResolveName(sub.user_id))
        }
    }

    /// Takes the state one step on, given what came of the last action.
    pub fn step(&mut self, ev: Event) -> (r: Action)
        requires
            run_wf(old(self)@),
        ensures
            (final(self)@, r@) == next(old(self)@, ev@),
            run_wf(final(self)@),
    {
        match (self.stage, ev) {
            (Stage::AwaitName, Event::NameResolved(name)) => match render_source(
                self.body.as_str(),
            ) {
                Some(src) => {
                    let dir = workspace_key(name.as_str());
                    self.stage = Stage::AwaitWorkspace;
                    self.dir = copy_text(&dir);
                    self.source = src;
                    Action::CheckWorkspace(dir)
                },
                None => {
                    self.stage = Stage::Done;
                    Action::ReportRenderFailure
                },
            },
            (Stage::AwaitName, Event::NameFailed) => {
                self.stage = Stage::Done;
                Action::ReportNameFailure
            },
            (Stage::AwaitWorkspace, Event::WorkspaceChecked(exists)) => {
                if exists {
                    self.stage = Stage::AwaitDependencies;
                    Action::AddDependencies(copy_text(&self.dir))
                } else {
                    self.stage = Stage::AwaitScaffold;
                    Action::Scaffold(copy_text(&self.dir))
                }
            },
            (Stage::AwaitScaffold, Event::StepDone) => {
                self.stage = Stage::AwaitDependencies;
                Action::AddDependencies(copy_text(&self.dir))
            },
            (Stage::AwaitDependencies, Event::StepDone) => {
                self.stage = Stage::AwaitSource;
                Action::WriteSource(copy_text(&self.dir), copy_text(&self.source))
            },
            (Stage::AwaitSource, Event::StepDone) => {
                self.stage = Stage::AwaitSpawn;
                Action::Spawn(copy_text(&self.dir))
            },
            (Stage::AwaitSpawn, Event::Spawned(pid)) => {
                if pid != 0 {
                    self.stage = Stage::Running;
                    self.child = pid;
                    Action::Wait
                } else {
                    self.stage = Stage::AwaitGrade;
                    Action::Prompt
                }
            },
            (Stage::AwaitSpawn, Event::SpawnFailed) => {
                self.stage = Stage::AwaitGrade;
                Action::Prompt
            },
            (Stage::Running, Event::ChildExited) => {
                self.stage = Stage::AwaitGrade;
                self.child = 0;
                Action::Prompt
            },
            (Stage::AwaitGrade, Event::OperatorLine(line)) => match read_decision(line.as_str()) {
                Some(d) => match d.code() {
                    Some(g) => {
                        self.stage = Stage::AwaitReport;
                        Action::ReportGrade(self.user_id, g)
                    },
                    None => {
                        self.stage = Stage::Done;
                        Action::Finish
                    },
                },
                None => Action::Prompt,
            },
            (Stage::AwaitReport, Event::Reported) => {
                self.stage = Stage::Done;
                Action::Finish
            },
            _ => Action::Idle,
        }
    }
}

} // verus!
