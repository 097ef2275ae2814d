//! Publishing updated baselines: enter the folder, then `git add .`,
//! `git commit` with a fixed message, and `git push`.
//!
//! The workflow is a state machine that the host drives. The host asks for
//! the action that is due, carries it out, and reports the outcome; the
//! machine answers with its next state. Only a step that could not be carried
//! out at all stops it. A `git` program that ran and exited with a failure
//! code counts as carried out, so a commit with nothing to commit or a push
//! that the remote turned down does not stop the workflow and does not turn
//! its reply into an error.
//!
//! Nothing is retried and nothing is undone: after a failed push the commit
//! stays.

use vstd::prelude::*;
use vstd::string::*;
use crate::host::{git, git_command, reply_view, Command, CommandView};

verus! {

/// One of the four steps, in the order in which they are taken.
#[derive(Clone, Copy, Debug, PartialEq, Eq, Structural)]
pub enum Step {
    /// Make the folder the working directory of the process.
    EnterFolder,
    /// `git add .`
    Stage,
    /// `git commit -m` with the fixed message.
    Commit,
    /// `git push`
    Push,
}

/// What the host is asked to do for one step.
#[derive(Debug, PartialEq, Eq)]
pub enum Action {
    /// Change the working directory of the process to `path`.
    ChangeDir { path: String },
    /// Start `command`, wait for it to end, and drop what it printed.
    Run { command: Command },
}

/// What an [`Action`] is, as sequences of characters.
pub enum ActionView {
    ChangeDir { path: Seq<char> },
    Run { command: CommandView },
}

impl View for Action {
    type V = ActionView;

    open spec fn view(&self) -> ActionView {
        match self {
            Action::ChangeDir { path } => ActionView::ChangeDir { path: path@ },
            Action::Run { command } => ActionView::Run { command: command@ },
        }
    }
}

/// What the host reports of one step.
#[derive(Debug, PartialEq, Eq)]
pub enum StepOutcome {
    /// The step was carried out. For a `git` step this means that the program
    /// was started and ran to its end, with whatever exit code: `exit_code`
    /// holds it, and `None` for a program ended by a signal and for the change
    /// of directory.
    Completed { exit_code: Option<i32> },
    /// The step could not be carried out: the directory could not be entered,
    /// or the program could not be started. `reason` is the operating
    /// system's message.
    Failed { reason: String },
}

/// What a [`StepOutcome`] is, as sequences of characters.
pub enum StepOutcomeView {
    Completed { exit_code: Option<i32> },
    Failed { reason: Seq<char> },
}

impl View for StepOutcome {
    type V = StepOutcomeView;

    open spec fn view(&self) -> StepOutcomeView {
        match self {
            StepOutcome::Completed { exit_code } => StepOutcomeView::Completed {
                exit_code: *exit_code,
            },
            StepOutcome::Failed { reason } => StepOutcomeView::Failed { reason: reason@ },
        }
    }
}

/// Where a run of the workflow stands.
#[derive(Debug, PartialEq, Eq)]
pub enum Workflow {
    /// `step` is due: the host has not reported its outcome yet.
    Pending { step: Step, folder_path: String },
    /// All four steps were carried out.
    Done,
    /// A step could not be carried out. `message` names the step and gives
    /// the reason; no later step was or will be asked for.
    Aborted { message: String },
}

/// What a [`Workflow`] is, as sequences of characters.
pub enum WorkflowView {
    Pending { step: Step, folder_path: Seq<char> },
    Done,
    Aborted { message: Seq<char> },
}

impl View for Workflow {
    type V = WorkflowView;

    open spec fn view(&self) -> WorkflowView {
        match self {
            Workflow::Pending { step, folder_path } => WorkflowView::Pending {
                step: *step,
                folder_path: folder_path@,
            },
            Workflow::Done => WorkflowView::Done,
            Workflow::Aborted { message } => WorkflowView::Aborted { message: message@ },
        }
    }
}

/// The message of every commit that the workflow makes.
pub open spec fn commit_message() -> Seq<char> {
    "updating Lost Pixel baselines"@
}

/// The reply of a run in which all four steps were carried out.
pub open spec fn success_message() -> Seq<char> {
    "Commit and push successful"@
}

/// How the error begins when `step` could not be carried out.
pub open spec fn failure_prefix(step: Step) -> Seq<char> {
    match step {
        Step::EnterFolder => "Failed to set current directory: "@,
        Step::Stage => "Failed to stage files: "@,
        Step::Commit => "Failed to commit: "@,
        Step::Push => "Failed to push: "@,
    }
}

/// The step that follows `step`, if any does.
pub open spec fn step_after(step: Step) -> Option<Step> {
    match step {
        Step::EnterFolder => Some(Step::Stage),
        Step::Stage => Some(Step::Commit),
        Step::Commit => Some(Step::Push),
        Step::Push => None,
    }
}

/// What the host is asked to do for `step` of a run on `folder_path`. The
/// `git` commands name no directory of their own: they start wherever the
/// process is, which after the first step is the folder.
pub open spec fn step_action(step: Step, folder_path: Seq<char>) -> ActionView {
    match step {
        Step::EnterFolder => ActionView::ChangeDir { path: folder_path },
        Step::Stage => ActionView::Run { command: git_command(seq!["add"@, "."@], None) },
        Step::Commit => ActionView::Run {
            command: git_command(seq!["commit"@, "-m"@, commit_message()], None),
        },
        Step::Push => ActionView::Run { command: git_command(seq!["push"@], None) },
    }
}

/// The state in which a run on `folder_path` begins.
pub open spec fn start_state(folder_path: Seq<char>) -> WorkflowView {
    WorkflowView::Pending { step: Step::EnterFolder, folder_path }
}

/// The action that is due in `state`; `None` once the run has ended.
pub open spec fn action_of(state: WorkflowView) -> Option<ActionView> {
    match state {
        WorkflowView::Pending { step, folder_path } => Some(step_action(step, folder_path)),
        WorkflowView::Done => None,
        WorkflowView::Aborted { .. } => None,
    }
}

/// The state that follows `state` when the host reports `outcome` for the
/// step that was due. An exit code is never looked at. A run that has ended
/// stays as it is.
pub open spec fn state_after(state: WorkflowView, outcome: StepOutcomeView) -> WorkflowView {
    match state {
        WorkflowView::Pending { step, folder_path } => match outcome {
            StepOutcomeView::Completed { .. } => match step_after(step) {
                Some(next) => WorkflowView::Pending { step: next, folder_path },
                None => WorkflowView::Done,
            },
            StepOutcomeView::Failed { reason } => WorkflowView::Aborted {
                message: failure_prefix(step) + reason,
            },
        },
        WorkflowView::Done => state,
        WorkflowView::Aborted { .. } => state,
    }
}

/// The reply to the caller in `state`; `None` while a step is due.
pub open spec fn reply_of(state: WorkflowView) -> Option<Result<Seq<char>, Seq<char>>> {
    match state {
        WorkflowView::Pending { .. } => None,
        WorkflowView::Done => Some(Ok(success_message())),
        WorkflowView::Aborted { message } => Some(Err(message)),
    }
}

/// What an action that may be absent is, as sequences of characters.
pub open spec fn action_view(action: Option<Action>) -> Option<ActionView> {
    match action {
        Some(a) => Some(a@),
        None => None,
    }
}

/// What a reply that may be absent is, as sequences of characters.
pub open spec fn pending_reply_view(reply: Option<Result<String, String>>) -> Option<
    Result<Seq<char>, Seq<char>>,
> {
    match reply {
        Some(r) => Some(reply_view(r)),
        None => None,
    }
}

impl Step {
    /// The step that follows this one, if any does.
    pub fn next(self) -> (next: Option<Step>)
        ensures
            next == step_after(self),
    {
        match self {
            Step::EnterFolder => Some(Step::Stage),
            Step::Stage => Some(Step::Commit),
            Step::Commit => Some(Step::Push),
            Step::Push => None,
        }
    }

    /// How the error begins when this step could not be carried out.
    pub fn failure_prefix(self) -> (prefix: &'static str)
        ensures
            prefix@ == failure_prefix(self),
    {
        match self {
            Step::EnterFolder => "Failed to set current directory: ",
            Step::Stage => "Failed to stage files: ",
            Step::Commit => "Failed to commit: ",
            Step::Push => "Failed to push: ",
        }
    }

    /// What the host is asked to do for this step of a run on `folder_path`.
    pub fn action(self, folder_path: &String) -> (action: Action)
        ensures
            action@ == step_action(self, folder_path@),
    {
        match self {
            Step::EnterFolder => Action::ChangeDir { path: folder_path.clone() },
            Step::Stage => {
                let mut args: Vec<String> = Vec::new();
                args.push("add".to_owned());
                args.push(".".to_owned());
                assert(args.deep_view() =~= seq!["add"@, "."@]);
                Action::Run { command: git(args, None) }
            },
            Step::Commit => {
                let mut args: Vec<String> = Vec::new();
                args.push("commit".to_owned());
                args.push("-m".to_owned());
                args.push("updating Lost Pixel baselines".to_owned());
                assert(args.deep_view() =~= seq!["commit"@, "-m"@, commit_message()]);
                Action::Run { command: git(args, None) }
            },
            Step::Push => {
                let mut args: Vec<String> = Vec::new();
                args.push("push".to_owned());
                assert(args.deep_view() =~= seq!["push"@]);
                Action::Run { command: git(args, None) }
            },
        }
    }
}

impl Workflow {
    /// Begins a run on `folder_path`. The path is taken as it is: whether the
    /// folder exists shows when the host tries to enter it.
    pub fn start(folder_path: String) -> (workflow: Workflow)
        ensures
            workflow@ == start_state(folder_path@),
    {
        Workflow::Pending { step: Step::EnterFolder, folder_path }
    }

    /// The action that is due; `None` once the run has ended.
    pub fn action(&self) -> (action: Option<Action>)
        ensures
            action_view(action) == action_of(self@),
    {
        match self {
            Workflow::Pending { step, folder_path } => Some(step.action(folder_path)),
            Workflow::Done => None,
            Workflow::Aborted { .. } => None,
        }
    }

    /// Takes in the outcome of the step that was due and moves on: to the
    /// next step, to the end, or to the error that names the step.
    pub fn advance(self, outcome: StepOutcome) -> (next: Workflow)
        ensures
            next@ == state_after(self@, outcome@),
    {
        match self {
            Workflow::Pending { step, folder_path } => match outcome {
                StepOutcome::Completed { .. } => match step.next() {
                    Some(next) => Workflow::Pending { step: next, folder_path },
                    None => Workflow::Done,
                },
                StepOutcome::Failed { reason } => {
                    let mut message = step.failure_prefix().to_owned();
                    message.append(reason.as_str());
                    Workflow::Aborted { message }
                },
            },
            Workflow::Done => Workflow::Done,
            Workflow::Aborted { message } => Workflow::Aborted { message },
        }
    }

    /// The reply to the caller; `None` while a step is due.
    pub fn reply(&self) -> (reply: Option<Result<String, String>>)
        ensures
            pending_reply_view(reply) == reply_of(self@),
    {
        match self {
            Workflow::Pending { .. } => None,
            Workflow::Done => Some(Ok("Commit and push successful".to_owned())),
            Workflow::Aborted { message } => Some(Err(message.clone())),
        }
    }
}

/// The four steps in the order in which they are taken.
pub open spec fn steps() -> Seq<Step> {
    seq![Step::EnterFolder, Step::Stage, Step::Commit, Step::Push]
}

/// Everything that a run on `folder_path` asks of the host when no step
/// fails, in order.
pub open spec fn plan(folder_path: Seq<char>) -> Seq<ActionView> {
    Seq::new(4, |i: int| step_action(steps()[i], folder_path))
}

/// The state that a run reaches from `state` when the host reports
/// `outcomes` one after the other.
pub open spec fn state_after_all(
    state: WorkflowView,
    outcomes: Seq<StepOutcomeView>,
) -> WorkflowView
    decreases outcomes.len(),
{
    if outcomes.len() == 0 {
        state
    } else {
        state_after_all(state_after(state, outcomes.first()), outcomes.drop_first())
    }
}

/// The actions that a host carries out when it drives a run from `state` and
/// meets `outcomes`: as long as an action is due and an outcome is left, it
/// carries out the action and reports the outcome.
pub open spec fn actions_taken(
    state: WorkflowView,
    outcomes: Seq<StepOutcomeView>,
) -> Seq<ActionView>
    decreases outcomes.len(),
{
    if outcomes.len() == 0 {
        Seq::empty()
    } else {
        match action_of(state) {
            Some(action) => seq![action] + actions_taken(
                state_after(state, outcomes.first()),
                outcomes.drop_first(),
            ),
            None => Seq::empty(),
        }
    }
}

/// The place of `step` among the four.
pub open spec fn step_index(step: Step) -> int {
    match step {
        Step::EnterFolder => 0,
        Step::Stage => 1,
        Step::Commit => 2,
        Step::Push => 3,
    }
}

/// A run has a reply exactly when no step is due.
pub proof fn lemma_reply_when_nothing_due(state: WorkflowView)
    ensures
        reply_of(state) is Some <==> action_of(state) is None,
{
}

/// A run that has ended takes no further action and stays where it is,
/// whatever is reported to it.
pub proof fn lemma_ended_run_stays(state: WorkflowView, outcomes: Seq<StepOutcomeView>)
    requires
        action_of(state) is None,
    ensures
        state_after_all(state, outcomes) == state,
        actions_taken(state, outcomes) == Seq::<ActionView>::empty(),
    decreases outcomes.len(),
{
    if outcomes.len() > 0 {
        lemma_ended_run_stays(state_after(state, outcomes.first()), outcomes.drop_first());
    }
}

proof fn lemma_stops_from(
    step: Step,
    folder_path: Seq<char>,
    outcomes: Seq<StepOutcomeView>,
    k: int,
)
    requires
        0 <= k < outcomes.len(),
        step_index(step) + k < 4,
        outcomes[k] is Failed,
        forall|j: int| 0 <= j < k ==> outcomes[j] is Completed,
    ensures
        state_after_all(WorkflowView::Pending { step, folder_path }, outcomes)
            == (WorkflowView::Aborted {
            message: failure_prefix(steps()[step_index(step) + k]) + outcomes[k]->reason,
        }),
        actions_taken(WorkflowView::Pending { step, folder_path }, outcomes) == plan(
            folder_path,
        ).subrange(step_index(step), step_index(step) + k + 1),
    decreases k,
{
    let state = WorkflowView::Pending { step, folder_path };
    let next = state_after(state, outcomes.first());
    let rest = outcomes.drop_first();
    if k == 0 {
        lemma_ended_run_stays(next, rest);
    } else {
        assert(outcomes[0] is Completed);
        assert(rest[k - 1] == outcomes[k]);
        assert forall|j: int| 0 <= j < k - 1 implies rest[j] is Completed by {
            assert(rest[j] == outcomes[j + 1]);
        }
        lemma_stops_from(step_after(step)->0, folder_path, rest, k - 1);
    }
    assert(actions_taken(state, outcomes) =~= plan(folder_path).subrange(
        step_index(step),
        step_index(step) + k + 1,
    ));
}

proof fn lemma_completes_from(step: Step, folder_path: Seq<char>, outcomes: Seq<StepOutcomeView>)
    requires
        forall|j: int| 0 <= j < outcomes.len() && j < 4 - step_index(step) ==> outcomes[j] is Completed,
    ensures
        state_after_all(WorkflowView::Pending { step, folder_path }, outcomes) == if step_index(
            step,
        ) + outcomes.len() < 4 {
            WorkflowView::Pending { step: steps()[step_index(step) + outcomes.len()], folder_path }
        } else {
            WorkflowView::Done
        },
        actions_taken(WorkflowView::Pending { step, folder_path }, outcomes) == if step_index(
            step,
        ) + outcomes.len() < 4 {
            plan(folder_path).subrange(step_index(step), step_index(step) + outcomes.len())
        } else {
            plan(folder_path).subrange(step_index(step), 4)
        },
    decreases outcomes.len(),
{
    let state = WorkflowView::Pending { step, folder_path };
    if outcomes.len() > 0 {
        let next = state_after(state, outcomes.first());
        let rest = outcomes.drop_first();
        assert(outcomes[0] is Completed);
        match step_after(step) {
            Some(following) => {
                assert forall|j: int|
                    0 <= j < rest.len() && j < 4 - step_index(following) implies rest[j] is Completed by {
                    assert(rest[j] == outcomes[j + 1]);
                }
                lemma_completes_from(following, folder_path, rest);
            },
            None => {
                lemma_ended_run_stays(next, rest);
            },
        }
    }
    assert(actions_taken(state, outcomes) =~= if step_index(step) + outcomes.len() < 4 {
        plan(folder_path).subrange(step_index(step), step_index(step) + outcomes.len())
    } else {
        plan(folder_path).subrange(step_index(step), 4)
    });
}

/// A run stops at the first step that could not be carried out. When step
/// `k` is the first to fail, the run ends with the error that names this step
/// and gives the reported reason, and the host has carried out the steps up to
/// and including `k` and none after it, whatever else it would have reported.
pub proof fn lemma_run_stops_at_first_failure(
    folder_path: Seq<char>,
    outcomes: Seq<StepOutcomeView>,
    k: int,
)
    requires
        0 <= k < 4,
        k < outcomes.len(),
        outcomes[k] is Failed,
        forall|j: int| 0 <= j < k ==> outcomes[j] is Completed,
    ensures
        reply_of(state_after_all(start_state(folder_path), outcomes)) == Some(
            Err::<Seq<char>, Seq<char>>(failure_prefix(steps()[k]) + outcomes[k]->reason),
        ),
        actions_taken(start_state(folder_path), outcomes) == plan(folder_path).take(k + 1),
{
    lemma_stops_from(Step::EnterFolder, folder_path, outcomes, k);
}

/// A run in which every step was carried out replies with the success
/// message, whatever the exit codes were: a `git` that reported failure
/// through its exit code changes neither the reply nor the steps taken.
pub proof fn lemma_exit_codes_are_ignored(folder_path: Seq<char>, outcomes: Seq<StepOutcomeView>)
    requires
        outcomes.len() >= 4,
        forall|j: int| 0 <= j < 4 ==> outcomes[j] is Completed,
    ensures
        reply_of(state_after_all(start_state(folder_path), outcomes)) == Some(
            Ok::<Seq<char>, Seq<char>>(success_message()),
        ),
        actions_taken(start_state(folder_path), outcomes) == plan(folder_path),
{
    lemma_completes_from(Step::EnterFolder, folder_path, outcomes);
    assert(plan(folder_path).subrange(0, 4) =~= plan(folder_path));
}

/// While fewer than four outcomes have been reported and none was a failure,
/// the run has no reply yet: the next step is due.
pub proof fn lemma_run_goes_on(folder_path: Seq<char>, outcomes: Seq<StepOutcomeView>)
    requires
        outcomes.len() < 4,
        forall|j: int| 0 <= j < outcomes.len() ==> outcomes[j] is Completed,
    ensures
        state_after_all(start_state(folder_path), outcomes) == (WorkflowView::Pending {
            step: steps()[outcomes.len() as int],
            folder_path,
        }),
        actions_taken(start_state(folder_path), outcomes) == plan(folder_path).take(
            outcomes.len() as int,
        ),
{
    lemma_completes_from(Step::EnterFolder, folder_path, outcomes);
}

/// When the folder cannot be entered, the run ends there: the reply is the
/// error of the directory change, and the change of directory is the only
/// thing the host was asked to do. No `git` command is run.
pub proof fn lemma_no_git_without_folder(folder_path: Seq<char>, outcomes: Seq<StepOutcomeView>)
    requires
        outcomes.len() > 0,
        outcomes[0] is Failed,
    ensures
        reply_of(state_after_all(start_state(folder_path), outcomes)) == Some(
            Err::<Seq<char>, Seq<char>>(
                "Failed to set current directory: "@ + outcomes[0]->reason,
            ),
        ),
        actions_taken(start_state(folder_path), outcomes) == seq![
            ActionView::ChangeDir { path: folder_path },
        ],
        forall|i: int|
            0 <= i < actions_taken(start_state(folder_path), outcomes).len() ==> !(actions_taken(
                start_state(folder_path),
                outcomes,
            )[i] is Run),
{
    lemma_run_stops_at_first_failure(folder_path, outcomes, 0);
    assert(plan(folder_path).take(1) =~= seq![ActionView::ChangeDir { path: folder_path }]);
}

/// The steps are taken in their fixed order, each at most once: whatever the
/// host reports, what it has carried out is a beginning of the plan.
pub proof fn lemma_actions_follow_plan(folder_path: Seq<char>, outcomes: Seq<StepOutcomeView>)
    ensures
        actions_taken(start_state(folder_path), outcomes).len() <= 4,
        actions_taken(start_state(folder_path), outcomes) == plan(folder_path).take(
            actions_taken(start_state(folder_path), outcomes).len() as int,
        ),
{
    if outcomes.len() > 0 && outcomes[0] is Failed {
        lemma_run_stops_at_first_failure(folder_path, outcomes, 0);
    } else if outcomes.len() > 1 && outcomes[1] is Failed {
        lemma_run_stops_at_first_failure(folder_path, outcomes, 1);
    } else if outcomes.len() > 2 && outcomes[2] is Failed {
        lemma_run_stops_at_first_failure(folder_path, outcomes, 2);
    } else if outcomes.len() > 3 && outcomes[3] is Failed {
        lemma_run_stops_at_first_failure(folder_path, outcomes, 3);
    } else if outcomes.len() >= 4 {
        lemma_exit_codes_are_ignored(folder_path, outcomes);
        assert(plan(folder_path).take(4) =~= plan(folder_path));
    } else {
        lemma_run_goes_on(folder_path, outcomes);
    }
}

} // verus!
