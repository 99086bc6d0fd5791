//! The commit workflow as a state machine. Each step takes the outcome of the
//! previous collaborator call and names the next call to make; the caller
//! performs the calls (staging, diff, model request, confirmation, commit,
//! push) and feeds their outcomes back.
use vstd::prelude::*;

use crate::config::Config;
use crate::llm::{
    ChatRequest, GenError, LLM, Reply, is_message_of, is_request_for, reply_failure, first_choice,
};
use crate::text::{trim, trimmed};

verus! {

/// Whether a run publishes its commit.
#[derive(Clone, Copy, Debug, PartialEq, Eq, Structural)]
pub enum Plan {
    /// Commit, then push to the current branch.
    Publish,
    /// Commit locally only.
    LocalOnly,
}

/// Where a run stands: the collaborator call whose outcome it waits for.
#[derive(Debug)]
pub enum Stage {
    Adding,
    CheckingStaged,
    ReadingDiff,
    Generating,
    Confirming { subject: String, body: Option<String> },
    Committing,
    LookingUpBranch,
    Pushing,
    Finished,
}

/// One invocation of the workflow.
#[derive(Debug)]
pub struct Run {
    pub plan: Plan,
    pub stage: Stage,
}

/// How a run that did not fail ended.
#[derive(Clone, Copy, Debug, PartialEq, Eq, Structural)]
pub enum Outcome {
    /// The user declined the message: nothing was committed.
    Cancelled,
    /// Committed locally.
    Committed,
    /// Committed and pushed.
    Pushed,
}

/// Why a run failed, naming the step.
#[derive(Clone, Debug, PartialEq, Eq)]
pub enum WorkflowError {
    Add(String),
    NothingStaged,
    StagedCheck(String),
    Diff(String),
    Generation(GenError),
    Confirm(String),
    Commit(String),
    Push(String),
    /// An outcome arrived that the current stage does not wait for.
    OutOfOrder,
}

/// The next thing the caller must do.
#[derive(Debug)]
pub enum Action {
    Add(Vec<String>),
    CheckStaged,
    ReadDiff,
    /// Send this request to the language model.
    Complete(ChatRequest),
    /// Show the message held by the run's stage and ask whether to commit it.
    Confirm,
    Commit(String, Option<String>),
    LookUpBranch,
    Push(String),
    /// The run is over.
    Finish(Result<Outcome, WorkflowError>),
}

/// The outcome of the call that the last action asked for.
#[derive(Debug)]
pub enum Event {
    Added(Result<(), String>),
    Staged(Result<bool, String>),
    Diff(Result<String, String>),
    Replied(Reply),
    Confirmed(Result<bool, String>),
    Committed(Result<(), String>),
    Branch(Result<String, String>),
    Pushed(Result<(), String>),
}

pub struct Workflow {
    pub llm: LLM,
    pub config: Config,
}

pub open spec fn is_finish(next: Run, act: Action, plan: Plan, res: Result<Outcome, WorkflowError>) -> bool {
    next == (Run { plan, stage: Stage::Finished }) && act == Action::Finish(res)
}

pub open spec fn moves_to(next: Run, act: Action, plan: Plan, stage: Stage, a: Action) -> bool {
    next == (Run { plan, stage }) && act == a
}

/// The first action of a run with `plan` over `files`: stage them if there
/// are any, else look for staged changes.
pub open spec fn is_start(plan: Plan, files: Vec<String>, run: Run, act: Action) -> bool {
    if files@.len() > 0 {
        moves_to(run, act, plan, Stage::Adding, Action::Add(files))
    } else {
        moves_to(run, act, plan, Stage::CheckingStaged, Action::CheckStaged)
    }
}

/// One step: at `run`, after `event`, the run becomes `next` and asks for `act`.
pub open spec fn advances(w: Workflow, run: Run, event: Event, next: Run, act: Action) -> bool {
    let plan = run.plan;
    let unexpected = is_finish(next, act, plan, Err(WorkflowError::OutOfOrder));
    match run.stage {
        Stage::Adding => match event {
            Event::Added(Ok(_)) => moves_to(next, act, plan, Stage::CheckingStaged, Action::CheckStaged),
            Event::Added(Err(e)) => is_finish(next, act, plan, Err(WorkflowError::Add(e))),
            _ => unexpected,
        },
        Stage::CheckingStaged => match event {
            Event::Staged(Ok(true)) => moves_to(next, act, plan, Stage::ReadingDiff, Action::ReadDiff),
            Event::Staged(Ok(false)) => is_finish(next, act, plan, Err(WorkflowError::NothingStaged)),
            Event::Staged(Err(e)) => is_finish(next, act, plan, Err(WorkflowError::StagedCheck(e))),
            _ => unexpected,
        },
        Stage::ReadingDiff => match event {
            Event::Diff(Ok(d)) => next == (Run { plan, stage: Stage::Generating }) && act is Complete
                && is_request_for(act->Complete_0, w.llm.config, d@),
            Event::Diff(Err(e)) => is_finish(next, act, plan, Err(WorkflowError::Diff(e))),
            _ => unexpected,
        },
        Stage::Generating => match event {
            Event::Replied(reply) => match reply_failure(reply) {
                Some(g) => is_finish(next, act, plan, Err(WorkflowError::Generation(g))),
                None => next.plan == plan && next.stage is Confirming && act is Confirm
                    && is_message_of((next.stage->subject, next.stage->body), first_choice(reply)),
            },
            _ => unexpected,
        },
        Stage::Confirming { subject, body } => match event {
            Event::Confirmed(Ok(true)) => moves_to(next, act, plan, Stage::Committing, Action::Commit(subject, body)),
            Event::Confirmed(Ok(false)) => is_finish(next, act, plan, Ok(Outcome::Cancelled)),
            Event::Confirmed(Err(e)) => is_finish(next, act, plan, Err(WorkflowError::Confirm(e))),
            _ => unexpected,
        },
        Stage::Committing => match event {
            Event::Committed(Ok(_)) => match plan {
                Plan::Publish => moves_to(next, act, plan, Stage::LookingUpBranch, Action::LookUpBranch),
                Plan::LocalOnly => is_finish(next, act, plan, Ok(Outcome::Committed)),
            },
            Event::Committed(Err(e)) => is_finish(next, act, plan, Err(WorkflowError::Commit(e))),
            _ => unexpected,
        },
        Stage::LookingUpBranch => match event {
            Event::Branch(Ok(b)) => moves_to(next, act, plan, Stage::Pushing, Action::Push(b)),
            Event::Branch(Err(_)) => next == (Run { plan, stage: Stage::Pushing }) && act is Push
                && act->Push_0@ == w.config.default_branch@,
            _ => unexpected,
        },
        Stage::Pushing => match event {
            Event::Pushed(Ok(_)) => is_finish(next, act, plan, Ok(Outcome::Pushed)),
            Event::Pushed(Err(e)) => is_finish(next, act, plan, Err(WorkflowError::Push(e))),
            _ => unexpected,
        },
        Stage::Finished => unexpected,
    }
}

/// `runs`, `events` and `acts` record a run step by step: at `runs[i]`,
/// after `events[i]`, it became `runs[i + 1]` and asked for `acts[i]`.
pub open spec fn is_trace(w: Workflow, runs: Seq<Run>, events: Seq<Event>, acts: Seq<Action>) -> bool {
    &&& runs.len() == events.len() + 1
    &&& acts.len() == events.len()
    &&& forall|i: int| 0 <= i < events.len() ==> #[trigger] advances(w, runs[i], events[i], runs[i + 1], acts[i])
}

/// Once a run has finished, every later step finishes again: no collaborator
/// call is asked for any more.
pub proof fn law_finished_is_final(w: Workflow, runs: Seq<Run>, events: Seq<Event>, acts: Seq<Action>, i: int)
    requires
        is_trace(w, runs, events, acts),
        0 <= i < runs.len(),
        runs[i].stage is Finished,
    ensures
        forall|j: int| i <= j < events.len() ==> #[trigger] acts[j] is Finish && runs[j + 1].stage is Finished,
    decreases events.len() - i,
{
    if i < events.len() {
        assert(advances(w, runs[i], events[i], runs[i + 1], acts[i]));
        law_finished_is_final(w, runs, events, acts, i + 1);
    }
}

/// When the check for staged changes answers that nothing is staged, the run
/// fails with `NothingStaged` and asks for nothing more: no diff, no
/// generation, no commit, no push.
pub proof fn law_nothing_staged_stops(w: Workflow, runs: Seq<Run>, events: Seq<Event>, acts: Seq<Action>, i: int)
    requires
        is_trace(w, runs, events, acts),
        0 <= i < events.len(),
        runs[i].stage is CheckingStaged,
        events[i] == Event::Staged(Ok(false)),
    ensures
        acts[i] == Action::Finish(Err(WorkflowError::NothingStaged)),
        forall|j: int| i <= j < events.len() ==> #[trigger] acts[j] is Finish,
{
    assert(advances(w, runs[i], events[i], runs[i + 1], acts[i]));
    law_finished_is_final(w, runs, events, acts, i + 1);
}

/// When the user declines the message, the run ends as `Cancelled`, which is
/// no error, and asks for nothing more: no commit, no push.
pub proof fn law_declined_cancels(w: Workflow, runs: Seq<Run>, events: Seq<Event>, acts: Seq<Action>, i: int)
    requires
        is_trace(w, runs, events, acts),
        0 <= i < events.len(),
        runs[i].stage is Confirming,
        events[i] == Event::Confirmed(Ok(false)),
    ensures
        acts[i] == Action::Finish(Ok(Outcome::Cancelled)),
        forall|j: int| i <= j < events.len() ==> #[trigger] acts[j] is Finish,
{
    assert(advances(w, runs[i], events[i], runs[i + 1], acts[i]));
    law_finished_is_final(w, runs, events, acts, i + 1);
}

/// When the model's service answers with a non-success status, the run fails
/// with an error that carries the service's error body, and asks for nothing
/// more: no commit, no push.
pub proof fn law_rejected_reply_fails(
    w: Workflow,
    runs: Seq<Run>,
    events: Seq<Event>,
    acts: Seq<Action>,
    i: int,
    body: String,
)
    requires
        is_trace(w, runs, events, acts),
        0 <= i < events.len(),
        runs[i].stage is Generating,
        events[i] == Event::Replied(Reply::Rejected(body)),
    ensures
        acts[i] == Action::Finish(Err(WorkflowError::Generation(GenError::Api(body)))),
        forall|j: int| i <= j < events.len() ==> #[trigger] acts[j] is Finish,
{
    assert(advances(w, runs[i], events[i], runs[i + 1], acts[i]));
    law_finished_is_final(w, runs, events, acts, i + 1);
}

/// A commit is asked for only right after the user accepted the message, and
/// a push only once the branch to push to was looked up.
pub proof fn law_commit_needs_acceptance(w: Workflow, run: Run, event: Event, next: Run, act: Action)
    requires
        advances(w, run, event, next, act),
    ensures
        act is Commit ==> run.stage is Confirming && event == Event::Confirmed(Ok(true)),
        act is Push ==> run.stage is LookingUpBranch,
{
}

pub open spec fn is_local_state(run: Run) -> bool {
    run.plan == Plan::LocalOnly && !(run.stage is LookingUpBranch) && !(run.stage is Pushing)
}

proof fn lemma_local_stays_local(w: Workflow, runs: Seq<Run>, events: Seq<Event>, acts: Seq<Action>, i: int)
    requires
        is_trace(w, runs, events, acts),
        is_local_state(runs[0]),
        0 <= i < runs.len(),
    ensures
        is_local_state(runs[i]),
    decreases i,
{
    if i > 0 {
        let k = i - 1;
        lemma_local_stays_local(w, runs, events, acts, k);
        assert(advances(w, runs[k], events[k], runs[k + 1], acts[k]));
    }
}

/// A run that does not publish, started by `generate_message_only` or
/// `stage_and_generate`, never asks for a push.
pub proof fn law_local_run_never_pushes(w: Workflow, runs: Seq<Run>, events: Seq<Event>, acts: Seq<Action>)
    requires
        is_trace(w, runs, events, acts),
        runs[0].plan == Plan::LocalOnly,
        runs[0].stage is Adding || runs[0].stage is CheckingStaged,
    ensures
        forall|j: int| 0 <= j < events.len() ==> !(#[trigger] acts[j] is Push),
{
    assert forall|j: int| 0 <= j < events.len() implies !(#[trigger] acts[j] is Push) by {
        lemma_local_stays_local(w, runs, events, acts, j);
        assert(advances(w, runs[j], events[j], runs[j + 1], acts[j]));
    }
}

/// Staging with an empty file list starts exactly the run that
/// `generate_message_only` starts: nothing is added.
pub proof fn law_stage_nothing_is_generate_only(files: Vec<String>, run: Run, act: Action)
    requires
        files@.len() == 0,
        is_start(Plan::LocalOnly, files, run, act),
    ensures
        moves_to(run, act, Plan::LocalOnly, Stage::CheckingStaged, Action::CheckStaged),
{
}

/// A confirmation answer, already trimmed and lower-cased, accepts: it is
/// empty, `y` or `yes`.
pub open spec fn is_yes(lowered: Seq<char>) -> bool {
    lowered.len() == 0 || lowered == "y"@ || lowered == "yes"@
}

/// What `str::to_lowercase` returns for a text.
pub uninterp spec fn lower_of(s: Seq<char>) -> Seq<char>;

/// Relies on `str::to_lowercase`: its result depends on the characters alone,
/// and an empty text stays empty.
#[verifier::external_body]
fn lowercase(s: &str) -> (r: String)
    ensures
        r@ == lower_of(s@),
        s@.len() == 0 ==> r@.len() == 0,
{
    s.to_lowercase()
}

/// Whether an answer that is already trimmed and lower-cased accepts.
pub fn is_acceptance(lowered: &str) -> (r: bool)
    ensures
        r == is_yes(lowered@),
{
    proof {
        reveal_strlit("y");
        reveal_strlit("yes");
    }
    let n = lowered.unicode_len();
    if n == 0 {
        true
    } else if n == 1 {
        let c = lowered.get_char(0);
        assert(c == 'y' ==> lowered@ =~= "y"@);
        c == 'y'
    } else if n == 3 {
        let c0 = lowered.get_char(0);
        let c1 = lowered.get_char(1);
        let c2 = lowered.get_char(2);
        assert(c0 == 'y' && c1 == 'e' && c2 == 's' ==> lowered@ =~= "yes"@);
        c0 == 'y' && c1 == 'e' && c2 == 's'
    } else {
        false
    }
}

/// Whether a line typed at the confirmation prompt accepts the commit: once
/// trimmed and lower-cased it is empty, `y` or `yes`.
pub fn accepts_answer(input: &str) -> (r: bool)
    ensures
        r == is_yes(lower_of(trimmed(input@))),
{
    let lowered = lowercase(trim(input));
    is_acceptance(lowered.as_str())
}

impl Workflow {
    pub open spec fn wf(&self) -> bool {
        self.llm.config@ == self.config@
    }

    pub fn new(config: Config) -> (r: Self)
        ensures
            r.wf(),
            r.config == config,
    {
        let llm = LLM::new(config.duplicate());
        Self { llm, config }
    }

    /// Starts a run that stages `files` (if any), commits and pushes.
    pub fn auto_commit_and_push(&self, files: Vec<String>) -> (r: (Run, Action))
        ensures
            is_start(Plan::Publish, files, r.0, r.1),
    {
        self.start(Plan::Publish, files)
    }

    /// Starts a run that commits what is already staged, without pushing.
    pub fn generate_message_only(&self) -> (r: (Run, Action))
        ensures
            moves_to(r.0, r.1, Plan::LocalOnly, Stage::CheckingStaged, Action::CheckStaged),
    {
        (Run { plan: Plan::LocalOnly, stage: Stage::CheckingStaged }, Action::CheckStaged)
    }

    /// Starts a run that stages `files` (if any) and commits, without pushing.
    pub fn stage_and_generate(&self, files: Vec<String>) -> (r: (Run, Action))
        ensures
            is_start(Plan::LocalOnly, files, r.0, r.1),
    {
        if files.len() > 0 {
            (Run { plan: Plan::LocalOnly, stage: Stage::Adding }, Action::Add(files))
        } else {
            self.generate_message_only()
        }
    }

    /// Starts a run with `plan` over `files`.
    pub fn start(&self, plan: Plan, files: Vec<String>) -> (r: (Run, Action))
        ensures
            is_start(plan, files, r.0, r.1),
    {
        if files.len() > 0 {
            (Run { plan, stage: Stage::Adding }, Action::Add(files))
        } else {
            (Run { plan, stage: Stage::CheckingStaged }, Action::CheckStaged)
        }
    }

    /// Takes the outcome of the last call and names the next one.
    pub fn advance(&self, run: Run, event: Event) -> (r: (Run, Action))
        ensures
            advances(*self, run, event, r.0, r.1),
    {
        let plan = run.plan;
        let unexpected = (Run { plan, stage: Stage::Finished }, Action::Finish(Err(WorkflowError::OutOfOrder)));
        match run.stage {
            Stage::Adding => match event {
                Event::Added(Ok(_)) => (Run { plan, stage: Stage::CheckingStaged }, Action::CheckStaged),
                Event::Added(Err(e)) => Self::finish(plan, Err(WorkflowError::Add(e))),
                _ => unexpected,
            },
            Stage::CheckingStaged => match event {
                Event::Staged(Ok(true)) => (Run { plan, stage: Stage::ReadingDiff }, Action::ReadDiff),
                Event::Staged(Ok(false)) => Self::finish(plan, Err(WorkflowError::NothingStaged)),
                Event::Staged(Err(e)) => Self::finish(plan, Err(WorkflowError::StagedCheck(e))),
                _ => unexpected,
            },
            Stage::ReadingDiff => match event {
                Event::Diff(Ok(d)) => {
                    let request = self.llm.build_request(d.as_str());
                    (Run { plan, stage: Stage::Generating }, Action::Complete(request))
                },
                Event::Diff(Err(e)) => Self::finish(plan, Err(WorkflowError::Diff(e))),
                _ => unexpected,
            },
            Stage::Generating => match event {
                Event::Replied(reply) => match self.llm.interpret_reply(reply) {
                    Ok((subject, body)) => (Run { plan, stage: Stage::Confirming { subject, body } }, Action::Confirm),
                    Err(g) => Self::finish(plan, Err(WorkflowError::Generation(g))),
                },
                _ => unexpected,
            },
            Stage::Confirming { subject, body } => match event {
                Event::Confirmed(Ok(true)) => (Run { plan, stage: Stage::Committing }, Action::Commit(subject, body)),
                Event::Confirmed(Ok(false)) => Self::finish(plan, Ok(Outcome::Cancelled)),
                Event::Confirmed(Err(e)) => Self::finish(plan, Err(WorkflowError::Confirm(e))),
                _ => unexpected,
            },
            Stage::Committing => match event {
                Event::Committed(Ok(_)) => match plan {
                    Plan::Publish => (Run { plan, stage: Stage::LookingUpBranch }, Action::LookUpBranch),
                    Plan::LocalOnly => Self::finish(plan, Ok(Outcome::Committed)),
                },
                Event::Committed(Err(e)) => Self::finish(plan, Err(WorkflowError::Commit(e))),
                _ => unexpected,
            },
            Stage::LookingUpBranch => match event {
                Event::Branch(Ok(b)) => (Run { plan, stage: Stage::Pushing }, Action::Push(b)),
                Event::Branch(Err(_)) => (Run { plan, stage: Stage::Pushing }, Action::Push(self.config.default_branch.clone())),
                _ => unexpected,
            },
            Stage::Pushing => match event {
                Event::Pushed(Ok(_)) => Self::finish(plan, Ok(Outcome::Pushed)),
                Event::Pushed(Err(e)) => Self::finish(plan, Err(WorkflowError::Push(e))),
                _ => unexpected,
            },
            Stage::Finished => unexpected,
        }
    }

    fn finish(plan: Plan, res: Result<Outcome, WorkflowError>) -> (r: (Run, Action))
        ensures
            is_finish(r.0, r.1, plan, res),
    {
        (Run { plan, stage: Stage::Finished }, Action::Finish(res))
    }
}

} // verus!
