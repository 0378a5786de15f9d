//! Running a command to its end: the runner hands out one action at a time
//! and takes back its outcome, success or failure. The first failing action
//! ends the command with its error; nothing is performed after it.

use vstd::prelude::*;
use crate::error::Error;
use crate::s3::S3Command;
use crate::session::{
    resume, spec_fits, spec_produces, spec_resume, spec_stage_wf, spec_start_s3, spec_yields,
    start_s3, Action, ActionView, Event, EventView, Resume, ResumeView, Stage, StageView,
};
use crate::status;

verus! {

/// The outcome of performing an action.
#[derive(Debug, PartialEq, Eq)]
pub enum Outcome {
    /// The action succeeded and produced nothing to wait for.
    Completed,
    /// The action succeeded and produced what the command waits for.
    Produced(Event),
    /// The action failed.
    Failed(Error),
}

/// An outcome, with its event as a view.
pub enum OutcomeView {
    Completed,
    Produced(EventView),
    Failed(Error),
}

impl View for Outcome {
    type V = OutcomeView;

    open spec fn view(&self) -> OutcomeView {
        match self {
            Outcome::Completed => OutcomeView::Completed,
            Outcome::Produced(e) => OutcomeView::Produced(e@),
            Outcome::Failed(err) => OutcomeView::Failed(*err),
        }
    }
}

/// What the runner asks for next.
#[derive(Debug, PartialEq, Eq)]
pub enum Step {
    /// Perform the action and hand its outcome to [`Runner::next`].
    Perform(Action),
    /// The command has ended, with this result.
    Finish(Result<(), Error>),
}

/// A step, with its action as a view.
pub enum StepView {
    Perform(ActionView),
    Finish(Result<(), Error>),
}

impl View for Step {
    type V = StepView;

    open spec fn view(&self) -> StepView {
        match self {
            Step::Perform(a) => StepView::Perform(a@),
            Step::Finish(r) => StepView::Finish(*r),
        }
    }
}

/// The state of a running command: the actions still to perform once the
/// one handed out has completed, or the resume point waiting for its
/// outcome; or the end.
pub struct RunnerView {
    pub todo: Seq<ActionView>,
    pub waiting: Option<ResumeView>,
    pub finished: bool,
}

/// A running command.
pub struct Runner {
    todo: Vec<Action>,
    waiting: Option<Resume>,
    finished: bool,
}

impl View for Runner {
    type V = RunnerView;

    closed spec fn view(&self) -> RunnerView {
        RunnerView {
            todo: self.todo@.map_values(|a: Action| a@),
            waiting: match self.waiting {
                Some(k) => Some(k@),
                None => None,
            },
            finished: self.finished,
        }
    }
}

/// The state after the end.
pub open spec fn spec_finished() -> RunnerView {
    RunnerView { todo: Seq::empty(), waiting: None, finished: true }
}

/// Starting to run `stage`: the first action to perform, or the end when
/// there is nothing to do.
pub open spec fn spec_begin(stage: StageView) -> (RunnerView, StepView) {
    match stage {
        StageView::Run(actions) => if actions.len() == 0 {
            (spec_finished(), StepView::Finish(Ok(())))
        } else {
            (
                RunnerView { todo: actions.drop_first(), waiting: None, finished: false },
                StepView::Perform(actions[0]),
            )
        },
        StageView::Await(a, k) => (
            RunnerView { todo: Seq::empty(), waiting: Some(k), finished: false },
            StepView::Perform(a),
        ),
    }
}

/// Whether the runner takes `o` as the outcome of the action it handed out:
/// a failure always; otherwise what that action produces.
pub open spec fn spec_accepts(r: RunnerView, o: OutcomeView) -> bool {
    &&& !r.finished
    &&& match o {
        OutcomeView::Failed(_) => true,
        OutcomeView::Completed => r.waiting is None,
        OutcomeView::Produced(e) => match r.waiting {
            Some(k) => spec_fits(k, e),
            None => false,
        },
    }
}

/// The step after the outcome `o`: a failure ends the command with its
/// error; a produced outcome resumes the command; a completion goes on with
/// the next action to do, or ends the command with success.
pub open spec fn spec_next(r: RunnerView, o: OutcomeView) -> (RunnerView, StepView) {
    match o {
        OutcomeView::Failed(e) => (spec_finished(), StepView::Finish(Err(e))),
        OutcomeView::Produced(e) => match r.waiting {
            Some(k) => spec_begin(spec_resume(k, e)),
            None => (spec_finished(), StepView::Finish(Ok(()))),
        },
        OutcomeView::Completed => if r.todo.len() == 0 {
            (spec_finished(), StepView::Finish(Ok(())))
        } else {
            (
                RunnerView { todo: r.todo.drop_first(), waiting: None, finished: false },
                StepView::Perform(r.todo[0]),
            )
        },
    }
}

/// The runner is ready for the outcome of `a`: it takes a completion when
/// `a` produces nothing, and whatever `a` produces otherwise.
pub open spec fn spec_ready(r: RunnerView, a: ActionView) -> bool {
    &&& !r.finished
    &&& !spec_yields(a) ==> r.waiting is None
    &&& spec_yields(a) ==> match r.waiting {
        Some(k) => forall|e: EventView| #[trigger] spec_produces(a, e) ==> spec_fits(k, e),
        None => false,
    }
}

/// What follows `step` when the actions handed out have the outcomes
/// `outcomes`, one per action: the actions performed, in order, and the
/// result of the command when it ends within these outcomes.
pub open spec fn spec_drive(r: RunnerView, step: StepView, outcomes: Seq<OutcomeView>) -> (
    Seq<ActionView>,
    Option<Result<(), Error>>,
)
    decreases outcomes.len(),
{
    match step {
        StepView::Finish(res) => (Seq::empty(), Some(res)),
        StepView::Perform(a) => if outcomes.len() == 0 {
            (seq![a], None)
        } else {
            let (r2, s2) = spec_next(r, outcomes[0]);
            let (rest, end) = spec_drive(r2, s2, outcomes.drop_first());
            (seq![a] + rest, end)
        },
    }
}

/// Running `stage` with these outcomes.
pub open spec fn spec_run(stage: StageView, outcomes: Seq<OutcomeView>) -> (
    Seq<ActionView>,
    Option<Result<(), Error>>,
) {
    let (r, s) = spec_begin(stage);
    spec_drive(r, s, outcomes)
}

impl Runner {
    /// No action still to do produces anything to wait for; an awaited
    /// outcome leaves nothing else to do; the end leaves nothing at all.
    #[verifier::type_invariant]
    closed spec fn inv(self) -> bool {
        &&& forall|i: int| 0 <= i < self.todo@.len() ==> !spec_yields(#[trigger] self.todo@[i]@)
        &&& self.waiting is Some ==> self.todo@.len() == 0
        &&& self.finished ==> self.todo@.len() == 0 && self.waiting is None
    }

    fn done() -> (r: Runner)
        ensures
            r@ == spec_finished(),
    {
        let r = Runner { todo: Vec::new(), waiting: None, finished: true };
        assert(r@.todo =~= Seq::<ActionView>::empty());
        r
    }

    /// Starts running a well-formed stage.
    pub fn begin(stage: Stage) -> (res: (Runner, Step))
        requires
            spec_stage_wf(stage@),
        ensures
            (res.0@, res.1@) == spec_begin(stage@),
            res.1@ matches StepView::Perform(a) ==> spec_ready(res.0@, a),
            res.1@ is Finish ==> res.0@.finished,
    {
        match stage {
            Stage::Run(actions) => {
                let ghost views = actions@.map_values(|a: Action| a@);
                if actions.len() == 0 {
                    assert(views.len() == 0);
                    (Runner::done(), Step::Finish(Ok(())))
                } else {
                    let mut rest = actions;
                    let first = rest.remove(0);
                    assert(rest@.map_values(|a: Action| a@) =~= views.drop_first());
                    assert(views[0] == first@);
                    assert(!spec_yields(views[0]));
                    assert forall|i: int| 0 <= i < rest@.len() implies !spec_yields(#[trigger] rest@[i]@) by {
                        assert(rest@[i]@ == views[i + 1]);
                    }
                    let r = Runner { todo: rest, waiting: None, finished: false };
                    (r, Step::Perform(first))
                }
            },
            Stage::Await(a, k) => {
                let r = Runner { todo: Vec::new(), waiting: Some(k), finished: false };
                assert(r@.todo =~= Seq::<ActionView>::empty());
                (r, Step::Perform(a))
            },
        }
    }

    /// Starts running an S3 command.
    pub fn start_s3(cmd: &S3Command) -> (res: (Runner, Step))
        ensures
            (res.0@, res.1@) == spec_begin(spec_start_s3(*cmd)),
            res.1@ matches StepView::Perform(a) ==> spec_ready(res.0@, a),
            res.1@ is Finish ==> res.0@.finished,
    {
        Runner::begin(start_s3(cmd))
    }

    /// Starts running the health check.
    pub fn start_status() -> (res: (Runner, Step))
        ensures
            (res.0@, res.1@) == spec_begin(status::spec_start_status()),
            res.1@ matches StepView::Perform(a) ==> spec_ready(res.0@, a),
            res.1@ is Finish ==> res.0@.finished,
    {
        Runner::begin(status::start())
    }

    /// Whether the runner takes `outcome` as the outcome of the action it
    /// handed out.
    pub fn accepts(&self, outcome: &Outcome) -> (b: bool)
        ensures
            b == spec_accepts(self@, outcome@),
    {
        if self.finished {
            return false;
        }
        match outcome {
            Outcome::Failed(_) => true,
            Outcome::Completed => self.waiting.is_none(),
            Outcome::Produced(e) => match &self.waiting {
                Some(k) => crate::session::fits(k, e),
                None => false,
            },
        }
    }

    /// Takes the outcome of the action handed out and gives the next step.
    pub fn next(self, outcome: Outcome) -> (res: (Runner, Step))
        requires
            spec_accepts(self@, outcome@),
        ensures
            (res.0@, res.1@) == spec_next(self@, outcome@),
            res.1@ matches StepView::Perform(a) ==> spec_ready(res.0@, a),
            res.1@ is Finish ==> res.0@.finished,
    {
        proof { use_type_invariant(&self); }
        let ghost old_view = self@;
        let Runner { todo, waiting, finished: _ } = self;
        match outcome {
            Outcome::Failed(e) => (Runner::done(), Step::Finish(Err(e))),
            Outcome::Produced(e) => match waiting {
                Some(k) => {
                    let stage = resume(k, e);
                    Runner::begin(stage)
                },
                None => (Runner::done(), Step::Finish(Ok(()))),
            },
            Outcome::Completed => {
                if todo.len() == 0 {
                    (Runner::done(), Step::Finish(Ok(())))
                } else {
                    let mut rest = todo;
                    let first = rest.remove(0);
                    assert(rest@.map_values(|a: Action| a@) =~= old_view.todo.drop_first());
                    assert(old_view.todo[0] == first@);
                    let r = Runner { todo: rest, waiting: None, finished: false };
                    (r, Step::Perform(first))
                }
            },
        }
    }
}

/// `m` successful completions in a row.
pub open spec fn completions(m: nat) -> Seq<OutcomeView> {
    Seq::new(m, |i: int| OutcomeView::Completed)
}

/// A runner that is ready for the outcome of `a` takes every outcome that
/// performing `a` can have: a failure, a completion when `a` produces
/// nothing, and anything `a` produces otherwise.
pub proof fn law_ready_accepts(r: RunnerView, a: ActionView, o: OutcomeView)
    requires
        spec_ready(r, a),
        match o {
            OutcomeView::Failed(_) => true,
            OutcomeView::Completed => !spec_yields(a),
            OutcomeView::Produced(e) => spec_produces(a, e),
        },
    ensures
        spec_accepts(r, o),
{
    if let OutcomeView::Produced(e) = o {
        assert(spec_yields(a));
    }
}

/// The first failing action ends the command with its error: when the
/// `j`-th action handed out fails, no action after it is performed, and a
/// run that gets that far ends with that error.
pub proof fn law_failure_ends_run(r: RunnerView, step: StepView, outcomes: Seq<OutcomeView>, j: int)
    requires
        0 <= j < outcomes.len(),
        outcomes[j] is Failed,
    ensures
        ({
            let (performed, end) = spec_drive(r, step, outcomes);
            &&& performed.len() <= j + 1
            &&& performed.len() == j + 1 ==> end == Some(Err::<(), Error>(outcomes[j]->Failed_0))
        }),
    decreases j,
{
    if let StepView::Perform(a) = step {
        let (r2, s2) = spec_next(r, outcomes[0]);
        if j > 0 {
            law_failure_ends_run(r2, s2, outcomes.drop_first(), j - 1);
            assert(outcomes.drop_first()[j - 1] == outcomes[j]);
        }
    }
}

/// Running a list of actions that produce nothing: after `m` completions
/// and then a failure, exactly the first `m + 1` actions were performed
/// and the command ends with the failure.
pub proof fn lemma_drive_fails_after(todo: Seq<ActionView>, a: ActionView, m: nat, e: Error)
    requires
        m <= todo.len(),
    ensures
        spec_drive(
            RunnerView { todo, waiting: None, finished: false },
            StepView::Perform(a),
            completions(m) + seq![OutcomeView::Failed(e)],
        ) == ((seq![a] + todo).take(m + 1int), Some(Err::<(), Error>(e))),
    decreases m,
{
    let r = RunnerView { todo, waiting: None, finished: false };
    let outcomes = completions(m) + seq![OutcomeView::Failed(e)];
    if m == 0 {
        assert(outcomes[0] == OutcomeView::Failed(e));
        assert((seq![a] + todo).take(1) =~= seq![a]);
        let (r2, s2) = spec_next(r, outcomes[0]);
        assert(s2 == StepView::Finish(Err::<(), Error>(e)));
        assert(spec_drive(r2, s2, outcomes.drop_first()) == (Seq::<ActionView>::empty(), Some(Err::<(), Error>(e))));
        assert(seq![a] + Seq::<ActionView>::empty() =~= seq![a]);
    } else {
        assert(outcomes[0] == OutcomeView::Completed);
        assert(outcomes.drop_first() =~= completions((m - 1) as nat) + seq![OutcomeView::Failed(e)]);
        lemma_drive_fails_after(todo.drop_first(), todo[0], (m - 1) as nat, e);
        let (r2, s2) = spec_next(r, outcomes[0]);
        assert(r2 == RunnerView { todo: todo.drop_first(), waiting: None, finished: false });
        assert(s2 == StepView::Perform(todo[0]));
        assert(seq![todo[0]] + todo.drop_first() =~= todo);
        assert(seq![a] + (seq![todo[0]] + todo.drop_first()).take(m as int) =~= (seq![a] + todo).take(m + 1int));
    }
}

/// Running a list of actions that produce nothing, each completing: every
/// action is performed, in order, and the command ends with success.
pub proof fn lemma_drive_completes(todo: Seq<ActionView>, a: ActionView)
    ensures
        spec_drive(
            RunnerView { todo, waiting: None, finished: false },
            StepView::Perform(a),
            completions(todo.len() + 1),
        ) == (seq![a] + todo, Some(Ok::<(), Error>(()))),
    decreases todo.len(),
{
    let r = RunnerView { todo, waiting: None, finished: false };
    let outcomes = completions(todo.len() + 1);
    assert(outcomes[0] == OutcomeView::Completed);
    assert(outcomes.drop_first() =~= completions(todo.len()));
    let (r2, s2) = spec_next(r, outcomes[0]);
    if todo.len() == 0 {
        assert(s2 == StepView::Finish(Ok::<(), Error>(())));
        assert(spec_drive(r2, s2, outcomes.drop_first()) == (Seq::<ActionView>::empty(), Some(Ok::<(), Error>(()))));
        assert(seq![a] + Seq::<ActionView>::empty() =~= seq![a]);
        assert(seq![a] + todo =~= seq![a]);
    } else {
        lemma_drive_completes(todo.drop_first(), todo[0]);
        assert(r2 == RunnerView { todo: todo.drop_first(), waiting: None, finished: false });
        assert(s2 == StepView::Perform(todo[0]));
        assert(todo.drop_first().len() + 1 == todo.len());
        assert(seq![a] + (seq![todo[0]] + todo.drop_first()) =~= seq![a] + todo);
    }
}

} // verus!
