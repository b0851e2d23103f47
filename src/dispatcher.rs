//! The goal dispatcher: one request at a time, step by step, as a state
//! machine. The caller performs each action it asks for (a remote call, a
//! sensor read) and hands back the result; the machine decides what follows.

use vstd::prelude::*;
use crate::request::{command_of, item_kind, kind_of, parse_command, RequestView, WorkRequest};
use crate::workflow::{
    steps_view, workflow, workflow_for, MutationView, ParamsView, SceneMutation,
    ScriptGenerationParams, StepView, WorkflowStep,
};

verus! {

/// Why a remote call failed.
#[derive(Clone, Copy, Debug, PartialEq, Eq, Structural)]
pub enum CallError {
    /// The call could not be submitted.
    Transport,
    /// The remote side cancelled the call or reported a failure.
    Remote,
}

/// The terminal state of a request.
#[derive(Clone, Copy, Debug, PartialEq, Eq, Structural)]
pub enum Outcome {
    Succeeded(bool),
    Aborted,
}

/// The result of the action last asked for.
#[derive(Debug, PartialEq, Eq)]
pub enum StepResult {
    /// The script generator answered with a script, or failed.
    Generated(Result<String, CallError>),
    /// The script execution finished, or failed.
    Executed(Result<(), CallError>),
    /// The sensor's latest reading.
    Sensed(bool),
    /// The scene mutator answered whether it applied the change, or failed.
    Mutated(Result<bool, CallError>),
}

pub enum ResultView {
    Generated(Result<Seq<char>, CallError>),
    Executed(Result<(), CallError>),
    Sensed(bool),
    Mutated(Result<bool, CallError>),
}

impl View for StepResult {
    type V = ResultView;

    open spec fn view(&self) -> ResultView {
        match self {
            StepResult::Generated(Ok(s)) => ResultView::Generated(Ok(s@)),
            StepResult::Generated(Err(e)) => ResultView::Generated(Err(*e)),
            StepResult::Executed(r) => ResultView::Executed(*r),
            StepResult::Sensed(b) => ResultView::Sensed(*b),
            StepResult::Mutated(r) => ResultView::Mutated(*r),
        }
    }
}

/// What the caller is to do next.
#[derive(Clone, Debug, PartialEq, Eq)]
pub enum Action {
    /// Call the script generator with these parameters.
    GenerateScript(ScriptGenerationParams),
    /// Run this script on the robot.
    ExecuteScript(String),
    /// Read the sensor cache.
    ReadSensor,
    /// Call the scene mutator with this change.
    MutateScene(SceneMutation),
    /// The request is over: report this outcome.
    Finish(Outcome),
    /// The request names no known command or item: it gets no outcome, and
    /// the next request may come.
    Abandon,
    /// A request is still in progress; the new one was not taken.
    Busy,
    /// The result does not answer the step in progress; nothing changed.
    Ignored,
}

pub enum ActionView {
    GenerateScript(ParamsView),
    ExecuteScript(Seq<char>),
    ReadSensor,
    MutateScene(MutationView),
    Finish(Outcome),
    Abandon,
    Busy,
    Ignored,
}

impl View for Action {
    type V = ActionView;

    open spec fn view(&self) -> ActionView {
        match self {
            Action::GenerateScript(p) => ActionView::GenerateScript(p@),
            Action::ExecuteScript(s) => ActionView::ExecuteScript(s@),
            Action::ReadSensor => ActionView::ReadSensor,
            Action::MutateScene(m) => ActionView::MutateScene(m@),
            Action::Finish(o) => ActionView::Finish(*o),
            Action::Abandon => ActionView::Abandon,
            Action::Busy => ActionView::Busy,
            Action::Ignored => ActionView::Ignored,
        }
    }
}

/// The progress text for the step an action carries out; empty for the
/// actions that carry out none.
pub open spec fn step_label(a: ActionView) -> Seq<char> {
    match a {
        ActionView::GenerateScript(_) => "generating the ur script"@,
        ActionView::ExecuteScript(_) => "executing the ur script"@,
        ActionView::ReadSensor => "checking that the item is held"@,
        ActionView::MutateScene(_) => "changing the item parent in the tf tree"@,
        _ => ""@,
    }
}

impl Action {
    /// Describes the step this action carries out, for progress feedback.
    pub fn label(&self) -> (r: &'static str)
        ensures
            r@ == step_label(self@),
    {
        match self {
            Action::GenerateScript(_) => "generating the ur script",
            Action::ExecuteScript(_) => "executing the ur script",
            Action::ReadSensor => "checking that the item is held",
            Action::MutateScene(_) => "changing the item parent in the tf tree",
            _ => "",
        }
    }
}

/// How a result bears on the step it answers.
#[derive(Clone, Copy, Debug, PartialEq, Eq, Structural)]
pub enum Verdict {
    /// The step is done; go on with the next one.
    Proceed,
    /// The request ends here with this outcome.
    Stop(Outcome),
    /// The result is not of the kind the step waits for.
    Mismatch,
}

/// A request in progress: its steps, the one awaiting its result, and the
/// script generated so far (empty before the first).
pub struct RunView {
    pub steps: Seq<StepView>,
    pub at: nat,
    pub script: Seq<char>,
}

struct Run {
    steps: Vec<WorkflowStep>,
    at: usize,
    script: String,
}

/// Drives one request at a time through its workflow.
pub struct Dispatcher {
    run: Option<Run>,
}

impl Dispatcher {
    /// The step in progress is one of the request's steps.
    #[verifier::type_invariant]
    spec fn step_in_range(&self) -> bool {
        self.run matches Some(r) ==> r.at < r.steps.len()
    }
}

impl View for Dispatcher {
    type V = Option<RunView>;

    closed spec fn view(&self) -> Option<RunView> {
        match self.run {
            None => None,
            Some(r) => Some(RunView { steps: steps_view(r.steps@), at: r.at as nat, script: r.script@ }),
        }
    }
}

/// A request in progress waits on one of its own steps.
pub open spec fn well_formed(d: Option<RunView>) -> bool {
    d matches Some(r) ==> r.at < r.steps.len()
}

/// The action that carries out `step`, given the script generated so far.
pub open spec fn action_for(step: StepView, script: Seq<char>) -> ActionView {
    match step {
        StepView::GenerateScript(p) => ActionView::GenerateScript(p),
        StepView::ExecuteScript => ActionView::ExecuteScript(script),
        StepView::VerifySensor(_) => ActionView::ReadSensor,
        StepView::MutateScene(m) => ActionView::MutateScene(m),
    }
}

/// Every remote failure aborts; a sensor reading other than the expected one
/// ends the request as a success that reports `false`; a scene change the
/// mutator declined aborts.
pub open spec fn verdict(step: StepView, res: ResultView) -> Verdict {
    match step {
        StepView::GenerateScript(_) => match res {
            ResultView::Generated(Ok(_)) => Verdict::Proceed,
            ResultView::Generated(Err(_)) => Verdict::Stop(Outcome::Aborted),
            _ => Verdict::Mismatch,
        },
        StepView::ExecuteScript => match res {
            ResultView::Executed(Ok(_)) => Verdict::Proceed,
            ResultView::Executed(Err(_)) => Verdict::Stop(Outcome::Aborted),
            _ => Verdict::Mismatch,
        },
        StepView::VerifySensor(expected) => match res {
            ResultView::Sensed(b) => if b == expected {
                Verdict::Proceed
            } else {
                Verdict::Stop(Outcome::Succeeded(false))
            },
            _ => Verdict::Mismatch,
        },
        StepView::MutateScene(_) => match res {
            ResultView::Mutated(Ok(true)) => Verdict::Proceed,
            ResultView::Mutated(_) => Verdict::Stop(Outcome::Aborted),
            _ => Verdict::Mismatch,
        },
    }
}

/// A new request: taken only when none is in progress, abandoned when its
/// command or item is unknown, else its first step is asked for.
pub open spec fn start_spec(d: Option<RunView>, req: RequestView) -> (Option<RunView>, ActionView) {
    if d is Some {
        (d, ActionView::Busy)
    } else {
        match command_of(req.command) {
            None => (None, ActionView::Abandon),
            Some(cmd) => if kind_of(req.item) is Unknown {
                (None, ActionView::Abandon)
            } else {
                let steps = workflow(kind_of(req.item), cmd, req.item, req.instance);
                (
                    Some(RunView { steps, at: 0, script: Seq::empty() }),
                    action_for(steps[0], Seq::empty()),
                )
            },
        }
    }
}

/// A result for the step in progress: the request ends, or its next step is
/// asked for; after the last step it has succeeded.
pub open spec fn resume_spec(d: Option<RunView>, res: ResultView) -> (Option<RunView>, ActionView) {
    match d {
        None => (d, ActionView::Ignored),
        Some(run) => match verdict(run.steps[run.at as int], res) {
            Verdict::Mismatch => (d, ActionView::Ignored),
            Verdict::Stop(o) => (None, ActionView::Finish(o)),
            Verdict::Proceed => {
                let script = match res {
                    ResultView::Generated(Ok(s)) => s,
                    _ => run.script,
                };
                if run.at + 1 >= run.steps.len() {
                    (None, ActionView::Finish(Outcome::Succeeded(true)))
                } else {
                    let at = run.at + 1;
                    (Some(RunView { steps: run.steps, at, script }), action_for(run.steps[at as int], script))
                }
            },
        },
    }
}

/// The actions asked for while `results` are handed in one after another,
/// and the state left at the end.
pub open spec fn run_spec(d: Option<RunView>, results: Seq<ResultView>) -> (Option<RunView>, Seq<ActionView>)
    decreases results.len(),
{
    if results.len() == 0 {
        (d, Seq::empty())
    } else {
        let (next, a) = resume_spec(d, results[0]);
        let (last, rest) = run_spec(next, results.drop_first());
        (last, seq![a] + rest)
    }
}

/// The result a step gets when every remote call succeeds, the generator
/// answers `script`, and the sensor reads as expected.
pub open spec fn canned_result(step: StepView, script: Seq<char>) -> ResultView {
    match step {
        StepView::GenerateScript(_) => ResultView::Generated(Ok(script)),
        StepView::ExecuteScript => ResultView::Executed(Ok(())),
        StepView::VerifySensor(expected) => ResultView::Sensed(expected),
        StepView::MutateScene(_) => ResultView::Mutated(Ok(true)),
    }
}

/// Whether `res` reports a failed remote call for `step`: a transport or
/// remote error, or a scene change the mutator declined.
pub open spec fn call_failed(step: StepView, res: ResultView) -> bool {
    match step {
        StepView::GenerateScript(_) => res matches ResultView::Generated(Err(_)),
        StepView::ExecuteScript => res matches ResultView::Executed(Err(_)),
        StepView::VerifySensor(_) => false,
        StepView::MutateScene(_) => res matches ResultView::Mutated(Err(_)) || res
            == ResultView::Mutated(Ok(false)),
    }
}

/// A known request whose remote calls all succeed, with the sensor reading as
/// expected, ends in `Succeeded(true)`: the generated script is run, and the
/// last call moves the item's frame under the tool (pick) or the target
/// location (place).
pub proof fn canned_success_succeeds(req: RequestView, script: Seq<char>)
    requires
        command_of(req.command) is Some,
        !(kind_of(req.item) is Unknown),
    ensures
        ({
            let kind = kind_of(req.item);
            let cmd = command_of(req.command)->0;
            let (first, a0) = start_spec(None, req);
            let steps = workflow(kind, cmd, req.item, req.instance);
            let (last, actions) = run_spec(first, steps.map_values(|s: StepView| canned_result(s, script)));
            &&& first is Some
            &&& a0 == ActionView::GenerateScript(crate::workflow::script_params(kind, cmd, req.item))
            &&& last is None
            &&& actions[0] == ActionView::ExecuteScript(script)
            &&& actions.len() == steps.len()
            &&& actions[actions.len() - 2] == ActionView::MutateScene(
                crate::workflow::reparent(
                    crate::workflow::new_parent(kind, cmd, req.instance),
                    crate::workflow::child_frame_of(req.item),
                ),
            )
            &&& actions[actions.len() - 1] == ActionView::Finish(Outcome::Succeeded(true))
        }),
{
    let kind = kind_of(req.item);
    let cmd = command_of(req.command)->0;
    let steps = workflow(kind, cmd, req.item, req.instance);
    let results = steps.map_values(|s: StepView| canned_result(s, script));
    let (first, a0) = start_spec(None, req);
    reveal_with_fuel(run_spec, 5);
    assert(results.drop_first().drop_first().drop_first().len() == steps.len() - 3);
    if steps.len() == 4 {
        assert(results.drop_first().drop_first().drop_first().drop_first().len() == 0);
    }
}

/// A picked gun that the sensor does not report as held ends as a success
/// that reports `false`, and no scene change is asked for.
pub proof fn unheld_gun_ends_without_scene_change(req: RequestView, script: Seq<char>)
    requires
        command_of(req.command) == Some(crate::request::Command::Pick),
        kind_of(req.item) is Gun,
    ensures
        ({
            let (first, a0) = start_spec(None, req);
            let results = seq![
                ResultView::Generated(Ok(script)),
                ResultView::Executed(Ok(())),
                ResultView::Sensed(false),
            ];
            let (last, actions) = run_spec(first, results);
            &&& last is None
            &&& actions == seq![
                ActionView::ExecuteScript(script),
                ActionView::ReadSensor,
                ActionView::Finish(Outcome::Succeeded(false)),
            ]
        }),
{
    let (first, a0) = start_spec(None, req);
    let results = seq![
        ResultView::Generated(Ok(script)),
        ResultView::Executed(Ok(())),
        ResultView::Sensed(false),
    ];
    reveal_with_fuel(run_spec, 4);
    assert(results.drop_first().drop_first().drop_first().len() == 0);
    let (last, actions) = run_spec(first, results);
    assert(actions =~= seq![
        ActionView::ExecuteScript(script),
        ActionView::ReadSensor,
        ActionView::Finish(Outcome::Succeeded(false)),
    ]);
}

/// Once idle, results that arrive ask for nothing and change nothing.
pub proof fn idle_ignores_results(results: Seq<ResultView>)
    ensures
        run_spec(None, results) == (
            None::<RunView>,
            Seq::new(results.len(), |i: int| ActionView::Ignored),
        ),
    decreases results.len(),
{
    if results.len() > 0 {
        idle_ignores_results(results.drop_first());
        assert(seq![ActionView::Ignored] + Seq::new(
            (results.len() - 1) as nat,
            |i: int| ActionView::Ignored,
        ) =~= Seq::new(results.len(), |i: int| ActionView::Ignored));
    }
}

/// A failed remote call aborts the request, and no later step is asked for.
pub proof fn failed_call_aborts(d: Option<RunView>, res: ResultView, later: Seq<ResultView>)
    requires
        well_formed(d),
        d is Some,
        call_failed(d->0.steps[d->0.at as int], res),
    ensures
        resume_spec(d, res) == (None::<RunView>, ActionView::Finish(Outcome::Aborted)),
        run_spec(d, seq![res] + later) == (
            None::<RunView>,
            seq![ActionView::Finish(Outcome::Aborted)] + Seq::new(
                later.len(),
                |i: int| ActionView::Ignored,
            ),
        ),
{
    idle_ignores_results(later);
    assert((seq![res] + later).drop_first() =~= later);
}

/// A request with an unknown command gets no outcome, and the dispatcher
/// stays ready for the next one.
pub proof fn unknown_command_abandoned(req: RequestView)
    requires
        command_of(req.command) is None,
    ensures
        start_spec(None, req) == (None::<RunView>, ActionView::Abandon),
{
}

/// While a request is in progress a new one is turned away and the one in
/// progress is left as it was: two requests never interleave.
pub proof fn requests_never_interleave(d: Option<RunView>, req: RequestView)
    requires
        d is Some,
    ensures
        start_spec(d, req) == (d, ActionView::Busy),
{
}

/// The action that carries out `step`.
pub fn action_of(step: &WorkflowStep, script: &String) -> (a: Action)
    ensures
        a@ == action_for(step@, script@),
{
    match step {
        WorkflowStep::GenerateScript(p) => Action::GenerateScript(p.duplicate()),
        WorkflowStep::ExecuteScript => Action::ExecuteScript(script.clone()),
        WorkflowStep::VerifySensor(_) => Action::ReadSensor,
        WorkflowStep::MutateScene(m) => Action::MutateScene(m.duplicate()),
    }
}

/// How `res` bears on `step`.
pub fn judge(step: &WorkflowStep, res: &StepResult) -> (v: Verdict)
    ensures
        v == verdict(step@, res@),
{
    match step {
        WorkflowStep::GenerateScript(_) => match res {
            StepResult::Generated(Ok(_)) => Verdict::Proceed,
            StepResult::Generated(Err(_)) => Verdict::Stop(Outcome::Aborted),
            _ => Verdict::Mismatch,
        },
        WorkflowStep::ExecuteScript => match res {
            StepResult::Executed(Ok(_)) => Verdict::Proceed,
            StepResult::Executed(Err(_)) => Verdict::Stop(Outcome::Aborted),
            _ => Verdict::Mismatch,
        },
        WorkflowStep::VerifySensor(expected) => match res {
            StepResult::Sensed(b) => if *b == *expected {
                Verdict::Proceed
            } else {
                Verdict::Stop(Outcome::Succeeded(false))
            },
            _ => Verdict::Mismatch,
        },
        WorkflowStep::MutateScene(_) => match res {
            StepResult::Mutated(Ok(true)) => Verdict::Proceed,
            StepResult::Mutated(_) => Verdict::Stop(Outcome::Aborted),
            _ => Verdict::Mismatch,
        },
    }
}

impl Dispatcher {
    /// A dispatcher with no request in progress.
    pub fn new() -> (r: Self)
        ensures
            r@ is None,
    {
        Dispatcher { run: None }
    }

    /// Whether a new request can be taken.
    pub fn is_idle(&self) -> (r: bool)
        ensures
            well_formed(self@),
            r == (self@ is None),
    {
        proof {
            use_type_invariant(self);
        }
        self.run.is_none()
    }

    /// Takes a new request.
    pub fn start(&mut self, req: &WorkRequest) -> (a: Action)
        ensures
            well_formed(final(self)@),
            (final(self)@, a@) == start_spec(old(self)@, req@),
    {
        proof {
            use_type_invariant(&*self);
        }
        if self.run.is_some() {
            return Action::Busy;
        }
        let cmd = match parse_command(req.command.as_str()) {
            Some(c) => c,
            None => {
                return Action::Abandon;
            },
        };
        let kind = item_kind(req.item.as_str());
        match workflow_for(kind, cmd, req.item.as_str(), req.instance.as_str()) {
            None => Action::Abandon,
            Some(steps) => {
                assert(steps_view(steps@).len() == steps@.len());
                assert(workflow(kind, cmd, req.item@, req.instance@).len() > 0);
                let script = String::new();
                let a = action_of(&steps[0], &script);
                *self = Dispatcher { run: Some(Run { steps, at: 0, script }) };
                a
            },
        }
    }

    /// Takes the result of the action last asked for.
    pub fn resume(&mut self, res: StepResult) -> (a: Action)
        ensures
            well_formed(final(self)@),
            (final(self)@, a@) == resume_spec(old(self)@, res@),
    {
        let mut taken = Dispatcher::new();
        core::mem::swap(self, &mut taken);
        proof {
            use_type_invariant(&taken);
        }
        let Dispatcher { run: current } = taken;
        match current {
            None => Action::Ignored,
            Some(run) => {
                let v = judge(&run.steps[run.at], &res);
                match v {
                    Verdict::Mismatch => {
                        *self = Dispatcher { run: Some(run) };
                        Action::Ignored
                    },
                    Verdict::Stop(o) => Action::Finish(o),
                    Verdict::Proceed => {
                        let Run { steps, at, script } = run;
                        let script = match res {
                            StepResult::Generated(Ok(s)) => s,
                            _ => script,
                        };
                        if steps.len() - at <= 1 {
                            Action::Finish(Outcome::Succeeded(true))
                        } else {
                            let a = action_of(&steps[at + 1], &script);
                            *self = Dispatcher { run: Some(Run { steps, at: at + 1, script }) };
                            a
                        }
                    },
                }
            },
        }
    }
}

} // verus!
