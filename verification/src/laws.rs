//! What holds of the controller in every state and along every run.
//!
//! A run is a start state and a sequence of inputs; see `after`, `before`
//! and `answers` on [`Phase`]. Every state of the controller is a state in
//! which a run can start, so a law that speaks of one step speaks of every
//! step of every run.

use vstd::prelude::*;
use crate::command::ActiveHook;
use crate::command::Answer;
use crate::command::Command;
use crate::command::Ejection;
use crate::command::Event;
use crate::command::HookReport;
use crate::command::HookState;
use crate::command::InjectorError;
use crate::command::ModuleHandle;
use crate::command::ProcessId;
use crate::command::Report;
use crate::command::Step;
use crate::command::TaskExit;
use crate::command::TaskHandle;
use crate::command::UnhookOutcome;
use crate::command::done;
use crate::command::perform;
use crate::controller::Attempt;
use crate::controller::AttemptStage;
use crate::controller::Input;
use crate::controller::Phase;
use crate::controller::RetireStage;
use crate::controller::ejection_of;
use crate::controller::Retirement;

verus! {

/// Each input is taken in the state that the inputs before it led to.
pub proof fn lemma_run_unfolds(start: Phase, inputs: Seq<Input>, index: int)
    requires
        0 <= index < inputs.len(),
    ensures
        start.before(inputs, index + 1) == start.before(inputs, index).take(inputs[index]).0,
{
    let upto = inputs.take(index + 1);
    assert(upto.drop_last() =~= inputs.take(index));
    assert(upto.last() == inputs[index]);
}

/// A run over two stretches of inputs is the run over the first followed by
/// the run over the second.
pub proof fn lemma_run_concatenates(start: Phase, first: Seq<Input>, second: Seq<Input>)
    ensures
        start.after(first + second) == start.after(first).after(second),
        start.answers(first + second) == start.answers(first) + start.after(first).answers(second),
    decreases second.len(),
{
    let whole = first + second;
    let split = start.answers(first) + start.after(first).answers(second);
    if second.len() == 0 {
        assert(whole =~= first);
    } else {
        let shorter = second.drop_last();
        lemma_run_concatenates(start, first, shorter);
        assert(whole.drop_last() =~= first + shorter);
        assert(whole.last() == second.last());
    }
    assert forall|index: int| 0 <= index < whole.len() implies #[trigger] start.answers(
        whole,
    )[index] == split[index] by {
        if index < first.len() {
            assert(whole.take(index) =~= first.take(index));
        } else {
            let offset = index - first.len();
            assert(whole.take(index) =~= first + second.take(offset));
            lemma_run_concatenates(start, first, second.take(offset));
        }
    }
    assert(start.answers(whole) =~= split);
}

/// An unhook without a hook does nothing: no command is issued, nothing is
/// recorded as an error, and the controller is left exactly as it was.
pub proof fn lemma_unhook_is_idempotent(phase: Phase)
    requires
        phase is Idle,
        phase.state() is Unhooked,
    ensures
        phase.unhook() == (phase, done(Report::Unhook(UnhookOutcome::NotHooked))),
        !UnhookOutcome::NotHooked.is_failure(),
{
}

/// Whenever a sequence closes as an unhook, no hook is held and nothing is
/// under way, so that a further unhook finds nothing to do.
pub proof fn lemma_unhook_leaves_no_hook(phase: Phase, input: Input)
    requires
        phase.take(input).1 matches Ok(Step::Done(Report::Unhook(_))),
    ensures
        phase.take(input).0 == Phase::Idle(HookState::Unhooked),
        phase.take(input).0.unhook() == (
            phase.take(input).0,
            done(Report::Unhook(UnhookOutcome::NotHooked)),
        ),
{
}

/// The command brings something into being that a hook has to own: a module
/// in the target, or a task.
pub open spec fn creates(command: Command) -> bool {
    command is Inject || command is SpawnTask
}

/// The answer asks for a command that creates.
pub open spec fn asks_to_create(answer: Answer) -> bool {
    match answer {
        Ok(Step::Perform(command)) => creates(command),
        _ => false,
    }
}

/// At every point of every run there is one hook at most, in this sense:
/// a hook is installed only where none is held, and it is the one that the
/// closing report names; nothing is injected or spawned while a hook is
/// held; and a hook that is held is given up only by a step of its own
/// retirement, after which none is held.
pub proof fn lemma_single_hook(start: Phase, inputs: Seq<Input>, index: int)
    requires
        0 <= index < inputs.len(),
    ensures
        ({
            let before = start.before(inputs, index);
            let (after, answer) = before.take(inputs[index]);
            let installed = HookReport {
                retired: before->Attempting_0.retired,
                result: Ok(after.state()->Hooked_0),
            };
            &&& after.state() is Hooked && after.state() != before.state() ==> {
                &&& before.state() is Unhooked
                &&& after is Idle
                &&& answer == done(Report::Hook(installed))
            }
            &&& asks_to_create(answer) ==> before.state() is Unhooked
            &&& before.state() is Hooked && after.state() != before.state() ==> {
                &&& before is Retiring
                &&& after.state() is Unhooked
            }
        }),
{
}

/// Two different hooks are never held one straight after the other: between
/// any two points of a run at which different hooks are held, there is a
/// point at which none is held.
pub proof fn lemma_hooks_never_overlap(start: Phase, inputs: Seq<Input>, earlier: int, later: int)
    requires
        0 <= earlier <= later <= inputs.len(),
        start.before(inputs, earlier).state() is Hooked,
        start.before(inputs, later).state() is Hooked,
        start.before(inputs, earlier).state() != start.before(inputs, later).state(),
    ensures
        exists|between: int|
            earlier < between < later && (#[trigger] start.before(inputs, between)).state()
                is Unhooked,
    decreases later - earlier,
{
    let previous = later - 1;
    lemma_run_unfolds(start, inputs, previous);
    lemma_single_hook(start, inputs, previous);
    if start.before(inputs, previous).state() is Unhooked {
        assert(earlier < previous < later);
    } else {
        lemma_hooks_never_overlap(start, inputs, earlier, previous);
        let between = choose|between: int|
            earlier < between < previous && (#[trigger] start.before(inputs, between)).state()
                is Unhooked;
        assert(earlier < between < later);
    }
}

/// A retirement asks for its work in one order: the channel is stopped, then
/// the task is joined, then the process is asked whether it runs, and only
/// if it does the module is ejected. Each of these commands is issued only
/// in answer to the outcome of the one before it, and each names the module
/// or the task of the hook that is retired.
pub proof fn lemma_retirement_order(retirement: Retirement, event: Event)
    ensures
        match retirement.resume(event).1 {
            Ok(Step::Perform(Command::JoinTask { task })) => {
                &&& retirement.stage is StoppingChannel
                &&& event is ChannelStopped
                &&& task == retirement.hook.task
            },
            Ok(Step::Perform(Command::CheckAlive { module })) => {
                &&& retirement.stage is JoiningTask
                &&& event is TaskJoined
                &&& module == retirement.hook.module
            },
            Ok(Step::Perform(Command::Eject { module })) => {
                &&& retirement.stage is CheckingAlive
                &&& event == Event::Liveness(true)
                &&& module == retirement.hook.module
            },
            Ok(Step::Perform(Command::FindModule { target })) => retirement.next == Some(target),
            Ok(Step::Perform(_)) => false,
            _ => true,
        },
{
}

/// Outside a retirement the task is never joined and the process never asked
/// whether it runs: those two commands belong to the retirement alone.
pub proof fn lemma_join_and_liveness_belong_to_retirement(phase: Phase, input: Input)
    requires
        phase.take(input).1 matches Ok(Step::Perform(command)) && (command is JoinTask || command
            is CheckAlive),
    ensures
        phase is Retiring,
        input is Outcome,
{
}

/// The retirement of `hook`, followed through: whatever the task's exit and
/// whether or not the target has gone, the commands come in the order stop,
/// join, liveness; the ejection follows if and only if the process runs.
/// However it ends, what comes next is the end of the sequence or, where the
/// retirement is part of a hook attempt, the probe of the new target: the
/// old hook is retired in full before anything is done about the new one.
pub proof fn lemma_teardown_sequence(
    hook: ActiveHook,
    next: Option<ProcessId>,
    stopped: Result<(), InjectorError>,
    exit: TaskExit,
    alive: bool,
    ejected: Result<(), InjectorError>,
)
    requires
        stopped matches Err(error) ==> error.benign(),
    ensures
        ({
            let skipped = UnhookOutcome::Retired { task: exit, ejection: Ejection::Skipped };
            let tried = UnhookOutcome::Retired { task: exit, ejection: ejection_of(ejected) };
            let (stopping, first) = Phase::retire(hook, next);
            let (joining, second) = stopping.resume(Event::ChannelStopped(stopped));
            let (checking, third) = joining.resume(Event::TaskJoined(exit));
            let (ejecting, fourth) = checking.resume(Event::Liveness(alive));
            &&& first == perform(Command::StopChannel { module: hook.module })
            &&& second == perform(Command::JoinTask { task: hook.task })
            &&& third == perform(Command::CheckAlive { module: hook.module })
            &&& alive ==> {
                &&& fourth == perform(Command::Eject { module: hook.module })
                &&& ejecting.resume(Event::Ejected(ejected)) == Phase::retired(next, tried)
            }
            &&& !alive ==> (ejecting, fourth) == Phase::retired(next, skipped)
            &&& next matches Some(target) ==> {
                &&& Phase::retired(next, tried) == Phase::probe(target, tried)
                &&& Phase::retired(next, skipped) == Phase::probe(target, skipped)
            }
        }),
{
}

/// Where the process is found not to run, the retirement ends there: the
/// module is not ejected, and no hook is held any more.
pub proof fn lemma_dead_target_is_not_ejected(retirement: Retirement, task: TaskExit)
    requires
        retirement.stage == (RetireStage::CheckingAlive { task }),
    ensures
        ({
            let skipped = UnhookOutcome::Retired { task, ejection: Ejection::Skipped };
            let (after, answer) = retirement.resume(Event::Liveness(false));
            &&& (after, answer) == Phase::retired(retirement.next, skipped)
            &&& !(answer matches Ok(Step::Perform(Command::Eject { .. })))
            &&& after.state() is Unhooked
            &&& !(after is Retiring)
        }),
{
}

/// An ejection that fails because the process or the module has gone is an
/// acceptable end: no hook is held afterwards, and the failure alone does
/// not make the outcome an error.
pub proof fn lemma_benign_ejection_is_absorbed(
    retirement: Retirement,
    task: TaskExit,
    error: InjectorError,
)
    requires
        retirement.stage == (RetireStage::Ejecting { task }),
        error.benign(),
    ensures
        ({
            let gone = UnhookOutcome::Retired { task, ejection: Ejection::AlreadyGone };
            let (after, answer) = retirement.resume(Event::Ejected(Err(error)));
            &&& (after, answer) == Phase::retired(retirement.next, gone)
            &&& after.state() is Unhooked
            &&& gone.is_failure() <==> task is Faulted
        }),
{
}

/// However a retirement ends, it ends without a hook: each step either
/// keeps retiring the same hook or leaves none held.
pub proof fn lemma_retirement_ends_unhooked(retirement: Retirement, event: Event)
    ensures
        match retirement.resume(event).0 {
            Phase::Retiring(still) => still.hook == retirement.hook && still.next
                == retirement.next,
            after => after.state() is Unhooked,
        },
{
}

/// Number of commands that a retirement at this stage can still ask for,
/// the outstanding one included.
pub open spec fn retirement_steps_left(stage: RetireStage) -> nat {
    match stage {
        RetireStage::StoppingChannel => 4,
        RetireStage::JoiningTask => 3,
        RetireStage::CheckingAlive { .. } => 2,
        RetireStage::Ejecting { .. } => 1,
    }
}

/// A retirement is over after four commands at most: each outcome that it
/// takes either ends it or brings it one stage nearer to its end.
pub proof fn lemma_retirement_is_bounded(retirement: Retirement, event: Event)
    requires
        retirement.resume(event).1 is Ok,
    ensures
        match retirement.resume(event).0 {
            Phase::Retiring(still) => retirement_steps_left(still.stage) + 1
                == retirement_steps_left(retirement.stage),
            _ => true,
        },
{
}

/// Number of commands that a hook attempt at this stage can still ask for
/// once the target is clean, the outstanding one included; `None` while the
/// target is still being cleaned, which takes as long as probes find
/// leftovers.
pub open spec fn attempt_steps_left(stage: AttemptStage) -> Option<nat> {
    match stage {
        AttemptStage::Probing => None,
        AttemptStage::StoppingStale { .. } => None,
        AttemptStage::EjectingStale { .. } => None,
        AttemptStage::ResolvingConfig => Some(5),
        AttemptStage::ResolvingPayload { .. } => Some(4),
        AttemptStage::Injecting { .. } => Some(3),
        AttemptStage::StartingChannel { .. } => Some(2),
        AttemptStage::Spawning { .. } => Some(1),
    }
}

/// Once the target is clean a hook attempt is over after five commands at
/// most, and it never goes back to cleaning: nothing is tried a second time.
pub proof fn lemma_attempt_is_bounded(attempt: Attempt, event: Event)
    requires
        attempt.resume(event).1 is Ok,
        attempt_steps_left(attempt.stage) is Some,
    ensures
        match attempt.resume(event).0 {
            Phase::Attempting(still) => attempt_steps_left(still.stage) matches Some(left) && left
                + 1 == attempt_steps_left(attempt.stage)->Some_0,
            after => after is Idle,
        },
{
}

/// A hook attempt that fails leaves no hook and is recorded as an error;
/// one that succeeds holds exactly the module that was injected and the
/// task that was spawned for it.
pub proof fn lemma_attempt_closes_truthfully(attempt: Attempt, event: Event)
    requires
        attempt.resume(event).1 matches Ok(Step::Done(_)),
    ensures
        ({
            let (after, answer) = attempt.resume(event);
            &&& answer matches Ok(Step::Done(Report::Hook(report)))
            &&& report.retired == attempt.retired
            &&& match report.result {
                Ok(hook) => {
                    &&& after == Phase::Idle(HookState::Hooked(hook))
                    &&& attempt.stage == (AttemptStage::Spawning { module: hook.module })
                    &&& event == Event::TaskSpawned(Some(hook.task))
                },
                Err(_) => after == Phase::Idle(HookState::Unhooked) && report.is_failure(),
            }
        }),
{
}

/// The modules that the controller knows of: that of the hook it holds, the
/// leftover that it is removing, the one that it has just injected.
pub open spec fn modules_known(phase: Phase) -> Set<ModuleHandle> {
    match phase {
        Phase::Idle(HookState::Hooked(hook)) => set![hook.module],
        Phase::Idle(HookState::Unhooked) => set![],
        Phase::Retiring(retirement) => set![retirement.hook.module],
        Phase::Attempting(attempt) => match attempt.stage {
            AttemptStage::StoppingStale { stale } => set![stale],
            AttemptStage::EjectingStale { stale } => set![stale],
            AttemptStage::StartingChannel { module, .. } => set![module],
            AttemptStage::Spawning { module } => set![module],
            _ => set![],
        },
    }
}

/// The modules that the input tells the controller of.
pub open spec fn modules_reported(input: Input) -> Set<ModuleHandle> {
    match input {
        Input::Outcome(Event::ModuleLookup(Some(module))) => set![module],
        Input::Outcome(Event::Injected(Ok(module))) => set![module],
        _ => set![],
    }
}

/// The module that the command is about, if it is about one.
pub open spec fn module_named(command: Command) -> Option<ModuleHandle> {
    match command {
        Command::StopChannel { module } => Some(module),
        Command::Eject { module } => Some(module),
        Command::StartChannel { module } => Some(module),
        Command::CheckAlive { module } => Some(module),
        _ => None,
    }
}

/// The controller makes no module up: a command names only a module that
/// the controller knew of or that the input has just reported, and the
/// same holds of the modules that it knows of afterwards.
pub proof fn lemma_modules_are_never_made_up(phase: Phase, input: Input)
    ensures
        ({
            let (after, answer) = phase.take(input);
            let given = modules_known(phase) + modules_reported(input);
            &&& modules_known(after).subset_of(given)
            &&& answer matches Ok(Step::Perform(command)) ==> (module_named(command) matches Some(
                module,
            ) ==> given.contains(module))
        }),
{
}

/// The task that the controller knows of: that of the hook it holds.
pub open spec fn task_known(phase: Phase) -> Option<TaskHandle> {
    match phase.state() {
        HookState::Hooked(hook) => Some(hook.task),
        HookState::Unhooked => None,
    }
}

/// The controller makes no task up: the task that it joins is that of the
/// hook it holds, and the task of a hook that it installs is the one that
/// the driver has just reported as spawned.
pub proof fn lemma_tasks_are_never_made_up(phase: Phase, input: Input)
    ensures
        ({
            let (after, answer) = phase.take(input);
            &&& answer matches Ok(Step::Perform(Command::JoinTask { task })) ==> task_known(phase)
                == Some(task)
            &&& task_known(after) matches Some(task) ==> task_known(phase) == Some(task) || input
                == Input::Outcome(Event::TaskSpawned(Some(task)))
        }),
{
}

/// A payload found in the target by a probe, and what came of stopping its
/// channel and of ejecting it.
pub struct Leftover {
    pub module: ModuleHandle,
    pub stopped: Result<(), InjectorError>,
    pub ejected: Result<(), InjectorError>,
}

/// The outcomes by which the driver reports one leftover.
pub open spec fn leftover_inputs(leftover: Leftover) -> Seq<Input> {
    seq![
        Input::Outcome(Event::ModuleLookup(Some(leftover.module))),
        Input::Outcome(Event::ChannelStopped(leftover.stopped)),
        Input::Outcome(Event::Ejected(leftover.ejected)),
    ]
}

/// What is done about one leftover: its channel is stopped, it is ejected,
/// and the target is probed again.
pub open spec fn leftover_answers(target: ProcessId, leftover: Leftover) -> Seq<Answer> {
    seq![
        perform(Command::StopChannel { module: leftover.module }),
        perform(Command::Eject { module: leftover.module }),
        perform(Command::FindModule { target }),
    ]
}

/// The outcomes by which the driver reports the leftovers, one after another.
pub open spec fn cleanup_inputs(leftovers: Seq<Leftover>) -> Seq<Input>
    decreases leftovers.len(),
{
    if leftovers.len() == 0 {
        Seq::empty()
    } else {
        cleanup_inputs(leftovers.drop_last()) + leftover_inputs(leftovers.last())
    }
}

/// What is done about the leftovers, one after another.
pub open spec fn cleanup_answers(target: ProcessId, leftovers: Seq<Leftover>) -> Seq<Answer>
    decreases leftovers.len(),
{
    if leftovers.len() == 0 {
        Seq::empty()
    } else {
        cleanup_answers(target, leftovers.drop_last()) + leftover_answers(target, leftovers.last())
    }
}

/// However many leftover payloads the probes find, each is dealt with in
/// turn (channel stopped, module ejected, whatever comes of either) and the
/// target is probed again after each. The attempt goes on to resolve the
/// configuration only when a probe finds none, and nothing is injected
/// before that.
pub proof fn lemma_stale_cleanup(
    target: ProcessId,
    retired: UnhookOutcome,
    leftovers: Seq<Leftover>,
)
    ensures
        ({
            let probing = Phase::probe(target, retired).0;
            let inputs = cleanup_inputs(leftovers);
            let resolving = Attempt { target, retired, stage: AttemptStage::ResolvingConfig };
            &&& inputs.len() == 3 * leftovers.len()
            &&& probing.answers(inputs) == cleanup_answers(target, leftovers)
            &&& probing.after(inputs) == probing
            &&& probing.resume(Event::ModuleLookup(None)) == (
                Phase::Attempting(resolving),
                perform(Command::ResolveConfig),
            )
            &&& forall|index: int|
                0 <= index < inputs.len() ==> !asks_to_create(
                    #[trigger] probing.answers(inputs)[index],
                )
        }),
    decreases leftovers.len(),
{
    let probing = Phase::probe(target, retired).0;
    let inputs = cleanup_inputs(leftovers);
    if leftovers.len() == 0 {
        assert(probing.answers(inputs) =~= cleanup_answers(target, leftovers));
    } else {
        let earlier = cleanup_inputs(leftovers.drop_last());
        let latest = leftover_inputs(leftovers.last());
        lemma_stale_cleanup(target, retired, leftovers.drop_last());
        lemma_run_concatenates(probing, earlier, latest);
        assert(probing.answers(latest) =~= leftover_answers(target, leftovers.last())
            && probing.after(latest) == probing) by {
            lemma_run_unfolds(probing, latest, 0);
            lemma_run_unfolds(probing, latest, 1);
            lemma_run_unfolds(probing, latest, 2);
            assert(latest.take(0) =~= Seq::<Input>::empty());
            assert(latest.take(3) =~= latest);
        }
    }
}

/// In a run that starts idle and in which every input is taken, an image is
/// injected only at the end of this chain: a probe found no payload in the
/// target, then the configuration was resolved, then the image. Nothing
/// touches the target between that probe and the injection.
pub proof fn lemma_injection_follows_clean_probe(start: Phase, inputs: Seq<Input>, index: int)
    requires
        start is Idle,
        0 <= index < inputs.len(),
        forall|earlier: int| 0 <= earlier <= index ==> start.answer(inputs, earlier) is Ok,
        start.answer(inputs, index) matches Ok(Step::Perform(Command::Inject { .. })),
    ensures
        index >= 2,
        inputs[index - 2] == Input::Outcome(Event::ModuleLookup(None)),
        start.answer(inputs, index - 2) == perform(Command::ResolveConfig),
        inputs[index - 1] matches Input::Outcome(Event::ConfigResolved(Some(_))),
        start.answer(inputs, index - 1) == perform(Command::ResolvePayload),
        inputs[index] matches Input::Outcome(Event::PayloadResolved(Some(_))),
{
    assert(inputs.take(0) =~= Seq::<Input>::empty());
    assert(start.before(inputs, 0) == start);
    assert(index >= 1);
    lemma_run_unfolds(start, inputs, index - 1);
    assert(start.answer(inputs, index - 1) is Ok);
    assert(index >= 2);
    lemma_run_unfolds(start, inputs, index - 2);
    assert(start.answer(inputs, index - 2) is Ok);
}

} // verus!
