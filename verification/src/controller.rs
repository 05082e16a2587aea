//! The hook controller: one hook at most, installed by a hook attempt and
//! retired by an unhook.
//!
//! [`Phase`] is the controller's whole state and its mathematical model: the
//! functions `hook`, `unhook` and `resume` on it say, as specifications, what
//! the controller does. [`HookController`] is the same machine as executable
//! code, proved to follow the model step by step.

use vstd::prelude::*;
use crate::command::ActiveHook;
use crate::command::Answer;
use crate::command::ChannelAddress;
use crate::command::Command;
use crate::command::Ejection;
use crate::command::Event;
use crate::command::HookFailure;
use crate::command::HookReport;
use crate::command::HookState;
use crate::command::InjectorError;
use crate::command::ModuleHandle;
use crate::command::ProcessId;
use crate::command::ProtocolError;
use crate::command::Report;
use crate::command::Step;
use crate::command::TaskExit;
use crate::command::TaskHandle;
use crate::command::UnhookOutcome;
use crate::command::done;
use crate::command::perform;
use crate::filter::FilterConfig;

verus! {

/// Where the retirement of a hook stands. The stage names the command whose
/// outcome is awaited.
#[derive(Clone, Copy, Debug, PartialEq, Eq, Structural)]
pub enum RetireStage {
    StoppingChannel,
    JoiningTask,
    CheckingAlive { task: TaskExit },
    Ejecting { task: TaskExit },
}

/// A hook on its way out.
#[derive(Clone, Copy, Debug, PartialEq, Eq)]
pub struct Retirement {
    /// The hook being retired. It counts as held until the retirement ends.
    pub hook: ActiveHook,
    /// The target of the hook attempt that the retirement is part of, if it
    /// is part of one.
    pub next: Option<ProcessId>,
    pub stage: RetireStage,
}

/// Where a hook attempt stands. The stage names the command whose outcome is
/// awaited and holds what the attempt has gathered so far.
#[derive(Debug, PartialEq, Eq)]
pub enum AttemptStage {
    Probing,
    StoppingStale { stale: ModuleHandle },
    EjectingStale { stale: ModuleHandle },
    ResolvingConfig,
    ResolvingPayload { config: FilterConfig },
    Injecting { config: FilterConfig },
    StartingChannel { config: FilterConfig, module: ModuleHandle },
    Spawning { module: ModuleHandle },
}

/// A hook attempt under way. No hook is held while it lasts.
#[derive(Debug, PartialEq, Eq)]
pub struct Attempt {
    pub target: ProcessId,
    /// How the hook held when the attempt began was retired.
    pub retired: UnhookOutcome,
    pub stage: AttemptStage,
}

/// State of the controller.
#[derive(Debug, PartialEq, Eq)]
pub enum Phase {
    /// No sequence is under way.
    Idle(HookState),
    Retiring(Retirement),
    Attempting(Attempt),
}

/// The controller's next state together with its answer.
pub type Transition = (Phase, Answer);

/// What a retirement records of an ejection.
pub open spec fn ejection_of(result: Result<(), InjectorError>) -> Ejection {
    match result {
        Ok(_) => Ejection::Ejected,
        Err(error) => if error.benign() {
            Ejection::AlreadyGone
        } else {
            Ejection::Failed
        },
    }
}

impl Phase {
    /// The controller as it starts: idle, without a hook.
    pub open spec fn initial() -> Phase {
        Phase::Idle(HookState::Unhooked)
    }

    /// The hook state. A hook is held from the moment it is installed until
    /// its retirement has ended.
    pub open spec fn state(self) -> HookState {
        match self {
            Phase::Idle(state) => state,
            Phase::Retiring(retirement) => HookState::Hooked(retirement.hook),
            Phase::Attempting(_) => HookState::Unhooked,
        }
    }

    /// Begins the retirement of `hook`: the channel is stopped first.
    pub open spec fn retire(hook: ActiveHook, next: Option<ProcessId>) -> Transition {
        (
            Phase::Retiring(Retirement { hook, next, stage: RetireStage::StoppingChannel }),
            perform(Command::StopChannel { module: hook.module }),
        )
    }

    /// Begins, or begins again, to look for a leftover payload in `target`.
    pub open spec fn probe(target: ProcessId, retired: UnhookOutcome) -> Transition {
        (
            Phase::Attempting(Attempt { target, retired, stage: AttemptStage::Probing }),
            perform(Command::FindModule { target }),
        )
    }

    /// Ends a retirement: the hook is gone, whatever `outcome` says. What
    /// follows is the hook attempt that asked for the retirement, or nothing.
    pub open spec fn retired(next: Option<ProcessId>, outcome: UnhookOutcome) -> Transition {
        match next {
            Some(target) => Phase::probe(target, outcome),
            None => (Phase::Idle(HookState::Unhooked), done(Report::Unhook(outcome))),
        }
    }

    /// Gives a hook attempt up: no hook is held and nothing is tried again.
    pub open spec fn abort(retired: UnhookOutcome, failure: HookFailure) -> Transition {
        (
            Phase::Idle(HookState::Unhooked),
            done(Report::Hook(HookReport { retired, result: Err(failure) })),
        )
    }

    /// Completes a hook attempt: the hook is installed.
    pub open spec fn install(retired: UnhookOutcome, hook: ActiveHook) -> Transition {
        (
            Phase::Idle(HookState::Hooked(hook)),
            done(Report::Hook(HookReport { retired, result: Ok(hook) })),
        )
    }

    /// A request to hook `target`. A hook that is held is retired first; then
    /// the target is probed for a leftover payload.
    pub open spec fn hook(self, target: ProcessId) -> Transition {
        match self {
            Phase::Idle(HookState::Hooked(hook)) => Phase::retire(hook, Some(target)),
            Phase::Idle(HookState::Unhooked) => Phase::probe(target, UnhookOutcome::NotHooked),
            _ => (self, Err(ProtocolError::Busy)),
        }
    }

    /// A request to unhook. Without a hook there is nothing to do.
    pub open spec fn unhook(self) -> Transition {
        match self {
            Phase::Idle(HookState::Hooked(hook)) => Phase::retire(hook, None),
            Phase::Idle(HookState::Unhooked) => (
                self,
                done(Report::Unhook(UnhookOutcome::NotHooked)),
            ),
            _ => (self, Err(ProtocolError::Busy)),
        }
    }

    /// The outcome of the outstanding command has arrived.
    pub open spec fn resume(self, event: Event) -> Transition {
        match self {
            Phase::Idle(_) => (self, Err(ProtocolError::NothingPending)),
            Phase::Retiring(retirement) => retirement.resume(event),
            Phase::Attempting(attempt) => attempt.resume(event),
        }
    }
}

/// One input to the controller: a request, or the outcome of a command.
pub enum Input {
    Hook(ProcessId),
    Unhook,
    Outcome(Event),
}

impl Phase {
    /// What the controller makes of `input`.
    pub open spec fn take(self, input: Input) -> Transition {
        match input {
            Input::Hook(target) => self.hook(target),
            Input::Unhook => self.unhook(),
            Input::Outcome(event) => self.resume(event),
        }
    }

    /// The state that the inputs, taken in order, lead to.
    pub open spec fn after(self, inputs: Seq<Input>) -> Phase
        decreases inputs.len(),
    {
        if inputs.len() == 0 {
            self
        } else {
            self.after(inputs.drop_last()).take(inputs.last()).0
        }
    }

    /// The state in which the input at `index` is taken.
    pub open spec fn before(self, inputs: Seq<Input>, index: int) -> Phase {
        self.after(inputs.take(index))
    }

    /// The answer to the input at `index`.
    pub open spec fn answer(self, inputs: Seq<Input>, index: int) -> Answer {
        self.before(inputs, index).take(inputs[index]).1
    }

    /// The answers to the inputs, in order.
    pub open spec fn answers(self, inputs: Seq<Input>) -> Seq<Answer> {
        Seq::new(inputs.len(), |index: int| self.answer(inputs, index))
    }
}

impl Retirement {
    /// The retirement moved on to `stage`, for which `command` is performed.
    pub open spec fn proceed(self, stage: RetireStage, command: Command) -> Transition {
        (
            Phase::Retiring(Retirement { hook: self.hook, next: self.next, stage }),
            perform(command),
        )
    }

    /// One step of a retirement: stop the channel, join the task, ask whether
    /// the process still runs, and eject the module only if it does.
    ///
    /// A channel that cannot be stopped, for a reason other than the target
    /// being gone, ends the retirement at once: its task would never return
    /// from a join.
    pub open spec fn resume(self, event: Event) -> Transition {
        match (self.stage, event) {
            (RetireStage::StoppingChannel, Event::ChannelStopped(Err(error))) => if error.benign() {
                self.proceed(RetireStage::JoiningTask, Command::JoinTask { task: self.hook.task })
            } else {
                Phase::retired(self.next, UnhookOutcome::StopFailed)
            },
            (RetireStage::StoppingChannel, Event::ChannelStopped(Ok(_))) => self.proceed(
                RetireStage::JoiningTask,
                Command::JoinTask { task: self.hook.task },
            ),
            (RetireStage::JoiningTask, Event::TaskJoined(task)) => self.proceed(
                RetireStage::CheckingAlive { task },
                Command::CheckAlive { module: self.hook.module },
            ),
            (RetireStage::CheckingAlive { task }, Event::Liveness(alive)) => if alive {
                self.proceed(
                    RetireStage::Ejecting { task },
                    Command::Eject { module: self.hook.module },
                )
            } else {
                Phase::retired(
                    self.next,
                    UnhookOutcome::Retired { task, ejection: Ejection::Skipped },
                )
            },
            (RetireStage::Ejecting { task }, Event::Ejected(result)) => Phase::retired(
                self.next,
                UnhookOutcome::Retired { task, ejection: ejection_of(result) },
            ),
            _ => (Phase::Retiring(self), Err(ProtocolError::Mismatch)),
        }
    }
}

impl Attempt {
    /// The attempt moved on to `stage`, for which `command` is performed.
    pub open spec fn proceed(self, stage: AttemptStage, command: Command) -> Transition {
        (
            Phase::Attempting(Attempt { target: self.target, retired: self.retired, stage }),
            perform(command),
        )
    }

    /// One step of a hook attempt.
    ///
    /// While the probe finds a leftover payload, its channel is stopped and
    /// it is ejected, both on a best-effort basis: whatever comes of either,
    /// the attempt goes on and probes again. Once the probe finds nothing
    /// the configuration and the payload image are resolved, the image is
    /// injected, its channel started and a task spawned for it. The first of
    /// these to fail ends the attempt.
    pub open spec fn resume(self, event: Event) -> Transition {
        match (self.stage, event) {
            (AttemptStage::Probing, Event::ModuleLookup(Some(stale))) => self.proceed(
                AttemptStage::StoppingStale { stale },
                Command::StopChannel { module: stale },
            ),
            (AttemptStage::Probing, Event::ModuleLookup(None)) => self.proceed(
                AttemptStage::ResolvingConfig,
                Command::ResolveConfig,
            ),
            (AttemptStage::StoppingStale { stale }, Event::ChannelStopped(_)) => self.proceed(
                AttemptStage::EjectingStale { stale },
                Command::Eject { module: stale },
            ),
            (AttemptStage::EjectingStale { stale }, Event::Ejected(_)) => Phase::probe(
                self.target,
                self.retired,
            ),
            (AttemptStage::ResolvingConfig, Event::ConfigResolved(Some(config))) => self.proceed(
                AttemptStage::ResolvingPayload { config },
                Command::ResolvePayload,
            ),
            (AttemptStage::ResolvingConfig, Event::ConfigResolved(None)) => Phase::abort(
                self.retired,
                HookFailure::ConfigUnavailable,
            ),
            (AttemptStage::ResolvingPayload { config }, Event::PayloadResolved(Some(path))) => {
                self.proceed(
                    AttemptStage::Injecting { config },
                    Command::Inject { target: self.target, path },
                )
            },
            (AttemptStage::ResolvingPayload { config }, Event::PayloadResolved(None)) => {
                Phase::abort(self.retired, HookFailure::PayloadUnavailable)
            },
            (AttemptStage::Injecting { config }, Event::Injected(Ok(module))) => self.proceed(
                AttemptStage::StartingChannel { config, module },
                Command::StartChannel { module },
            ),
            (AttemptStage::Injecting { config }, Event::Injected(Err(error))) => Phase::abort(
                self.retired,
                HookFailure::InjectionFailed(error),
            ),
            (
                AttemptStage::StartingChannel { config, module },
                Event::ChannelStarted(Ok(address)),
            ) => self.proceed(
                AttemptStage::Spawning { module },
                Command::SpawnTask { address, config },
            ),
            (
                AttemptStage::StartingChannel { config, module },
                Event::ChannelStarted(Err(error)),
            ) => Phase::abort(self.retired, HookFailure::ChannelStartFailed(error)),
            (AttemptStage::Spawning { module }, Event::TaskSpawned(Some(task))) => Phase::install(
                self.retired,
                ActiveHook { module, task },
            ),
            (AttemptStage::Spawning { module }, Event::TaskSpawned(None)) => Phase::abort(
                self.retired,
                HookFailure::SpawnFailed,
            ),
            _ => (Phase::Attempting(self), Err(ProtocolError::Mismatch)),
        }
    }
}

/// Records the outcome of an ejection.
fn classify_ejection(result: Result<(), InjectorError>) -> (ejection: Ejection)
    ensures
        ejection == ejection_of(result),
{
    match result {
        Ok(_) => Ejection::Ejected,
        Err(error) => if error.is_benign() {
            Ejection::AlreadyGone
        } else {
            Ejection::Failed
        },
    }
}

/// Begins to look for a leftover payload in `target`.
fn begin_probe(target: ProcessId, retired: UnhookOutcome) -> (outcome: Transition)
    ensures
        outcome == Phase::probe(target, retired),
{
    (
        Phase::Attempting(Attempt { target, retired, stage: AttemptStage::Probing }),
        Ok(Step::Perform(Command::FindModule { target })),
    )
}

/// Begins the retirement of `hook`.
fn begin_retirement(hook: ActiveHook, next: Option<ProcessId>) -> (outcome: Transition)
    ensures
        outcome == Phase::retire(hook, next),
{
    (
        Phase::Retiring(Retirement { hook, next, stage: RetireStage::StoppingChannel }),
        Ok(Step::Perform(Command::StopChannel { module: hook.module })),
    )
}

/// Ends a retirement with `outcome`.
fn end_retirement(next: Option<ProcessId>, outcome: UnhookOutcome) -> (result: Transition)
    ensures
        result == Phase::retired(next, outcome),
{
    match next {
        Some(target) => begin_probe(target, outcome),
        None => (Phase::Idle(HookState::Unhooked), Ok(Step::Done(Report::Unhook(outcome)))),
    }
}

/// Gives a hook attempt up.
fn abort_attempt(retired: UnhookOutcome, failure: HookFailure) -> (outcome: Transition)
    ensures
        outcome == Phase::abort(retired, failure),
{
    (
        Phase::Idle(HookState::Unhooked),
        Ok(Step::Done(Report::Hook(HookReport { retired, result: Err(failure) }))),
    )
}

/// The retirement goes on at `stage`, for which `command` is performed.
fn retiring(
    hook: ActiveHook,
    next: Option<ProcessId>,
    stage: RetireStage,
    command: Command,
) -> (outcome: Transition)
    ensures
        outcome == (Phase::Retiring(Retirement { hook, next, stage }), perform(command)),
{
    (Phase::Retiring(Retirement { hook, next, stage }), Ok(Step::Perform(command)))
}

/// The attempt goes on at `stage`, for which `command` is performed.
fn attempting(
    target: ProcessId,
    retired: UnhookOutcome,
    stage: AttemptStage,
    command: Command,
) -> (outcome: Transition)
    ensures
        outcome == (Phase::Attempting(Attempt { target, retired, stage }), perform(command)),
{
    (Phase::Attempting(Attempt { target, retired, stage }), Ok(Step::Perform(command)))
}

/// Takes a retirement one step further.
fn step_retirement(retirement: Retirement, event: Event) -> (outcome: Transition)
    ensures
        outcome == retirement.resume(event),
{
    let Retirement { hook, next, stage } = retirement;
    match (stage, event) {
        (RetireStage::StoppingChannel, Event::ChannelStopped(Err(error))) => {
            if error.is_benign() {
                let task = hook.task;
                retiring(hook, next, RetireStage::JoiningTask, Command::JoinTask { task })
            } else {
                end_retirement(next, UnhookOutcome::StopFailed)
            }
        },
        (RetireStage::StoppingChannel, Event::ChannelStopped(Ok(_))) => {
            let task = hook.task;
            retiring(hook, next, RetireStage::JoiningTask, Command::JoinTask { task })
        },
        (RetireStage::JoiningTask, Event::TaskJoined(task)) => {
            retiring(
                hook,
                next,
                RetireStage::CheckingAlive { task },
                Command::CheckAlive { module: hook.module },
            )
        },
        (RetireStage::CheckingAlive { task }, Event::Liveness(alive)) => {
            if alive {
                let module = hook.module;
                retiring(hook, next, RetireStage::Ejecting { task }, Command::Eject { module })
            } else {
                end_retirement(next, UnhookOutcome::Retired { task, ejection: Ejection::Skipped })
            }
        },
        (RetireStage::Ejecting { task }, Event::Ejected(result)) => {
            let ejection = classify_ejection(result);
            end_retirement(next, UnhookOutcome::Retired { task, ejection })
        },
        (stage, _) => (
            Phase::Retiring(Retirement { hook, next, stage }),
            Err(ProtocolError::Mismatch),
        ),
    }
}

/// Takes a hook attempt one step further.
fn step_attempt(attempt: Attempt, event: Event) -> (outcome: Transition)
    ensures
        outcome == attempt.resume(event),
{
    let Attempt { target, retired, stage } = attempt;
    match (stage, event) {
        (AttemptStage::Probing, Event::ModuleLookup(Some(stale))) => attempting(
            target,
            retired,
            AttemptStage::StoppingStale { stale },
            Command::StopChannel { module: stale },
        ),
        (AttemptStage::Probing, Event::ModuleLookup(None)) => attempting(
            target,
            retired,
            AttemptStage::ResolvingConfig,
            Command::ResolveConfig,
        ),
        (AttemptStage::StoppingStale { stale }, Event::ChannelStopped(_)) => attempting(
            target,
            retired,
            AttemptStage::EjectingStale { stale },
            Command::Eject { module: stale },
        ),
        (AttemptStage::EjectingStale { stale }, Event::Ejected(_)) => begin_probe(target, retired),
        (AttemptStage::ResolvingConfig, Event::ConfigResolved(Some(config))) => attempting(
            target,
            retired,
            AttemptStage::ResolvingPayload { config },
            Command::ResolvePayload,
        ),
        (AttemptStage::ResolvingConfig, Event::ConfigResolved(None)) => abort_attempt(
            retired,
            HookFailure::ConfigUnavailable,
        ),
        (AttemptStage::ResolvingPayload { config }, Event::PayloadResolved(Some(path))) => {
            attempting(
                target,
                retired,
                AttemptStage::Injecting { config },
                Command::Inject { target, path },
            )
        },
        (AttemptStage::ResolvingPayload { config }, Event::PayloadResolved(None)) => abort_attempt(
            retired,
            HookFailure::PayloadUnavailable,
        ),
        (AttemptStage::Injecting { config }, Event::Injected(Ok(module))) => attempting(
            target,
            retired,
            AttemptStage::StartingChannel { config, module },
            Command::StartChannel { module },
        ),
        (AttemptStage::Injecting { config }, Event::Injected(Err(error))) => abort_attempt(
            retired,
            HookFailure::InjectionFailed(error),
        ),
        (AttemptStage::StartingChannel { config, module }, Event::ChannelStarted(Ok(address))) => {
            attempting(
                target,
                retired,
                AttemptStage::Spawning { module },
                Command::SpawnTask { address, config },
            )
        },
        (AttemptStage::StartingChannel { config, module }, Event::ChannelStarted(Err(error))) => {
            abort_attempt(retired, HookFailure::ChannelStartFailed(error))
        },
        (AttemptStage::Spawning { module }, Event::TaskSpawned(Some(task))) => {
            let hook = ActiveHook { module, task };
            (
                Phase::Idle(HookState::Hooked(hook)),
                Ok(Step::Done(Report::Hook(HookReport { retired, result: Ok(hook) }))),
            )
        },
        (AttemptStage::Spawning { module }, Event::TaskSpawned(None)) => abort_attempt(
            retired,
            HookFailure::SpawnFailed,
        ),
        (stage, _) => (
            Phase::Attempting(Attempt { target, retired, stage }),
            Err(ProtocolError::Mismatch),
        ),
    }
}

/// Owner of the hook state. It decides what is done to install a hook and to
/// retire one, and in which order; it performs none of it.
///
/// Requests and outcomes are taken one at a time. An input that does not fit
/// the present state is refused and changes nothing.
#[derive(Debug)]
pub struct HookController {
    phase: Phase,
}

impl View for HookController {
    type V = Phase;

    closed spec fn view(&self) -> Phase {
        self.phase
    }
}

impl HookController {
    /// A controller without a hook and with nothing under way.
    pub fn new() -> (controller: HookController)
        ensures
            controller@ == Phase::initial(),
    {
        HookController { phase: Phase::Idle(HookState::Unhooked) }
    }

    /// The hook that is held, if one is.
    pub fn state(&self) -> (state: HookState)
        ensures
            state == self@.state(),
    {
        match &self.phase {
            Phase::Idle(state) => *state,
            Phase::Retiring(retirement) => HookState::Hooked(retirement.hook),
            Phase::Attempting(_) => HookState::Unhooked,
        }
    }

    /// Whether a hook is held.
    pub fn is_hooked(&self) -> (hooked: bool)
        ensures
            hooked == (self@.state() is Hooked),
    {
        match self.state() {
            HookState::Hooked(_) => true,
            HookState::Unhooked => false,
        }
    }

    /// Whether no sequence is under way, so that a request can be taken.
    pub fn is_idle(&self) -> (idle: bool)
        ensures
            idle == (self@ is Idle),
    {
        match &self.phase {
            Phase::Idle(_) => true,
            _ => false,
        }
    }

    /// Asks for a hook on `target`.
    ///
    /// The answer is the first command of the sequence: that which stops the
    /// channel of the hook now held, or, without one, the probe of `target`.
    /// While a sequence is under way the request is refused as `Busy`.
    pub fn hook(&mut self, target: ProcessId) -> (answer: Answer)
        ensures
            (final(self)@, answer) == old(self)@.hook(target),
    {
        let (next, answer) = match &self.phase {
            Phase::Idle(HookState::Hooked(hook)) => begin_retirement(*hook, Some(target)),
            Phase::Idle(HookState::Unhooked) => begin_probe(target, UnhookOutcome::NotHooked),
            _ => return Err(ProtocolError::Busy),
        };
        self.phase = next;
        answer
    }

    /// Asks for the hook to be retired.
    ///
    /// Without a hook nothing is done: the answer is `Done` at once and the
    /// controller is unchanged. With one, the answer is the command that
    /// stops its channel. While a sequence is under way the request is
    /// refused as `Busy`.
    pub fn unhook(&mut self) -> (answer: Answer)
        ensures
            (final(self)@, answer) == old(self)@.unhook(),
    {
        match &self.phase {
            Phase::Idle(HookState::Hooked(hook)) => {
                let (next, answer) = begin_retirement(*hook, None);
                self.phase = next;
                answer
            },
            Phase::Idle(HookState::Unhooked) => Ok(
                Step::Done(Report::Unhook(UnhookOutcome::NotHooked)),
            ),
            _ => Err(ProtocolError::Busy),
        }
    }

    /// Takes the outcome of the command that was answered last, and answers
    /// with the next command or with the report that closes the sequence.
    ///
    /// An outcome that is not that of the outstanding command is refused as
    /// `Mismatch`, and any outcome while idle as `NothingPending`.
    pub fn resume(&mut self, event: Event) -> (answer: Answer)
        ensures
            (final(self)@, answer) == old(self)@.resume(event),
    {
        let mut phase = Phase::Idle(HookState::Unhooked);
        core::mem::swap(&mut self.phase, &mut phase);
        let (next, answer) = match phase {
            Phase::Idle(state) => (Phase::Idle(state), Err(ProtocolError::NothingPending)),
            Phase::Retiring(retirement) => step_retirement(retirement, event),
            Phase::Attempting(attempt) => step_attempt(attempt, event),
        };
        self.phase = next;
        answer
    }
}


} // verus!
