//! The event loop as a machine of decisions.
//!
//! The embedder owns the engine and the receiving end of the channel and does the
//! work: it evaluates scripts, runs jobs, and blocks for messages. After each piece
//! of work it asks the runtime what comes next. `LoopState::next` says it as a
//! function, and the laws below are proved of that function.

use vstd::prelude::*;
use std::sync::mpsc::Receiver;
use crate::ext::performance::stored_performance;
use crate::host_data::loaded;
use crate::host_data::made_at_zero;
use crate::host_data::paired;
use crate::host_data::HostData;
use crate::host_data::Interval;
use crate::host_hooks::RuntimeHostHooks;
use crate::ids::IntervalId;
use crate::ids::TaskId;
use crate::macro_task::MacroTask;
use crate::recommended::are_recommended_builtins;
use crate::recommended::clear_cancels;
use crate::recommended::dispatch_of;
use crate::recommended::intervals_after;
use crate::recommended::recommended_builtins;
use crate::recommended::recommended_eventloop_handler;
use crate::recommended::tasks_after;
use crate::recommended::Dispatch;

verus! {

/// Settings a runtime is started with.
pub struct RuntimeConfig {
    /// Entry scripts are parsed outside strict mode.
    pub no_strict: bool,
    /// The entry scripts, evaluated in this order.
    pub paths: Vec<String>,
    /// The engine prints its internal diagnostics.
    pub verbose: bool,
}

impl RuntimeConfig {
    /// Whether the entry scripts and the bundled scripts are parsed in strict mode.
    pub fn strict(&self) -> (strict: bool)
        ensures
            strict == !self.no_strict,
    {
        !self.no_strict
    }
}

/// Where the event loop stands.
#[derive(Clone, Copy, Debug, PartialEq, Eq, Structural)]
pub enum Phase {
    /// Nothing has been handed out yet.
    Initializing,
    /// The bundled scripts and the entry scripts are being evaluated.
    Evaluating,
    /// Microtasks are being run.
    Draining,
    /// The loop thread waits for the next message.
    AwaitingMacrotask,
    /// The loop has ended.
    Terminated,
}

/// How a piece of work ended.
#[derive(Clone, Copy, Debug, PartialEq, Eq, Structural)]
pub enum Outcome {
    /// The engine returned a value.
    Completed,
    /// The engine returned an error.
    Failed,
}

/// The next piece of work for the embedder.
pub enum Step<J> {
    /// Evaluate the bundled script with this index.
    EvaluateBuiltin(usize),
    /// Read, parse and evaluate the entry script with this index.
    EvaluateEntry(usize),
    /// Run this microtask.
    RunJob(J),
    /// Block until a message arrives, and hand it to `handle_macro_task`.
    AwaitMacroTask,
    /// Leave the loop. `Failed` hands on the error of the work that ended it.
    Exit(Outcome),
}

/// The event loop's state as the laws see it.
pub struct LoopState<J> {
    pub phase: Phase,
    /// How many bundled scripts there are.
    pub builtins: nat,
    /// How many entry scripts there are.
    pub entries: nat,
    /// How many scripts have been handed out for evaluation.
    pub started: nat,
    /// Whether the loop was ended by an error.
    pub failed: bool,
    /// The queued microtasks, the next one to run first.
    pub jobs: Seq<J>,
}

impl<J> LoopState<J> {
    /// The phases agree with the count of scripts handed out.
    pub open spec fn wf(self) -> bool {
        &&& self.started <= self.builtins + self.entries
        &&& self.phase == Phase::Initializing ==> self.started == 0
        &&& (self.phase == Phase::Draining || self.phase == Phase::AwaitingMacrotask)
            ==> self.started == self.builtins + self.entries
        &&& self.failed ==> self.phase == Phase::Terminated
    }

    /// Whether the loop is past the scripts: every script has been evaluated and
    /// the loop has not ended.
    pub open spec fn in_loop(self) -> bool {
        &&& self.started == self.builtins + self.entries
        &&& self.phase != Phase::Terminated
    }

    /// The state once `jobs` have been appended to the microtask queue, in order.
    pub open spec fn enqueue_all(self, jobs: Seq<J>) -> Self {
        LoopState { jobs: self.jobs + jobs, ..self }
    }

    /// The state once a message has been handed to the handler.
    pub open spec fn message_taken(self) -> Self {
        LoopState { phase: Phase::Draining, ..self }
    }

    /// The step taken when the work before it has not failed: the scripts in
    /// order, then every queued microtask, then a message if background tasks are
    /// live, and the end if none is.
    pub open spec fn advance(self, pending: bool) -> (Self, Step<J>) {
        if self.started < self.builtins + self.entries {
            (
                LoopState { phase: Phase::Evaluating, started: self.started + 1, ..self },
                if self.started < self.builtins {
                    Step::EvaluateBuiltin(self.started as usize)
                } else {
                    Step::EvaluateEntry((self.started - self.builtins) as usize)
                },
            )
        } else if self.jobs.len() > 0 {
            (
                LoopState { phase: Phase::Draining, jobs: self.jobs.drop_first(), ..self },
                Step::RunJob(self.jobs[0]),
            )
        } else if pending {
            (LoopState { phase: Phase::AwaitingMacrotask, ..self }, Step::AwaitMacroTask)
        } else {
            (LoopState { phase: Phase::Terminated, ..self }, Step::Exit(Outcome::Completed))
        }
    }

    /// The state and the step that follow when the work handed out last ended with
    /// `outcome` and `pending` says whether background tasks are live.
    ///
    /// A failed script or microtask ends the loop. What was run for a message has
    /// no outcome to the loop, and neither has the start.
    pub open spec fn next(self, outcome: Outcome, pending: bool) -> (Self, Step<J>) {
        match self.phase {
            Phase::Terminated => (
                self,
                Step::Exit(
                    if self.failed {
                        Outcome::Failed
                    } else {
                        Outcome::Completed
                    },
                ),
            ),
            Phase::Initializing => self.advance(pending),
            Phase::AwaitingMacrotask => self.advance(pending),
            Phase::Evaluating | Phase::Draining => if outcome == Outcome::Failed {
                (
                    LoopState { phase: Phase::Terminated, failed: true, ..self },
                    Step::Exit(Outcome::Failed),
                )
            } else {
                self.advance(pending)
            },
        }
    }

    /// The state after `count` steps that all complete, with no microtask queued
    /// meanwhile.
    pub open spec fn after_steps(self, count: nat, pending: bool) -> Self
        decreases count,
    {
        if count == 0 {
            self
        } else {
            self.after_steps((count - 1) as nat, pending).next(Outcome::Completed, pending).0
        }
    }
}

/// Steps keep the state well formed.
pub proof fn lemma_next_keeps_wf<J>(state: LoopState<J>, outcome: Outcome, pending: bool)
    requires
        state.wf(),
    ensures
        state.next(outcome, pending).0.wf(),
{
}

/// Microtasks come before macrotasks: the loop asks for a message only when the
/// microtask queue is empty, and past the scripts a queued microtask is always what
/// runs next, the oldest first. A microtask leaves the queue only to be run.
pub proof fn lemma_microtasks_before_macrotasks<J>(
    state: LoopState<J>,
    outcome: Outcome,
    pending: bool,
)
    ensures
        state.next(outcome, pending).1 is AwaitMacroTask ==> state.jobs.len() == 0,
        state.next(outcome, pending).0.jobs == state.jobs || (state.jobs.len() > 0
            && state.next(outcome, pending).1 == Step::RunJob(state.jobs[0])
            && state.next(outcome, pending).0.jobs == state.jobs.drop_first()),
        state.in_loop() && outcome == Outcome::Completed && state.jobs.len() > 0 ==> {
            &&& state.next(outcome, pending).1 == Step::RunJob(state.jobs[0])
            &&& state.next(outcome, pending).0.jobs == state.jobs.drop_first()
        },
{
}

/// The queue is drained to its end, in order: with `count` microtasks queued, the
/// next `count` steps run exactly these, the oldest first, and the queue is empty
/// after them.
pub proof fn lemma_queue_drains_in_order<J>(state: LoopState<J>, pending: bool, count: nat)
    requires
        state.wf(),
        state.in_loop(),
        count <= state.jobs.len(),
    ensures
        state.after_steps(count, pending).wf(),
        state.after_steps(count, pending).in_loop(),
        state.after_steps(count, pending).jobs == state.jobs.skip(count as int),
        count < state.jobs.len() ==> state.after_steps(count, pending).next(
            Outcome::Completed,
            pending,
        ).1 == Step::RunJob(state.jobs[count as int]),
    decreases count,
{
    if count > 0 {
        let before = (count - 1) as nat;
        lemma_queue_drains_in_order(state, pending, before);
        let earlier = state.after_steps(before, pending);
        assert(earlier.jobs.drop_first() =~= state.jobs.skip(count as int));
    } else {
        assert(state.jobs.skip(0) =~= state.jobs);
    }
}

/// What a message's dispatch queues runs before the next message is taken: when
/// the loop has taken a message and the dispatch has queued `queued`, the steps
/// that follow run all of `queued`, in order, and only then does the loop ask for
/// a message again, or leave.
pub proof fn lemma_dispatched_microtasks_run_first<J>(
    state: LoopState<J>,
    queued: Seq<J>,
    pending: bool,
    index: nat,
)
    requires
        state.wf(),
        state.phase == Phase::AwaitingMacrotask,
        state.jobs.len() == 0,
        index < queued.len(),
    ensures
        state.message_taken().enqueue_all(queued).after_steps(index, pending).next(
            Outcome::Completed,
            pending,
        ).1 == Step::RunJob(queued[index as int]),
        ({
            let drained = state.message_taken().enqueue_all(queued).after_steps(
                queued.len(),
                pending,
            );
            &&& drained.jobs.len() == 0
            &&& drained.next(Outcome::Completed, pending).1 is AwaitMacroTask <==> pending
            &&& drained.next(Outcome::Completed, pending).1 is Exit <==> !pending
        }),
{
    let taken = state.message_taken().enqueue_all(queued);
    assert(taken.jobs =~= queued);
    lemma_queue_drains_in_order(taken, pending, index);
    lemma_queue_drains_in_order(taken, pending, queued.len());
}

/// The loop ends exactly when it is idle: past the scripts, after work that
/// completed, it leaves if and only if no microtask is queued and no background
/// task is live. It never leaves on a failure it was not told of.
pub proof fn lemma_terminates_exactly_when_idle<J>(state: LoopState<J>, pending: bool)
    requires
        state.in_loop(),
    ensures
        state.next(Outcome::Completed, pending).1 is Exit <==> state.jobs.len() == 0 && !pending,
        state.next(Outcome::Completed, pending).1 is Exit ==> state.next(
            Outcome::Completed,
            pending,
        ).1 == Step::<J>::Exit(Outcome::Completed),
{
}

/// Pending background work keeps the loop alive: while a background task is live
/// and nothing has failed, no step leaves the loop.
pub proof fn lemma_pending_work_keeps_loop_alive<J>(state: LoopState<J>)
    requires
        state.phase != Phase::Terminated,
    ensures
        !(state.next(Outcome::Completed, true).1 is Exit),
        state.next(Outcome::Completed, true).0.phase != Phase::Terminated,
{
}

/// The runtime: the settings, the host hooks, and where the loop stands. `J` is the
/// engine's job type, `V` its rooted reference to a value.
#[verifier::reject_recursive_types(V)]
pub struct Runtime<J, V> {
    config: RuntimeConfig,
    builtins: Vec<&'static str>,
    host_hooks: RuntimeHostHooks<J, V>,
    phase: Phase,
    started_builtins: usize,
    started_entries: usize,
    failed: bool,
}

impl<J, V> View for Runtime<J, V> {
    type V = LoopState<J>;

    open spec fn view(&self) -> LoopState<J> {
        LoopState {
            phase: self.spec_phase(),
            builtins: self.spec_builtins().len(),
            entries: self.spec_config().paths@.len(),
            started: self.started(),
            failed: self.failed(),
            jobs: self.host_hooks().jobs(),
        }
    }
}

impl<J, V> Runtime<J, V> {
    /// The settings the runtime was made with.
    pub closed spec fn spec_config(&self) -> RuntimeConfig {
        self.config
    }

    /// The bundled scripts.
    pub closed spec fn spec_builtins(&self) -> Seq<&'static str> {
        self.builtins@
    }

    /// Where the loop stands.
    pub closed spec fn spec_phase(&self) -> Phase {
        self.phase
    }

    /// How many scripts have been handed out for evaluation.
    pub closed spec fn started(&self) -> nat {
        (self.started_builtins + self.started_entries) as nat
    }

    /// Whether the loop was ended by an error.
    pub closed spec fn failed(&self) -> bool {
        self.failed
    }

    /// The host hooks.
    pub closed spec fn host_hooks(&self) -> RuntimeHostHooks<J, V> {
        self.host_hooks
    }

    /// The shared host state.
    pub open spec fn host_data(&self) -> HostData<V> {
        self.host_hooks().host_data()
    }

    /// The entry scripts start only when every bundled script has been handed out.
    pub closed spec fn scripts_in_order(&self) -> bool {
        &&& self.started_builtins <= self.builtins@.len()
        &&& self.started_entries <= self.config.paths@.len()
        &&& self.started_entries > 0 ==> self.started_builtins == self.builtins@.len()
    }

    /// The loop state is well formed, and so is the host state.
    pub open spec fn wf(&self) -> bool {
        &&& self@.wf()
        &&& self.scripts_in_order()
        &&& self.host_data().wf()
    }

    /// A runtime for `config` that has not started, with fresh host state, and the
    /// receiving end of the channel its background tasks post to.
    pub fn new(config: RuntimeConfig) -> (made: (Self, Receiver<MacroTask<V>>))
        ensures
            made.0.wf(),
            made.0.spec_config() == config,
            made.0@ == (LoopState::<J> {
                phase: Phase::Initializing,
                builtins: 2,
                entries: config.paths@.len(),
                started: 0,
                failed: false,
                jobs: Seq::empty(),
            }),
            are_recommended_builtins(made.0.spec_builtins()),
            stored_performance(made.0.host_data().spec_storage()) is None,
            made_at_zero(made.0.host_data().counter()),
            paired(made.0.host_data().sender(), made.1),
            made.0.host_data().tasks() == Set::<TaskId>::empty(),
            made.0.host_data().intervals() == Map::<IntervalId, Interval<V>>::empty(),
            made.0.host_data().next_task() == 0,
            made.0.host_data().next_interval() == 0,
    {
        let (host_data, macro_task_rx) = HostData::new();
        let host_hooks = RuntimeHostHooks::new(host_data);
        let runtime = Runtime {
            config,
            builtins: recommended_builtins(),
            host_hooks,
            phase: Phase::Initializing,
            started_builtins: 0,
            started_entries: 0,
            failed: false,
        };
        (runtime, macro_task_rx)
    }

    /// The settings the runtime was made with.
    pub fn config(&self) -> (config: &RuntimeConfig)
        ensures
            *config == self.spec_config(),
    {
        &self.config
    }

    /// Where the loop stands.
    pub fn phase(&self) -> (phase: Phase)
        ensures
            phase == self@.phase,
    {
        self.phase
    }

    /// The path of the bundled script with this index, if there is one.
    pub fn builtin(&self, index: usize) -> (path: Option<&'static str>)
        ensures
            path == if index < self@.builtins {
                Some(self.spec_builtins()[index as int])
            } else {
                None
            },
    {
        if index < self.builtins.len() {
            Some(self.builtins[index])
        } else {
            None
        }
    }

    /// The path of the entry script with this index, if there is one.
    pub fn entry(&self, index: usize) -> (path: Option<&String>)
        ensures
            path == if index < self@.entries {
                Some(&self.spec_config().paths@[index as int])
            } else {
                None
            },
    {
        if index < self.config.paths.len() {
            Some(&self.config.paths[index])
        } else {
            None
        }
    }

    /// The host hooks, for the engine.
    pub fn hooks(&self) -> (hooks: &RuntimeHostHooks<J, V>)
        ensures
            *hooks == self.host_hooks(),
    {
        &self.host_hooks
    }

    /// The host hooks, for the engine to queue microtasks and for the native
    /// functions to change the host state. The loop's own state stays as it is.
    pub fn hooks_mut(&mut self) -> (hooks: &mut RuntimeHostHooks<J, V>)
        ensures
            *hooks == old(self).host_hooks(),
            final(self).host_hooks() == *final(hooks),
            final(self).spec_phase() == old(self).spec_phase(),
            final(self).started() == old(self).started(),
            final(self).failed() == old(self).failed(),
            final(self).scripts_in_order() == old(self).scripts_in_order(),
            final(self).spec_config() == old(self).spec_config(),
            final(self).spec_builtins() == old(self).spec_builtins(),
    {
        &mut self.host_hooks
    }

    /// Decides the next step, given how the work handed out last ended and whether
    /// background tasks are live: the step and the new state are those of
    /// `LoopState::next`. The host state is left alone.
    pub fn decide(&mut self, outcome: Outcome, pending: bool) -> (step: Step<J>)
        requires
            old(self).wf(),
        ensures
            (final(self)@, step) == old(self)@.next(outcome, pending),
            final(self).wf(),
            final(self).host_data() == old(self).host_data(),
            final(self).spec_config() == old(self).spec_config(),
            final(self).spec_builtins() == old(self).spec_builtins(),
    {
        match self.phase {
            Phase::Terminated => {
                return Step::Exit(if self.failed { Outcome::Failed } else { Outcome::Completed });
            },
            Phase::Evaluating | Phase::Draining => {
                if outcome == Outcome::Failed {
                    self.phase = Phase::Terminated;
                    self.failed = true;
                    return Step::Exit(Outcome::Failed);
                }
            },
            Phase::Initializing | Phase::AwaitingMacrotask => {},
        }
        if self.started_builtins < self.builtins.len() {
            let index = self.started_builtins;
            self.started_builtins = index + 1;
            self.phase = Phase::Evaluating;
            return Step::EvaluateBuiltin(index);
        }
        if self.started_entries < self.config.paths.len() {
            let index = self.started_entries;
            self.started_entries = index + 1;
            self.phase = Phase::Evaluating;
            return Step::EvaluateEntry(index);
        }
        match self.host_hooks.pop_promise_job() {
            Some(job) => {
                self.phase = Phase::Draining;
                Step::RunJob(job)
            },
            None => {
                if pending {
                    self.phase = Phase::AwaitingMacrotask;
                    Step::AwaitMacroTask
                } else {
                    self.phase = Phase::Terminated;
                    Step::Exit(Outcome::Completed)
                }
            },
        }
    }

    /// Runs the loop one step further: loads the host's live-task counter and
    /// decides as `decide` does for a positive count or for none. What the load
    /// gives is not known beforehand; the step is the one `LoopState::next` gives
    /// for it.
    pub fn run(&mut self, outcome: Outcome) -> (step: Step<J>)
        requires
            old(self).wf(),
        ensures
            exists|live: u32|
                #[trigger] loaded(old(self).host_data().counter(), live) && (final(self)@, step)
                    == old(self)@.next(outcome, live > 0),
            final(self).wf(),
            final(self).host_data() == old(self).host_data(),
            final(self).spec_config() == old(self).spec_config(),
            final(self).spec_builtins() == old(self).spec_builtins(),
    {
        let pending = self.host_hooks.any_pending_macro_tasks();
        self.decide(outcome, pending)
    }

    /// Takes the message that the loop waited for, or `None` when the channel gave
    /// none: the registries are brought up to date as by
    /// `recommended_eventloop_handler`, the loop goes back to draining, and the
    /// result says what the engine is to run.
    pub fn handle_macro_task(&mut self, message: Option<MacroTask<V>>) -> (dispatch: Dispatch<V>)
        requires
            old(self).wf(),
            old(self)@.phase == Phase::AwaitingMacrotask,
        ensures
            final(self).wf(),
            final(self)@ == old(self)@.message_taken(),
            final(self).spec_config() == old(self).spec_config(),
            final(self).spec_builtins() == old(self).spec_builtins(),
            match message {
                Some(task) => {
                    &&& dispatch == dispatch_of(old(self).host_data().intervals(), task)
                    &&& clear_cancels(old(self).host_data(), task)
                    &&& final(self).host_data().intervals() == intervals_after(
                        old(self).host_data().intervals(),
                        task,
                    )
                    &&& final(self).host_data().tasks() == tasks_after(
                        old(self).host_data().tasks(),
                        old(self).host_data().intervals(),
                        task,
                    )
                },
                None => {
                    &&& dispatch == Dispatch::<V>::Nothing
                    &&& final(self).host_data().intervals() == old(self).host_data().intervals()
                    &&& final(self).host_data().tasks() == old(self).host_data().tasks()
                },
            },
            final(self).host_data().next_task() == old(self).host_data().next_task(),
            final(self).host_data().next_interval() == old(self).host_data().next_interval(),
            final(self).host_data().spec_storage() == old(self).host_data().spec_storage(),
            final(self).host_data().counter() == old(self).host_data().counter(),
            final(self).host_data().sender() == old(self).host_data().sender(),
    {
        self.phase = Phase::Draining;
        match message {
            Some(task) => recommended_eventloop_handler(task, self.host_hooks.host_data_mut()),
            None => Dispatch::Nothing,
        }
    }
}

} // verus!
