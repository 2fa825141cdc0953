//! What a runtime is usually started with: the bundled scripts, and the handler
//! that dispatches pending work by its kind.

use vstd::prelude::*;
use crate::ext::performance::PerformanceExt;
use crate::ext::performance::clock_started;
use crate::extension::all_ops;
use crate::extension::all_seeded;
use crate::extension::lemma_seed_stays;
use crate::extension::Extension;
use crate::extension::ExtensionOp;
use crate::extension::StorageInit;
use crate::storage::OpsStorage;
use crate::host_data::HostData;
use crate::host_data::Interval;
use crate::ids::IntervalId;
use crate::ids::TaskId;
use crate::macro_task::MacroTask;

verus! {

/// What the engine is to do for a message that the handler has taken.
pub enum Dispatch<V> {
    /// Nothing is to be run: the registries are up to date, or the message was for
    /// a timer that is no longer registered.
    Nothing,
    /// Take the rooted value, which must be a promise, and fulfil it with no payload.
    ResolvePromise(V),
    /// Call the callback of this interval, which is still registered.
    RunInterval(IntervalId),
    /// Call this callback, of a timeout that has just left the registry.
    RunTimeout(V),
}

/// What is to be run for `task` when `intervals` are the registered timers.
pub open spec fn dispatch_of<V>(intervals: Map<IntervalId, Interval<V>>, task: MacroTask<V>)
    -> Dispatch<V> {
    match task {
        MacroTask::ResolvePromise(promise) => Dispatch::ResolvePromise(promise),
        MacroTask::RunInterval(id) => if intervals.contains_key(id) {
            Dispatch::RunInterval(id)
        } else {
            Dispatch::Nothing
        },
        MacroTask::RunAndClearTimeout(id) => if intervals.contains_key(id) {
            Dispatch::RunTimeout(intervals[id].callback)
        } else {
            Dispatch::Nothing
        },
        MacroTask::ClearInterval(_) => Dispatch::Nothing,
        MacroTask::ClearTimeout(_) => Dispatch::Nothing,
    }
}

/// The registered timers once `task` has been handled.
pub open spec fn intervals_after<V>(intervals: Map<IntervalId, Interval<V>>, task: MacroTask<V>)
    -> Map<IntervalId, Interval<V>> {
    match task {
        MacroTask::ResolvePromise(_) => intervals,
        MacroTask::RunInterval(_) => intervals,
        MacroTask::RunAndClearTimeout(id) => intervals.remove(id),
        MacroTask::ClearInterval(id) => intervals.remove(id),
        MacroTask::ClearTimeout(id) => intervals.remove(id),
    }
}

/// The registered task handles once `task` has been handled: a timer that leaves
/// the registry takes the handle of its background task with it.
pub open spec fn tasks_after<V>(
    tasks: Set<TaskId>,
    intervals: Map<IntervalId, Interval<V>>,
    task: MacroTask<V>,
) -> Set<TaskId> {
    match task {
        MacroTask::ResolvePromise(_) => tasks,
        MacroTask::RunInterval(_) => tasks,
        MacroTask::RunAndClearTimeout(id) | MacroTask::ClearInterval(id) | MacroTask::ClearTimeout(
            id,
        ) => if intervals.contains_key(id) {
            tasks.remove(intervals[id].task_id)
        } else {
            tasks
        },
    }
}

/// Whether handling `task` in the host state `host` cancelled the background task
/// it had to: a clear of a registered timer whose background task is still
/// registered aborts that task's handle and gives its share of the live-task
/// counter back. No other message cancels anything.
pub open spec fn clear_cancels<V>(host: HostData<V>, task: MacroTask<V>) -> bool {
    task.clears() && host.intervals().contains_key(task.timer().unwrap())
        && host.tasks().contains(host.intervals()[task.timer().unwrap()].task_id)
        ==> host.cancelled(host.intervals()[task.timer().unwrap()].task_id)
}

/// The timer registry as the laws see it: the registered timers and the number
/// that the next identifier is made from.
pub struct Timers<V> {
    pub intervals: Map<IntervalId, Interval<V>>,
    pub next: u32,
}

/// One change of the timer registry on the loop thread.
pub enum TimerStep<V> {
    /// A native call registers a timer, whose background task is `task_id`.
    Create { callback: V, repeat: bool, delay: u64, task_id: TaskId },
    /// The handler takes a message.
    Handle(MacroTask<V>),
}

impl<V> Timers<V> {
    /// Every registered timer has an identifier that was handed out.
    pub open spec fn wf(self) -> bool {
        forall|id: IntervalId| #[trigger] self.intervals.contains_key(id) ==> id.0 < self.next
    }

    /// The registry after `step`. A timer is created under the next identifier, as
    /// `HostData::create_interval` does; a message is handled as
    /// `recommended_eventloop_handler` does.
    pub open spec fn after(self, step: TimerStep<V>) -> Self {
        match step {
            TimerStep::Create { callback, repeat, delay, task_id } => if self.next < u32::MAX {
                Timers {
                    intervals: self.intervals.insert(
                        IntervalId(self.next),
                        Interval { id: IntervalId(self.next), callback, repeat, delay, task_id },
                    ),
                    next: (self.next + 1) as u32,
                }
            } else {
                self
            },
            TimerStep::Handle(task) => Timers {
                intervals: intervals_after(self.intervals, task),
                next: self.next,
            },
        }
    }

    /// The registry after all of `steps`, in turn.
    pub open spec fn after_all(self, steps: Seq<TimerStep<V>>) -> Self
        decreases steps.len(),
    {
        if steps.len() == 0 {
            self
        } else {
            self.after_all(steps.drop_last()).after(steps.last())
        }
    }
}

/// The timers of a well-formed host state are well formed.
pub proof fn lemma_host_timers_wf<V>(host_data: &HostData<V>)
    requires
        host_data.wf(),
    ensures
        (Timers { intervals: host_data.intervals(), next: host_data.next_interval() }).wf(),
{
    host_data.lemma_registered_below_next();
}

/// An identifier is never given twice: a timer that was handed out and is not
/// registered stays unregistered, whatever timers are created and whatever
/// messages are handled afterwards.
pub proof fn lemma_identifiers_are_not_reused<V>(
    timers: Timers<V>,
    steps: Seq<TimerStep<V>>,
    id: IntervalId,
)
    requires
        timers.wf(),
        id.0 < timers.next,
        !timers.intervals.contains_key(id),
    ensures
        timers.after_all(steps).wf(),
        timers.next <= timers.after_all(steps).next,
        !timers.after_all(steps).intervals.contains_key(id),
    decreases steps.len(),
{
    if steps.len() > 0 {
        lemma_identifiers_are_not_reused(timers, steps.drop_last(), id);
    }
}

/// A timer that was cleared before its message is taken never runs: once a clear of
/// the registered timer `id` has been handled, and whatever happened on the loop
/// thread after it, a message that asks for `id`'s callback runs nothing and
/// changes no registry. This holds also when the timer's background task had
/// posted that message before the clear was handled.
pub proof fn lemma_cleared_timer_never_runs<V>(
    timers: Timers<V>,
    tasks: Set<TaskId>,
    clear: MacroTask<V>,
    between: Seq<TimerStep<V>>,
    run: MacroTask<V>,
    id: IntervalId,
)
    requires
        timers.wf(),
        timers.intervals.contains_key(id),
        clear.clears(),
        clear.timer() == Some(id),
        run.runs_callback(),
        run.timer() == Some(id),
    ensures
        ({
            let later = timers.after(TimerStep::Handle(clear)).after_all(between);
            &&& dispatch_of(later.intervals, run) == Dispatch::<V>::Nothing
            &&& later.after(TimerStep::Handle(run)) == later
            &&& tasks_after(tasks, later.intervals, run) == tasks
        }),
{
    let cleared = timers.after(TimerStep::Handle(clear));
    lemma_identifiers_are_not_reused(cleared, between, id);
    let later = cleared.after_all(between);
    assert(later.intervals.remove(id) =~= later.intervals);
}

/// Clearing a timer twice is clearing it once: the second clear changes nothing.
pub proof fn lemma_clear_is_idempotent<V>(
    intervals: Map<IntervalId, Interval<V>>,
    tasks: Set<TaskId>,
    first: MacroTask<V>,
    second: MacroTask<V>,
    id: IntervalId,
)
    requires
        first.clears(),
        second.clears(),
        first.timer() == Some(id),
        second.timer() == Some(id),
    ensures
        ({
            let cleared = intervals_after(intervals, first);
            &&& dispatch_of(cleared, second) == Dispatch::<V>::Nothing
            &&& intervals_after(cleared, second) == cleared
            &&& tasks_after(tasks_after(tasks, intervals, first), cleared, second) == tasks_after(
                tasks,
                intervals,
                first,
            )
        }),
{
    let cleared = intervals_after(intervals, first);
    assert(cleared.remove(id) =~= cleared);
}

/// Whether `extensions` are the built-in extensions in the order in which they are
/// registered: the console, the file system, the timers and the performance clock.
/// The first three hold the operations that the embedder wrote for them and seed
/// no storage; the clock is `PerformanceExt::new_extension`'s descriptor.
pub open spec fn are_recommended_extensions<F>(
    extensions: Seq<Extension<F>>,
    console: Seq<ExtensionOp<F>>,
    fs: Seq<ExtensionOp<F>>,
    time: Seq<ExtensionOp<F>>,
    internal_now: F,
) -> bool {
    &&& extensions.len() == 4
    &&& extensions[0].name@ == "console"@
    &&& extensions[0].ops@ == console
    &&& extensions[0].storage is None
    &&& extensions[1].name@ == "fs"@
    &&& extensions[1].ops@ == fs
    &&& extensions[1].storage is None
    &&& extensions[2].name@ == "time"@
    &&& extensions[2].ops@ == time
    &&& extensions[2].storage is None
    &&& extensions[3].name@ == "performance"@
    &&& extensions[3].ops@.len() == 1
    &&& extensions[3].ops@[0].name@ == "internal_now"@
    &&& extensions[3].ops@[0].function == internal_now
    &&& extensions[3].ops@[0].args == 0
    &&& extensions[3].storage == Some(StorageInit::Performance)
}

/// The built-in extensions have names of their own: no two of them share one.
pub proof fn lemma_recommended_names_differ<F>(
    extensions: Seq<Extension<F>>,
    console: Seq<ExtensionOp<F>>,
    fs: Seq<ExtensionOp<F>>,
    time: Seq<ExtensionOp<F>>,
    internal_now: F,
    first: int,
    second: int,
)
    requires
        are_recommended_extensions(extensions, console, fs, time, internal_now),
        0 <= first < second < 4,
    ensures
        extensions[first].name@ != extensions[second].name@,
{
    reveal_strlit("console");
    reveal_strlit("fs");
    reveal_strlit("time");
    reveal_strlit("performance");
    assert(extensions[0].name@.len() == 7);
    assert(extensions[1].name@.len() == 2);
    assert(extensions[2].name@.len() == 4);
    assert(extensions[3].name@.len() == 11);
}

/// Loading the built-in extensions binds the operations of the console, then those
/// of the file system, then those of the timers, then the clock's one, and leaves
/// the clock started.
pub proof fn lemma_recommended_load<F>(
    extensions: Seq<Extension<F>>,
    console: Seq<ExtensionOp<F>>,
    fs: Seq<ExtensionOp<F>>,
    time: Seq<ExtensionOp<F>>,
    internal_now: F,
    before: OpsStorage,
    after: OpsStorage,
)
    requires
        are_recommended_extensions(extensions, console, fs, time, internal_now),
        all_seeded(before, extensions, after),
    ensures
        all_ops(extensions) == console + fs + time + extensions[3].ops@,
        clock_started(after),
{
    lemma_seed_stays(before, extensions, after, 3);
    let three = extensions.drop_last();
    let two = three.drop_last();
    let one = two.drop_last();
    assert(one.drop_last() =~= Seq::<Extension<F>>::empty());
    reveal_with_fuel(all_ops, 5);
    assert(all_ops(extensions) =~= console + fs + time + extensions[3].ops@);
}

/// The extensions a runtime is usually started with, in the order in which they are
/// registered: the console with the operations `console`, the file system with
/// `fs`, the timers with `time`, and the performance clock, whose one operation
/// `internal_now` implements.
pub fn recommended_extensions<F>(
    console: Vec<ExtensionOp<F>>,
    fs: Vec<ExtensionOp<F>>,
    time: Vec<ExtensionOp<F>>,
    internal_now: F,
) -> (extensions: Vec<Extension<F>>)
    ensures
        are_recommended_extensions(extensions@, console@, fs@, time@, internal_now),
{
    let mut extensions: Vec<Extension<F>> = Vec::new();
    extensions.push(Extension { name: "console", ops: console, storage: None });
    extensions.push(Extension { name: "fs", ops: fs, storage: None });
    extensions.push(Extension { name: "time", ops: time, storage: None });
    extensions.push(PerformanceExt::new_extension(internal_now));
    extensions
}

/// Whether `builtins` are the bundled scripts in their order: the console's
/// namespace, then the runtime's own.
pub open spec fn are_recommended_builtins(builtins: Seq<&'static str>) -> bool {
    &&& builtins.len() == 2
    &&& builtins[0]@ == "namespace/console.ts"@
    &&& builtins[1]@ == "namespace/mod.ts"@
}

/// The bundled scripts, by the path of their source, in the order in which they are
/// evaluated before any entry script.
pub fn recommended_builtins() -> (builtins: Vec<&'static str>)
    ensures
        are_recommended_builtins(builtins@),
{
    let mut builtins: Vec<&'static str> = Vec::new();
    builtins.push("namespace/console.ts");
    builtins.push("namespace/mod.ts");
    builtins
}

/// Handles one message on the loop thread: brings the registries up to date and
/// says what the engine is to run.
///
/// A message for a timer that is not registered any more (it was cleared, or it
/// was a timeout that has fired) changes nothing and runs nothing.
pub fn recommended_eventloop_handler<V>(macro_task: MacroTask<V>, host_data: &mut HostData<V>) -> (dispatch:
    Dispatch<V>)
    requires
        old(host_data).wf(),
    ensures
        final(host_data).wf(),
        dispatch == dispatch_of(old(host_data).intervals(), macro_task),
        final(host_data).intervals() == intervals_after(old(host_data).intervals(), macro_task),
        final(host_data).tasks() == tasks_after(
            old(host_data).tasks(),
            old(host_data).intervals(),
            macro_task,
        ),
        clear_cancels(*old(host_data), macro_task),
        final(host_data).next_task() == old(host_data).next_task(),
        final(host_data).next_interval() == old(host_data).next_interval(),
        final(host_data).spec_storage() == old(host_data).spec_storage(),
        final(host_data).counter() == old(host_data).counter(),
        final(host_data).sender() == old(host_data).sender(),
{
    match macro_task {
        MacroTask::ResolvePromise(promise) => Dispatch::ResolvePromise(promise),
        MacroTask::RunInterval(interval_id) => {
            if host_data.has_interval(interval_id) {
                Dispatch::RunInterval(interval_id)
            } else {
                Dispatch::Nothing
            }
        },
        MacroTask::ClearInterval(interval_id) => {
            host_data.clear_interval(interval_id);
            Dispatch::Nothing
        },
        MacroTask::RunAndClearTimeout(timeout_id) => {
            match host_data.take_timeout(timeout_id) {
                Some(callback) => Dispatch::RunTimeout(callback),
                None => Dispatch::Nothing,
            }
        },
        MacroTask::ClearTimeout(timeout_id) => {
            host_data.clear_interval(timeout_id);
            Dispatch::Nothing
        },
    }
}

} // verus!
