//! Shared host state: the channel's sending end, the live-task counter, and the
//! registries of background tasks and of timers.
//!
//! The registries belong to the loop thread and change only through `&mut self`.
//! The channel and the live-task counter are the two things a background task may
//! touch. The counter is an atomic: the contracts say which additions, takings and
//! loads were made on it, never what its value is.

use vstd::prelude::*;
use std::collections::HashMap;
use std::sync::Arc;
use std::sync::atomic::AtomicBool;
use std::sync::atomic::AtomicU32;
use std::sync::atomic::Ordering;
use std::sync::mpsc::Receiver;
use std::sync::mpsc::Sender;
use tokio::task::JoinHandle;
use tokio::task::JoinError;
use crate::ext::performance::stored_performance;
use crate::ids::IntervalId;
use crate::ids::TaskId;
use crate::macro_task::MacroTask;
use crate::storage::OpsStorage;

verus! {

/// `std::sync::mpsc::Sender`, carried through; nothing is stated of it.
#[verifier::external_type_specification]
#[verifier::external_body]
#[verifier::reject_recursive_types(T)]
pub struct ExSender<T>(Sender<T>);

/// `std::sync::mpsc::Receiver`, carried through; nothing is stated of it.
#[verifier::external_type_specification]
#[verifier::external_body]
#[verifier::reject_recursive_types(T)]
pub struct ExReceiver<T>(Receiver<T>);

/// `tokio::task::JoinHandle`, the handle by which a spawned task is cancelled.
#[verifier::external_type_specification]
#[verifier::external_body]
#[verifier::reject_recursive_types(T)]
pub struct ExJoinHandle<T>(JoinHandle<T>);

/// `tokio::task::JoinError`, named by `JoinHandle`'s impl of `Future`; never made here.
#[verifier::external_type_specification]
#[verifier::external_body]
pub struct ExJoinError(JoinError);

/// `std::sync::mpsc::channel` makes the two ends of a new unbounded channel. Nothing
/// is stated of them.
pub assume_specification<T>[ std::sync::mpsc::channel::<T> ]() -> (ends: (Sender<T>, Receiver<T>));

/// `Sender::clone` gives another sending end of the same channel. Nothing is stated
/// of it.
pub assume_specification<T>[ <Sender<T> as Clone>::clone ](sender: &Sender<T>) -> (other: Sender<T>);

/// `JoinHandle::abort` asks the runtime to cancel the task. It returns at once and
/// does nothing to a task that has finished.
pub assume_specification<T>[ JoinHandle::<T>::abort ](handle: &JoinHandle<T>);

/// A registered interval or one-shot timeout.
pub struct Interval<V> {
    /// The identifier under which it is registered.
    pub id: IntervalId,
    /// The engine's rooted reference to the callback.
    pub callback: V,
    /// Whether it fires again and again (an interval) or once (a timeout).
    pub repeat: bool,
    /// The delay in milliseconds.
    pub delay: u64,
    /// The background task that waits and posts the messages.
    pub task_id: TaskId,
}

/// The share of the live-task counter that one background task holds from the
/// moment it is spawned. The task gives it back with `finish` when its work is done,
/// however the work ended.
///
/// A share is given back once: by the task that finishes or by the loop thread that
/// aborts the task, whichever comes first. The other one finds it gone.
pub struct LiveTask {
    count: Arc<AtomicU32>,
    released: Arc<AtomicBool>,
}

impl LiveTask {
    /// Gives the share back: the task has completed.
    pub fn finish(self)
        ensures
            given_back(self.counter(), self.mark()),
    {
        release(&self.count, &self.released);
    }
}

/// The handle of a registered task, with the mark that tells whether the task's
/// share of the live-task counter has been given back.
struct TaskEntry {
    handle: JoinHandle<()>,
    released: Arc<AtomicBool>,
}

/// Takes one off `count` unless `released` says that this was done before, and
/// marks it as done.
fn release(count: &Arc<AtomicU32>, released: &Arc<AtomicBool>)
    ensures
        given_back(*count, *released),
{
    let before = released.swap(true, Ordering::AcqRel);
    if !before {
        count.fetch_sub(1, Ordering::AcqRel);
    }
}

/// Whether `counter` is a counter that was made with the count zero.
pub open spec fn made_at_zero(counter: Arc<AtomicU32>) -> bool {
    call_ensures(AtomicU32::new, (0u32,), *counter)
}

/// Whether `sender` and `receiver` are the two ends that one call of
/// `std::sync::mpsc::channel` gave: what is sent through the one, or through a
/// clone of it, arrives at the other.
pub open spec fn paired<T>(sender: Sender<T>, receiver: Receiver<T>) -> bool {
    call_ensures(std::sync::mpsc::channel::<T>, (), (sender, receiver))
}

/// Whether one was added to `counter`: one more task counts as live.
pub open spec fn counted(counter: Arc<AtomicU32>) -> bool {
    exists|before: u32| #[trigger]
        call_ensures(AtomicU32::fetch_add, (&*counter, 1u32, Ordering::AcqRel), before)
}

/// Whether one was taken off `counter`: one task fewer counts as live.
pub open spec fn taken_off(counter: Arc<AtomicU32>) -> bool {
    exists|before: u32| #[trigger]
        call_ensures(AtomicU32::fetch_sub, (&*counter, 1u32, Ordering::AcqRel), before)
}

/// Whether a share of `counter` was given back under `mark`: the mark was set, and
/// where it had not been set before, one was taken off the counter. A share is
/// thus taken off once, whoever gives it back first.
pub open spec fn given_back(counter: Arc<AtomicU32>, mark: Arc<AtomicBool>) -> bool {
    exists|before: bool|
        {
            &&& #[trigger] call_ensures(AtomicBool::swap, (&*mark, true, Ordering::AcqRel), before)
            &&& !before ==> taken_off(counter)
        }
}

/// Whether `set` is what a look at `mark` gave: whether the share under the mark
/// had been given back at that moment.
pub open spec fn marked(mark: Arc<AtomicBool>, set: bool) -> bool {
    call_ensures(AtomicBool::load, (&*mark, Ordering::Acquire), set)
}

/// Whether `live` is what a load of `counter` gave. The value is the counter's at
/// that moment; the background tasks change it as they complete.
pub open spec fn loaded(counter: Arc<AtomicU32>, live: u32) -> bool {
    call_ensures(AtomicU32::load, (&*counter, Ordering::Acquire), live)
}

/// Whether a count of live tasks means that background work is pending.
pub fn has_pending(live: u32) -> (pending: bool)
    ensures
        pending == (live > 0),
{
    live > 0
}

/// State that the native functions reach through the host hooks: one per runtime.
#[verifier::reject_recursive_types(V)]
pub struct HostData<V> {
    storage: OpsStorage,
    macro_task_tx: Sender<MacroTask<V>>,
    macro_task_count: Arc<AtomicU32>,
    intervals: HashMap<u32, Interval<V>>,
    interval_count: u32,
    tasks: HashMap<u32, TaskEntry>,
    task_count: u32,
}

impl<V> HostData<V> {
    /// The background tasks whose handles are registered.
    pub closed spec fn tasks(&self) -> Set<TaskId> {
        Set::new(|id: TaskId| self.tasks@.contains_key(id.0))
    }

    /// The handle registered for the task `id`.
    pub closed spec fn handle(&self, id: TaskId) -> JoinHandle<()> {
        self.tasks@[id.0].handle
    }

    /// The mark registered for the task `id`: whether the task's share of the
    /// live-task counter has been given back.
    pub closed spec fn mark(&self, id: TaskId) -> Arc<AtomicBool> {
        self.tasks@[id.0].released
    }

    /// Whether the registered task `id` was cancelled: its handle was aborted and
    /// its share of the live-task counter was given back.
    pub open spec fn cancelled(&self, id: TaskId) -> bool {
        &&& call_ensures(JoinHandle::<()>::abort, (&self.handle(id),), ())
        &&& given_back(self.counter(), self.mark(id))
    }

    /// The registered intervals and timeouts.
    pub closed spec fn intervals(&self) -> Map<IntervalId, Interval<V>> {
        Map::new(
            |id: IntervalId| self.intervals@.contains_key(id.0),
            |id: IntervalId| self.intervals@[id.0],
        )
    }

    /// The number that the next task identifier is made from.
    pub closed spec fn next_task(&self) -> u32 {
        self.task_count
    }

    /// The number that the next timer identifier is made from.
    pub closed spec fn next_interval(&self) -> u32 {
        self.interval_count
    }

    /// The extensions' storage.
    pub closed spec fn spec_storage(&self) -> OpsStorage {
        self.storage
    }

    /// Every registered identifier was handed out earlier, and each timer is
    /// registered under its own identifier.
    pub closed spec fn wf(&self) -> bool {
        &&& forall|i: u32| #[trigger] self.tasks@.contains_key(i) ==> i < self.task_count
        &&& forall|i: u32| #[trigger]
            self.intervals@.contains_key(i) ==> i < self.interval_count && self.intervals@[i].id
                == IntervalId(i)
    }

    /// Registered identifiers lie below the counters, so the next ones are new.
    pub proof fn lemma_registered_below_next(&self)
        requires
            self.wf(),
        ensures
            forall|id: TaskId| #[trigger] self.tasks().contains(id) ==> id.0 < self.next_task(),
            forall|id: IntervalId| #[trigger]
                self.intervals().contains_key(id) ==> id.0 < self.next_interval()
                    && self.intervals()[id].id == id,
    {
    }

    /// A fresh host state with the receiving end of its channel: nothing is
    /// registered or stored, the identifiers start at zero, and the live-task
    /// counter is new.
    pub fn new() -> (made: (Self, Receiver<MacroTask<V>>))
        ensures
            made.0.wf(),
            made.0.tasks() == Set::<TaskId>::empty(),
            made.0.intervals() == Map::<IntervalId, Interval<V>>::empty(),
            made.0.next_task() == 0,
            made.0.next_interval() == 0,
            stored_performance(made.0.spec_storage()) is None,
            made_at_zero(made.0.counter()),
            paired(made.0.sender(), made.1),
    {
        let (macro_task_tx, rx) = std::sync::mpsc::channel();
        let host = HostData {
            storage: OpsStorage::new(),
            macro_task_tx,
            macro_task_count: Arc::new(AtomicU32::new(0)),
            intervals: HashMap::new(),
            interval_count: 0,
            tasks: HashMap::new(),
            task_count: 0,
        };
        (host, rx)
    }

    /// Another sending end of the channel to the event loop: a clone of the host's
    /// own.
    pub fn macro_task_tx(&self) -> (tx: Sender<MacroTask<V>>)
        ensures
            cloned(self.sender(), tx),
    {
        self.macro_task_tx.clone()
    }

    /// The number of live background tasks at the moment of the call: what a load
    /// of the host's counter gives.
    pub fn live_macro_tasks(&self) -> (live: u32)
        ensures
            loaded(self.counter(), live),
    {
        self.macro_task_count.load(Ordering::Acquire)
    }

    /// Counts one more live task and makes its share of the counter.
    fn count_task(&self) -> (made: (LiveTask, Arc<AtomicBool>))
        ensures
            counted(self.counter()),
            made.0.counter() == self.counter(),
            made.0.mark() == made.1,
    {
        self.macro_task_count.fetch_add(1, Ordering::AcqRel);
        let released = Arc::new(AtomicBool::new(false));
        let live = LiveTask {
            count: Arc::clone(&self.macro_task_count),
            released: Arc::clone(&released),
        };
        (live, released)
    }

    /// The live-task counter that the shares of this host's tasks count on.
    pub closed spec fn counter(&self) -> Arc<AtomicU32> {
        self.macro_task_count
    }

    /// The host's own sending end of the channel to the event loop.
    pub closed spec fn sender(&self) -> Sender<MacroTask<V>> {
        self.macro_task_tx
    }

    /// Whether the handle of `task_id` is registered.
    pub fn has_macro_task(&self, task_id: TaskId) -> (known: bool)
        ensures
            known == self.tasks().contains(task_id),
    {
        self.tasks.contains_key(&task_id.0)
    }

    /// Whether another task identifier can be handed out.
    pub fn can_spawn(&self) -> (free: bool)
        ensures
            free == (self.next_task() < u32::MAX),
    {
        self.task_count < u32::MAX
    }

    /// Registers a background task. The live-task counter goes up first; then `spawn`
    /// is called with the task's share of the counter and schedules the work; then
    /// the handle it returns is recorded under a new identifier, which is returned.
    pub fn spawn_macro_task<F: FnOnce(LiveTask) -> JoinHandle<()>>(&mut self, spawn: F) -> (id:
        TaskId)
        requires
            old(self).wf(),
            old(self).next_task() < u32::MAX,
            forall|live: LiveTask| spawn.requires((live,)),
        ensures
            final(self).wf(),
            id == TaskId(old(self).next_task()),
            !old(self).tasks().contains(id),
            final(self).tasks() == old(self).tasks().insert(id),
            counted(old(self).counter()),
            exists|live: LiveTask|
                {
                    &&& live.counter() == old(self).counter()
                    &&& live.mark() == final(self).mark(id)
                    &&& #[trigger] spawn.ensures((live,), final(self).handle(id))
                },
            forall|other: TaskId|
                old(self).tasks().contains(other) ==> #[trigger] final(self).handle(other) == old(
                    self,
                ).handle(other),
            forall|other: TaskId|
                old(self).tasks().contains(other) ==> #[trigger] final(self).mark(other) == old(
                    self,
                ).mark(other),
            final(self).next_task() == old(self).next_task() + 1,
            final(self).intervals() == old(self).intervals(),
            final(self).next_interval() == old(self).next_interval(),
            final(self).spec_storage() == old(self).spec_storage(),
            final(self).counter() == old(self).counter(),
            final(self).sender() == old(self).sender(),
    {
        let (live, released) = self.count_task();
        let ghost share = live;
        let handle = spawn(live);
        let index = self.task_count;
        self.task_count = index + 1;
        self.tasks.insert(index, TaskEntry { handle, released });
        assert(spawn.ensures((share,), self.handle(TaskId(index))));
        TaskId(index)
    }

    /// Cancels a registered background task: its handle leaves the registry and is
    /// aborted, and its share of the live-task counter is given back, unless the
    /// task has finished in the same instant and has given it back itself.
    ///
    /// An identifier that is not registered (never handed out, aborted before, or
    /// already completed) is a broken invariant of the host, not an input.
    pub fn abort_macro_task(&mut self, task_id: TaskId)
        requires
            old(self).wf(),
            old(self).tasks().contains(task_id),
        ensures
            final(self).wf(),
            old(self).cancelled(task_id),
            final(self).tasks() == old(self).tasks().remove(task_id),
            forall|other: TaskId|
                final(self).tasks().contains(other) ==> #[trigger] final(self).handle(other)
                    == old(self).handle(other),
            forall|other: TaskId|
                final(self).tasks().contains(other) ==> #[trigger] final(self).mark(other)
                    == old(self).mark(other),
            final(self).next_task() == old(self).next_task(),
            final(self).intervals() == old(self).intervals(),
            final(self).next_interval() == old(self).next_interval(),
            final(self).spec_storage() == old(self).spec_storage(),
            final(self).counter() == old(self).counter(),
            final(self).sender() == old(self).sender(),
    {
        let task = self.tasks.remove(&task_id.0).unwrap();
        task.handle.abort();
        release(&self.macro_task_count, &task.released);
    }

    /// Cancels the task `task_id` if its handle is registered, as `abort_macro_task`
    /// does, and says whether it was. On an identifier that is not registered
    /// nothing changes: the answer `false` is the host's broken invariant, to be
    /// treated as fatal by the caller and never handed to a script.
    pub fn try_abort_macro_task(&mut self, task_id: TaskId) -> (known: bool)
        requires
            old(self).wf(),
        ensures
            final(self).wf(),
            known == old(self).tasks().contains(task_id),
            known ==> old(self).cancelled(task_id),
            final(self).tasks() == old(self).tasks().remove(task_id),
            forall|other: TaskId|
                final(self).tasks().contains(other) ==> #[trigger] final(self).handle(other)
                    == old(self).handle(other),
            forall|other: TaskId|
                final(self).tasks().contains(other) ==> #[trigger] final(self).mark(other)
                    == old(self).mark(other),
            final(self).next_task() == old(self).next_task(),
            final(self).intervals() == old(self).intervals(),
            final(self).next_interval() == old(self).next_interval(),
            final(self).spec_storage() == old(self).spec_storage(),
            final(self).counter() == old(self).counter(),
            final(self).sender() == old(self).sender(),
    {
        if self.has_macro_task(task_id) {
            self.abort_macro_task(task_id);
            true
        } else {
            false
        }
    }

    /// Takes the handle of the task `task_id` out of the registry if the task has
    /// run to its end, that is, if it has given its share of the live-task counter
    /// back. A task that has completed is thereby unknown to a later abort. Says
    /// whether the handle was taken out.
    pub fn retire_finished(&mut self, task_id: TaskId) -> (retired: bool)
        requires
            old(self).wf(),
        ensures
            final(self).wf(),
            retired ==> old(self).tasks().contains(task_id) && marked(
                old(self).mark(task_id),
                true,
            ),
            !retired && old(self).tasks().contains(task_id) ==> marked(
                old(self).mark(task_id),
                false,
            ),
            final(self).tasks() == if retired {
                old(self).tasks().remove(task_id)
            } else {
                old(self).tasks()
            },
            forall|other: TaskId|
                final(self).tasks().contains(other) ==> #[trigger] final(self).handle(other)
                    == old(self).handle(other),
            forall|other: TaskId|
                final(self).tasks().contains(other) ==> #[trigger] final(self).mark(other)
                    == old(self).mark(other),
            final(self).next_task() == old(self).next_task(),
            final(self).intervals() == old(self).intervals(),
            final(self).next_interval() == old(self).next_interval(),
            final(self).spec_storage() == old(self).spec_storage(),
            final(self).counter() == old(self).counter(),
            final(self).sender() == old(self).sender(),
    {
        let finished = match self.tasks.get(&task_id.0) {
            Some(task) => task.released.load(Ordering::Acquire),
            None => false,
        };
        if finished {
            self.tasks.remove(&task_id.0);
        }
        finished
    }

    /// Takes the handle of a task that has completed out of the registry. The task
    /// itself has given its share of the live-task counter back.
    pub fn complete_macro_task(&mut self, task_id: TaskId) -> (known: bool)
        requires
            old(self).wf(),
        ensures
            final(self).wf(),
            known == old(self).tasks().contains(task_id),
            final(self).tasks() == old(self).tasks().remove(task_id),
            forall|other: TaskId|
                final(self).tasks().contains(other) ==> #[trigger] final(self).handle(other)
                    == old(self).handle(other),
            forall|other: TaskId|
                final(self).tasks().contains(other) ==> #[trigger] final(self).mark(other)
                    == old(self).mark(other),
            final(self).next_task() == old(self).next_task(),
            final(self).intervals() == old(self).intervals(),
            final(self).next_interval() == old(self).next_interval(),
            final(self).spec_storage() == old(self).spec_storage(),
            final(self).counter() == old(self).counter(),
            final(self).sender() == old(self).sender(),
    {
        let removed = self.tasks.remove(&task_id.0);
        removed.is_some()
    }

    /// Whether another timer identifier can be handed out.
    pub fn can_create_interval(&self) -> (free: bool)
        ensures
            free == (self.next_interval() < u32::MAX && self.next_task() < u32::MAX),
    {
        self.interval_count < u32::MAX && self.task_count < u32::MAX
    }

    /// Whether a timer is registered under `id`.
    pub fn has_interval(&self, id: IntervalId) -> (known: bool)
        ensures
            known == self.intervals().contains_key(id),
    {
        self.intervals.contains_key(&id.0)
    }

    /// The timer registered under `id`, if there is one.
    pub fn interval(&self, id: IntervalId) -> (found: Option<&Interval<V>>)
        ensures
            match found {
                Some(interval) => self.intervals().contains_key(id) && *interval
                    == self.intervals()[id],
                None => !self.intervals().contains_key(id),
            },
    {
        self.intervals.get(&id.0)
    }

    /// Registers an interval (`repeat`) or a one-shot timeout. A new identifier is
    /// taken, the background task that waits and posts the timer's messages is
    /// spawned as by `spawn_macro_task` (`spawn` also gets the new identifier), and
    /// the descriptor is recorded under the identifier, which is returned.
    pub fn create_interval<F: FnOnce(IntervalId, LiveTask) -> JoinHandle<()>>(
        &mut self,
        callback: V,
        repeat: bool,
        delay: u64,
        spawn: F,
    ) -> (id: IntervalId)
        requires
            old(self).wf(),
            old(self).next_interval() < u32::MAX,
            old(self).next_task() < u32::MAX,
            forall|id: IntervalId, live: LiveTask| spawn.requires((id, live)),
        ensures
            final(self).wf(),
            id == IntervalId(old(self).next_interval()),
            !old(self).intervals().contains_key(id),
            final(self).intervals() == old(self).intervals().insert(
                id,
                (Interval { id, callback, repeat, delay, task_id: TaskId(old(self).next_task()) }),
            ),
            final(self).next_interval() == old(self).next_interval() + 1,
            final(self).tasks() == old(self).tasks().insert(TaskId(old(self).next_task())),
            counted(old(self).counter()),
            exists|live: LiveTask|
                {
                    &&& live.counter() == old(self).counter()
                    &&& live.mark() == final(self).mark(TaskId(old(self).next_task()))
                    &&& #[trigger] spawn.ensures(
                        (id, live),
                        final(self).handle(TaskId(old(self).next_task())),
                    )
                },
            forall|other: TaskId|
                old(self).tasks().contains(other) ==> #[trigger] final(self).handle(other) == old(
                    self,
                ).handle(other),
            forall|other: TaskId|
                old(self).tasks().contains(other) ==> #[trigger] final(self).mark(other) == old(
                    self,
                ).mark(other),
            final(self).next_task() == old(self).next_task() + 1,
            final(self).spec_storage() == old(self).spec_storage(),
            final(self).counter() == old(self).counter(),
            final(self).sender() == old(self).sender(),
    {
        let index = self.interval_count;
        let id = IntervalId(index);
        self.interval_count = index + 1;
        let (live, released) = self.count_task();
        let ghost share = live;
        let handle = spawn(id, live);
        let task_index = self.task_count;
        self.task_count = task_index + 1;
        self.tasks.insert(task_index, TaskEntry { handle, released });
        self.intervals.insert(
            index,
            Interval { id, callback, repeat, delay, task_id: TaskId(task_index) },
        );
        assert(spawn.ensures((id, share), self.handle(TaskId(task_index))));
        id
    }

    /// Removes the timer `id` and cancels its background task, as `abort_macro_task`
    /// does, if that is still registered. On a timer that is not registered (cleared
    /// before, or a timeout that has fired) nothing changes. Returns whether the
    /// timer was registered.
    pub fn clear_interval(&mut self, id: IntervalId) -> (cleared: bool)
        requires
            old(self).wf(),
        ensures
            final(self).wf(),
            cleared == old(self).intervals().contains_key(id),
            cleared && old(self).tasks().contains(old(self).intervals()[id].task_id) ==> old(
                self,
            ).cancelled(old(self).intervals()[id].task_id),
            final(self).intervals() == old(self).intervals().remove(id),
            final(self).tasks() == if cleared {
                old(self).tasks().remove(old(self).intervals()[id].task_id)
            } else {
                old(self).tasks()
            },
            forall|other: TaskId|
                final(self).tasks().contains(other) ==> #[trigger] final(self).handle(other)
                    == old(self).handle(other),
            forall|other: TaskId|
                final(self).tasks().contains(other) ==> #[trigger] final(self).mark(other)
                    == old(self).mark(other),
            final(self).next_task() == old(self).next_task(),
            final(self).next_interval() == old(self).next_interval(),
            final(self).spec_storage() == old(self).spec_storage(),
            final(self).counter() == old(self).counter(),
            final(self).sender() == old(self).sender(),
    {
        let removed = self.intervals.remove(&id.0);
        match removed {
            Some(interval) => {
                let removed = self.tasks.remove(&interval.task_id.0);
                match removed {
                    Some(task) => {
                        task.handle.abort();
                        release(&self.macro_task_count, &task.released);
                    },
                    None => {},
                }
                true
            },
            None => false,
        }
    }

    /// Takes the timeout `id` out of the registry when it fires, and hands its
    /// callback out to be run. The handle of its background task, which has
    /// completed, leaves the registry too. On a timer that is not registered
    /// nothing changes and nothing is to be run.
    pub fn take_timeout(&mut self, id: IntervalId) -> (callback: Option<V>)
        requires
            old(self).wf(),
        ensures
            final(self).wf(),
            match callback {
                Some(c) => old(self).intervals().contains_key(id) && c
                    == old(self).intervals()[id].callback,
                None => !old(self).intervals().contains_key(id),
            },
            final(self).intervals() == old(self).intervals().remove(id),
            final(self).tasks() == if old(self).intervals().contains_key(id) {
                old(self).tasks().remove(old(self).intervals()[id].task_id)
            } else {
                old(self).tasks()
            },
            forall|other: TaskId|
                final(self).tasks().contains(other) ==> #[trigger] final(self).handle(other)
                    == old(self).handle(other),
            forall|other: TaskId|
                final(self).tasks().contains(other) ==> #[trigger] final(self).mark(other)
                    == old(self).mark(other),
            final(self).next_task() == old(self).next_task(),
            final(self).next_interval() == old(self).next_interval(),
            final(self).spec_storage() == old(self).spec_storage(),
            final(self).counter() == old(self).counter(),
            final(self).sender() == old(self).sender(),
    {
        let removed = self.intervals.remove(&id.0);
        match removed {
            Some(interval) => {
                self.tasks.remove(&interval.task_id.0);
                Some(interval.callback)
            },
            None => None,
        }
    }

    /// The extensions' storage.
    pub fn storage(&self) -> (storage: &OpsStorage)
        ensures
            *storage == self.spec_storage(),
    {
        &self.storage
    }

    /// The extensions' storage, to be changed.
    pub fn storage_mut(&mut self) -> (storage: &mut OpsStorage)
        ensures
            *storage == old(self).spec_storage(),
            final(self).spec_storage() == *final(storage),
            old(self).wf() ==> final(self).wf(),
            final(self).tasks() == old(self).tasks(),
            forall|other: TaskId|
                final(self).tasks().contains(other) ==> #[trigger] final(self).handle(other)
                    == old(self).handle(other),
            forall|other: TaskId|
                final(self).tasks().contains(other) ==> #[trigger] final(self).mark(other)
                    == old(self).mark(other),
            final(self).intervals() == old(self).intervals(),
            final(self).next_task() == old(self).next_task(),
            final(self).next_interval() == old(self).next_interval(),
            final(self).counter() == old(self).counter(),
            final(self).sender() == old(self).sender(),
    {
        &mut self.storage
    }
}

impl LiveTask {
    /// The live-task counter that the share counts on.
    pub closed spec fn counter(&self) -> Arc<AtomicU32> {
        self.count
    }

    /// The mark that tells whether the share has been given back.
    pub closed spec fn mark(&self) -> Arc<AtomicBool> {
        self.released
    }
}

} // verus!
