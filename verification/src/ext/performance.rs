//! The performance clock: the time since the extension was loaded.

use vstd::prelude::*;
use std::time::Duration;
use std::time::Instant;
use crate::extension::Extension;
use crate::extension::ExtensionOp;
use crate::extension::StorageInit;
use crate::storage::OpsStorage;

verus! {

/// `std::time::Instant`, a moment on the monotonic clock; nothing is stated of it.
#[verifier::external_type_specification]
#[verifier::external_body]
pub struct ExInstant(Instant);

/// `Instant::now` is the present moment. Nothing is stated of it.
pub assume_specification[ Instant::now ]() -> (now: Instant);

/// `Instant::elapsed` is the time that has passed since the moment. Nothing is
/// stated of it.
pub assume_specification[ Instant::elapsed ](start: &Instant) -> (elapsed: Duration);

/// `Duration::as_secs` is the number of whole seconds. Nothing is stated of it.
pub assume_specification[ Duration::as_secs ](duration: &Duration) -> (seconds: u64);

/// `Duration::subsec_nanos` is the part of the duration below one second, in
/// nanoseconds, so it is less than a billion.
pub assume_specification[ Duration::subsec_nanos ](duration: &Duration) -> (nanos: u32)
    ensures
        nanos < 1_000_000_000,
;

/// What the performance clock keeps in the typed storage.
pub struct PerformanceResource {
    /// The moment the extension was loaded.
    pub start_time: Instant,
}

/// The time since the extension was loaded, in two parts.
#[derive(Clone, Copy, Debug, PartialEq, Eq, Structural)]
pub struct Elapsed {
    /// Whole seconds.
    pub seconds: u64,
    /// The rest, in nanoseconds.
    pub subsec_nanos: u32,
}

impl Elapsed {
    /// The whole milliseconds in the time.
    pub open spec fn spec_millis(self) -> int {
        self.seconds * 1000 + self.subsec_nanos as int / 1_000_000
    }

    /// What is left below the last whole millisecond, in nanoseconds.
    pub open spec fn spec_submilli_nanos(self) -> int {
        self.subsec_nanos as int % 1_000_000
    }

    /// The whole milliseconds in the time.
    pub fn millis(self) -> (millis: u128)
        ensures
            millis == self.spec_millis(),
    {
        let seconds: u128 = self.seconds.into();
        let rest: u128 = (self.subsec_nanos / 1_000_000).into();
        seconds * 1000 + rest
    }

    /// What is left below the last whole millisecond, in nanoseconds.
    pub fn submilli_nanos(self) -> (nanos: u32)
        ensures
            nanos == self.spec_submilli_nanos(),
            nanos < 1_000_000,
    {
        self.subsec_nanos % 1_000_000
    }
}

/// The whole milliseconds and the rest make up the time again.
pub proof fn lemma_elapsed_parts(elapsed: Elapsed)
    ensures
        elapsed.spec_millis() * 1_000_000 + elapsed.spec_submilli_nanos() == elapsed.seconds
            * 1_000_000_000 + elapsed.subsec_nanos,
        0 <= elapsed.spec_submilli_nanos() < 1_000_000,
{
}

/// Whether `elapsed` is a reading of the clock for the time since `start`: the
/// whole seconds and the rest of what `Instant::elapsed` gave for `start`.
pub open spec fn read_since(start: Instant, elapsed: Elapsed) -> bool {
    exists|passed: Duration|
        {
            &&& #[trigger] call_ensures(Instant::elapsed, (&start,), passed)
            &&& call_ensures(Duration::as_secs, (&passed,), elapsed.seconds)
            &&& call_ensures(Duration::subsec_nanos, (&passed,), elapsed.subsec_nanos)
        }
}

/// Whether the storage holds the clock's resource, started at a moment that
/// `Instant::now` gave.
pub open spec fn clock_started(storage: OpsStorage) -> bool {
    &&& stored_performance(storage) is Some
    &&& call_ensures(Instant::now, (), stored_performance(storage).unwrap().start_time)
}

/// The `PerformanceResource` that a storage holds, if it holds one. The storage
/// holds at most one value of a type.
pub uninterp spec fn stored_performance(storage: OpsStorage) -> Option<PerformanceResource>;

/// `anymap::Map::insert` stores the value under its type and returns the value
/// that was stored under that type before, if there was one.
#[verifier::external_body]
fn insert_performance(storage: &mut OpsStorage, resource: PerformanceResource) -> (previous: Option<
    PerformanceResource,
>)
    ensures
        stored_performance(*final(storage)) == Some(resource),
        previous == stored_performance(*old(storage)),
{
    storage.map.insert(resource)
}

/// `anymap::Map::get` returns the value stored under the type, if there is one.
#[verifier::external_body]
fn get_performance(storage: &OpsStorage) -> (found: Option<&PerformanceResource>)
    ensures
        match found {
            Some(resource) => stored_performance(*storage) == Some(*resource),
            None => stored_performance(*storage) is None,
        },
{
    storage.map.get::<PerformanceResource>()
}

/// The performance clock extension.
#[derive(Default)]
pub struct PerformanceExt;

impl PerformanceExt {
    /// The extension's descriptor: one operation without arguments, `internal_now`,
    /// implemented by `internal_now`, and a storage seed.
    pub fn new_extension<F>(internal_now: F) -> (extension: Extension<F>)
        ensures
            extension.name@ == "performance"@,
            extension.ops@.len() == 1,
            extension.ops@[0].name@ == "internal_now"@,
            extension.ops@[0].function == internal_now,
            extension.ops@[0].args == 0,
            extension.storage == Some(StorageInit::Performance),
    {
        let mut ops: Vec<ExtensionOp<F>> = Vec::new();
        ops.push(ExtensionOp::new("internal_now", internal_now, 0));
        Extension { name: "performance", ops, storage: Some(StorageInit::Performance) }
    }

    /// Seeds the storage with the present moment: the resource that the storage
    /// holds afterwards starts at what `Instant::now` gave.
    pub fn init_storage(storage: &mut OpsStorage)
        ensures
            clock_started(*final(storage)),
    {
        insert_performance(storage, PerformanceResource { start_time: Instant::now() });
    }

    /// The resource in the storage, if the extension has been loaded.
    pub fn resource(storage: &OpsStorage) -> (found: Option<&PerformanceResource>)
        ensures
            match found {
                Some(resource) => stored_performance(*storage) == Some(*resource),
                None => stored_performance(*storage) is None,
            },
    {
        get_performance(storage)
    }

    /// The time since the extension was loaded into `storage`.
    ///
    /// A storage without the resource is a broken invariant of the host: the
    /// extension seeds it when it is loaded.
    pub fn internal_now(storage: &OpsStorage) -> (elapsed: Elapsed)
        requires
            stored_performance(*storage) is Some,
        ensures
            read_since(stored_performance(*storage).unwrap().start_time, elapsed),
            elapsed.subsec_nanos < 1_000_000_000,
    {
        let state = get_performance(storage).unwrap();
        Self::elapsed_since(state)
    }

    /// The time since the extension was loaded into `storage`, or `None` where the
    /// storage holds no resource.
    pub fn try_internal_now(storage: &OpsStorage) -> (elapsed: Option<Elapsed>)
        ensures
            elapsed is Some <==> stored_performance(*storage) is Some,
            elapsed matches Some(time) ==> read_since(
                stored_performance(*storage).unwrap().start_time,
                time,
            ),
            elapsed matches Some(time) ==> time.subsec_nanos < 1_000_000_000,
    {
        match get_performance(storage) {
            Some(state) => Some(Self::elapsed_since(state)),
            None => None,
        }
    }

    /// The time since `state` was made, as the clock reads it now.
    pub fn elapsed_since(state: &PerformanceResource) -> (elapsed: Elapsed)
        ensures
            read_since(state.start_time, elapsed),
            elapsed.subsec_nanos < 1_000_000_000,
    {
        let elapsed = state.start_time.elapsed();
        Elapsed { seconds: elapsed.as_secs(), subsec_nanos: elapsed.subsec_nanos() }
    }
}

} // verus!
