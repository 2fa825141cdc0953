//! Extensions: bundles of native operations with an optional seed for the typed
//! storage. No extension has a special status; they are loaded in the order in
//! which they were registered.

use vstd::prelude::*;
use crate::ext::performance::clock_started;
use crate::ext::performance::PerformanceExt;
use crate::storage::OpsStorage;

verus! {

/// A native operation that script code can call. `F` is the engine's type of a
/// native function.
pub struct ExtensionOp<F> {
    /// The name the operation is bound to in the realm.
    pub name: &'static str,
    /// The native function.
    pub function: F,
    /// How many arguments the operation takes.
    pub args: u32,
}

impl<F> ExtensionOp<F> {
    /// The operation `name` with `args` arguments, implemented by `function`.
    pub fn new(name: &'static str, function: F, args: u32) -> (op: Self)
        ensures
            op == (ExtensionOp { name, function, args }),
    {
        ExtensionOp { name, function, args }
    }
}

/// What an extension puts into the typed storage when it is loaded.
#[derive(Clone, Copy, Debug, PartialEq, Eq, Structural)]
pub enum StorageInit {
    /// The moment of loading, for the performance clock.
    Performance,
}

/// A bundle of native operations under a name.
pub struct Extension<F> {
    /// The extension's name.
    pub name: &'static str,
    /// Its operations, in the order in which they are bound.
    pub ops: Vec<ExtensionOp<F>>,
    /// What it seeds the typed storage with, if anything.
    pub storage: Option<StorageInit>,
}

/// Whether `after` is what the storage `before` becomes when `init` has run.
pub open spec fn seeded(before: OpsStorage, init: Option<StorageInit>, after: OpsStorage) -> bool {
    match init {
        Some(StorageInit::Performance) => clock_started(after),
        None => after == before,
    }
}

/// The operations of all of `extensions`, in the order of registration.
pub open spec fn all_ops<F>(extensions: Seq<Extension<F>>) -> Seq<ExtensionOp<F>>
    decreases extensions.len(),
{
    if extensions.len() == 0 {
        Seq::empty()
    } else {
        all_ops(extensions.drop_last()) + extensions.last().ops@
    }
}

/// Whether the storage seeds of `extensions`, run in the order of registration,
/// lead from `before` to `after`.
pub open spec fn all_seeded<F>(
    before: OpsStorage,
    extensions: Seq<Extension<F>>,
    after: OpsStorage,
) -> bool
    decreases extensions.len(),
{
    if extensions.len() == 0 {
        after == before
    } else {
        exists|middle: OpsStorage|
            all_seeded(before, extensions.drop_last(), middle) && #[trigger] seeded(
                middle,
                extensions.last().storage,
                after,
            )
    }
}

/// A seed that has run stays: once an extension that seeds the performance clock is
/// among those loaded, the storage holds the clock's resource, whatever was loaded
/// after it.
pub proof fn lemma_seed_stays<F>(
    before: OpsStorage,
    extensions: Seq<Extension<F>>,
    after: OpsStorage,
    index: int,
)
    requires
        all_seeded(before, extensions, after),
        0 <= index < extensions.len(),
        extensions[index].storage == Some(StorageInit::Performance),
    ensures
        clock_started(after),
    decreases extensions.len(),
{
    let middle = choose|middle: OpsStorage|
        all_seeded(before, extensions.drop_last(), middle) && #[trigger] seeded(
            middle,
            extensions.last().storage,
            after,
        );
    if index < extensions.len() - 1 {
        lemma_seed_stays(before, extensions.drop_last(), middle, index);
    }
}

impl<F> Extension<F> {
    /// Loads the extension: its storage seed, if it has one, runs once on `storage`,
    /// and its operations are handed out to be bound in the realm, in their order.
    pub fn load(self, storage: &mut OpsStorage) -> (ops: Vec<ExtensionOp<F>>)
        ensures
            ops@ == self.ops@,
            seeded(*old(storage), self.storage, *final(storage)),
    {
        match self.storage {
            Some(StorageInit::Performance) => {
                PerformanceExt::init_storage(storage);
            },
            None => {},
        }
        self.ops
    }
}

/// Loads `extensions` in the order of registration and hands out all their
/// operations, those of an earlier extension first.
pub fn load_extensions<F>(extensions: Vec<Extension<F>>, storage: &mut OpsStorage) -> (ops: Vec<
    ExtensionOp<F>,
>)
    ensures
        ops@ == all_ops(extensions@),
        all_seeded(*old(storage), extensions@, *final(storage)),
{
    let ghost registered = extensions@;
    let ghost before = *storage;
    let mut waiting = extensions;
    let mut ops: Vec<ExtensionOp<F>> = Vec::new();
    let ghost mut loaded: Seq<Extension<F>> = Seq::empty();
    while waiting.len() > 0
        invariant
            loaded + waiting@ == registered,
            ops@ == all_ops(loaded),
            all_seeded(before, loaded, *storage),
        decreases waiting.len(),
    {
        let ghost middle = *storage;
        let extension = waiting.remove(0);
        let ghost grown = loaded.push(extension);
        let mut loaded_ops = extension.load(storage);
        ops.append(&mut loaded_ops);
        proof {
            assert(grown.drop_last() =~= loaded);
            assert(seeded(middle, grown.last().storage, *storage));
            assert(grown + waiting@ =~= registered);
            loaded = grown;
        }
    }
    assert(loaded =~= registered);
    ops
}

} // verus!
