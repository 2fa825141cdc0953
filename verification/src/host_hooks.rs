//! What the engine calls back into: the microtask queue, the shared host state,
//! and the resolution of module imports.

use vstd::prelude::*;
use std::collections::VecDeque;
use std::path::Path;
use std::path::PathBuf;
use crate::host_data::has_pending;
use crate::host_data::loaded;
use crate::host_data::HostData;

verus! {

/// The parent of a path, as `PathBuf::pop` leaves it: the path without its last
/// component, or the path itself where it has no parent. It is a function of the
/// path's text under the path syntax of the platform that the library is built
/// for; another platform reads the same text otherwise.
pub uninterp spec fn path_parent(path: Seq<char>) -> Seq<char>;

/// A path adjoined to a base, as `Path::join` makes it. It is a function of the
/// two texts under the path syntax of the platform that the library is built for.
pub uninterp spec fn path_join(base: Seq<char>, path: Seq<char>) -> Seq<char>;

/// `PathBuf::pop` truncates a path to its parent and leaves a path without a
/// parent as it is. The result is a function of the path's text alone; no file is
/// looked at.
#[verifier::external_body]
fn parent_directory(path: &str) -> (parent: String)
    ensures
        parent@ == path_parent(path@),
{
    let mut path = PathBuf::from(path);
    path.pop();
    path.to_string_lossy().into_owned()
}

/// `Path::join` adjoins `path` to `base`; an absolute `path` takes the place of
/// `base`. The result is a function of the two texts alone; no file is looked at.
#[verifier::external_body]
fn join_path(base: &str, path: &str) -> (joined: String)
    ensures
        joined@ == path_join(base@, path@),
{
    Path::new(base).join(path).to_string_lossy().into_owned()
}

/// A module that the engine is to load because a script imports it.
///
/// The embedder makes `directory` canonical, asks `target` for the file, makes that
/// canonical too, and only then reads it. A path that cannot be made canonical, a
/// file that cannot be read, a source that does not parse and an evaluation that
/// throws each fail the import.
pub struct ModuleLoad {
    /// The parent directory of the file that holds the import.
    pub directory: String,
    /// The import specifier as written.
    pub specifier: String,
    /// Whether the module is parsed in strict mode.
    pub strict: bool,
}

impl ModuleLoad {
    /// The load as plain values: the directory, the specifier and the mode.
    pub open spec fn view(self) -> (Seq<char>, Seq<char>, bool) {
        (self.directory@, self.specifier@, self.strict)
    }

    /// The file to load, given the canonical form of `directory`.
    pub fn target(&self, canonical_directory: &str) -> (target: String)
        ensures
            target@ == path_join(canonical_directory@, self.specifier@),
    {
        join_path(canonical_directory, self.specifier.as_str())
    }
}

/// What an import of `specifier` from the file `importer` asks for: the module is
/// looked for from the importer's directory and parsed outside strict mode.
pub open spec fn module_load(importer: Seq<char>, specifier: Seq<char>) -> (
    Seq<char>,
    Seq<char>,
    bool,
) {
    (path_parent(importer), specifier, false)
}

/// Each import is a load of its own: what one import asks for depends on that
/// import alone, so a specifier imported from two files is loaded, and evaluated,
/// once for each of them, from the directory of each.
pub proof fn lemma_imports_are_not_cached(
    first_importer: Seq<char>,
    second_importer: Seq<char>,
    specifier: Seq<char>,
)
    ensures
        module_load(first_importer, specifier).1 == specifier,
        module_load(second_importer, specifier).1 == specifier,
        module_load(first_importer, specifier).0 == path_parent(first_importer),
        module_load(second_importer, specifier).0 == path_parent(second_importer),
{
}

/// The host's side of the engine's hook interface. `J` is the engine's job type,
/// `V` its rooted reference to a value.
#[verifier::reject_recursive_types(V)]
pub struct RuntimeHostHooks<J, V> {
    promise_job_queue: VecDeque<J>,
    host_data: HostData<V>,
}

impl<J, V> RuntimeHostHooks<J, V> {
    /// The queued microtasks, the next one to run first.
    pub closed spec fn jobs(&self) -> Seq<J> {
        self.promise_job_queue@
    }

    /// The shared host state.
    pub closed spec fn host_data(&self) -> HostData<V> {
        self.host_data
    }

    /// Hooks over `host_data`, with no microtask queued.
    pub fn new(host_data: HostData<V>) -> (hooks: Self)
        ensures
            hooks.jobs() == Seq::<J>::empty(),
            hooks.host_data() == host_data,
    {
        RuntimeHostHooks { promise_job_queue: VecDeque::new(), host_data }
    }

    /// Appends `job` to the tail of the microtask queue.
    pub fn enqueue_promise_job(&mut self, job: J)
        ensures
            final(self).jobs() == old(self).jobs().push(job),
            final(self).host_data() == old(self).host_data(),
    {
        self.promise_job_queue.push_back(job);
    }

    /// Removes the head of the microtask queue and returns it; `None` on an empty
    /// queue, which stays empty.
    pub fn pop_promise_job(&mut self) -> (job: Option<J>)
        ensures
            match job {
                Some(head) => old(self).jobs().len() > 0 && head == old(self).jobs()[0]
                    && final(self).jobs() == old(self).jobs().drop_first(),
                None => old(self).jobs().len() == 0 && final(self).jobs() == old(self).jobs(),
            },
            final(self).host_data() == old(self).host_data(),
    {
        self.promise_job_queue.pop_front()
    }

    /// The number of queued microtasks.
    pub fn pending_promise_jobs(&self) -> (count: usize)
        ensures
            count == self.jobs().len(),
    {
        self.promise_job_queue.len()
    }

    /// Whether any background task is live at the moment of the call: whether a
    /// load of the host's live-task counter, which the background tasks change as
    /// they complete, gives a positive count.
    pub fn any_pending_macro_tasks(&self) -> (pending: bool)
        ensures
            exists|live: u32|
                #[trigger] loaded(self.host_data().counter(), live) && pending == (live > 0),
    {
        let live = self.host_data.live_macro_tasks();
        let pending = has_pending(live);
        assert(loaded(self.host_data().counter(), live));
        pending
    }

    /// The shared host state, for the native functions.
    pub fn get_host_data(&self) -> (host_data: &HostData<V>)
        ensures
            *host_data == self.host_data(),
    {
        &self.host_data
    }

    /// The shared host state, to be changed by a native function.
    pub fn host_data_mut(&mut self) -> (host_data: &mut HostData<V>)
        ensures
            *host_data == old(self).host_data(),
            final(self).host_data() == *final(host_data),
            final(self).jobs() == old(self).jobs(),
    {
        &mut self.host_data
    }

    /// Answers an import of `specifier` in the file `importer`: the module is to be
    /// resolved, read, parsed outside strict mode and evaluated, whatever was
    /// imported before. The hooks keep no record of loaded modules.
    pub fn import_module(&self, importer: &str, specifier: &str) -> (load: ModuleLoad)
        ensures
            load.view() == module_load(importer@, specifier@),
    {
        ModuleLoad {
            directory: parent_directory(importer),
            specifier: specifier.to_owned(),
            strict: false,
        }
    }
}

} // verus!
