//! Host runtime core around an embedded script engine: identifiers, shared host
//! state, the microtask queue, the extension registry, and the decisions of the
//! event loop.
//!
//! The engine itself, the scheduling of background work and all file access stay
//! with the embedder. The library owns the bookkeeping between them and states,
//! as contracts, what each step of the loop may do.

pub mod ext;
pub mod extension;
pub mod host_data;
pub mod host_hooks;
pub mod ids;
pub mod macro_task;
pub mod recommended;
pub mod runtime;
pub mod storage;

pub use ext::performance::Elapsed;
pub use ext::performance::PerformanceExt;
pub use ext::performance::PerformanceResource;
pub use extension::load_extensions;
pub use extension::Extension;
pub use extension::ExtensionOp;
pub use extension::StorageInit;
pub use host_data::has_pending;
pub use host_data::HostData;
pub use host_data::Interval;
pub use host_data::LiveTask;
pub use host_hooks::ModuleLoad;
pub use host_hooks::RuntimeHostHooks;
pub use ids::IntervalId;
pub use ids::TaskId;
pub use macro_task::MacroTask;
pub use recommended::recommended_builtins;
pub use recommended::recommended_eventloop_handler;
pub use recommended::recommended_extensions;
pub use recommended::Dispatch;
pub use runtime::Outcome;
pub use runtime::Phase;
pub use runtime::Runtime;
pub use runtime::RuntimeConfig;
pub use runtime::Step;
pub use storage::OpsStorage;
