mod context;
mod id;
mod laws;
mod runtime;
mod sys;
mod task;

pub use context::Context;
pub use id::ID;
pub use id::MAX_INDEX;
pub use laws::lemma_live_identities_distinct;
pub use laws::lemma_register_issues_fresh_identity;
pub use laws::lemma_reuse_advances_generation;
pub use runtime::AsyncCreateContext;
pub use runtime::AsyncNotifier;
pub use runtime::RegistryModel;
pub use runtime::Runtime;
pub use runtime::Scheduler;
pub use sys::SysRuntime;
pub use sys::decode_event_batch;
pub use task::Task;
pub use task::TryTask;
