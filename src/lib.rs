//! Lifecycle management of out-of-tree kernel modules that are built,
//! loaded and unloaded through container images.
//!
//! Each operation is a [`workflow::Workflow`]: a state machine that decides
//! from what it has observed of the host what to do next. The caller
//! performs each [`workflow::Action`] (a query of the host, or one run of
//! the container engine) and records what it saw, until the workflow
//! succeeds or fails.

pub mod cli;
pub mod config;
pub mod host;
pub mod identity;
pub mod probe;
pub mod workflow;

pub use cli::dispatch;
pub use cli::Command;
pub use cli::CLI;
pub use config::ModuleConfig;
pub use identity::get_build_image_identifier;
pub use identity::get_module_image_identifier;
pub use identity::get_runtime_image_identifier;
pub use workflow::build;
pub use workflow::is_module_supported;
pub use workflow::load;
pub use workflow::modules;
pub use workflow::run;
pub use workflow::shell;
pub use workflow::unload;
