//! The command line's requests, and the workflow that carries each out.

use crate::config::{module, module_result_view, resolve_module, Config, ConfigError};
use crate::workflow::{
    build, build_view, load, load_view, modules, modules_view, run, run_view, shell, shell_view,
    unload, unload_view, Workflow,
};
use vstd::prelude::*;

verus! {

/// The command line: the configuration file and the requested command.
#[derive(Debug)]
pub struct CLI {
    pub config: String,
    pub command: Command,
}

#[derive(Debug)]
pub enum Command {
    /// Build the kernel module; quietly succeed if it is already built
    /// when `idempotent`; keep intermediate images when `no_prune`.
    Build { idempotent: bool, module: String, no_prune: bool },
    /// Load the kernel module; quietly succeed if it is already loaded when
    /// `idempotent`.
    Load { idempotent: bool, module: String },
    /// List the supported kernel modules.
    Modules {},
    /// Run a command inside a new container.
    Run { module: String, command: Vec<String> },
    /// Start a shell session inside a new container.
    Shell { module: String, shell: String },
    /// Unload the kernel module; quietly succeed if it is not loaded when
    /// `idempotent`.
    Unload { idempotent: bool, module: String },
}

/// The workflow for a command: the module's settings are resolved from the
/// configuration first, and a configuration error stops the command.
pub fn dispatch(config: &Config, command: &Command) -> (r: Result<Workflow, ConfigError>)
    ensures
        match command {
            Command::Modules {  } => r matches Ok(w) && w@ == modules_view(config.data_dir@),
            Command::Build { idempotent, module, no_prune } => match resolve_module(
                config.tree,
                module@,
            ) {
                Ok(m) => r matches Ok(w) && w@ == build_view(
                    config.data_dir@,
                    m,
                    *idempotent,
                    *no_prune,
                ),
                Err(e) => r matches Err(x) && x@ == e,
            },
            Command::Load { idempotent, module } => match resolve_module(config.tree, module@) {
                Ok(m) => r matches Ok(w) && w@ == load_view(m, *idempotent),
                Err(e) => r matches Err(x) && x@ == e,
            },
            Command::Run { module, command } => match resolve_module(config.tree, module@) {
                Ok(m) => r matches Ok(w) && w@ == run_view(
                    m,
                    crate::config::string_views(command@),
                ),
                Err(e) => r matches Err(x) && x@ == e,
            },
            Command::Shell { module, shell } => match resolve_module(config.tree, module@) {
                Ok(m) => r matches Ok(w) && w@ == shell_view(m, shell@),
                Err(e) => r matches Err(x) && x@ == e,
            },
            Command::Unload { idempotent, module } => match resolve_module(config.tree, module@) {
                Ok(m) => r matches Ok(w) && w@ == unload_view(m, *idempotent),
                Err(e) => r matches Err(x) && x@ == e,
            },
        },
{
    let name = match command {
        Command::Modules {  } => return Ok(modules(config)),
        Command::Build { module, .. } => module,
        Command::Load { module, .. } => module,
        Command::Run { module, .. } => module,
        Command::Shell { module, .. } => module,
        Command::Unload { module, .. } => module,
    };
    let m = match module(&config.tree, name.as_str()) {
        Ok(m) => m,
        Err(e) => return Err(e),
    };
    assert(module_result_view(Ok(m)) == resolve_module(config.tree, name@));
    match command {
        Command::Build { idempotent, no_prune, .. } => Ok(build(config, &m, *idempotent, *no_prune)),
        Command::Load { idempotent, .. } => Ok(load(&m, *idempotent)),
        Command::Run { command, .. } => Ok(run(&m, command)),
        Command::Shell { shell: program, .. } => Ok(shell(&m, program.as_str())),
        Command::Unload { idempotent, .. } => Ok(unload(&m, *idempotent)),
        Command::Modules {  } => Ok(modules(config)),
    }
}

} // verus!
