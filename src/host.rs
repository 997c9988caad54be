//! A model of the host that workflows act on, and what the lifecycle
//! operations guarantee when they are driven against it.
//!
//! The model holds the facts that the workflows query. Of the container
//! engine it records only that a successful tagged build (`build -t <id>`)
//! makes the image `<id>` exist; whether an invocation succeeds is given
//! from outside, one outcome per invocation.

use crate::identity::module_image_id;
use crate::workflow::{
    build_view, load_view, module_dir, run_view, shell_view, unload_view, ActionView, EventView,
    LifecycleError, Stage, Step, WorkflowView,
};
use vstd::prelude::*;

verus! {

pub struct Host {
    /// Directories that exist.
    pub dirs: Set<Seq<char>>,
    pub kernel: Seq<char>,
    pub arch: Seq<char>,
    /// Images that exist, by identifier.
    pub images: Set<Seq<char>>,
    /// Modules that are loaded, by name.
    pub loaded: Set<Seq<char>>,
    pub secure_boot: bool,
    /// The subdirectories of the modules directory.
    pub listing: Seq<Seq<char>>,
}

/// Whether an engine step builds a tagged image.
pub open spec fn builds_image(step: Step) -> bool {
    step is BuilderImage || step is RuntimeImage || step is ModuleImage
}

/// What the host answers to an action, and the host afterwards; `ok` is
/// the outcome of an engine invocation.
pub open spec fn respond(h: Host, a: ActionView, ok: bool) -> (EventView, Host) {
    match a {
        ActionView::CheckSupported { data_dir, module } => (
            EventView::Answer(h.dirs.contains(module_dir(data_dir, module))),
            h,
        ),
        ActionView::FetchKernelVersion => (EventView::Text(h.kernel), h),
        ActionView::FetchArchitecture => (EventView::Text(h.arch), h),
        ActionView::CheckImage { id } => (EventView::Answer(h.images.contains(id)), h),
        ActionView::CheckLoaded { module } => (EventView::Answer(h.loaded.contains(module)), h),
        ActionView::CheckSecureBoot => (EventView::Answer(h.secure_boot), h),
        ActionView::ListModules { .. } => (EventView::Listing(h.listing), h),
        ActionView::Invoke { step, args } => (
            EventView::Exited(ok),
            if ok && builds_image(step) {
                Host { images: h.images.insert(args[2]), ..h }
            } else {
                h
            },
        ),
        _ => (EventView::Unavailable, h),
    }
}

/// Drives a workflow against the host for at most `fuel` actions, taking
/// engine outcomes from `outcomes` in order (a missing one is a failure).
/// Gives the final workflow, the final host, and the number of engine
/// invocations.
pub open spec fn drive(w: WorkflowView, h: Host, outcomes: Seq<bool>, fuel: nat) -> (
    WorkflowView,
    Host,
    nat,
)
    decreases fuel,
{
    if fuel == 0 || w.is_finished() {
        (w, h, 0)
    } else {
        let a = w.action();
        let invoked = a is Invoke;
        let ok = invoked && outcomes.len() > 0 && outcomes[0];
        let r = respond(h, a, ok);
        let rest = if invoked && outcomes.len() > 0 {
            outcomes.drop_first()
        } else {
            outcomes
        };
        let d = drive(w.after(r.0), r.1, rest, (fuel - 1) as nat);
        (d.0, d.1, if invoked {
            d.2 + 1
        } else {
            d.2
        })
    }
}

pub open spec fn host_module_id(h: Host, w: WorkflowView) -> Seq<char> {
    module_image_id(w.module.name, w.module.version, h.kernel)
}

/// Building without `idempotent` a supported module whose image exists
/// fails as already built, and invokes the engine not once.
pub proof fn lemma_build_refuses_rebuild(
    data_dir: Seq<char>,
    module: crate::config::ModuleView,
    no_prune: bool,
    h: Host,
    outcomes: Seq<bool>,
    fuel: nat,
)
    requires
        h.dirs.contains(module_dir(data_dir, module.name)),
        h.images.contains(module_image_id(module.name, module.version, h.kernel)),
        fuel >= 5,
    ensures
        ({
            let d = drive(build_view(data_dir, module, false, no_prune), h, outcomes, fuel);
            d.0.stage() == Stage::Fail(LifecycleError::AlreadyBuilt) && d.2 == 0 && d.1 == h
        }),
{
    reveal_with_fuel(drive, 6);
}

/// Loading while Secure Boot is enabled never invokes the engine: it
/// succeeds only for a module that is already loaded when `idempotent`
/// is set, and otherwise fails, as already loaded or at the Secure Boot
/// gate.
pub proof fn lemma_load_secure_boot_gate(
    module: crate::config::ModuleView,
    idempotent: bool,
    h: Host,
    outcomes: Seq<bool>,
    fuel: nat,
)
    requires
        h.secure_boot,
        fuel >= 2,
    ensures
        ({
            let d = drive(load_view(module, idempotent), h, outcomes, fuel);
            &&& d.2 == 0
            &&& d.1 == h
            &&& if h.loaded.contains(module.name) {
                if idempotent {
                    d.0.stage() is Succeed
                } else {
                    d.0.stage() == Stage::Fail(LifecycleError::AlreadyLoaded)
                }
            } else {
                d.0.stage() == Stage::Fail(LifecycleError::SecureBootEnabled)
            }
        }),
{
    reveal_with_fuel(drive, 3);
}

/// Running a command in a module whose image does not exist fails as not
/// built, without invoking the engine.
pub proof fn lemma_run_requires_image(
    module: crate::config::ModuleView,
    command: Seq<Seq<char>>,
    h: Host,
    outcomes: Seq<bool>,
    fuel: nat,
)
    requires
        !h.images.contains(module_image_id(module.name, module.version, h.kernel)),
        fuel >= 2,
    ensures
        ({
            let d = drive(run_view(module, command), h, outcomes, fuel);
            d.0.stage() == Stage::Fail(LifecycleError::NotBuilt) && d.2 == 0 && d.1 == h
        }),
{
    reveal_with_fuel(drive, 3);
}

/// A shell session in a module whose image does not exist fails as not
/// built, without invoking the engine.
pub proof fn lemma_shell_requires_image(
    module: crate::config::ModuleView,
    program: Seq<char>,
    h: Host,
    outcomes: Seq<bool>,
    fuel: nat,
)
    requires
        !h.images.contains(module_image_id(module.name, module.version, h.kernel)),
        fuel >= 2,
    ensures
        ({
            let d = drive(shell_view(module, program), h, outcomes, fuel);
            d.0.stage() == Stage::Fail(LifecycleError::NotBuilt) && d.2 == 0 && d.1 == h
        }),
{
    lemma_run_requires_image(crate::workflow::interactive(module), seq![program], h, outcomes, fuel);
}

/// Loading a module whose image does not exist never invokes the engine;
/// when the module is not loaded and Secure Boot is disabled, it fails as
/// not built.
pub proof fn lemma_load_requires_image(
    module: crate::config::ModuleView,
    idempotent: bool,
    h: Host,
    outcomes: Seq<bool>,
    fuel: nat,
)
    requires
        !h.images.contains(module_image_id(module.name, module.version, h.kernel)),
        fuel >= 4,
    ensures
        ({
            let d = drive(load_view(module, idempotent), h, outcomes, fuel);
            &&& d.2 == 0
            &&& d.1 == h
            &&& !h.loaded.contains(module.name) && !h.secure_boot ==> d.0.stage()
                == Stage::Fail(LifecycleError::NotBuilt)
        }),
{
    reveal_with_fuel(drive, 5);
}

/// Unloading a module that is not loaded invokes nothing: it fails as not
/// loaded, or succeeds when `idempotent` is set.
pub proof fn lemma_unload_when_not_loaded(
    module: crate::config::ModuleView,
    idempotent: bool,
    h: Host,
    outcomes: Seq<bool>,
    fuel: nat,
)
    requires
        !h.loaded.contains(module.name),
        fuel >= 1,
    ensures
        ({
            let d = drive(unload_view(module, idempotent), h, outcomes, fuel);
            &&& d.2 == 0
            &&& d.1 == h
            &&& if idempotent {
                d.0.stage() is Succeed
            } else {
                d.0.stage() == Stage::Fail(LifecycleError::NotLoaded)
            }
        }),
{
    reveal_with_fuel(drive, 2);
}

/// What a build has established about the host it started on, `h0`, at
/// each point of its run on `h`.
pub open spec fn build_facts(w: WorkflowView, h: Host, h0: Host) -> bool {
    &&& w.op is Build
    &&& h.dirs == h0.dirs
    &&& h.kernel == h0.kernel
    &&& w.supported is Some ==> w.supported->0 == h0.dirs.contains(
        module_dir(w.data_dir, w.module.name),
    )
    &&& w.kernel is Some ==> w.kernel->0 == h0.kernel
    &&& w.module_image == Some(true) ==> w.kernel is Some && h.images.contains(
        host_module_id(h0, w),
    )
    &&& w.module_built ==> w.kernel is Some && h.images.contains(host_module_id(h0, w))
}

proof fn lemma_build_facts_step(w: WorkflowView, h: Host, h0: Host, ok: bool)
    requires
        build_facts(w, h, h0),
        !w.is_finished(),
    ensures
        ({
            let r = respond(h, w.action(), ok);
            build_facts(w.after(r.0), r.1, h0)
        }),
{
}

proof fn lemma_build_facts_drive(w: WorkflowView, h: Host, h0: Host, outcomes: Seq<bool>, fuel: nat)
    requires
        build_facts(w, h, h0),
    ensures
        ({
            let d = drive(w, h, outcomes, fuel);
            build_facts(d.0, d.1, h0)
        }),
    decreases fuel,
{
    if fuel > 0 && !w.is_finished() {
        let a = w.action();
        let invoked = a is Invoke;
        let ok = invoked && outcomes.len() > 0 && outcomes[0];
        let r = respond(h, a, ok);
        let rest = if invoked && outcomes.len() > 0 {
            outcomes.drop_first()
        } else {
            outcomes
        };
        lemma_build_facts_step(w, h, h0, ok);
        lemma_build_facts_drive(w.after(r.0), r.1, h0, rest, (fuel - 1) as nat);
    }
}

/// Building twice with `idempotent` set: once a build of a module has
/// succeeded, whatever the engine did on the way, a second build of the
/// same module on the host it left succeeds without invoking the engine,
/// and leaves the host as it was, whether or not either build prunes.
pub proof fn lemma_build_idempotent(
    data_dir: Seq<char>,
    module: crate::config::ModuleView,
    no_prune: bool,
    no_prune_again: bool,
    h: Host,
    first: Seq<bool>,
    second: Seq<bool>,
    fuel: nat,
    again: nat,
)
    requires
        drive(build_view(data_dir, module, true, no_prune), h, first, fuel).0.stage() is Succeed,
        again >= 5,
    ensures
        ({
            let h1 = drive(build_view(data_dir, module, true, no_prune), h, first, fuel).1;
            let d = drive(build_view(data_dir, module, true, no_prune_again), h1, second, again);
            d.0.stage() is Succeed && d.2 == 0 && d.1 == h1
        }),
{
    let w0 = build_view(data_dir, module, true, no_prune);
    lemma_build_facts_drive(w0, h, h, first, fuel);
    let d1 = drive(w0, h, first, fuel);
    assert(d1.0.data_dir == data_dir && d1.0.module == module) by {
        lemma_drive_keeps_settings(w0, h, first, fuel);
    }
    reveal_with_fuel(drive, 6);
}

proof fn lemma_drive_keeps_settings(w: WorkflowView, h: Host, outcomes: Seq<bool>, fuel: nat)
    ensures
        ({
            let d = drive(w, h, outcomes, fuel);
            d.0.op == w.op && d.0.data_dir == w.data_dir && d.0.module == w.module
        }),
    decreases fuel,
{
    if fuel > 0 && !w.is_finished() {
        let a = w.action();
        let invoked = a is Invoke;
        let ok = invoked && outcomes.len() > 0 && outcomes[0];
        let r = respond(h, a, ok);
        let rest = if invoked && outcomes.len() > 0 {
            outcomes.drop_first()
        } else {
            outcomes
        };
        lemma_drive_keeps_settings(w.after(r.0), r.1, rest, (fuel - 1) as nat);
    }
}

/// Images are built in dependency order: the runtime image only once the
/// builder image exists, and the module image only once both exist.
pub proof fn lemma_build_order(w: WorkflowView)
    requires
        w.op is Build,
    ensures
        w.stage() == Stage::Invoke(Step::RuntimeImage) ==> w.builder_image == Some(true)
            || w.builder_built,
        w.stage() == Stage::Invoke(Step::ModuleImage) ==> (w.builder_image == Some(true)
            || w.builder_built) && (w.runtime_image == Some(true) || w.runtime_built),
{
}

/// An engine invocation that fails, or cannot be run, ends the workflow
/// with that step's failure, and no later event revives it: nothing is
/// retried.
pub proof fn lemma_engine_failure_is_fatal(w: WorkflowView, step: Step, ev: EventView)
    requires
        w.stage() == Stage::Invoke(step),
        !(ev == EventView::Exited(true)),
    ensures
        w.after(ev).stage() == Stage::Fail(LifecycleError::EngineFailed(step)),
        forall|later: EventView|
            #[trigger] w.after(ev).after(later).stage() == Stage::Fail(
                LifecycleError::EngineFailed(step),
            ),
{
}

} // verus!
