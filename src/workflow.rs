//! The lifecycle operations as state machines. A `Workflow` holds what it
//! has observed of the host so far; from that alone it decides the next
//! `Action`. The caller performs the action (a query of the host, or one
//! invocation of the container engine) and hands back what it saw as an
//! `Event`, until the workflow succeeds, reports, or fails.

use crate::config::{pair_views, string_views, Config, ModuleConfig, ModuleView};
use crate::identity::{
    builder_image_id, get_build_image_identifier, get_module_image_identifier,
    get_runtime_image_identifier, module_image_id, runtime_image_id, TOOL_VERSION,
};
use vstd::prelude::*;
use vstd::string::*;

verus! {

/// An invocation of the container engine.
#[derive(Clone, Copy, Debug, PartialEq, Eq, Structural)]
pub enum Step {
    BuilderImage,
    RuntimeImage,
    ModuleImage,
    Prune,
    Run,
    Unload,
}

/// A query of the host.
#[derive(Clone, Copy, Debug, PartialEq, Eq, Structural)]
pub enum Probe {
    ModuleDir,
    KernelVersion,
    Architecture,
    ImageExists,
    ModuleLoaded,
    SecureBoot,
    ModuleList,
}

/// Why an operation stopped.
#[derive(Clone, Copy, Debug, PartialEq, Eq, Structural)]
pub enum LifecycleError {
    /// The data directory has no subdirectory for the module.
    NotSupported,
    AlreadyBuilt,
    NotBuilt,
    AlreadyLoaded,
    NotLoaded,
    /// Unsigned modules cannot be inserted while Secure Boot is enabled.
    SecureBootEnabled,
    /// A query of the host could not be run.
    ProbeFailed(Probe),
    /// The container engine could not be run, or exited with failure.
    EngineFailed(Step),
}

#[derive(Clone, Copy, Debug, PartialEq, Eq, Structural)]
pub enum Image {
    Builder,
    Runtime,
    Module,
}

/// What a workflow does next, without the values it hands over.
#[derive(Clone, Copy, Debug, PartialEq, Eq, Structural)]
pub enum Stage {
    CheckSupported,
    FetchKernel,
    FetchArch,
    CheckImage(Image),
    CheckLoaded,
    CheckSecureBoot,
    ListModules,
    Invoke(Step),
    Succeed,
    Report,
    Fail(LifecycleError),
}

#[derive(Debug)]
pub enum Operation {
    Build { idempotent: bool, no_prune: bool },
    /// `command` is what the module image runs once the checks pass.
    Load { idempotent: bool, command: Vec<String> },
    Run { command: Vec<String> },
    Unload { idempotent: bool },
    Modules,
}

pub enum OperationView {
    Build { idempotent: bool, no_prune: bool },
    Load { idempotent: bool, command: Seq<Seq<char>> },
    Run { command: Seq<Seq<char>> },
    Unload { idempotent: bool },
    Modules,
}

impl View for Operation {
    type V = OperationView;

    open spec fn view(&self) -> OperationView {
        match self {
            Operation::Build { idempotent, no_prune } => OperationView::Build {
                idempotent: *idempotent,
                no_prune: *no_prune,
            },
            Operation::Load { idempotent, command } => OperationView::Load {
                idempotent: *idempotent,
                command: string_views(command@),
            },
            Operation::Run { command } => OperationView::Run { command: string_views(command@) },
            Operation::Unload { idempotent } => OperationView::Unload { idempotent: *idempotent },
            Operation::Modules => OperationView::Modules,
        }
    }
}

/// What the caller is asked to do.
#[derive(Debug)]
pub enum Action {
    /// Whether `<data_dir>/modules/<module>` is a directory.
    CheckSupported { data_dir: String, module: String },
    FetchKernelVersion,
    FetchArchitecture,
    CheckImage { id: String },
    CheckLoaded { module: String },
    CheckSecureBoot,
    /// The names of the subdirectories of `path`.
    ListModules { path: String },
    /// Run the container engine with `args`.
    Invoke { step: Step, args: Vec<String> },
    Succeed,
    /// Succeed, reporting the supported modules.
    Report { modules: Vec<String> },
    Fail(LifecycleError),
}

pub enum ActionView {
    CheckSupported { data_dir: Seq<char>, module: Seq<char> },
    FetchKernelVersion,
    FetchArchitecture,
    CheckImage { id: Seq<char> },
    CheckLoaded { module: Seq<char> },
    CheckSecureBoot,
    ListModules { path: Seq<char> },
    Invoke { step: Step, args: Seq<Seq<char>> },
    Succeed,
    Report { modules: Seq<Seq<char>> },
    Fail(LifecycleError),
}

impl View for Action {
    type V = ActionView;

    open spec fn view(&self) -> ActionView {
        match self {
            Action::CheckSupported { data_dir, module } => ActionView::CheckSupported {
                data_dir: data_dir@,
                module: module@,
            },
            Action::FetchKernelVersion => ActionView::FetchKernelVersion,
            Action::FetchArchitecture => ActionView::FetchArchitecture,
            Action::CheckImage { id } => ActionView::CheckImage { id: id@ },
            Action::CheckLoaded { module } => ActionView::CheckLoaded { module: module@ },
            Action::CheckSecureBoot => ActionView::CheckSecureBoot,
            Action::ListModules { path } => ActionView::ListModules { path: path@ },
            Action::Invoke { step, args } => ActionView::Invoke {
                step: *step,
                args: string_views(args@),
            },
            Action::Succeed => ActionView::Succeed,
            Action::Report { modules } => ActionView::Report { modules: string_views(modules@) },
            Action::Fail(e) => ActionView::Fail(*e),
        }
    }
}

/// What the caller saw when it performed an action.
#[derive(Debug)]
pub enum Event {
    /// The answer of a yes/no query.
    Answer(bool),
    /// The text of a kernel version or architecture query.
    Text(String),
    /// The entries of a directory listing.
    Listing(Vec<String>),
    /// The container engine ran; whether it exited with success.
    Exited(bool),
    /// The query or the engine could not be run at all.
    Unavailable,
}

pub enum EventView {
    Answer(bool),
    Text(Seq<char>),
    Listing(Seq<Seq<char>>),
    Exited(bool),
    Unavailable,
}

impl View for Event {
    type V = EventView;

    open spec fn view(&self) -> EventView {
        match self {
            Event::Answer(b) => EventView::Answer(*b),
            Event::Text(s) => EventView::Text(s@),
            Event::Listing(v) => EventView::Listing(string_views(v@)),
            Event::Exited(b) => EventView::Exited(*b),
            Event::Unavailable => EventView::Unavailable,
        }
    }
}

/// One operation on one module, with what it has observed so far.
#[derive(Debug)]
pub struct Workflow {
    op: Operation,
    data_dir: String,
    module: ModuleConfig,
    supported: Option<bool>,
    loaded: Option<bool>,
    secure_boot: Option<bool>,
    kernel: Option<String>,
    arch: Option<String>,
    module_image: Option<bool>,
    builder_image: Option<bool>,
    runtime_image: Option<bool>,
    listing: Option<Vec<String>>,
    builder_built: bool,
    runtime_built: bool,
    module_built: bool,
    pruned: bool,
    ran: bool,
    failure: Option<LifecycleError>,
}

pub struct WorkflowView {
    pub op: OperationView,
    pub data_dir: Seq<char>,
    pub module: ModuleView,
    /// Whether the module's directory exists.
    pub supported: Option<bool>,
    pub loaded: Option<bool>,
    pub secure_boot: Option<bool>,
    pub kernel: Option<Seq<char>>,
    pub arch: Option<Seq<char>>,
    /// Whether each image existed when it was looked up.
    pub module_image: Option<bool>,
    pub builder_image: Option<bool>,
    pub runtime_image: Option<bool>,
    pub listing: Option<Seq<Seq<char>>>,
    /// Which engine invocations have succeeded.
    pub builder_built: bool,
    pub runtime_built: bool,
    pub module_built: bool,
    pub pruned: bool,
    pub ran: bool,
    pub failure: Option<LifecycleError>,
}

pub open spec fn opt_view(o: Option<String>) -> Option<Seq<char>> {
    match o {
        Some(s) => Some(s@),
        None => None,
    }
}

pub open spec fn opt_views(o: Option<Vec<String>>) -> Option<Seq<Seq<char>>> {
    match o {
        Some(v) => Some(string_views(v@)),
        None => None,
    }
}

impl View for Workflow {
    type V = WorkflowView;

    closed spec fn view(&self) -> WorkflowView {
        WorkflowView {
            op: self.op@,
            data_dir: self.data_dir@,
            module: self.module@,
            supported: self.supported,
            loaded: self.loaded,
            secure_boot: self.secure_boot,
            kernel: opt_view(self.kernel),
            arch: opt_view(self.arch),
            module_image: self.module_image,
            builder_image: self.builder_image,
            runtime_image: self.runtime_image,
            listing: opt_views(self.listing),
            builder_built: self.builder_built,
            runtime_built: self.runtime_built,
            module_built: self.module_built,
            pruned: self.pruned,
            ran: self.ran,
            failure: self.failure,
        }
    }
}

/// `<data_dir>/modules/<module>`: the module's build context, whose
/// existence makes the module supported.
pub open spec fn module_dir(data_dir: Seq<char>, module: Seq<char>) -> Seq<char> {
    data_dir + "/modules/"@ + module
}

/// The module's directory under the data directory.
pub fn module_dir_path(data_dir: &str, module: &str) -> (r: String)
    ensures
        r@ == module_dir(data_dir@, module@),
{
    let mut r = String::from_str(data_dir);
    r.append("/modules/");
    r.append(module);
    r
}

/// Relies on `std::path::Path::is_dir`: whether a directory is found at
/// the path, which depends on the file system at the time of the call.
#[verifier::external_body]
fn is_dir(path: &str) -> bool {
    std::path::Path::new(path).is_dir()
}

/// Whether the module is supported: its directory exists under the data
/// directory. This answers the `CheckSupported` action.
pub fn is_module_supported(data_dir: &str, module: &str) -> bool {
    let path = module_dir_path(data_dir, module);
    is_dir(path.as_str())
}

/// The container engine's arguments that ask whether an image exists: the
/// engine succeeds only if it does. This answers the `CheckImage` action.
pub fn image_exists_args(id: &str) -> (r: Vec<String>)
    ensures
        string_views(r@) == seq!["image"@, "exists"@, id@],
{
    let mut r: Vec<String> = Vec::new();
    push_str(&mut r, "image");
    push_str(&mut r, "exists");
    push_str(&mut r, id);
    assert(string_views(r@) =~= seq!["image"@, "exists"@, id@]);
    r
}

/// `--build-arg <key>=<value>`
pub open spec fn build_arg_flag(key: Seq<char>, value: Seq<char>) -> Seq<Seq<char>> {
    seq!["--build-arg"@, key + "="@ + value]
}

/// One `--build-arg` flag for each build parameter, in order.
pub open spec fn build_arg_flags(args: Seq<(Seq<char>, Seq<char>)>) -> Seq<Seq<char>>
    decreases args.len(),
{
    if args.len() == 0 {
        Seq::empty()
    } else {
        build_arg_flags(args.drop_last()) + build_arg_flag(args.last().0, args.last().1)
    }
}

/// `run --rm --privileged`: every container runs privileged and is removed
/// when it exits.
pub open spec fn run_prefix() -> Seq<Seq<char>> {
    seq!["run"@, "--rm"@, "--privileged"@]
}

impl WorkflowView {
    /// A workflow that has observed nothing yet.
    pub open spec fn start(op: OperationView, data_dir: Seq<char>, module: ModuleView) -> Self {
        WorkflowView {
            op,
            data_dir,
            module,
            supported: None,
            loaded: None,
            secure_boot: None,
            kernel: None,
            arch: None,
            module_image: None,
            builder_image: None,
            runtime_image: None,
            listing: None,
            builder_built: false,
            runtime_built: false,
            module_built: false,
            pruned: false,
            ran: false,
            failure: None,
        }
    }

    pub open spec fn kernel_version(self) -> Seq<char> {
        match self.kernel {
            Some(k) => k,
            None => Seq::empty(),
        }
    }

    pub open spec fn architecture(self) -> Seq<char> {
        match self.arch {
            Some(a) => a,
            None => Seq::empty(),
        }
    }

    pub open spec fn module_id(self) -> Seq<char> {
        module_image_id(self.module.name, self.module.version, self.kernel_version())
    }

    /// Runs the module image once its existence is established.
    pub open spec fn run_stage(self) -> Stage {
        if self.kernel is None {
            Stage::FetchKernel
        } else if self.module_image is None {
            Stage::CheckImage(Image::Module)
        } else if !self.module_image->0 {
            Stage::Fail(LifecycleError::NotBuilt)
        } else if !self.ran {
            Stage::Invoke(Step::Run)
        } else {
            Stage::Succeed
        }
    }

    pub open spec fn build_stage(self, idempotent: bool, no_prune: bool) -> Stage {
        if self.supported is None {
            Stage::CheckSupported
        } else if !self.supported->0 {
            Stage::Fail(LifecycleError::NotSupported)
        } else if self.kernel is None {
            Stage::FetchKernel
        } else if self.arch is None {
            Stage::FetchArch
        } else if self.module_image is None {
            Stage::CheckImage(Image::Module)
        } else if self.module_image->0 {
            if idempotent {
                Stage::Succeed
            } else {
                Stage::Fail(LifecycleError::AlreadyBuilt)
            }
        } else if self.builder_image is None {
            Stage::CheckImage(Image::Builder)
        } else if !self.builder_image->0 && !self.builder_built {
            Stage::Invoke(Step::BuilderImage)
        } else if self.runtime_image is None {
            Stage::CheckImage(Image::Runtime)
        } else if !self.runtime_image->0 && !self.runtime_built {
            Stage::Invoke(Step::RuntimeImage)
        } else if !self.module_built {
            Stage::Invoke(Step::ModuleImage)
        } else if !no_prune && !self.pruned {
            Stage::Invoke(Step::Prune)
        } else {
            Stage::Succeed
        }
    }

    pub open spec fn load_stage(self, idempotent: bool) -> Stage {
        if self.loaded is None {
            Stage::CheckLoaded
        } else if self.loaded->0 {
            if idempotent {
                Stage::Succeed
            } else {
                Stage::Fail(LifecycleError::AlreadyLoaded)
            }
        } else if self.secure_boot is None {
            Stage::CheckSecureBoot
        } else if self.secure_boot->0 {
            Stage::Fail(LifecycleError::SecureBootEnabled)
        } else {
            self.run_stage()
        }
    }

    pub open spec fn unload_stage(self, idempotent: bool) -> Stage {
        if self.loaded is None {
            Stage::CheckLoaded
        } else if !self.loaded->0 {
            if idempotent {
                Stage::Succeed
            } else {
                Stage::Fail(LifecycleError::NotLoaded)
            }
        } else if self.kernel is None {
            Stage::FetchKernel
        } else if !self.ran {
            Stage::Invoke(Step::Unload)
        } else {
            Stage::Succeed
        }
    }

    /// The next thing to do, decided from the observations alone.
    pub open spec fn stage(self) -> Stage {
        match self.failure {
            Some(e) => Stage::Fail(e),
            None => match self.op {
                OperationView::Build { idempotent, no_prune } => self.build_stage(
                    idempotent,
                    no_prune,
                ),
                OperationView::Load { idempotent, .. } => self.load_stage(idempotent),
                OperationView::Run { .. } => self.run_stage(),
                OperationView::Unload { idempotent } => self.unload_stage(idempotent),
                OperationView::Modules => if self.listing is None {
                    Stage::ListModules
                } else {
                    Stage::Report
                },
            },
        }
    }

    pub open spec fn image_id(self, image: Image) -> Seq<char> {
        match image {
            Image::Builder => builder_image_id(self.kernel_version()),
            Image::Runtime => runtime_image_id(self.kernel_version()),
            Image::Module => self.module_id(),
        }
    }

    /// The command that the module image runs.
    pub open spec fn command(self) -> Seq<Seq<char>> {
        match self.op {
            OperationView::Load { command, .. } => command,
            OperationView::Run { command } => command,
            _ => Seq::empty(),
        }
    }

    /// The container engine's arguments for a step.
    pub open spec fn engine_args(self, step: Step) -> Seq<Seq<char>> {
        let k = self.kernel_version();
        let common = self.data_dir + "/common/"@;
        match step {
            Step::BuilderImage => seq!["build"@, "-t"@, builder_image_id(k)] + build_arg_flag(
                "ARCH"@,
                self.architecture(),
            ) + build_arg_flag("KERNEL_VERSION"@, k) + seq![
                "--file"@,
                "Builder.containerfile"@,
                common,
            ],
            Step::RuntimeImage => seq!["build"@, "-t"@, runtime_image_id(k)] + build_arg_flag(
                "KERNEL_VERSION"@,
                k,
            ) + build_arg_flag("PODMOD_VERSION"@, TOOL_VERSION@) + seq![
                "--file"@,
                "Runtime.containerfile"@,
                common,
            ],
            Step::ModuleImage => seq!["build"@, "-t"@, self.module_id()] + build_arg_flag(
                "ARCH"@,
                self.architecture(),
            ) + build_arg_flag("KERNEL_VERSION"@, k) + build_arg_flag(
                "MODULE_VERSION"@,
                self.module.version,
            ) + build_arg_flag("PODMOD_VERSION"@, TOOL_VERSION@) + build_arg_flags(
                self.module.build_args,
            ) + seq![module_dir(self.data_dir, self.module.name)],
            Step::Prune => seq!["system"@, "prune"@, "-f"@],
            Step::Run => run_prefix() + self.module.container_args + seq![self.module_id()]
                + self.command(),
            Step::Unload => run_prefix() + seq![self.module_id(), "unload"@],
        }
    }

    pub open spec fn action(self) -> ActionView {
        match self.stage() {
            Stage::CheckSupported => ActionView::CheckSupported {
                data_dir: self.data_dir,
                module: self.module.name,
            },
            Stage::FetchKernel => ActionView::FetchKernelVersion,
            Stage::FetchArch => ActionView::FetchArchitecture,
            Stage::CheckImage(image) => ActionView::CheckImage { id: self.image_id(image) },
            Stage::CheckLoaded => ActionView::CheckLoaded { module: self.module.name },
            Stage::CheckSecureBoot => ActionView::CheckSecureBoot,
            Stage::ListModules => ActionView::ListModules { path: self.data_dir + "/modules"@ },
            Stage::Invoke(step) => ActionView::Invoke { step, args: self.engine_args(step) },
            Stage::Succeed => ActionView::Succeed,
            Stage::Report => ActionView::Report {
                modules: match self.listing {
                    Some(l) => l,
                    None => Seq::empty(),
                },
            },
            Stage::Fail(e) => ActionView::Fail(e),
        }
    }

    pub open spec fn failed(self, e: LifecycleError) -> Self {
        WorkflowView { failure: Some(e), ..self }
    }

    pub open spec fn completed(self, step: Step) -> Self {
        match step {
            Step::BuilderImage => WorkflowView { builder_built: true, ..self },
            Step::RuntimeImage => WorkflowView { runtime_built: true, ..self },
            Step::ModuleImage => WorkflowView { module_built: true, ..self },
            Step::Prune => WorkflowView { pruned: true, ..self },
            _ => WorkflowView { ran: true, ..self },
        }
    }

    /// Records what was seen when the current action was performed. An
    /// event of the wrong kind counts as a failure to run the query.
    pub open spec fn after(self, ev: EventView) -> Self {
        match self.stage() {
            Stage::CheckSupported => match ev {
                EventView::Answer(b) => WorkflowView { supported: Some(b), ..self },
                _ => self.failed(LifecycleError::ProbeFailed(Probe::ModuleDir)),
            },
            Stage::FetchKernel => match ev {
                EventView::Text(s) => WorkflowView { kernel: Some(s), ..self },
                _ => self.failed(LifecycleError::ProbeFailed(Probe::KernelVersion)),
            },
            Stage::FetchArch => match ev {
                EventView::Text(s) => WorkflowView { arch: Some(s), ..self },
                _ => self.failed(LifecycleError::ProbeFailed(Probe::Architecture)),
            },
            Stage::CheckImage(image) => match ev {
                EventView::Answer(b) => match image {
                    Image::Builder => WorkflowView { builder_image: Some(b), ..self },
                    Image::Runtime => WorkflowView { runtime_image: Some(b), ..self },
                    Image::Module => WorkflowView { module_image: Some(b), ..self },
                },
                _ => self.failed(LifecycleError::ProbeFailed(Probe::ImageExists)),
            },
            Stage::CheckLoaded => match ev {
                EventView::Answer(b) => WorkflowView { loaded: Some(b), ..self },
                _ => self.failed(LifecycleError::ProbeFailed(Probe::ModuleLoaded)),
            },
            Stage::CheckSecureBoot => match ev {
                EventView::Answer(b) => WorkflowView { secure_boot: Some(b), ..self },
                _ => self.failed(LifecycleError::ProbeFailed(Probe::SecureBoot)),
            },
            Stage::ListModules => match ev {
                EventView::Listing(l) => WorkflowView { listing: Some(l), ..self },
                _ => self.failed(LifecycleError::ProbeFailed(Probe::ModuleList)),
            },
            Stage::Invoke(step) => match ev {
                EventView::Exited(true) => self.completed(step),
                _ => self.failed(LifecycleError::EngineFailed(step)),
            },
            _ => self,
        }
    }

    /// Whether the workflow is over: nothing is left to perform.
    pub open spec fn is_finished(self) -> bool {
        self.stage() is Succeed || self.stage() is Report || self.stage() is Fail
    }
}

fn push_str(v: &mut Vec<String>, s: &str)
    ensures
        string_views(final(v)@) == string_views(old(v)@).push(s@),
{
    v.push(String::from_str(s));
    assert(string_views(v@) =~= string_views(old(v)@).push(s@));
}

fn push_all(v: &mut Vec<String>, more: &Vec<String>)
    ensures
        string_views(final(v)@) == string_views(old(v)@) + string_views(more@),
{
    let ghost start = string_views(v@);
    let mut i: usize = 0;
    while i < more.len()
        invariant
            0 <= i <= more@.len(),
            string_views(v@) == start + string_views(more@.subrange(0, i as int)),
        decreases more@.len() - i,
    {
        let ghost before = string_views(v@);
        v.push(more[i].clone());
        assert(string_views(v@) =~= before.push(more@[i as int]@));
        assert(string_views(more@.subrange(0, i + 1)) =~= string_views(
            more@.subrange(0, i as int),
        ).push(more@[i as int]@));
        i += 1;
    }
    assert(more@.subrange(0, more@.len() as int) =~= more@);
}

fn copy_strings(v: &Vec<String>) -> (r: Vec<String>)
    ensures
        string_views(r@) == string_views(v@),
{
    let mut r: Vec<String> = Vec::new();
    push_all(&mut r, v);
    assert(string_views(r@) =~= string_views(v@));
    r
}

fn copy_pairs(v: &Vec<(String, String)>) -> (r: Vec<(String, String)>)
    ensures
        pair_views(r@) == pair_views(v@),
{
    let mut r: Vec<(String, String)> = Vec::new();
    let mut i: usize = 0;
    while i < v.len()
        invariant
            0 <= i <= v@.len(),
            r@.len() == i,
            forall|j: int|
                0 <= j < i ==> (#[trigger] r@[j]).0@ == v@[j].0@ && r@[j].1@ == v@[j].1@,
        decreases v@.len() - i,
    {
        r.push((v[i].0.clone(), v[i].1.clone()));
        i += 1;
    }
    assert(pair_views(r@) =~= pair_views(v@));
    r
}

fn copy_module(m: &ModuleConfig) -> (r: ModuleConfig)
    ensures
        r@ == m@,
{
    ModuleConfig {
        name: m.name.clone(),
        version: m.version.clone(),
        container_args: copy_strings(&m.container_args),
        kernel_args: copy_strings(&m.kernel_args),
        build_args: copy_pairs(&m.build_args),
    }
}

fn flag_value(key: &str, value: &str) -> (r: String)
    ensures
        r@ == key@ + "="@ + value@,
{
    let mut r = String::from_str(key);
    r.append("=");
    r.append(value);
    r
}

fn push_build_arg(v: &mut Vec<String>, key: &str, value: &str)
    ensures
        string_views(final(v)@) == string_views(old(v)@) + build_arg_flag(key@, value@),
{
    push_str(v, "--build-arg");
    let f = flag_value(key, value);
    push_str(v, f.as_str());
    assert(string_views(v@) =~= string_views(old(v)@) + build_arg_flag(key@, value@));
}

fn push_build_args(v: &mut Vec<String>, args: &Vec<(String, String)>)
    ensures
        string_views(final(v)@) == string_views(old(v)@) + build_arg_flags(pair_views(args@)),
{
    let ghost start = string_views(v@);
    let mut i: usize = 0;
    while i < args.len()
        invariant
            0 <= i <= args@.len(),
            string_views(v@) == start + build_arg_flags(pair_views(args@.subrange(0, i as int))),
        decreases args@.len() - i,
    {
        let ghost before = string_views(v@);
        push_build_arg(v, args[i].0.as_str(), args[i].1.as_str());
        let ghost done = pair_views(args@.subrange(0, i + 1));
        assert(done.drop_last() =~= pair_views(args@.subrange(0, i as int)));
        assert(done.last() == (args@[i as int].0@, args@[i as int].1@));
        assert(string_views(v@) =~= start + build_arg_flags(done));
        i += 1;
    }
    assert(args@.subrange(0, args@.len() as int) =~= args@);
}

fn empty_module() -> (r: ModuleConfig)
    ensures
        r@ == no_module(),
{
    let r = ModuleConfig {
        name: String::new(),
        version: String::new(),
        container_args: Vec::new(),
        kernel_args: Vec::new(),
        build_args: Vec::new(),
    };
    assert(string_views(r.container_args@) =~= Seq::empty());
    assert(string_views(r.kernel_args@) =~= Seq::empty());
    assert(pair_views(r.build_args@) =~= Seq::empty());
    r
}

impl Workflow {
    fn begin(op: Operation, data_dir: String, module: ModuleConfig) -> (w: Workflow)
        ensures
            w@ == WorkflowView::start(op@, data_dir@, module@),
    {
        Workflow {
            op,
            data_dir,
            module,
            supported: None,
            loaded: None,
            secure_boot: None,
            kernel: None,
            arch: None,
            module_image: None,
            builder_image: None,
            runtime_image: None,
            listing: None,
            builder_built: false,
            runtime_built: false,
            module_built: false,
            pruned: false,
            ran: false,
            failure: None,
        }
    }

    fn kernel_str(&self) -> (r: &str)
        ensures
            r@ == self@.kernel_version(),
    {
        match &self.kernel {
            Some(k) => k.as_str(),
            None => {
                proof {
                    reveal_strlit("");
                }
                ""
            },
        }
    }

    fn arch_str(&self) -> (r: &str)
        ensures
            r@ == self@.architecture(),
    {
        match &self.arch {
            Some(a) => a.as_str(),
            None => {
                proof {
                    reveal_strlit("");
                }
                ""
            },
        }
    }

    fn module_id(&self) -> (r: String)
        ensures
            r@ == self@.module_id(),
    {
        get_module_image_identifier(
            self.module.name.as_str(),
            self.module.version.as_str(),
            self.kernel_str(),
        )
    }

    fn run_stage(&self) -> (s: Stage)
        ensures
            s == self@.run_stage(),
    {
        match (&self.kernel, self.module_image) {
            (None, _) => Stage::FetchKernel,
            (_, None) => Stage::CheckImage(Image::Module),
            (_, Some(false)) => Stage::Fail(LifecycleError::NotBuilt),
            _ => if !self.ran {
                Stage::Invoke(Step::Run)
            } else {
                Stage::Succeed
            },
        }
    }

    fn build_stage(&self, idempotent: bool, no_prune: bool) -> (s: Stage)
        ensures
            s == self@.build_stage(idempotent, no_prune),
    {
        if self.supported.is_none() {
            Stage::CheckSupported
        } else if self.supported == Some(false) {
            Stage::Fail(LifecycleError::NotSupported)
        } else if self.kernel.is_none() {
            Stage::FetchKernel
        } else if self.arch.is_none() {
            Stage::FetchArch
        } else if self.module_image.is_none() {
            Stage::CheckImage(Image::Module)
        } else if self.module_image == Some(true) {
            if idempotent {
                Stage::Succeed
            } else {
                Stage::Fail(LifecycleError::AlreadyBuilt)
            }
        } else if self.builder_image.is_none() {
            Stage::CheckImage(Image::Builder)
        } else if self.builder_image == Some(false) && !self.builder_built {
            Stage::Invoke(Step::BuilderImage)
        } else if self.runtime_image.is_none() {
            Stage::CheckImage(Image::Runtime)
        } else if self.runtime_image == Some(false) && !self.runtime_built {
            Stage::Invoke(Step::RuntimeImage)
        } else if !self.module_built {
            Stage::Invoke(Step::ModuleImage)
        } else if !no_prune && !self.pruned {
            Stage::Invoke(Step::Prune)
        } else {
            Stage::Succeed
        }
    }

    fn load_stage(&self, idempotent: bool) -> (s: Stage)
        ensures
            s == self@.load_stage(idempotent),
    {
        match (self.loaded, self.secure_boot) {
            (None, _) => Stage::CheckLoaded,
            (Some(true), _) => if idempotent {
                Stage::Succeed
            } else {
                Stage::Fail(LifecycleError::AlreadyLoaded)
            },
            (_, None) => Stage::CheckSecureBoot,
            (_, Some(true)) => Stage::Fail(LifecycleError::SecureBootEnabled),
            _ => self.run_stage(),
        }
    }

    fn unload_stage(&self, idempotent: bool) -> (s: Stage)
        ensures
            s == self@.unload_stage(idempotent),
    {
        match (self.loaded, &self.kernel) {
            (None, _) => Stage::CheckLoaded,
            (Some(false), _) => if idempotent {
                Stage::Succeed
            } else {
                Stage::Fail(LifecycleError::NotLoaded)
            },
            (_, None) => Stage::FetchKernel,
            _ => if !self.ran {
                Stage::Invoke(Step::Unload)
            } else {
                Stage::Succeed
            },
        }
    }

    /// What the workflow does next.
    pub fn stage(&self) -> (s: Stage)
        ensures
            s == self@.stage(),
    {
        match self.failure {
            Some(e) => Stage::Fail(e),
            None => match &self.op {
                Operation::Build { idempotent, no_prune } => self.build_stage(*idempotent, *no_prune),
                Operation::Load { idempotent, .. } => self.load_stage(*idempotent),
                Operation::Run { .. } => self.run_stage(),
                Operation::Unload { idempotent } => self.unload_stage(*idempotent),
                Operation::Modules => if self.listing.is_none() {
                    Stage::ListModules
                } else {
                    Stage::Report
                },
            },
        }
    }

    fn engine_args(&self, step: Step) -> (r: Vec<String>)
        ensures
            string_views(r@) == self@.engine_args(step),
    {
        let k = self.kernel_str();
        let mut common = String::from_str(self.data_dir.as_str());
        common.append("/common/");
        let mut v: Vec<String> = Vec::new();
        match step {
            Step::BuilderImage => {
                push_str(&mut v, "build");
                push_str(&mut v, "-t");
                let id = get_build_image_identifier(k);
                push_str(&mut v, id.as_str());
                push_build_arg(&mut v, "ARCH", self.arch_str());
                push_build_arg(&mut v, "KERNEL_VERSION", k);
                push_str(&mut v, "--file");
                push_str(&mut v, "Builder.containerfile");
                push_str(&mut v, common.as_str());
            },
            Step::RuntimeImage => {
                push_str(&mut v, "build");
                push_str(&mut v, "-t");
                let id = get_runtime_image_identifier(k);
                push_str(&mut v, id.as_str());
                push_build_arg(&mut v, "KERNEL_VERSION", k);
                push_build_arg(&mut v, "PODMOD_VERSION", TOOL_VERSION);
                push_str(&mut v, "--file");
                push_str(&mut v, "Runtime.containerfile");
                push_str(&mut v, common.as_str());
            },
            Step::ModuleImage => {
                push_str(&mut v, "build");
                push_str(&mut v, "-t");
                let id = self.module_id();
                push_str(&mut v, id.as_str());
                push_build_arg(&mut v, "ARCH", self.arch_str());
                push_build_arg(&mut v, "KERNEL_VERSION", k);
                push_build_arg(&mut v, "MODULE_VERSION", self.module.version.as_str());
                push_build_arg(&mut v, "PODMOD_VERSION", TOOL_VERSION);
                push_build_args(&mut v, &self.module.build_args);
                let dir = module_dir_path(self.data_dir.as_str(), self.module.name.as_str());
                push_str(&mut v, dir.as_str());
            },
            Step::Prune => {
                push_str(&mut v, "system");
                push_str(&mut v, "prune");
                push_str(&mut v, "-f");
            },
            Step::Run => {
                push_str(&mut v, "run");
                push_str(&mut v, "--rm");
                push_str(&mut v, "--privileged");
                push_all(&mut v, &self.module.container_args);
                let id = self.module_id();
                push_str(&mut v, id.as_str());
                match &self.op {
                    Operation::Load { command, .. } => push_all(&mut v, command),
                    Operation::Run { command } => push_all(&mut v, command),
                    _ => {},
                }
            },
            Step::Unload => {
                push_str(&mut v, "run");
                push_str(&mut v, "--rm");
                push_str(&mut v, "--privileged");
                let id = self.module_id();
                push_str(&mut v, id.as_str());
                push_str(&mut v, "unload");
            },
        }
        assert(string_views(v@) =~= self@.engine_args(step));
        v
    }

    /// The next action, from the observations so far.
    pub fn next_action(&self) -> (a: Action)
        ensures
            a@ == self@.action(),
    {
        match self.stage() {
            Stage::CheckSupported => Action::CheckSupported {
                data_dir: self.data_dir.clone(),
                module: self.module.name.clone(),
            },
            Stage::FetchKernel => Action::FetchKernelVersion,
            Stage::FetchArch => Action::FetchArchitecture,
            Stage::CheckImage(image) => {
                let id = match image {
                    Image::Builder => get_build_image_identifier(self.kernel_str()),
                    Image::Runtime => get_runtime_image_identifier(self.kernel_str()),
                    Image::Module => self.module_id(),
                };
                Action::CheckImage { id }
            },
            Stage::CheckLoaded => Action::CheckLoaded { module: self.module.name.clone() },
            Stage::CheckSecureBoot => Action::CheckSecureBoot,
            Stage::ListModules => {
                let mut path = self.data_dir.clone();
                path.append("/modules");
                Action::ListModules { path }
            },
            Stage::Invoke(step) => Action::Invoke { step, args: self.engine_args(step) },
            Stage::Succeed => Action::Succeed,
            Stage::Report => {
                let modules = match &self.listing {
                    Some(l) => copy_strings(l),
                    None => {
                        let v: Vec<String> = Vec::new();
                        assert(string_views(v@) =~= Seq::empty());
                        v
                    },
                };
                Action::Report { modules }
            },
            Stage::Fail(e) => Action::Fail(e),
        }
    }

    /// Records what was seen when the action of `next_action` was performed.
    pub fn record(&mut self, ev: Event)
        ensures
            final(self)@ == old(self)@.after(ev@),
    {
        match self.stage() {
            Stage::CheckSupported => match ev {
                Event::Answer(b) => self.supported = Some(b),
                _ => self.failure = Some(LifecycleError::ProbeFailed(Probe::ModuleDir)),
            },
            Stage::FetchKernel => match ev {
                Event::Text(t) => self.kernel = Some(t),
                _ => self.failure = Some(LifecycleError::ProbeFailed(Probe::KernelVersion)),
            },
            Stage::FetchArch => match ev {
                Event::Text(t) => self.arch = Some(t),
                _ => self.failure = Some(LifecycleError::ProbeFailed(Probe::Architecture)),
            },
            Stage::CheckImage(image) => match ev {
                Event::Answer(b) => match image {
                    Image::Builder => self.builder_image = Some(b),
                    Image::Runtime => self.runtime_image = Some(b),
                    Image::Module => self.module_image = Some(b),
                },
                _ => self.failure = Some(LifecycleError::ProbeFailed(Probe::ImageExists)),
            },
            Stage::CheckLoaded => match ev {
                Event::Answer(b) => self.loaded = Some(b),
                _ => self.failure = Some(LifecycleError::ProbeFailed(Probe::ModuleLoaded)),
            },
            Stage::CheckSecureBoot => match ev {
                Event::Answer(b) => self.secure_boot = Some(b),
                _ => self.failure = Some(LifecycleError::ProbeFailed(Probe::SecureBoot)),
            },
            Stage::ListModules => match ev {
                Event::Listing(l) => self.listing = Some(l),
                _ => self.failure = Some(LifecycleError::ProbeFailed(Probe::ModuleList)),
            },
            Stage::Invoke(step) => match ev {
                Event::Exited(true) => match step {
                    Step::BuilderImage => self.builder_built = true,
                    Step::RuntimeImage => self.runtime_built = true,
                    Step::ModuleImage => self.module_built = true,
                    Step::Prune => self.pruned = true,
                    _ => self.ran = true,
                },
                _ => self.failure = Some(LifecycleError::EngineFailed(step)),
            },
            _ => {},
        }
    }

    /// Whether the workflow is over: its action is to succeed, report or fail.
    pub fn is_finished(&self) -> (r: bool)
        ensures
            r == self@.is_finished(),
    {
        match self.stage() {
            Stage::Succeed | Stage::Report | Stage::Fail(_) => true,
            _ => false,
        }
    }
}

/// `module` with one more container argument: an interactive terminal.
pub open spec fn interactive(module: ModuleView) -> ModuleView {
    ModuleView { container_args: module.container_args.push("-it"@), ..module }
}

/// Settings that name no module.
pub open spec fn no_module() -> ModuleView {
    ModuleView {
        name: Seq::empty(),
        version: Seq::empty(),
        container_args: Seq::empty(),
        kernel_args: Seq::empty(),
        build_args: Seq::empty(),
    }
}

pub open spec fn build_view(
    data_dir: Seq<char>,
    module: ModuleView,
    idempotent: bool,
    no_prune: bool,
) -> WorkflowView {
    WorkflowView::start(OperationView::Build { idempotent, no_prune }, data_dir, module)
}

pub open spec fn load_view(module: ModuleView, idempotent: bool) -> WorkflowView {
    WorkflowView::start(
        OperationView::Load { idempotent, command: seq!["load"@] + module.kernel_args },
        Seq::empty(),
        module,
    )
}

pub open spec fn run_view(module: ModuleView, command: Seq<Seq<char>>) -> WorkflowView {
    WorkflowView::start(OperationView::Run { command }, Seq::empty(), module)
}

/// A shell session is a run of the shell program alone, with an interactive
/// terminal added to a copy of the module's container arguments.
pub open spec fn shell_view(module: ModuleView, program: Seq<char>) -> WorkflowView {
    run_view(interactive(module), seq![program])
}

pub open spec fn unload_view(module: ModuleView, idempotent: bool) -> WorkflowView {
    WorkflowView::start(OperationView::Unload { idempotent }, Seq::empty(), module)
}

pub open spec fn modules_view(data_dir: Seq<char>) -> WorkflowView {
    WorkflowView::start(OperationView::Modules, data_dir, no_module())
}

/// Builds the module's image, and the shared builder and runtime images
/// that it is based on where they are missing.
pub fn build(config: &Config, module: &ModuleConfig, idempotent: bool, no_prune: bool) -> (w:
    Workflow)
    ensures
        w@ == build_view(config.data_dir@, module@, idempotent, no_prune),
{
    Workflow::begin(
        Operation::Build { idempotent, no_prune },
        config.data_dir.clone(),
        copy_module(module),
    )
}

/// Inserts the module by running the image's `load` entry point with the
/// configured kernel parameters.
pub fn load(module: &ModuleConfig, idempotent: bool) -> (w: Workflow)
    ensures
        w@ == load_view(module@, idempotent),
{
    let mut command: Vec<String> = Vec::new();
    push_str(&mut command, "load");
    push_all(&mut command, &module.kernel_args);
    assert(string_views(command@) =~= seq!["load"@] + module@.kernel_args);
    Workflow::begin(Operation::Load { idempotent, command }, String::new(), copy_module(module))
}

/// Runs `command` in a new container of the module's image.
pub fn run(module: &ModuleConfig, command: &Vec<String>) -> (w: Workflow)
    ensures
        w@ == run_view(module@, string_views(command@)),
{
    Workflow::begin(
        Operation::Run { command: copy_strings(command) },
        String::new(),
        copy_module(module),
    )
}

/// Runs the shell `program` interactively in a new container of the
/// module's image; the given settings are left as they are.
pub fn shell(module: &ModuleConfig, program: &str) -> (w: Workflow)
    ensures
        w@ == shell_view(module@, program@),
{
    let mut m = copy_module(module);
    push_str(&mut m.container_args, "-it");
    let mut command: Vec<String> = Vec::new();
    push_str(&mut command, program);
    assert(string_views(command@) =~= seq![program@]);
    run(&m, &command)
}

/// Removes the module by running the image's `unload` entry point.
pub fn unload(module: &ModuleConfig, idempotent: bool) -> (w: Workflow)
    ensures
        w@ == unload_view(module@, idempotent),
{
    Workflow::begin(Operation::Unload { idempotent }, String::new(), copy_module(module))
}

/// Lists the supported modules: the subdirectories of `<data_dir>/modules`.
pub fn modules(config: &Config) -> (w: Workflow)
    ensures
        w@ == modules_view(config.data_dir@),
{
    Workflow::begin(Operation::Modules, config.data_dir.clone(), empty_module())
}

} // verus!
