use podmod::config::parse;
use podmod::config::Config;
use podmod::config::ModuleConfig;
use podmod::workflow::Action;
use podmod::workflow::Event;
use podmod::workflow::LifecycleError;
use podmod::workflow::Probe;
use podmod::workflow::Step;
use podmod::workflow::Workflow;
use podmod::Command;
use podmod::{build, dispatch, load, modules, run, shell, unload};

/// A scripted host: answers queries from its fields, and records each
/// engine invocation. A successful `build -t <id>` creates the image.
struct FakeHost {
    dirs: Vec<String>,
    kernel: String,
    arch: String,
    images: Vec<String>,
    loaded: Vec<String>,
    secure_boot: bool,
    listing: Vec<String>,
    engine_ok: bool,
    invocations: Vec<(Step, Vec<String>)>,
}

enum End {
    Succeeded,
    Reported(Vec<String>),
    Failed(LifecycleError),
}

fn host() -> FakeHost {
    FakeHost {
        dirs: vec!["/data/modules/foo".to_string()],
        kernel: "6.1.0-13-amd64".to_string(),
        arch: "x86_64".to_string(),
        images: vec![],
        loaded: vec![],
        secure_boot: false,
        listing: vec![],
        engine_ok: true,
        invocations: vec![],
    }
}

fn foo() -> ModuleConfig {
    ModuleConfig {
        name: "foo".to_string(),
        version: "1.2".to_string(),
        container_args: vec!["--volume".to_string(), "/lib/firmware:/lib/firmware".to_string()],
        kernel_args: vec!["debug=1".to_string()],
        build_args: vec![("REPO".to_string(), "https://example.org/foo.git".to_string())],
    }
}

fn config() -> Config {
    parse("data_dir = \"/data\"\n").unwrap()
}

fn strings(v: &[&str]) -> Vec<String> {
    v.iter().map(|s| s.to_string()).collect()
}

const FOO_IMAGE: &str = "podmod-foo:1.2-6.1.0-13-amd64";

fn drive(h: &mut FakeHost, mut w: Workflow) -> End {
    for _ in 0..100 {
        let ev = match w.next_action() {
            Action::Succeed => return End::Succeeded,
            Action::Report { modules } => return End::Reported(modules),
            Action::Fail(e) => return End::Failed(e),
            Action::CheckSupported { data_dir, module } => {
                Event::Answer(h.dirs.contains(&format!("{}/modules/{}", data_dir, module)))
            }
            Action::FetchKernelVersion => Event::Text(h.kernel.clone()),
            Action::FetchArchitecture => Event::Text(h.arch.clone()),
            Action::CheckImage { id } => Event::Answer(h.images.contains(&id)),
            Action::CheckLoaded { module } => Event::Answer(h.loaded.contains(&module)),
            Action::CheckSecureBoot => Event::Answer(h.secure_boot),
            Action::ListModules { .. } => Event::Listing(h.listing.clone()),
            Action::Invoke { step, args } => {
                if h.engine_ok && args[0] == "build" {
                    h.images.push(args[2].clone());
                }
                h.invocations.push((step, args));
                Event::Exited(h.engine_ok)
            }
        };
        w.record(ev);
    }
    panic!("workflow did not finish");
}

#[test]
fn fresh_build_builds_all_three_images_in_order() {
    let mut h = host();
    let end = drive(&mut h, build(&config(), &foo(), false, false));
    assert!(matches!(end, End::Succeeded));
    let steps: Vec<Step> = h.invocations.iter().map(|i| i.0).collect();
    assert_eq!(steps, vec![Step::BuilderImage, Step::RuntimeImage, Step::ModuleImage, Step::Prune]);
    assert_eq!(
        h.invocations[0].1,
        strings(&[
            "build",
            "-t",
            "podmod-builder:0.1.0-6.1.0-13-amd64",
            "--build-arg",
            "ARCH=x86_64",
            "--build-arg",
            "KERNEL_VERSION=6.1.0-13-amd64",
            "--file",
            "Builder.containerfile",
            "/data/common/",
        ])
    );
    assert_eq!(
        h.invocations[1].1,
        strings(&[
            "build",
            "-t",
            "podmod-runtime:0.1.0-6.1.0-13-amd64",
            "--build-arg",
            "KERNEL_VERSION=6.1.0-13-amd64",
            "--build-arg",
            "PODMOD_VERSION=0.1.0",
            "--file",
            "Runtime.containerfile",
            "/data/common/",
        ])
    );
    assert_eq!(
        h.invocations[2].1,
        strings(&[
            "build",
            "-t",
            FOO_IMAGE,
            "--build-arg",
            "ARCH=x86_64",
            "--build-arg",
            "KERNEL_VERSION=6.1.0-13-amd64",
            "--build-arg",
            "MODULE_VERSION=1.2",
            "--build-arg",
            "PODMOD_VERSION=0.1.0",
            "--build-arg",
            "REPO=https://example.org/foo.git",
            "/data/modules/foo",
        ])
    );
    assert_eq!(h.invocations[3].1, strings(&["system", "prune", "-f"]));
}

#[test]
fn build_reuses_shared_images_and_honours_no_prune() {
    let mut h = host();
    h.images = strings(&["podmod-builder:0.1.0-6.1.0-13-amd64", "podmod-runtime:0.1.0-6.1.0-13-amd64"]);
    let end = drive(&mut h, build(&config(), &foo(), false, true));
    assert!(matches!(end, End::Succeeded));
    assert_eq!(h.invocations.len(), 1);
    assert_eq!(h.invocations[0].0, Step::ModuleImage);
}

#[test]
fn build_of_unsupported_module_fails_first() {
    let mut h = host();
    h.dirs.clear();
    let end = drive(&mut h, build(&config(), &foo(), true, false));
    assert!(matches!(end, End::Failed(LifecycleError::NotSupported)));
    assert!(h.invocations.is_empty());
}

#[test]
fn idempotent_build_twice_builds_once() {
    let mut h = host();
    assert!(matches!(drive(&mut h, build(&config(), &foo(), true, false)), End::Succeeded));
    let first = h.invocations.len();
    assert_eq!(first, 4);
    assert!(matches!(drive(&mut h, build(&config(), &foo(), true, false)), End::Succeeded));
    assert_eq!(h.invocations.len(), first);
}

#[test]
fn rebuild_without_idempotent_is_a_conflict() {
    let mut h = host();
    h.images = vec![FOO_IMAGE.to_string()];
    let end = drive(&mut h, build(&config(), &foo(), false, false));
    assert!(matches!(end, End::Failed(LifecycleError::AlreadyBuilt)));
    assert!(h.invocations.is_empty());
}

#[test]
fn failing_engine_stops_the_build_at_that_step() {
    let mut h = host();
    h.engine_ok = false;
    let end = drive(&mut h, build(&config(), &foo(), false, false));
    assert!(matches!(end, End::Failed(LifecycleError::EngineFailed(Step::BuilderImage))));
    assert_eq!(h.invocations.len(), 1);
}

#[test]
fn unavailable_probe_is_fatal() {
    let mut w = build(&config(), &foo(), false, false);
    w.record(Event::Answer(true));
    assert!(matches!(w.next_action(), Action::FetchKernelVersion));
    w.record(Event::Unavailable);
    assert!(matches!(
        w.next_action(),
        Action::Fail(LifecycleError::ProbeFailed(Probe::KernelVersion))
    ));
    assert!(w.is_finished());
}

#[test]
fn load_runs_the_load_entry_point_with_kernel_args() {
    let mut h = host();
    h.images = vec![FOO_IMAGE.to_string()];
    let end = drive(&mut h, load(&foo(), false));
    assert!(matches!(end, End::Succeeded));
    assert_eq!(h.invocations.len(), 1);
    assert_eq!(h.invocations[0].0, Step::Run);
    assert_eq!(
        h.invocations[0].1,
        strings(&[
            "run",
            "--rm",
            "--privileged",
            "--volume",
            "/lib/firmware:/lib/firmware",
            FOO_IMAGE,
            "load",
            "debug=1",
        ])
    );
}

#[test]
fn load_refuses_under_secure_boot() {
    for idempotent in [false, true] {
        let mut h = host();
        h.images = vec![FOO_IMAGE.to_string()];
        h.secure_boot = true;
        let end = drive(&mut h, load(&foo(), idempotent));
        assert!(matches!(end, End::Failed(LifecycleError::SecureBootEnabled)));
        assert!(h.invocations.is_empty());
    }
}

#[test]
fn loaded_module_short_circuits_before_secure_boot() {
    let mut h = host();
    h.secure_boot = true;
    h.loaded = vec!["foo".to_string()];
    assert!(matches!(drive(&mut h, load(&foo(), true)), End::Succeeded));
    assert!(matches!(
        drive(&mut h, load(&foo(), false)),
        End::Failed(LifecycleError::AlreadyLoaded)
    ));
    assert!(h.invocations.is_empty());
}

#[test]
fn load_run_and_shell_need_a_built_image() {
    let mut h = host();
    assert!(matches!(drive(&mut h, load(&foo(), false)), End::Failed(LifecycleError::NotBuilt)));
    let command = strings(&["ls"]);
    assert!(matches!(drive(&mut h, run(&foo(), &command)), End::Failed(LifecycleError::NotBuilt)));
    assert!(matches!(drive(&mut h, shell(&foo(), "/bin/sh")), End::Failed(LifecycleError::NotBuilt)));
    assert!(h.invocations.is_empty());
}

#[test]
fn shell_adds_an_interactive_terminal_to_a_copy() {
    let mut h = host();
    h.images = vec![FOO_IMAGE.to_string()];
    let m = foo();
    let end = drive(&mut h, shell(&m, "/bin/sh"));
    assert!(matches!(end, End::Succeeded));
    assert_eq!(
        h.invocations[0].1,
        strings(&[
            "run",
            "--rm",
            "--privileged",
            "--volume",
            "/lib/firmware:/lib/firmware",
            "-it",
            FOO_IMAGE,
            "/bin/sh",
        ])
    );
    assert_eq!(m.container_args, foo().container_args);
}

#[test]
fn unload_of_unloaded_module() {
    let mut h = host();
    assert!(matches!(drive(&mut h, unload(&foo(), false)), End::Failed(LifecycleError::NotLoaded)));
    assert!(matches!(drive(&mut h, unload(&foo(), true)), End::Succeeded));
    assert!(h.invocations.is_empty());
}

#[test]
fn unload_runs_the_unload_entry_point() {
    let mut h = host();
    h.loaded = vec!["foo".to_string()];
    assert!(matches!(drive(&mut h, unload(&foo(), false)), End::Succeeded));
    assert_eq!(
        h.invocations,
        vec![(Step::Unload, strings(&["run", "--rm", "--privileged", FOO_IMAGE, "unload"]))]
    );
}

#[test]
fn modules_reports_each_subdirectory_once() {
    let mut h = host();
    h.listing = strings(&["foo", "bar"]);
    let w = modules(&config());
    match w.next_action() {
        Action::ListModules { path } => assert_eq!(path, "/data/modules"),
        other => panic!("unexpected action {:?}", other),
    }
    match drive(&mut h, w) {
        End::Reported(names) => {
            assert_eq!(names.len(), 2);
            assert_eq!(names.iter().filter(|n| *n == "foo").count(), 1);
            assert_eq!(names.iter().filter(|n| *n == "bar").count(), 1);
        }
        _ => panic!("modules did not report"),
    }
}

#[test]
fn dispatch_resolves_the_module_first() {
    let config = parse(
        "data_dir = \"/data\"\n[foo]\nversion = \"1.2\"\nbuild = {}\n",
    )
    .unwrap();
    let command = Command::Unload { idempotent: true, module: "foo".to_string() };
    let w = dispatch(&config, &command).unwrap();
    match w.next_action() {
        Action::CheckLoaded { module } => assert_eq!(module, "foo"),
        other => panic!("unexpected action {:?}", other),
    }
    let missing = Command::Load { idempotent: false, module: "bar".to_string() };
    assert!(dispatch(&config, &missing).is_err());
    assert!(dispatch(&config, &Command::Modules {}).is_ok());
}

#[test]
fn module_directory_path_and_support() {
    assert_eq!(
        podmod::workflow::module_dir_path("/usr/share/podmod", "foo"),
        "/usr/share/podmod/modules/foo"
    );
    assert!(!podmod::is_module_supported("/nonexistent/podmod", "foo"));
}

#[test]
fn mismatched_event_counts_as_unavailable_probe() {
    let mut w = load(&foo(), false);
    assert!(matches!(w.next_action(), Action::CheckLoaded { .. }));
    w.record(Event::Text("yes".to_string()));
    assert!(matches!(
        w.next_action(),
        Action::Fail(LifecycleError::ProbeFailed(Probe::ModuleLoaded))
    ));
}
