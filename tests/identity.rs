use podmod::get_build_image_identifier;
use podmod::get_module_image_identifier;
use podmod::get_runtime_image_identifier;
use podmod::identity::TOOL_VERSION;

#[test]
fn module_image_name_joins_module_version_and_kernel() {
    assert_eq!(
        get_module_image_identifier("foo", "1.2", "6.1.0-13-amd64"),
        "podmod-foo:1.2-6.1.0-13-amd64"
    );
}

#[test]
fn shared_image_names_carry_the_tool_version() {
    assert_eq!(
        get_build_image_identifier("6.1.0"),
        format!("podmod-builder:{}-6.1.0", TOOL_VERSION)
    );
    assert_eq!(
        get_runtime_image_identifier("6.1.0"),
        format!("podmod-runtime:{}-6.1.0", TOOL_VERSION)
    );
    assert_eq!(TOOL_VERSION, "0.1.0");
}

#[test]
fn image_names_are_deterministic() {
    let a = get_module_image_identifier("foo", "1", "6.1");
    let b = get_module_image_identifier("foo", "1", "6.1");
    assert_eq!(a, b);
    assert_eq!(get_build_image_identifier("6.1"), get_build_image_identifier("6.1"));
}

#[test]
fn distinct_triples_give_distinct_image_names() {
    let base = get_module_image_identifier("foo", "1", "6.1");
    assert_ne!(base, get_module_image_identifier("bar", "1", "6.1"));
    assert_ne!(base, get_module_image_identifier("foo", "2", "6.1"));
    assert_ne!(base, get_module_image_identifier("foo", "1", "6.2"));
    assert_ne!(get_build_image_identifier("6.1"), get_runtime_image_identifier("6.1"));
}

#[test]
fn separators_inside_parts_are_escaped() {
    assert_eq!(get_module_image_identifier("a", "1-2", "3"), "podmod-a:1_d2-3");
    assert_eq!(get_module_image_identifier("a", "1", "2-3"), "podmod-a:1-2-3");
    assert_eq!(get_module_image_identifier("a:b", "1", "3"), "podmod-a_cb:1-3");
    assert_eq!(get_module_image_identifier("snd_hda", "1_0", "6.1"), "podmod-snd__hda:1__0-6.1");
    assert_eq!(get_module_image_identifier("nvidia-drm", "1.0", "6.1"), "podmod-nvidia-drm:1.0-6.1");
    assert_ne!(
        get_module_image_identifier("a", "1-2", "3"),
        get_module_image_identifier("a", "1", "2-3")
    );
    assert_ne!(
        get_module_image_identifier("a_d", "1", "3"),
        get_module_image_identifier("a-", "1", "3")
    );
}
