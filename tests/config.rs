use podmod::config::module;
use podmod::config::parse;
use podmod::config::ConfigError;
use podmod::config::Fault;
use podmod::config::Field;
use podmod::config::TomlValue;
use podmod::config::MAX_NESTING_MARKS;

const DOCUMENT: &str = r#"
data_dir = "/usr/share/podmod"

[foo]
version = "1.2"
container_args = ["--volume", "/lib/firmware:/lib/firmware"]
kernel_args = ["debug=1"]

[foo.build]
REPO = "https://example.org/foo.git"

[bar]
version = "0.9"
build = {}
"#;

fn expect_module_error(text: &str, name: &str, field: Field, fault: Fault) {
    let text = if text.contains("data_dir") {
        text.to_string()
    } else {
        format!("data_dir = \"/d\"\n{}", text)
    };
    let config = parse(&text).unwrap();
    match module(&config.tree, name) {
        Err(ConfigError::Module { module, field: f, fault: g }) => {
            assert_eq!(module, name);
            assert_eq!(f, field);
            assert_eq!(g, fault);
        }
        other => panic!("unexpected result {:?}", other),
    }
}

#[test]
fn parses_data_dir_and_module_settings() {
    let config = parse(DOCUMENT).unwrap();
    assert_eq!(config.data_dir, "/usr/share/podmod");
    let foo = module(&config.tree, "foo").unwrap();
    assert_eq!(foo.name, "foo");
    assert_eq!(foo.version, "1.2");
    assert_eq!(foo.container_args, vec!["--volume", "/lib/firmware:/lib/firmware"]);
    assert_eq!(foo.kernel_args, vec!["debug=1"]);
    assert_eq!(
        foo.build_args,
        vec![("REPO".to_string(), "https://example.org/foo.git".to_string())]
    );
}

#[test]
fn optional_arrays_default_to_empty() {
    let config = parse(DOCUMENT).unwrap();
    let bar = module(&config.tree, "bar").unwrap();
    assert_eq!(bar.version, "0.9");
    assert!(bar.container_args.is_empty());
    assert!(bar.kernel_args.is_empty());
    assert!(bar.build_args.is_empty());
}

#[test]
fn missing_build_table_names_module_and_build() {
    expect_module_error(
        "data_dir = \"/d\"\n[foo]\nversion = \"1\"\n",
        "foo",
        Field::Build,
        Fault::Missing,
    );
}

#[test]
fn missing_module_table() {
    expect_module_error(DOCUMENT, "baz", Field::Table, Fault::Missing);
    expect_module_error("data_dir = \"/d\"\nfoo = 3\n", "foo", Field::Table, Fault::Malformed);
}

#[test]
fn version_is_required_and_a_string() {
    expect_module_error("[foo]\nbuild = {}\n", "foo", Field::Version, Fault::Missing);
    expect_module_error(
        "[foo]\nversion = 2\nbuild = {}\n",
        "foo",
        Field::Version,
        Fault::Malformed,
    );
}

#[test]
fn build_table_must_hold_strings() {
    expect_module_error("[foo]\nversion = \"1\"\nbuild = 5\n", "foo", Field::Build, Fault::Malformed);
    expect_module_error(
        "[foo]\nversion = \"1\"\n[foo.build]\nJOBS = 4\n",
        "foo",
        Field::Build,
        Fault::Malformed,
    );
}

#[test]
fn argument_lists_must_be_arrays_of_strings() {
    expect_module_error(
        "[foo]\nversion = \"1\"\nbuild = {}\ncontainer_args = \"-v\"\n",
        "foo",
        Field::ContainerArgs,
        Fault::Malformed,
    );
    expect_module_error(
        "[foo]\nversion = \"1\"\nbuild = {}\nkernel_args = [1]\n",
        "foo",
        Field::KernelArgs,
        Fault::Malformed,
    );
}

#[test]
fn checks_build_before_version() {
    expect_module_error("[foo]\nversion = 2\n", "foo", Field::Build, Fault::Missing);
}

#[test]
fn data_dir_errors() {
    assert!(matches!(parse("[foo]\n"), Err(ConfigError::DataDir(Fault::Missing))));
    assert!(matches!(parse("data_dir = 1\n"), Err(ConfigError::DataDir(Fault::Malformed))));
}

#[test]
fn syntax_error() {
    assert!(matches!(parse("data_dir = \n["), Err(ConfigError::Syntax)));
}

#[test]
fn resolves_from_a_tree_built_by_hand() {
    let tree = TomlValue::Table(vec![(
        "foo".to_string(),
        TomlValue::Table(vec![
            ("version".to_string(), TomlValue::Str("3".to_string())),
            ("build".to_string(), TomlValue::Table(vec![])),
            (
                "kernel_args".to_string(),
                TomlValue::Array(vec![TomlValue::Str("a=1".to_string())]),
            ),
        ]),
    )]);
    let foo = module(&tree, "foo").unwrap();
    assert_eq!(foo.version, "3");
    assert_eq!(foo.kernel_args, vec!["a=1"]);
    assert!(matches!(module(&TomlValue::Other, "foo"), Err(ConfigError::Module { .. })));
}

#[test]
fn deepest_admitted_nesting_parses() {
    let n = MAX_NESTING_MARKS - 1;
    let text = format!("data_dir = \"/d\"\na = {}{}\n", "[".repeat(n), "]".repeat(n));
    assert!(parse(&text).is_ok());
    let keys = vec!["k"; MAX_NESTING_MARKS + 1].join(".");
    let text = format!("data_dir = \"/d\"\n{} = 1\n", keys);
    assert!(parse(&text).is_ok());
}

#[test]
fn deeper_nesting_is_refused_unread() {
    let text = format!("data_dir = \"/d\"\na = {}", "[".repeat(100_000));
    assert!(matches!(parse(&text), Err(ConfigError::TooDeep)));
    let text = format!("data_dir = \"/d\"\na = {}{}\n", "[".repeat(MAX_NESTING_MARKS + 1), "]".repeat(MAX_NESTING_MARKS + 1));
    assert!(matches!(parse(&text), Err(ConfigError::TooDeep)));
}

#[test]
fn duplicate_build_keys_are_malformed() {
    let tree = TomlValue::Table(vec![(
        "foo".to_string(),
        TomlValue::Table(vec![
            ("version".to_string(), TomlValue::Str("3".to_string())),
            (
                "build".to_string(),
                TomlValue::Table(vec![
                    ("A".to_string(), TomlValue::Str("1".to_string())),
                    ("A".to_string(), TomlValue::Str("2".to_string())),
                ]),
            ),
        ]),
    )]);
    assert!(matches!(
        module(&tree, "foo"),
        Err(ConfigError::Module { field: Field::Build, fault: Fault::Malformed, .. })
    ));
}
