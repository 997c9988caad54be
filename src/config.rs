//! Configuration: the document tree that the `toml` crate reads, and the
//! per-module settings resolved from it.

use vstd::prelude::*;
use vstd::std_specs::iter::IteratorSpec;
use vstd::string::*;

verus! {

/// A TOML value as the configuration logic reads it. Integers, floats,
/// booleans and dates are never read as such, so they are all `Other`.
#[derive(Debug)]
pub enum TomlValue {
    Str(String),
    Array(Vec<TomlValue>),
    /// Entries in the order that the parser gives them; a key is looked up
    /// at its first entry.
    Table(Vec<(String, TomlValue)>),
    Other,
}

/// The parsed configuration file: the data directory and the whole tree,
/// from which module tables are resolved on demand.
#[derive(Debug)]
pub struct Config {
    pub data_dir: String,
    pub tree: TomlValue,
}

/// Settings of one module.
#[derive(Clone, Debug)]
pub struct ModuleConfig {
    pub name: String,
    pub version: String,
    /// Extra arguments of the container run invocation.
    pub container_args: Vec<String>,
    /// Parameters handed to the module when it is loaded.
    pub kernel_args: Vec<String>,
    /// Build parameters, in the order of the `build` table; no key stands
    /// twice.
    pub build_args: Vec<(String, String)>,
}

pub struct ModuleView {
    pub name: Seq<char>,
    pub version: Seq<char>,
    pub container_args: Seq<Seq<char>>,
    pub kernel_args: Seq<Seq<char>>,
    pub build_args: Seq<(Seq<char>, Seq<char>)>,
}

pub open spec fn string_views(v: Seq<String>) -> Seq<Seq<char>> {
    v.map_values(|s: String| s@)
}

pub open spec fn pair_views(v: Seq<(String, String)>) -> Seq<(Seq<char>, Seq<char>)> {
    v.map_values(|p: (String, String)| (p.0@, p.1@))
}

impl View for ModuleConfig {
    type V = ModuleView;

    open spec fn view(&self) -> ModuleView {
        ModuleView {
            name: self.name@,
            version: self.version@,
            container_args: string_views(self.container_args@),
            kernel_args: string_views(self.kernel_args@),
            build_args: pair_views(self.build_args@),
        }
    }
}

/// The setting that a configuration error is about.
#[derive(Clone, Copy, Debug, PartialEq, Eq, Structural)]
pub enum Field {
    /// The module's own table.
    Table,
    Version,
    Build,
    ContainerArgs,
    KernelArgs,
}

#[derive(Clone, Copy, Debug, PartialEq, Eq, Structural)]
pub enum Fault {
    /// The setting is absent.
    Missing,
    /// The setting has the wrong type, or holds a value of the wrong type.
    Malformed,
}

#[derive(Clone, Debug, PartialEq, Eq)]
pub enum ConfigError {
    /// The text is not a TOML document.
    Syntax,
    /// The text holds more nesting marks than `MAX_NESTING_MARKS`.
    TooDeep,
    /// The top-level `data_dir` setting.
    DataDir(Fault),
    /// A setting of the named module.
    Module { module: String, field: Field, fault: Fault },
}

pub enum ConfigErrorView {
    Syntax,
    TooDeep,
    DataDir(Fault),
    Module(Seq<char>, Field, Fault),
}

impl View for ConfigError {
    type V = ConfigErrorView;

    open spec fn view(&self) -> ConfigErrorView {
        match self {
            ConfigError::Syntax => ConfigErrorView::Syntax,
            ConfigError::TooDeep => ConfigErrorView::TooDeep,
            ConfigError::DataDir(f) => ConfigErrorView::DataDir(*f),
            ConfigError::Module { module, field, fault } => ConfigErrorView::Module(
                module@,
                *field,
                *fault,
            ),
        }
    }
}

/// Index of the first entry with the key.
pub open spec fn first_key_at(entries: Seq<(String, TomlValue)>, key: Seq<char>, i: int) -> bool {
    &&& 0 <= i < entries.len()
    &&& entries[i].0@ == key
    &&& forall|j: int| 0 <= j < i ==> entries[j].0@ != key
}

/// The value under a key of a table; nothing for a value that is not a table.
pub open spec fn toml_get(v: TomlValue, key: Seq<char>) -> Option<TomlValue> {
    match v {
        TomlValue::Table(entries) => if exists|i: int| first_key_at(entries@, key, i) {
            Some(entries@[choose|i: int| first_key_at(entries@, key, i)].1)
        } else {
            None
        },
        _ => None,
    }
}

pub open spec fn str_of(v: TomlValue) -> Seq<char> {
    match v {
        TomlValue::Str(s) => s@,
        _ => Seq::empty(),
    }
}

/// The strings of an array whose items are all strings.
pub open spec fn string_items(items: Seq<TomlValue>) -> Option<Seq<Seq<char>>> {
    if forall|i: int| 0 <= i < items.len() ==> items[i] is Str {
        Some(items.map_values(|v: TomlValue| str_of(v)))
    } else {
        None
    }
}

/// An optional array of strings: empty where absent, nothing where malformed.
pub open spec fn optional_strings(o: Option<TomlValue>) -> Option<Seq<Seq<char>>> {
    match o {
        None => Some(Seq::empty()),
        Some(TomlValue::Array(items)) => string_items(items@),
        Some(_) => None,
    }
}

/// No key stands in two entries.
pub open spec fn distinct_keys(entries: Seq<(String, TomlValue)>) -> bool {
    forall|i: int, j: int| 0 <= i < j < entries.len() ==> entries[i].0@ != entries[j].0@
}

/// Build parameters are a mapping: no key stands twice.
pub open spec fn build_keys_distinct(m: ModuleView) -> bool {
    forall|i: int, j: int|
        0 <= i < j < m.build_args.len() ==> m.build_args[i].0 != m.build_args[j].0
}

/// The entries of a table whose keys are distinct and whose values are all
/// strings.
pub open spec fn string_entries(entries: Seq<(String, TomlValue)>) -> Option<
    Seq<(Seq<char>, Seq<char>)>,
> {
    if distinct_keys(entries) && forall|i: int| 0 <= i < entries.len() ==> entries[i].1 is Str {
        Some(entries.map_values(|e: (String, TomlValue)| (e.0@, str_of(e.1))))
    } else {
        None
    }
}

pub open spec fn module_error(name: Seq<char>, field: Field, fault: Fault) -> Result<
    ModuleView,
    ConfigErrorView,
> {
    Err(ConfigErrorView::Module(name, field, fault))
}

/// The settings of module `name` in the document `tree`. The module table
/// is checked first, then its `build` table, `version`, `container_args`,
/// `kernel_args`, and last the values of the `build` table.
pub open spec fn resolve_module(tree: TomlValue, name: Seq<char>) -> Result<
    ModuleView,
    ConfigErrorView,
> {
    match toml_get(tree, name) {
        None => module_error(name, Field::Table, Fault::Missing),
        Some(t) => if !(t is Table) {
            module_error(name, Field::Table, Fault::Malformed)
        } else {
            match toml_get(t, "build"@) {
                None => module_error(name, Field::Build, Fault::Missing),
                Some(b) => match b {
                    TomlValue::Table(build) => match toml_get(t, "version"@) {
                        None => module_error(name, Field::Version, Fault::Missing),
                        Some(TomlValue::Str(version)) => match optional_strings(
                            toml_get(t, "container_args"@),
                        ) {
                            None => module_error(name, Field::ContainerArgs, Fault::Malformed),
                            Some(container_args) => match optional_strings(
                                toml_get(t, "kernel_args"@),
                            ) {
                                None => module_error(name, Field::KernelArgs, Fault::Malformed),
                                Some(kernel_args) => match string_entries(build@) {
                                    None => module_error(name, Field::Build, Fault::Malformed),
                                    Some(build_args) => Ok(
                                        ModuleView {
                                            name,
                                            version: version@,
                                            container_args,
                                            kernel_args,
                                            build_args,
                                        },
                                    ),
                                },
                            },
                        },
                        Some(_) => module_error(name, Field::Version, Fault::Malformed),
                    },
                    _ => module_error(name, Field::Build, Fault::Malformed),
                },
            }
        }
    }
}

pub open spec fn module_result_view(r: Result<ModuleConfig, ConfigError>) -> Result<
    ModuleView,
    ConfigErrorView,
> {
    match r {
        Ok(m) => Ok(m@),
        Err(e) => Err(e@),
    }
}

/// The value under `key` in the table `v`.
pub fn get<'a>(v: &'a TomlValue, key: &str) -> (r: Option<&'a TomlValue>)
    ensures
        match r {
            Some(x) => toml_get(*v, key@) == Some(*x),
            None => toml_get(*v, key@) is None,
        },
{
    match v {
        TomlValue::Table(entries) => {
            let k = String::from_str(key);
            let mut i: usize = 0;
            while i < entries.len()
                invariant
                    0 <= i <= entries@.len(),
                    *v == TomlValue::Table(*entries),
                    k@ == key@,
                    forall|j: int| 0 <= j < i ==> entries@[j].0@ != key@,
                decreases entries@.len() - i,
            {
                if entries[i].0 == k {
                    proof {
                        assert(first_key_at(entries@, key@, i as int));
                        let c = choose|c: int| first_key_at(entries@, key@, c);
                        if c < i {
                            assert(entries@[c].0@ != key@);
                        } else if c > i {
                            assert(entries@[i as int].0@ != key@);
                        }
                        assert(c == i);
                        assert(exists|c: int| first_key_at(entries@, key@, c));
                        assert(toml_get(*v, key@) == Some(entries@[i as int].1));
                    }
                    return Some(&entries[i].1);
                }
                i += 1;
            }
            None
        },
        _ => None,
    }
}

fn strings_of(items: &Vec<TomlValue>) -> (r: Option<Vec<String>>)
    ensures
        match r {
            Some(v) => string_items(items@) == Some(string_views(v@)),
            None => string_items(items@) is None,
        },
{
    let mut out: Vec<String> = Vec::new();
    let mut i: usize = 0;
    while i < items.len()
        invariant
            0 <= i <= items@.len(),
            out@.len() == i,
            forall|j: int| 0 <= j < i ==> items@[j] is Str,
            forall|j: int| 0 <= j < i ==> out@[j]@ == str_of(#[trigger] items@[j]),
        decreases items@.len() - i,
    {
        match &items[i] {
            TomlValue::Str(s) => out.push(s.clone()),
            _ => return None,
        }
        i += 1;
    }
    assert(string_views(out@) =~= items@.map_values(|v: TomlValue| str_of(v)));
    Some(out)
}

pub open spec fn deref_value(o: Option<&TomlValue>) -> Option<TomlValue> {
    match o {
        Some(x) => Some(*x),
        None => None,
    }
}

fn optional_strings_of(o: Option<&TomlValue>) -> (r: Option<Vec<String>>)
    ensures
        match r {
            Some(v) => optional_strings(deref_value(o)) == Some(string_views(v@)),
            None => optional_strings(deref_value(o)) is None,
        },
{
    match o {
        None => {
            let v: Vec<String> = Vec::new();
            assert(string_views(v@) =~= Seq::empty());
            Some(v)
        },
        Some(TomlValue::Array(items)) => strings_of(items),
        Some(_) => None,
    }
}

fn string_entries_of(entries: &Vec<(String, TomlValue)>) -> (r: Option<Vec<(String, String)>>)
    ensures
        match r {
            Some(v) => string_entries(entries@) == Some(pair_views(v@)),
            None => string_entries(entries@) is None,
        },
{
    let mut out: Vec<(String, String)> = Vec::new();
    let mut i: usize = 0;
    while i < entries.len()
        invariant
            0 <= i <= entries@.len(),
            out@.len() == i,
            forall|j: int| 0 <= j < i ==> entries@[j].1 is Str,
            forall|a: int, b: int| 0 <= a < b < i ==> entries@[a].0@ != entries@[b].0@,
            forall|j: int|
                0 <= j < i ==> out@[j].0@ == (#[trigger] entries@[j]).0@ && out@[j].1@ == str_of(
                    entries@[j].1,
                ),
        decreases entries@.len() - i,
    {
        let mut j: usize = 0;
        while j < i
            invariant
                0 <= j <= i < entries@.len(),
                out@.len() == i,
                forall|k: int| 0 <= k < i ==> (#[trigger] out@[k]).0@ == entries@[k].0@,
                forall|k: int| 0 <= k < j ==> entries@[k].0@ != entries@[i as int].0@,
            decreases i - j,
        {
            if out[j].0 == entries[i].0 {
                return None;
            }
            j += 1;
        }
        match &entries[i].1 {
            TomlValue::Str(s) => out.push((entries[i].0.clone(), s.clone())),
            _ => return None,
        }
        i += 1;
    }
    assert(pair_views(out@) =~= entries@.map_values(
        |e: (String, TomlValue)| (e.0@, str_of(e.1)),
    ));
    Some(out)
}

fn module_err(module: &str, field: Field, fault: Fault) -> (r: Result<ModuleConfig, ConfigError>)
    ensures
        module_result_view(r) == module_error(module@, field, fault),
{
    Err(ConfigError::Module { module: String::from_str(module), field, fault })
}

/// Resolves the settings of `module` from the configuration document.
pub fn module(config: &TomlValue, name: &str) -> (r: Result<ModuleConfig, ConfigError>)
    ensures
        module_result_view(r) == resolve_module(*config, name@),
        r matches Ok(m) ==> build_keys_distinct(m@),
{
    let table = match get(config, name) {
        None => return module_err(name, Field::Table, Fault::Missing),
        Some(t) => t,
    };
    if !matches!(table, TomlValue::Table(_)) {
        return module_err(name, Field::Table, Fault::Malformed);
    }
    let build = match get(table, "build") {
        None => return module_err(name, Field::Build, Fault::Missing),
        Some(TomlValue::Table(b)) => b,
        Some(_) => return module_err(name, Field::Build, Fault::Malformed),
    };
    let version = match get(table, "version") {
        None => return module_err(name, Field::Version, Fault::Missing),
        Some(TomlValue::Str(v)) => v.clone(),
        Some(_) => return module_err(name, Field::Version, Fault::Malformed),
    };
    let container_args = match optional_strings_of(get(table, "container_args")) {
        None => return module_err(name, Field::ContainerArgs, Fault::Malformed),
        Some(a) => a,
    };
    let kernel_args = match optional_strings_of(get(table, "kernel_args")) {
        None => return module_err(name, Field::KernelArgs, Fault::Malformed),
        Some(a) => a,
    };
    let build_args = match string_entries_of(build) {
        None => return module_err(name, Field::Build, Fault::Malformed),
        Some(a) => a,
    };
    Ok(ModuleConfig { name: String::from_str(name), version, container_args, kernel_args, build_args })
}

/// The `data_dir` setting of a document.
pub open spec fn resolve_data_dir(tree: TomlValue) -> Result<Seq<char>, ConfigErrorView> {
    match toml_get(tree, "data_dir"@) {
        None => Err(ConfigErrorView::DataDir(Fault::Missing)),
        Some(TomlValue::Str(s)) => Ok(s@),
        Some(_) => Err(ConfigErrorView::DataDir(Fault::Malformed)),
    }
}

/// The configuration held by a parsed document.
pub fn config_from_tree(tree: TomlValue) -> (r: Result<Config, ConfigError>)
    ensures
        match r {
            Ok(c) => resolve_data_dir(tree) == Ok::<Seq<char>, ConfigErrorView>(c.data_dir@) && c.tree
                == tree,
            Err(e) => resolve_data_dir(tree) == Err::<Seq<char>, ConfigErrorView>(e@),
        },
{
    let data_dir = match get(&tree, "data_dir") {
        None => return Err(ConfigError::DataDir(Fault::Missing)),
        Some(TomlValue::Str(s)) => s.clone(),
        Some(_) => return Err(ConfigError::DataDir(Fault::Malformed)),
    };
    Ok(Config { data_dir, tree })
}

/// The characters that open a level of nesting in a TOML document: every
/// array, inline table, table header and dotted key takes at least one.
pub open spec fn is_nesting_mark(c: char) -> bool {
    c == '[' || c == '{' || c == '.'
}

/// How many nesting marks a text holds; this bounds how deeply a document
/// nests, wherever the marks stand (in strings or comments too).
pub open spec fn nesting_marks(s: Seq<char>) -> nat
    decreases s.len(),
{
    if s.len() == 0 {
        0
    } else {
        nesting_marks(s.drop_last()) + if is_nesting_mark(s.last()) {
            1nat
        } else {
            0nat
        }
    }
}

/// The most nesting marks that a configuration file may hold; the `toml`
/// parser recurses once per level of nesting, so deeper documents are
/// refused before they reach it.
pub const MAX_NESTING_MARKS: usize = 512;

fn count_nesting_marks(text: &str) -> (r: usize)
    ensures
        r == nesting_marks(text@),
{
    broadcast use vstd::string::group_string_axioms;

    let total = text.unicode_len();
    let mut it = text.chars();
    let ghost all = text@;
    let ghost mut seen: Seq<char> = Seq::empty();
    let mut n: usize = 0;
    loop
        invariant
            it.obeys_prophetic_iter_laws(),
            it.decrease() is Some,
            all == text@,
            seen + it.remaining() == all,
            n == nesting_marks(seen),
            n <= seen.len(),
            all.len() <= usize::MAX,
        decreases it.decrease()->0,
    {
        match it.next() {
            Some(c) => {
                proof {
                    assert(seen.push(c).drop_last() =~= seen);
                    assert(seen.push(c) + it.remaining() =~= all);
                    seen = seen.push(c);
                }
                if c == '[' || c == '{' || c == '.' {
                    n += 1;
                }
            },
            None => {
                assert(seen =~= all);
                return n;
            },
        }
    }
}

/// What the `toml` crate reads from a document, as a `TomlValue`; nothing
/// where the text is not a TOML document.
pub uninterp spec fn toml_document(text: Seq<char>) -> Option<TomlValue>;

#[verifier::external_type_specification]
#[verifier::external_body]
pub struct ExTomlValue(toml::Value);

/// Relies on `toml::from_str` (as `str::parse::<toml::Value>`), which reads
/// a whole document or fails with a syntax error. The parser recurses once
/// per level of nesting, without a limit of its own, so the text's nesting
/// is bounded.
#[verifier::external_body]
fn read_toml(text: &str) -> (r: Option<TomlValue>)
    requires
        nesting_marks(text@) <= MAX_NESTING_MARKS,
    ensures
        r == toml_document(text@),
{
    text.parse::<toml::Value>().ok().map(tree_of)
}

/// Relies on the variants of `toml::Value` and on iterating `toml::Value`'s
/// arrays and tables (`Vec::into_iter`, `toml::map::Map::into_iter`): converts
/// a value variant by variant, keeping strings, arrays and tables. It is
/// only applied to what `read_toml` parsed, so it recurses no deeper than
/// the bounded nesting of that text.
#[verifier::external_body]
fn tree_of(v: toml::Value) -> TomlValue {
    match v {
        toml::Value::String(s) => TomlValue::Str(s),
        toml::Value::Array(items) => TomlValue::Array(items.into_iter().map(tree_of).collect()),
        toml::Value::Table(t) => TomlValue::Table(t.into_iter().map(|(k, x)| (k, tree_of(x))).collect()),
        _ => TomlValue::Other,
    }
}

/// Reads the configuration file's text; a text with more nesting marks
/// than `MAX_NESTING_MARKS` is refused unread.
pub fn parse(text: &str) -> (r: Result<Config, ConfigError>)
    ensures
        nesting_marks(text@) > MAX_NESTING_MARKS ==> r matches Err(ConfigError::TooDeep),
        nesting_marks(text@) <= MAX_NESTING_MARKS ==> match toml_document(text@) {
            None => r matches Err(ConfigError::Syntax),
            Some(tree) => match r {
                Ok(c) => resolve_data_dir(tree) == Ok::<Seq<char>, ConfigErrorView>(c.data_dir@)
                    && c.tree == tree,
                Err(e) => resolve_data_dir(tree) == Err::<Seq<char>, ConfigErrorView>(e@),
            },
        },
{
    if count_nesting_marks(text) > MAX_NESTING_MARKS {
        return Err(ConfigError::TooDeep);
    }
    match read_toml(text) {
        None => Err(ConfigError::Syntax),
        Some(tree) => config_from_tree(tree),
    }
}

} // verus!
