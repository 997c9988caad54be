//! Deterministic names of the container images that the tool builds and runs.

use vstd::prelude::*;
use vstd::string::*;

verus! {

/// Version of this tool; it is part of the shared images' tags, so that a
/// new release rebuilds them.
pub const TOOL_VERSION: &'static str = "0.1.0";

/// `podmod-builder:<tool version>-<kernel version>`
pub open spec fn builder_image_id(kernel_version: Seq<char>) -> Seq<char> {
    "podmod-builder:"@ + TOOL_VERSION@ + "-"@ + kernel_version
}

/// `podmod-runtime:<tool version>-<kernel version>`
pub open spec fn runtime_image_id(kernel_version: Seq<char>) -> Seq<char> {
    "podmod-runtime:"@ + TOOL_VERSION@ + "-"@ + kernel_version
}

/// How one character of a part of an image name is written: the escape
/// character `_` is doubled, the separator `sep` becomes `_` followed by
/// `tag`, and any other character stands for itself.
pub open spec fn escape_char(c: char, sep: char, tag: char) -> Seq<char> {
    if c == '_' {
        seq!['_', '_']
    } else if c == sep {
        seq!['_', tag]
    } else {
        seq![c]
    }
}

/// A part of an image name with each character escaped.
pub open spec fn escaped(s: Seq<char>, sep: char, tag: char) -> Seq<char>
    decreases s.len(),
{
    if s.len() == 0 {
        Seq::empty()
    } else {
        escape_char(s[0], sep, tag) + escaped(s.drop_first(), sep, tag)
    }
}

/// A module name as it stands in an image name: no `:` is left in it.
pub open spec fn module_part(module: Seq<char>) -> Seq<char> {
    escaped(module, ':', 'c')
}

/// A module version as it stands in an image tag: no `-` is left in it.
pub open spec fn version_part(module_version: Seq<char>) -> Seq<char> {
    escaped(module_version, '-', 'd')
}

/// `podmod-<module>:<module version>-<kernel version>`, with the module
/// name and version escaped so that the separators `:` and `-` split the
/// name unambiguously. Names and versions without `_`, `:` or `-` (module)
/// and `_` or `-` (version) stand as they are.
pub open spec fn module_image_id(
    module: Seq<char>,
    module_version: Seq<char>,
    kernel_version: Seq<char>,
) -> Seq<char> {
    "podmod-"@ + module_part(module) + ":"@ + version_part(module_version) + "-"@ + kernel_version
}

proof fn lemma_escaped_push(s: Seq<char>, c: char, sep: char, tag: char)
    ensures
        escaped(s.push(c), sep, tag) == escaped(s, sep, tag) + escape_char(c, sep, tag),
    decreases s.len(),
{
    if s.len() == 0 {
        assert(s.push(c).drop_first() =~= Seq::<char>::empty());
        assert(s.push(c)[0] == c);
        assert(escaped(Seq::<char>::empty(), sep, tag) == Seq::<char>::empty());
        assert(escaped(s, sep, tag) == Seq::<char>::empty());
        assert(escaped(s.push(c), sep, tag) =~= escape_char(c, sep, tag));
    } else {
        assert(s.push(c).drop_first() =~= s.drop_first().push(c));
        lemma_escaped_push(s.drop_first(), c, sep, tag);
        assert(escaped(s.push(c), sep, tag) =~= escaped(s, sep, tag) + escape_char(c, sep, tag));
    }
}

proof fn lemma_escaped_avoids(s: Seq<char>, sep: char, tag: char)
    requires
        sep != '_',
        tag != sep,
    ensures
        forall|i: int| 0 <= i < escaped(s, sep, tag).len() ==> escaped(s, sep, tag)[i] != sep,
    decreases s.len(),
{
    if s.len() > 0 {
        lemma_escaped_avoids(s.drop_first(), sep, tag);
        let e = escape_char(s[0], sep, tag);
        let r = escaped(s.drop_first(), sep, tag);
        assert forall|i: int| 0 <= i < escaped(s, sep, tag).len() implies escaped(s, sep, tag)[i]
            != sep by {
            if i < e.len() {
                assert(escaped(s, sep, tag)[i] == e[i]);
            } else {
                assert(escaped(s, sep, tag)[i] == r[i - e.len()]);
            }
        }
    }
}

proof fn lemma_escaped_injective(a: Seq<char>, b: Seq<char>, sep: char, tag: char)
    requires
        sep != '_',
        tag != '_',
        escaped(a, sep, tag) == escaped(b, sep, tag),
    ensures
        a == b,
    decreases a.len(),
{
    let ea = escaped(a, sep, tag);
    if a.len() == 0 {
        if b.len() > 0 {
            assert(escaped(b, sep, tag).len() >= escape_char(b[0], sep, tag).len());
        }
        assert(a =~= b);
    } else {
        if b.len() == 0 {
            assert(ea.len() >= escape_char(a[0], sep, tag).len());
        }
        let ca = escape_char(a[0], sep, tag);
        let cb = escape_char(b[0], sep, tag);
        assert(ea[0] == ca[0]);
        assert(ea[0] == cb[0]);
        if ca[0] == '_' {
            assert(ea[1] == ca[1]);
            assert(ea[1] == cb[1]);
        }
        assert(a[0] == b[0]);
        assert(ea.subrange(ca.len() as int, ea.len() as int) =~= escaped(a.drop_first(), sep, tag));
        assert(ea.subrange(cb.len() as int, ea.len() as int) =~= escaped(b.drop_first(), sep, tag));
        lemma_escaped_injective(a.drop_first(), b.drop_first(), sep, tag);
        assert(a =~= seq![a[0]] + a.drop_first());
        assert(b =~= seq![b[0]] + b.drop_first());
    }
}

/// Appends `s` to `r` escaped; `code` is how the separator is written.
fn append_escaped(r: &mut String, s: &str, sep: char, tag: char, code: &str)
    requires
        code@ == seq!['_', tag],
    ensures
        final(r)@ == old(r)@ + escaped(s@, sep, tag),
{
    proof {
        reveal_strlit("__");
        assert("__"@ =~= seq!['_', '_']);
    }
    let ghost start = r@;
    let n = s.unicode_len();
    let mut i: usize = 0;
    assert(s@.subrange(0, 0) =~= Seq::<char>::empty());
    while i < n
        invariant
            n == s@.len(),
            0 <= i <= n,
            code@ == seq!['_', tag],
            "__"@ == seq!['_', '_'],
            r@ == start + escaped(s@.subrange(0, i as int), sep, tag),
        decreases n - i,
    {
        let c = s.get_char(i);
        if c == '_' {
            r.append("__");
        } else if c == sep {
            r.append(code);
        } else {
            let one = s.substring_char(i, i + 1);
            assert(one@ =~= seq![c]);
            r.append(one);
        }
        proof {
            assert(s@.subrange(0, i + 1) =~= s@.subrange(0, i as int).push(c));
            lemma_escaped_push(s@.subrange(0, i as int), c, sep, tag);
        }
        i += 1;
    }
    assert(s@.subrange(0, n as int) =~= s@);
}

/// The shared builder image for a kernel version.
pub fn get_build_image_identifier(kernel_version: &str) -> (r: String)
    ensures
        r@ == builder_image_id(kernel_version@),
{
    let mut r = String::from_str("podmod-builder:");
    r.append(TOOL_VERSION);
    r.append("-");
    r.append(kernel_version);
    r
}

/// The shared runtime image for a kernel version.
pub fn get_runtime_image_identifier(kernel_version: &str) -> (r: String)
    ensures
        r@ == runtime_image_id(kernel_version@),
{
    let mut r = String::from_str("podmod-runtime:");
    r.append(TOOL_VERSION);
    r.append("-");
    r.append(kernel_version);
    r
}

/// The image of one version of a module, for a kernel version.
pub fn get_module_image_identifier(module: &str, module_version: &str, kernel_version: &str) -> (r:
    String)
    ensures
        r@ == module_image_id(module@, module_version@, kernel_version@),
{
    proof {
        reveal_strlit("_c");
        reveal_strlit("_d");
        assert("_c"@ =~= seq!['_', 'c']);
        assert("_d"@ =~= seq!['_', 'd']);
    }
    let mut r = String::from_str("podmod-");
    append_escaped(&mut r, module, ':', 'c', "_c");
    r.append(":");
    append_escaped(&mut r, module_version, '-', 'd', "_d");
    r.append("-");
    r.append(kernel_version);
    r
}

/// Module image names are injective: the name determines the module, the
/// module version and the kernel version. With the determinism of
/// `module_image_id`, distinct triples name distinct images.
pub proof fn lemma_module_image_id_injective(
    m1: Seq<char>,
    v1: Seq<char>,
    k1: Seq<char>,
    m2: Seq<char>,
    v2: Seq<char>,
    k2: Seq<char>,
)
    requires
        module_image_id(m1, v1, k1) == module_image_id(m2, v2, k2),
    ensures
        m1 == m2,
        v1 == v2,
        k1 == k2,
{
    reveal_strlit("podmod-");
    reveal_strlit(":");
    reveal_strlit("-");
    let e1 = module_part(m1);
    let e2 = module_part(m2);
    let f1 = version_part(v1);
    let f2 = version_part(v2);
    lemma_escaped_avoids(m1, ':', 'c');
    lemma_escaped_avoids(m2, ':', 'c');
    lemma_escaped_avoids(v1, '-', 'd');
    lemma_escaped_avoids(v2, '-', 'd');
    let s1 = module_image_id(m1, v1, k1);
    let s2 = module_image_id(m2, v2, k2);
    let p = "podmod-"@;
    assert(p.len() == 7);
    assert forall|i: int| 0 <= i < e1.len() implies s1[7 + i] == e1[i] by {}
    assert forall|i: int| 0 <= i < e2.len() implies s2[7 + i] == e2[i] by {}
    assert(s1[7 + e1.len() as int] == ':');
    assert(s2[7 + e2.len() as int] == ':');
    if e1.len() < e2.len() {
        assert(e2[e1.len() as int] == ':');
    }
    if e2.len() < e1.len() {
        assert(e1[e2.len() as int] == ':');
    }
    assert(e1.len() == e2.len());
    assert(e1 =~= e2);
    lemma_escaped_injective(m1, m2, ':', 'c');
    let o: int = 8 + e1.len() as int;
    assert forall|i: int| 0 <= i < f1.len() implies s1[o + i] == f1[i] by {}
    assert forall|i: int| 0 <= i < f2.len() implies s2[o + i] == f2[i] by {}
    assert(s1[o + f1.len() as int] == '-');
    assert(s2[o + f2.len() as int] == '-');
    if f1.len() < f2.len() {
        assert(f2[f1.len() as int] == '-');
    }
    if f2.len() < f1.len() {
        assert(f1[f2.len() as int] == '-');
    }
    assert(f1.len() == f2.len());
    assert(f1 =~= f2);
    lemma_escaped_injective(v1, v2, '-', 'd');
    let q: int = o + f1.len() as int + 1;
    assert(s1.len() == s2.len());
    assert(k1.len() == k2.len());
    assert forall|i: int| 0 <= i < k1.len() implies k1[i] == k2[i] by {
        assert(s1[q + i] == k1[i]);
        assert(s2[q + i] == k2[i]);
    }
    assert(k1 =~= k2);
}

} // verus!
