//! Reading the answers of the host's status commands.

use vstd::prelude::*;
use vstd::std_specs::iter::IteratorSpec;
use vstd::string::*;

verus! {

/// Ends the first field of a line of the loaded-module listing.
pub open spec fn is_field_end(c: char) -> bool {
    c == ' ' || c == '\t' || c == '\n'
}

/// `module` stands at position `i` of `listing` as the first field of a
/// line other than the first, which is the listing's header.
pub open spec fn listed_at(listing: Seq<char>, module: Seq<char>, i: int) -> bool {
    &&& 0 < i
    &&& i + module.len() <= listing.len()
    &&& listing[i - 1] == '\n'
    &&& listing.subrange(i, i + module.len()) == module
    &&& i + module.len() == listing.len() || is_field_end(listing[i + module.len()])
}

/// Whether a listing of loaded modules (a header line, then one module per
/// line, its name first) names the module.
pub open spec fn module_listed(listing: Seq<char>, module: Seq<char>) -> bool {
    module.len() > 0 && exists|i: int| listed_at(listing, module, i)
}

/// Whether the Secure Boot state report says "enabled".
pub open spec fn reports_enabled(report: Seq<char>) -> bool {
    exists|i: int|
        0 <= i && i + 7 <= report.len() && #[trigger] report.subrange(i, i + 7) == "enabled"@
}

fn chars_of(s: &str) -> (r: Vec<char>)
    ensures
        r@ == s@,
{
    broadcast use vstd::string::group_string_axioms;

    let mut it = s.chars();
    let mut r: Vec<char> = Vec::new();
    loop
        invariant
            it.obeys_prophetic_iter_laws(),
            it.decrease() is Some,
            r@ + it.remaining() == s@,
        decreases it.decrease()->0,
    {
        match it.next() {
            Some(c) => {
                r.push(c);
                assert(r@ + it.remaining() =~= s@);
            },
            None => {
                assert(r@ =~= s@);
                return r;
            },
        }
    }
}

/// `char::is_whitespace`: the characters with Unicode's White_Space
/// property.
pub open spec fn is_white_space(c: char) -> bool {
    ('\t' <= c && c <= '\r') || c == ' ' || c == '\u{85}' || c == '\u{a0}' || c == '\u{1680}'
        || ('\u{2000}' <= c && c <= '\u{200a}') || c == '\u{2028}' || c == '\u{2029}' || c
        == '\u{202f}' || c == '\u{205f}' || c == '\u{3000}'
}

fn white_space(c: char) -> (r: bool)
    ensures
        r == is_white_space(c),
{
    ('\t' <= c && c <= '\r') || c == ' ' || c == '\u{85}' || c == '\u{a0}' || c == '\u{1680}'
        || ('\u{2000}' <= c && c <= '\u{200a}') || c == '\u{2028}' || c == '\u{2029}' || c
        == '\u{202f}' || c == '\u{205f}' || c == '\u{3000}'
}

/// `r` is `s` without its leading and trailing white space.
pub open spec fn is_trim_of(r: Seq<char>, s: Seq<char>) -> bool {
    exists|a: int, b: int|
        {
            &&& 0 <= a <= b <= s.len()
            &&& r == #[trigger] s.subrange(a, b)
            &&& forall|i: int| 0 <= i < a ==> is_white_space(s[i])
            &&& forall|i: int| b <= i < s.len() ==> is_white_space(s[i])
            &&& a < b ==> !is_white_space(s[a]) && !is_white_space(s[b - 1])
        }
}

/// The answer of a query that prints one value (the kernel release, the
/// architecture): its output without surrounding white space.
pub fn probe_text(output: &str) -> (r: String)
    ensures
        is_trim_of(r@, output@),
{
    let text = chars_of(output);
    let n = text.len();
    let mut a: usize = 0;
    while a < n && white_space(text[a])
        invariant
            n == text@.len(),
            0 <= a <= n,
            forall|i: int| 0 <= i < a ==> is_white_space(text@[i]),
        decreases n - a,
    {
        a += 1;
    }
    let mut b: usize = n;
    while b > a && white_space(text[b - 1])
        invariant
            n == text@.len(),
            0 <= a <= b <= n,
            forall|i: int| b <= i < n ==> is_white_space(text@[i]),
        decreases b,
    {
        b -= 1;
    }
    let r = String::from_str(output.substring_char(a, b));
    assert(text@ == output@);
    assert(r@ == output@.subrange(a as int, b as int));
    r
}

/// Whether `part` stands in `text` at position `i`.
fn occurs_at(text: &Vec<char>, part: &Vec<char>, i: usize) -> (r: bool)
    requires
        i + part@.len() <= text@.len(),
    ensures
        r == (text@.subrange(i as int, i + part@.len()) == part@),
{
    let n = text.len();
    assert(n == text@.len());
    let mut j: usize = 0;
    while j < part.len()
        invariant
            i + part@.len() <= text@.len(),
            text@.len() <= usize::MAX,
            0 <= j <= part@.len(),
            forall|k: int| 0 <= k < j ==> text@[i + k] == part@[k],
        decreases part@.len() - j,
    {
        if text[i + j] != part[j] {
            assert(text@.subrange(i as int, i + part@.len())[j as int] != part@[j as int]);
            return false;
        }
        j += 1;
    }
    assert(text@.subrange(i as int, i + part@.len()) =~= part@);
    true
}

/// Whether the listing of loaded modules (the output of `lsmod`) names
/// `module` at the start of a line after the header.
pub fn is_module_listed(listing: &str, module: &str) -> (r: bool)
    ensures
        r == module_listed(listing@, module@),
{
    let text = chars_of(listing);
    let name = chars_of(module);
    if name.len() == 0 {
        return false;
    }
    if name.len() > text.len() {
        assert forall|i: int| !listed_at(listing@, module@, i) by {}
        return false;
    }
    let last = text.len() - name.len();
    let mut i: usize = 0;
    while i <= last
        invariant
            text@ == listing@,
            text@.len() <= usize::MAX,
            name@ == module@,
            name@.len() > 0,
            last == text@.len() - name@.len(),
            0 <= i <= last + 1,
            forall|j: int| 0 <= j < i ==> !listed_at(listing@, module@, j),
        decreases last + 1 - i,
    {
        let starts_line = i > 0 && text[i - 1] == '\n';
        let end = i + name.len();
        let ends_field = end == text.len() || text[end] == ' ' || text[end] == '\t' || text[end]
            == '\n';
        if starts_line && ends_field && occurs_at(&text, &name, i) {
            assert(listed_at(listing@, module@, i as int));
            return true;
        }
        i += 1;
    }
    assert forall|j: int| !listed_at(listing@, module@, j) by {
        if 0 <= j < i {
        }
    }
    false
}

/// Whether the Secure Boot state report (the output of
/// `mokutil --sb-state`) says "enabled".
pub fn is_enabled_report(report: &str) -> (r: bool)
    ensures
        r == reports_enabled(report@),
{
    let text = chars_of(report);
    let word = chars_of("enabled");
    proof {
        reveal_strlit("enabled");
    }
    if text.len() < 7 {
        assert forall|i: int| 0 <= i && i + 7 <= report@.len() implies #[trigger] report@.subrange(i, i + 7)
            != "enabled"@ by {}
        return false;
    }
    let last = text.len() - 7;
    let mut i: usize = 0;
    while i <= last
        invariant
            text@ == report@,
            text@.len() <= usize::MAX,
            word@ == "enabled"@,
            word@.len() == 7,
            last == text@.len() - 7,
            0 <= i <= last + 1,
            forall|j: int| 0 <= j < i ==> #[trigger] report@.subrange(j, j + 7) != "enabled"@,
        decreases last + 1 - i,
    {
        if occurs_at(&text, &word, i) {
            return true;
        }
        i += 1;
    }
    assert forall|j: int| 0 <= j && j + 7 <= report@.len() implies #[trigger] report@.subrange(j, j + 7)
        != "enabled"@ by {
        assert(j < i);
    }
    false
}

} // verus!
