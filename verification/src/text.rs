//! Small text primitives shared by the other modules.

use vstd::prelude::*;
use vstd::string::StrSliceExecFns;

verus! {

/// Compares two string slices character by character.
pub fn str_eq(a: &str, b: &str) -> (r: bool)
    ensures
        r == (a@ == b@),
{
    let n = a.unicode_len();
    if n != b.unicode_len() {
        return false;
    }
    let mut i: usize = 0;
    while i < n
        invariant
            n == a@.len(),
            n == b@.len(),
            i <= n,
            forall|k: int| 0 <= k < i ==> a@[k] == b@[k],
        decreases n - i,
    {
        if a.get_char(i) != b.get_char(i) {
            return false;
        }
        i = i + 1;
    }
    assert(a@ =~= b@);
    true
}

} // verus!

use heck::{ToKebabCase, ToPascalCase, ToSnakeCase, ToTitleCase};

verus! {

/// What heck's kebab-case conversion gives for a text.
pub uninterp spec fn kebab_case(s: Seq<char>) -> Seq<char>;

/// What heck's PascalCase conversion gives for a text.
pub uninterp spec fn pascal_case(s: Seq<char>) -> Seq<char>;

/// What heck's snake_case conversion gives for a text.
pub uninterp spec fn snake_case(s: Seq<char>) -> Seq<char>;

/// What heck's Title Case conversion gives for a text.
pub uninterp spec fn title_case(s: Seq<char>) -> Seq<char>;

/// Whether syn parses a text as one Rust identifier.
pub uninterp spec fn parses_as_ident(s: Seq<char>) -> bool;

/// The message of the error syn reports when a text does not parse as a
/// Rust path, or `None` when it parses.
pub uninterp spec fn path_parse_error(s: Seq<char>) -> Option<Seq<char>>;

/// The message of the error syn reports when a text does not parse as a
/// Rust type, or `None` when it parses.
pub uninterp spec fn type_parse_error(s: Seq<char>) -> Option<Seq<char>>;

/// Whether syn parses a text as a Rust path.
pub open spec fn parses_as_path(s: Seq<char>) -> bool {
    path_parse_error(s) is None
}

/// Converts a text to kebab case with `heck::ToKebabCase::to_kebab_case`
/// (words split at non-alphanumerics and case changes, lowercased, joined
/// by `-`). The contract only names the result: it is a function of the text.
#[verifier::external_body]
pub(crate) fn to_kebab_case(s: &str) -> (r: String)
    ensures
        r@ == kebab_case(s@),
{
    s.to_kebab_case()
}

/// Converts a text to PascalCase with `heck::ToPascalCase::to_pascal_case`.
/// The contract only names the result: it is a function of the text.
#[verifier::external_body]
pub(crate) fn to_pascal_case(s: &str) -> (r: String)
    ensures
        r@ == pascal_case(s@),
{
    s.to_pascal_case()
}

/// Converts a text to snake_case with `heck::ToSnakeCase::to_snake_case`.
/// The contract only names the result: it is a function of the text.
#[verifier::external_body]
pub(crate) fn to_snake_case(s: &str) -> (r: String)
    ensures
        r@ == snake_case(s@),
{
    s.to_snake_case()
}

/// Converts a text to Title Case with `heck::ToTitleCase::to_title_case`.
/// The contract only names the result: it is a function of the text.
#[verifier::external_body]
pub(crate) fn to_title_case(s: &str) -> (r: String)
    ensures
        r@ == title_case(s@),
{
    s.to_title_case()
}

/// Whether `syn::parse_str::<syn::Ident>` accepts the text (a single Rust
/// identifier, keywords refused). Only named: it depends on the text alone.
#[verifier::external_body]
pub(crate) fn is_rust_ident(s: &str) -> (r: bool)
    ensures
        r == parses_as_ident(s@),
{
    syn::parse_str::<syn::Ident>(s).is_ok()
}

/// Parses a text as a Rust path (such as `a::b::C`) with
/// `syn::parse_str::<syn::Path>`, giving back the error's message when syn
/// refuses it. Only named: the outcome depends on the text alone.
#[verifier::external_body]
pub(crate) fn check_rust_path(s: &str) -> (r: Option<String>)
    ensures
        r.deep_view() == path_parse_error(s@),
{
    syn::parse_str::<syn::Path>(s).err().map(|e| e.to_string())
}

/// Parses a text as a Rust type (such as `Vec<String>`) with
/// `syn::parse_str::<syn::Type>`, giving back the error's message when syn
/// refuses it. Only named: the outcome depends on the text alone.
#[verifier::external_body]
pub(crate) fn check_rust_type(s: &str) -> (r: Option<String>)
    ensures
        r.deep_view() == type_parse_error(s@),
{
    syn::parse_str::<syn::Type>(s).err().map(|e| e.to_string())
}

/// Whether the text parses as a Rust path.
pub fn is_rust_path(s: &str) -> (r: bool)
    ensures
        r == parses_as_path(s@),
{
    check_rust_path(s).is_none()
}

} // verus!


verus! {

/// Lexicographic order on texts by character code: a proper prefix comes
/// first, otherwise the first differing character decides.
pub open spec fn chars_lt(a: Seq<char>, b: Seq<char>) -> bool
    decreases a.len(),
{
    if a.len() == 0 {
        b.len() > 0
    } else if b.len() == 0 {
        false
    } else if a[0] != b[0] {
        (a[0] as int) < (b[0] as int)
    } else {
        chars_lt(a.drop_first(), b.drop_first())
    }
}

/// `chars_lt` is irreflexive, asymmetric and total on distinct texts.
pub proof fn lemma_chars_lt_strict_total(a: Seq<char>, b: Seq<char>)
    ensures
        !chars_lt(a, a),
        chars_lt(a, b) ==> !chars_lt(b, a),
        a != b ==> chars_lt(a, b) || chars_lt(b, a),
    decreases a.len(),
{
    if a.len() > 0 && b.len() > 0 {
        if a[0] != b[0] {
            assert((a[0] as int) != (b[0] as int));
        }
        lemma_chars_lt_strict_total(a.drop_first(), b.drop_first());
        if a[0] == b[0] && a != b {
            assert(a =~= seq![a[0]] + a.drop_first());
            assert(b =~= seq![b[0]] + b.drop_first());
            assert(a.drop_first() != b.drop_first());
        }
    }
    if a.len() > 0 {
        lemma_chars_lt_strict_total(a.drop_first(), a.drop_first());
    }
    if a.len() == 0 && b.len() == 0 {
        assert(a =~= b);
    }
}

/// `chars_lt` is transitive.
pub proof fn lemma_chars_lt_transitive(a: Seq<char>, b: Seq<char>, c: Seq<char>)
    requires
        chars_lt(a, b),
        chars_lt(b, c),
    ensures
        chars_lt(a, c),
    decreases a.len(),
{
    if a.len() > 0 && b.len() > 0 && c.len() > 0 {
        if a[0] == b[0] && b[0] == c[0] {
            lemma_chars_lt_transitive(a.drop_first(), b.drop_first(), c.drop_first());
        }
    }
}

/// Whether `a` comes strictly before `b` in character order.
pub fn str_lt(a: &str, b: &str) -> (r: bool)
    ensures
        r == chars_lt(a@, b@),
{
    let la = a.unicode_len();
    let lb = b.unicode_len();
    let mut i: usize = 0;
    assert(a@.subrange(0, la as int) =~= a@);
    assert(b@.subrange(0, lb as int) =~= b@);
    while i < la && i < lb
        invariant
            la == a@.len(),
            lb == b@.len(),
            i <= la,
            i <= lb,
            a@.subrange(0, i as int) == b@.subrange(0, i as int),
            chars_lt(a@, b@) == chars_lt(a@.subrange(i as int, la as int), b@.subrange(
                i as int,
                lb as int,
            )),
        decreases la - i,
    {
        let ca = a.get_char(i);
        let cb = b.get_char(i);
        let ghost ra = a@.subrange(i as int, la as int);
        let ghost rb = b@.subrange(i as int, lb as int);
        assert(ra[0] == ca && rb[0] == cb);
        if ca != cb {
            return (ca as u32) < (cb as u32);
        }
        assert(ra.drop_first() =~= a@.subrange(i + 1, la as int));
        assert(rb.drop_first() =~= b@.subrange(i + 1, lb as int));
        assert(a@.subrange(0, i + 1) =~= a@.subrange(0, i as int).push(ca));
        assert(b@.subrange(0, i + 1) =~= b@.subrange(0, i as int).push(cb));
        i = i + 1;
    }
    i < lb && i == la
}

} // verus!

verus! {

/// Appends one character to a string, with std's `String::push`.
#[verifier::external_body]
pub(crate) fn push_char(s: &mut String, c: char)
    ensures
        final(s)@ == old(s)@.push(c),
{
    s.push(c);
}

/// The text with every `-` replaced by `_`.
pub open spec fn dashes_to_underscores(s: Seq<char>) -> Seq<char> {
    s.map_values(|c: char| if c == '-' { '_' } else { c })
}

/// Copies a text, replacing every `-` by `_`.
pub fn replace_dashes(s: &str) -> (r: String)
    ensures
        r@ == dashes_to_underscores(s@),
{
    let n = s.unicode_len();
    let mut out = String::new();
    let mut i: usize = 0;
    while i < n
        invariant
            n == s@.len(),
            i <= n,
            out@ == dashes_to_underscores(s@.subrange(0, i as int)),
        decreases n - i,
    {
        let c = s.get_char(i);
        let d = if c == '-' {
            '_'
        } else {
            c
        };
        push_char(&mut out, d);
        assert(s@.subrange(0, i + 1) =~= s@.subrange(0, i as int).push(c));
        assert(out@ =~= dashes_to_underscores(s@.subrange(0, i + 1)));
        i = i + 1;
    }
    assert(s@.subrange(0, n as int) =~= s@);
    out
}

/// Whether `::` occurs in the text.
pub open spec fn has_double_colon(s: Seq<char>) -> bool {
    exists|k: int| 0 <= k && k + 1 < s.len() && s[k] == ':' && #[trigger] s[k + 1] == ':'
}

/// Whether `::` occurs in the text.
pub fn contains_double_colon(s: &str) -> (r: bool)
    ensures
        r == has_double_colon(s@),
{
    let n = s.unicode_len();
    let mut i: usize = 0;
    while i < n && i + 1 < n
        invariant
            n == s@.len(),
            i <= n,
            forall|k: int| 0 <= k < i && k + 1 < n ==> !(s@[k] == ':' && #[trigger] s@[k + 1] == ':'),
        decreases n - i,
    {
        if s.get_char(i) == ':' && s.get_char(i + 1) == ':' {
            assert(s@[i + 1] == ':');
            return true;
        }
        i = i + 1;
    }
    false
}

/// The segments joined by `sep`.
pub open spec fn joined(segments: Seq<Seq<char>>, sep: Seq<char>) -> Seq<char>
    decreases segments.len(),
{
    if segments.len() == 0 {
        Seq::empty()
    } else if segments.len() == 1 {
        segments[0]
    } else {
        joined(segments.drop_last(), sep) + sep + segments.last()
    }
}

/// The text std's `Debug` formatting writes for a string slice: the
/// characters between double quotes, with quotes, backslashes and
/// non-printable characters escaped.
pub uninterp spec fn debug_text(s: Seq<char>) -> Seq<char>;

/// Formats a string slice with std's `Debug` (`format!("{:?}", s)`); the
/// contract names the result, which depends on the text alone.
#[verifier::external_body]
pub(crate) fn str_debug(s: &str) -> (r: String)
    ensures
        r@ == debug_text(s@),
{
    format!("{:?}", s)
}

} // verus!
