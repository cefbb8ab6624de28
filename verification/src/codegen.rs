//! Decisions behind the generated form scaffolds: validating a form shape's
//! names, deriving the module path of the source file, planning the imports
//! the generated file needs, and placing section headings.

use vstd::prelude::*;

use crate::imports::{keys_of, opt_chars, ImportItem, ImportSet, ItemKey};
use crate::registry::{name_with_behaviour, FieldVariant, GpuiFormShape};
use crate::schema::components::{ComponentsBehaviour, NumberInputKind};
use crate::text::{
    check_rust_path, check_rust_type, contains_double_colon, joined, dashes_to_underscores, has_double_colon, is_rust_ident, is_rust_path,
    parses_as_ident, parses_as_path, pascal_case, path_parse_error, push_char, replace_dashes,
    snake_case, str_eq, title_case, to_snake_case, to_title_case, type_parse_error,
};
use vstd::string::StrSliceExecFns;

verus! {

/// The pieces of a text cut at every `/` (empty pieces included).
pub open spec fn slash_pieces(s: Seq<char>) -> Seq<Seq<char>>
    decreases s.len(),
{
    if s.len() == 0 {
        seq![Seq::empty()]
    } else {
        let p = slash_pieces(s.drop_last());
        if s.last() == '/' {
            p.push(Seq::empty())
        } else {
            p.update(p.len() - 1, p.last().push(s.last()))
        }
    }
}

/// A text has at least one piece.
proof fn lemma_slash_pieces_nonempty(s: Seq<char>)
    ensures
        slash_pieces(s).len() >= 1,
    decreases s.len(),
{
    if s.len() > 0 {
        lemma_slash_pieces_nonempty(s.drop_last());
    }
}

/// A piece as a path component: `..` is not a normal component (`None`),
/// anything else is the normal component of that name.
pub open spec fn component_of(piece: Seq<char>) -> Option<Seq<char>> {
    if piece == seq!['.', '.'] {
        None
    } else {
        Some(piece)
    }
}

/// Whether a piece names no component: an empty piece (from a leading `/` or
/// from repeated separators) or `.`.
pub open spec fn is_skipped_piece(piece: Seq<char>) -> bool {
    piece.len() == 0 || piece == seq!['.']
}

/// The components named by a sequence of pieces.
pub open spec fn components_of_pieces(ps: Seq<Seq<char>>) -> Seq<Option<Seq<char>>>
    decreases ps.len(),
{
    if ps.len() == 0 {
        Seq::empty()
    } else {
        let k = components_of_pieces(ps.drop_last());
        if is_skipped_piece(ps.last()) {
            k
        } else {
            k.push(component_of(ps.last()))
        }
    }
}

/// The components of a `/`-separated path, as std's `Path::components`
/// yields them on Unix, less the root and `.` components: `Some(name)` for a
/// normal component, `None` for `..`. (A root or `.` component can only
/// stand first, where it can never be the crate directory before `src`, so
/// leaving it out does not change the use-path derived below.)
pub open spec fn path_components_of(s: Seq<char>) -> Seq<Option<Seq<char>>> {
    components_of_pieces(slash_pieces(s))
}

proof fn lemma_slash_pieces_concat(a: Seq<char>, b: Seq<char>)
    ensures
        slash_pieces(a.push('/') + b) == slash_pieces(a) + slash_pieces(b),
    decreases b.len(),
{
    let x = a.push('/') + b;
    if b.len() == 0 {
        assert(x =~= a.push('/'));
        assert(x.drop_last() =~= a);
        assert(slash_pieces(a) + slash_pieces(b) =~= slash_pieces(a).push(Seq::empty()));
    } else {
        lemma_slash_pieces_concat(a, b.drop_last());
        assert(x.drop_last() =~= a.push('/') + b.drop_last());
        assert(x.last() == b.last());
        lemma_slash_pieces_nonempty(b.drop_last());
        let p = slash_pieces(a);
        let q = slash_pieces(b.drop_last());
        if b.last() == '/' {
            assert((p + q).push(Seq::empty()) =~= p + q.push(Seq::empty()));
        } else {
            let pq = p + q;
            assert(pq.last() == q.last());
            assert(pq.update(pq.len() - 1, pq.last().push(b.last())) =~= p + q.update(
                q.len() - 1,
                q.last().push(b.last()),
            ));
        }
    }
}

proof fn lemma_components_concat(ps: Seq<Seq<char>>, qs: Seq<Seq<char>>)
    ensures
        components_of_pieces(ps + qs) == components_of_pieces(ps) + components_of_pieces(qs),
    decreases qs.len(),
{
    if qs.len() == 0 {
        assert(ps + qs =~= ps);
        assert(components_of_pieces(ps) + components_of_pieces(qs) =~= components_of_pieces(ps));
    } else {
        lemma_components_concat(ps, qs.drop_last());
        assert((ps + qs).drop_last() =~= ps + qs.drop_last());
        assert((ps + qs).last() == qs.last());
        let a = components_of_pieces(ps);
        let b = components_of_pieces(qs.drop_last());
        if !is_skipped_piece(qs.last()) {
            assert((a + b).push(component_of(qs.last())) =~= a + b.push(component_of(qs.last())));
        }
    }
}

/// The components of two paths joined by `/` are the components of the
/// first followed by those of the second: every `/` separates components,
/// empty and `.` pieces name none, and `..` is kept as a parent step.
pub proof fn lemma_path_components_concat(a: Seq<char>, b: Seq<char>)
    ensures
        path_components_of(a.push('/') + b) == path_components_of(a) + path_components_of(b),
{
    lemma_slash_pieces_concat(a, b);
    lemma_components_concat(slash_pieces(a), slash_pieces(b));
}

/// A single piece (no `/`) is one normal component, unless it is empty or
/// `.` (no component) or `..` (a parent step).
pub proof fn lemma_path_components_of_a_name(t: Seq<char>)
    requires
        forall|i: int| 0 <= i < t.len() ==> t[i] != '/',
    ensures
        path_components_of(t) == if t.len() == 0 || t == seq!['.'] {
            Seq::<Option<Seq<char>>>::empty()
        } else if t == seq!['.', '.'] {
            seq![None]
        } else {
            seq![Some(t)]
        },
    decreases t.len(),
{
    lemma_single_piece(t);
    assert(seq![t].drop_last() =~= Seq::<Seq<char>>::empty());
    assert(seq![t].last() == t);
    let e = Seq::<Seq<char>>::empty();
    assert(components_of_pieces(e) == Seq::<Option<Seq<char>>>::empty());
    assert(components_of_pieces(seq![t]) == if is_skipped_piece(t) {
        components_of_pieces(e)
    } else {
        components_of_pieces(e).push(component_of(t))
    });
    assert(Seq::<Option<Seq<char>>>::empty().push(component_of(t)) =~= seq![component_of(t)]);
    if t.len() == 0 {
        assert(is_skipped_piece(t));
    }
}

proof fn lemma_single_piece(t: Seq<char>)
    requires
        forall|i: int| 0 <= i < t.len() ==> t[i] != '/',
    ensures
        slash_pieces(t) == seq![t],
    decreases t.len(),
{
    if t.len() == 0 {
        assert(t =~= Seq::<char>::empty());
    } else {
        lemma_single_piece(t.drop_last());
        assert(t.last() != '/');
        assert(t.drop_last().push(t.last()) =~= t);
        assert(seq![t.drop_last()].update(0, t.drop_last().push(t.last())) =~= seq![t]);
    }
}

/// Adds the component that a piece names, if any.
fn push_component(out: &mut Vec<Option<String>>, piece: &str)
    ensures
        final(out).deep_view() == (if is_skipped_piece(piece@) {
            old(out).deep_view()
        } else {
            old(out).deep_view().push(component_of(piece@))
        }),
{
    proof {
        reveal_strlit(".");
        reveal_strlit("..");
        assert("."@ =~= seq!['.']);
        assert(".."@ =~= seq!['.', '.']);
    }
    if piece.unicode_len() == 0 || str_eq(piece, ".") {
        return;
    }
    let ghost before = out.deep_view();
    if str_eq(piece, "..") {
        out.push(None);
    } else {
        out.push(Some(String::from_str(piece)));
    }
    assert(out.deep_view() =~= before.push(component_of(piece@)));
}

/// Splits a path into its components (see `path_components_of`).
pub fn path_components(s: &str) -> (r: Vec<Option<String>>)
    ensures
        r.deep_view() == path_components_of(s@),
{
    let n = s.unicode_len();
    let mut out: Vec<Option<String>> = Vec::new();
    let mut cur = String::new();
    let ghost mut done: Seq<Seq<char>> = Seq::empty();
    let mut i: usize = 0;
    assert(out.deep_view() =~= Seq::<Option<Seq<char>>>::empty());
    assert(s@.subrange(0, 0) =~= Seq::<char>::empty());
    while i < n
        invariant
            n == s@.len(),
            i <= n,
            done.push(cur@) == slash_pieces(s@.subrange(0, i as int)),
            out.deep_view() == components_of_pieces(done),
        decreases n - i,
    {
        let c = s.get_char(i);
        let ghost pre = s@.subrange(0, i as int);
        assert(s@.subrange(0, i + 1) =~= pre.push(c));
        assert(s@.subrange(0, i + 1).drop_last() =~= pre);
        if c == '/' {
            push_component(&mut out, cur.as_str());
            proof {
                assert(done.push(cur@).drop_last() =~= done);
                done = done.push(cur@);
            }
            cur = String::new();
            assert(done.push(cur@) =~= slash_pieces(pre).push(Seq::empty()));
        } else {
            let ghost old_cur = cur@;
            push_char(&mut cur, c);
            proof {
                lemma_slash_pieces_nonempty(pre);
                assert(done.push(cur@) =~= done.push(old_cur).update(
                    done.len() as int,
                    old_cur.push(c),
                ));
            }
        }
        i = i + 1;
    }
    push_component(&mut out, cur.as_str());
    proof {
        assert(s@.subrange(0, n as int) =~= s@);
        assert(done.push(cur@).drop_last() =~= done);
    }
    out
}

/// The text without a trailing `.rs`, if it has one.
pub open spec fn strip_rs(t: Seq<char>) -> Seq<char> {
    if t.len() >= 3 && t.subrange(t.len() - 3, t.len() as int) == seq!['.', 'r', 's'] {
        t.subrange(0, t.len() - 3)
    } else {
        t
    }
}

/// The position of the first `src` component at or after `i`.
pub open spec fn find_src(comps: Seq<Option<Seq<char>>>, i: int) -> Option<int>
    decreases comps.len() - i,
{
    if i < 0 || i >= comps.len() {
        None
    } else if comps[i] == Some(seq!['s', 'r', 'c']) {
        Some(i)
    } else {
        find_src(comps, i + 1)
    }
}

/// What `find_src` finds is a `src` component at or after `i`, with none
/// between `i` and it.
proof fn lemma_find_src(comps: Seq<Option<Seq<char>>>, i: int)
    requires
        0 <= i,
    ensures
        match find_src(comps, i) {
            Some(k) => i <= k < comps.len() && comps[k] == Some(seq!['s', 'r', 'c']) && forall|
                j: int,
            | i <= j < k ==> comps[j] != Some(seq!['s', 'r', 'c']),
            None => forall|j: int| i <= j < comps.len() ==> comps[j] != Some(seq!['s', 'r', 'c']),
        },
    decreases comps.len() - i,
{
    if i < comps.len() && comps[i] != Some(seq!['s', 'r', 'c']) {
        lemma_find_src(comps, i + 1);
    }
}

/// The module segments named by the first `n` components after `src`:
/// `..` and `mod.rs` add nothing, any other file loses a trailing `.rs` and
/// has `-` turned into `_`.
pub open spec fn module_segments(rest: Seq<Option<Seq<char>>>, n: nat) -> Seq<Seq<char>>
    decreases n,
{
    if n == 0 {
        Seq::empty()
    } else {
        let prev = module_segments(rest, (n - 1) as nat);
        match rest[n - 1] {
            None => prev,
            Some(t) => if t == seq!['m', 'o', 'd', '.', 'r', 's'] {
                prev
            } else {
                prev.push(dashes_to_underscores(strip_rs(t)))
            },
        }
    }
}

/// The `crate::module::path` text of a source file: the crate is the
/// component just before the first `src` (with `-` turned into `_`), followed
/// by the module segments after `src`, joined by `::`. `None` when there is
/// no `src` component or no normal component before it.
pub open spec fn use_path_text(comps: Seq<Option<Seq<char>>>) -> Option<Seq<char>> {
    match find_src(comps, 0) {
        None => None,
        Some(k) => if k == 0 {
            None
        } else {
            match comps[k - 1] {
                Some(c) => Some(
                    joined(
                        seq![dashes_to_underscores(c)] + module_segments(
                            comps.subrange(k + 1, comps.len() as int),
                            (comps.len() - k - 1) as nat,
                        ),
                        seq![':', ':'],
                    ),
                ),
                None => None,
            }
        },
    }
}

/// The use-path of a source file, when it can be derived and parses as a
/// Rust path.
pub open spec fn source_use_path(source_path: Seq<char>) -> Option<Seq<char>> {
    match use_path_text(path_components_of(source_path)) {
        Some(t) => if parses_as_path(t) {
            Some(t)
        } else {
            None
        },
        None => None,
    }
}

/// Whether a text holds no `-`.
pub open spec fn dash_free(t: Seq<char>) -> bool {
    forall|i: int| 0 <= i < t.len() ==> t[i] != '-'
}

proof fn lemma_module_segments_dash_free(rest: Seq<Option<Seq<char>>>, n: nat)
    requires
        n <= rest.len(),
    ensures
        forall|j: int|
            0 <= j < module_segments(rest, n).len() ==> dash_free(#[trigger] module_segments(rest, n)[j]),
    decreases n,
{
    if n > 0 {
        lemma_module_segments_dash_free(rest, (n - 1) as nat);
        let prev = module_segments(rest, (n - 1) as nat);
        match rest[n - 1] {
            Some(t) => {
                if t != seq!['m', 'o', 'd', '.', 'r', 's'] {
                    let d = dashes_to_underscores(strip_rs(t));
                    assert(dash_free(d));
                    assert(module_segments(rest, n) == prev.push(d));
                    assert forall|j: int| 0 <= j < prev.push(d).len() implies dash_free(
                        #[trigger] prev.push(d)[j],
                    ) by {
                        if j < prev.len() {
                            assert(prev.push(d)[j] == prev[j]);
                        }
                    }
                }
            },
            None => {},
        }
    }
}

proof fn lemma_joined_dash_free(segs: Seq<Seq<char>>, sep: Seq<char>)
    requires
        dash_free(sep),
        forall|j: int| 0 <= j < segs.len() ==> dash_free(#[trigger] segs[j]),
    ensures
        dash_free(joined(segs, sep)),
    decreases segs.len(),
{
    if segs.len() > 1 {
        lemma_joined_dash_free(segs.drop_last(), sep);
        let a = joined(segs.drop_last(), sep);
        let b = segs.last();
        assert(dash_free(b));
        assert forall|i: int| 0 <= i < (a + sep + b).len() implies (a + sep + b)[i] != '-' by {
            if i < a.len() {
            } else if i < a.len() + sep.len() {
                assert((a + sep + b)[i] == sep[i - a.len()]);
            } else {
                assert((a + sep + b)[i] == b[i - a.len() - sep.len()]);
            }
        }
    } else if segs.len() == 1 {
        assert(dash_free(segs[0]));
    }
}

/// The derived use-path of a source file holds no `-`: the crate directory
/// and every module file name have their dashes turned into underscores.
pub proof fn lemma_source_use_path_has_no_dashes(source_path: Seq<char>)
    ensures
        source_use_path(source_path) matches Some(t) ==> forall|i: int| 0 <= i < t.len() ==> t[i] != '-',
{
    let comps = path_components_of(source_path);
    match find_src(comps, 0) {
        Some(k) => {
            lemma_find_src(comps, 0);
            if k > 0 {
                match comps[k - 1] {
                    Some(c) => {
                        let rest = comps.subrange(k + 1, comps.len() as int);
                        let mods = module_segments(rest, (comps.len() - k - 1) as nat);
                        lemma_module_segments_dash_free(rest, (comps.len() - k - 1) as nat);
                        let segs = seq![dashes_to_underscores(c)] + mods;
                        assert(dash_free(dashes_to_underscores(c)));
                        assert forall|j: int| 0 <= j < segs.len() implies dash_free(#[trigger] segs[j]) by {
                            if j > 0 {
                                assert(segs[j] == mods[j - 1]);
                            }
                        }
                        assert(dash_free(seq![':', ':']));
                        lemma_joined_dash_free(segs, seq![':', ':']);
                    },
                    None => {},
                }
            }
        },
        None => {},
    }
}

proof fn lemma_find_src_push(comps: Seq<Option<Seq<char>>>, x: Option<Seq<char>>, i: int)
    requires
        0 <= i,
        find_src(comps, i) is Some,
    ensures
        find_src(comps.push(x), i) == find_src(comps, i),
    decreases comps.len() - i,
{
    if i < comps.len() && comps[i] != Some(seq!['s', 'r', 'c']) {
        lemma_find_src_push(comps, x, i + 1);
    }
}

proof fn lemma_module_segments_prefix(a: Seq<Option<Seq<char>>>, b: Seq<Option<Seq<char>>>, n: nat)
    requires
        n <= a.len(),
        n <= b.len(),
        forall|j: int| 0 <= j < n ==> a[j] == b[j],
    ensures
        module_segments(a, n) == module_segments(b, n),
    decreases n,
{
    if n > 0 {
        lemma_module_segments_prefix(a, b, (n - 1) as nat);
    }
}

/// A path that ends at the first `src`, right after the crate's directory
/// `c`, has the crate alone as its use-path, with `-` turned into `_`.
pub proof fn lemma_use_path_of_the_crate_root(prefix: Seq<Option<Seq<char>>>, c: Seq<char>)
    requires
        forall|j: int| 0 <= j < prefix.len() ==> prefix[j] != Some(seq!['s', 'r', 'c']),
        c != seq!['s', 'r', 'c'],
    ensures
        use_path_text(prefix.push(Some(c)).push(Some(seq!['s', 'r', 'c']))) == Some(
            dashes_to_underscores(c),
        ),
{
    let comps = prefix.push(Some(c)).push(Some(seq!['s', 'r', 'c']));
    let k: int = prefix.len() as int + 1;
    lemma_find_src(comps, 0);
    assert(comps[k] == Some(seq!['s', 'r', 'c']));
    assert forall|j: int| 0 <= j < k implies comps[j] != Some(seq!['s', 'r', 'c']) by {
        if j < prefix.len() {
            assert(comps[j] == prefix[j]);
        }
    }
    assert(find_src(comps, 0) == Some(k)) by {
        match find_src(comps, 0) {
            Some(m) => {
                assert(m == k);
            },
            None => {},
        }
    }
    assert(comps[k - 1] == Some(c));
    assert(seq![dashes_to_underscores(c)] + module_segments(comps.subrange(k + 1, comps.len() as int), 0)
        =~= seq![dashes_to_underscores(c)]);
}

/// Adding a component to a source path that has a use-path extends the
/// use-path by one module: a file or directory `x` (other than `mod.rs`)
/// adds `::x` with a trailing `.rs` removed and `-` turned into `_`;
/// `mod.rs` and `..` add nothing.
pub proof fn lemma_use_path_grows_with_the_path(comps: Seq<Option<Seq<char>>>, x: Option<Seq<char>>)
    requires
        use_path_text(comps) is Some,
    ensures
        use_path_text(comps.push(x)) == match x {
            Some(t) => if t == seq!['m', 'o', 'd', '.', 'r', 's'] {
                use_path_text(comps)
            } else {
                Some(use_path_text(comps).unwrap() + seq![':', ':'] + dashes_to_underscores(strip_rs(t)))
            },
            None => use_path_text(comps),
        },
{
    let k = find_src(comps, 0).unwrap();
    lemma_find_src(comps, 0);
    lemma_find_src_push(comps, x, 0);
    let longer = comps.push(x);
    assert(longer[k - 1] == comps[k - 1]);
    let rest = comps.subrange(k + 1, comps.len() as int);
    let rest2 = longer.subrange(k + 1, longer.len() as int);
    let n = (comps.len() - k - 1) as nat;
    assert(rest2.len() == n + 1);
    assert(rest2[n as int] == x);
    lemma_module_segments_prefix(rest, rest2, n);
    let c = comps[k - 1].unwrap();
    let head = seq![dashes_to_underscores(c)];
    let mods = module_segments(rest, n);
    let mods2 = module_segments(rest2, n + 1);
    match x {
        Some(t) => {
            if t != seq!['m', 'o', 'd', '.', 'r', 's'] {
                let seg = dashes_to_underscores(strip_rs(t));
                assert(mods2 == mods.push(seg));
                assert((head + mods2).drop_last() =~= head + mods);
                assert((head + mods2).last() == seg);
            } else {
                assert(mods2 == mods);
            }
        },
        None => {
            assert(mods2 == mods);
        },
    }
}

/// Removes a trailing `.rs`.
fn strip_rs_suffix(t: &str) -> (r: String)
    ensures
        r@ == strip_rs(t@),
{
    let n = t.unicode_len();
    if n >= 3 && t.get_char(n - 3) == '.' && t.get_char(n - 2) == 'r' && t.get_char(n - 1) == 's' {
        assert(t@.subrange(n - 3, n as int) =~= seq!['.', 'r', 's']);
        let s = t.substring_char(0, n - 3);
        String::from_str(s)
    } else {
        proof {
            if n >= 3 && t@.subrange(n - 3, n as int) == seq!['.', 'r', 's'] {
                assert(t@[n - 3] == t@.subrange(n - 3, n as int)[0]);
                assert(t@[n - 2] == t@.subrange(n - 3, n as int)[1]);
                assert(t@[n - 1] == t@.subrange(n - 3, n as int)[2]);
            }
        }
        String::from_str(t)
    }
}

/// The position of the first `src` component.
fn find_src_index(comps: &Vec<Option<String>>) -> (r: Option<usize>)
    ensures
        match r {
            Some(k) => find_src(comps.deep_view(), 0) == Some(k as int),
            None => find_src(comps.deep_view(), 0) is None,
        },
{
    let ghost cv = comps.deep_view();
    let n = comps.len();
    let mut k: usize = 0;
    proof {
        reveal_strlit("src");
        assert("src"@ =~= seq!['s', 'r', 'c']);
    }
    while k < n
        invariant
            n == comps@.len(),
            cv == comps.deep_view(),
            k <= n,
            "src"@ == seq!['s', 'r', 'c'],
            find_src(cv, 0) == find_src(cv, k as int),
        decreases n - k,
    {
        assert(cv[k as int] == comps@[k as int].deep_view());
        let is_src = match &comps[k] {
            Some(t) => str_eq(t.as_str(), "src"),
            None => false,
        };
        if is_src {
            return Some(k);
        }
        k = k + 1;
    }
    None
}

/// Converts a `file!()` path such as `examples/some-lib/src/structs/user.rs`
/// into the module path `some_lib::structs::user` used for the glob import
/// of the generated file. `None` when there is no `src` component with a
/// crate directory before it, or when the result is not a Rust path.
pub fn source_path_to_use_path(source_path: &str) -> (r: Option<String>)
    ensures
        match r {
            Some(t) => source_use_path(source_path@) == Some(t@),
            None => source_use_path(source_path@) is None,
        },
{
    let comps = path_components(source_path);
    let ghost cv = comps.deep_view();
    let n = comps.len();
    let k = match find_src_index(&comps) {
        Some(k) => k,
        None => {
            return None;
        },
    };
    proof {
        lemma_find_src(cv, 0);
    }
    if k == 0 {
        return None;
    }
    assert(cv[k - 1] == comps@[k - 1].deep_view());
    let crate_name = match &comps[k - 1] {
        Some(c) => replace_dashes(c.as_str()),
        None => {
            return None;
        },
    };
    let ghost rest = cv.subrange(k + 1, n as int);
    let ghost head = crate_name@;
    let mut out = crate_name;
    let mut j: usize = k + 1;
    proof {
        reveal_strlit("mod.rs");
        reveal_strlit("::");
        assert("mod.rs"@ =~= seq!['m', 'o', 'd', '.', 'r', 's']);
        assert("::"@ =~= seq![':', ':']);
        assert(seq![head] + module_segments(rest, 0) =~= seq![head]);
    }
    while j < n
        invariant
            n == comps@.len(),
            cv == comps.deep_view(),
            k + 1 <= j <= n,
            rest == cv.subrange(k + 1, n as int),
            "mod.rs"@ == seq!['m', 'o', 'd', '.', 'r', 's'],
            "::"@ == seq![':', ':'],
            out@ == joined(seq![head] + module_segments(rest, (j - k - 1) as nat), seq![':', ':']),
        decreases n - j,
    {
        assert(cv[j as int] == comps@[j as int].deep_view());
        assert(rest[j - k - 1] == cv[j as int]);
        let ghost segs = seq![head] + module_segments(rest, (j - k - 1) as nat);
        match &comps[j] {
            None => {},
            Some(t) => {
                if !str_eq(t.as_str(), "mod.rs") {
                    let seg = strip_rs_suffix(t.as_str());
                    let seg = replace_dashes(seg.as_str());
                    out.append("::");
                    out.append(seg.as_str());
                    proof {
                        let next = segs.push(seg@);
                        assert(next.drop_last() =~= segs);
                        assert(next =~= seq![head] + module_segments(rest, (j - k) as nat));
                    }
                }
            },
        }
        j = j + 1;
    }
    assert(rest.len() == n - k - 1);
    if is_rust_path(out.as_str()) {
        Some(out)
    } else {
        None
    }
}

/// Why a form shape cannot be turned into a scaffold.
#[derive(Clone, Debug, PartialEq, Eq)]
pub enum PrototypingError {
    /// A name that has to become a Rust identifier does not parse as one.
    InvalidIdentifier { kind: &'static str, value: String },
    /// A field's value type does not parse as a Rust type.
    InvalidType { field_name: String, value: String, error: String },
    /// A path in the metadata does not parse as a Rust path.
    InvalidPath { kind: &'static str, value: String, error: String },
    /// No module path can be derived from the source file path.
    InvalidSourcePath { source_path: String },
}

/// A `PrototypingError` with its texts as character sequences.
pub enum PrototypingErrorView {
    InvalidIdentifier { kind: Seq<char>, value: Seq<char> },
    InvalidType { field_name: Seq<char>, value: Seq<char>, error: Seq<char> },
    InvalidPath { kind: Seq<char>, value: Seq<char>, error: Seq<char> },
    InvalidSourcePath { source_path: Seq<char> },
}

impl View for PrototypingError {
    type V = PrototypingErrorView;

    open spec fn view(&self) -> PrototypingErrorView {
        match self {
            PrototypingError::InvalidIdentifier { kind, value } => {
                PrototypingErrorView::InvalidIdentifier { kind: kind@, value: value@ }
            },
            PrototypingError::InvalidType { field_name, value, error } => {
                PrototypingErrorView::InvalidType {
                    field_name: field_name@,
                    value: value@,
                    error: error@,
                }
            },
            PrototypingError::InvalidPath { kind, value, error } => {
                PrototypingErrorView::InvalidPath { kind: kind@, value: value@, error: error@ }
            },
            PrototypingError::InvalidSourcePath { source_path } => {
                PrototypingErrorView::InvalidSourcePath { source_path: source_path@ }
            },
        }
    }
}

/// The error for a name of the given kind that is not an identifier, if it
/// is not one.
pub open spec fn ident_error(kind: Seq<char>, value: Seq<char>) -> Option<PrototypingErrorView> {
    if parses_as_ident(value) {
        None
    } else {
        Some(PrototypingErrorView::InvalidIdentifier { kind, value })
    }
}

/// Checks that a name parses as a Rust identifier.
pub fn parse_ident(kind: &'static str, value: &str) -> (r: Result<(), PrototypingError>)
    ensures
        match r {
            Ok(()) => ident_error(kind@, value@) is None,
            Err(e) => ident_error(kind@, value@) == Some(e@),
        },
{
    if is_rust_ident(value) {
        Ok(())
    } else {
        Err(PrototypingError::InvalidIdentifier { kind, value: String::from_str(value) })
    }
}

/// `name` followed by `suffix`.
fn suffixed(name: &str, suffix: &str) -> (r: String)
    ensures
        r@ == name@ + suffix@,
{
    let mut out = String::from_str(name);
    out.append(suffix);
    out
}

/// The first error among the shape-level checks: the struct name and the
/// three generated names must be identifiers, and a module path must be
/// derivable from the source path.
pub open spec fn shape_error(struct_name: Seq<char>, source_path: Seq<char>) -> Option<
    PrototypingErrorView,
> {
    if ident_error("struct name"@, struct_name) is Some {
        ident_error("struct name"@, struct_name)
    } else if ident_error("generated form ident"@, struct_name + "Form"@) is Some {
        ident_error("generated form ident"@, struct_name + "Form"@)
    } else if ident_error("generated form fields ident"@, struct_name + "FormFields"@) is Some {
        ident_error("generated form fields ident"@, struct_name + "FormFields"@)
    } else if ident_error(
        "generated form value holder ident"@,
        struct_name + "FormValueHolder"@,
    ) is Some {
        ident_error("generated form value holder ident"@, struct_name + "FormValueHolder"@)
    } else if source_use_path(source_path) is None {
        Some(PrototypingErrorView::InvalidSourcePath { source_path })
    } else {
        None
    }
}

/// The first error among the checks of one field: its name, its PascalCase
/// name and its component name must be identifiers, its value type must
/// parse as a type and its custom component, if any, as a path.
pub open spec fn field_error(f: FieldVariant) -> Option<PrototypingErrorView> {
    let name = f.field_name@;
    if ident_error("field name"@, name) is Some {
        ident_error("field name"@, name)
    } else if ident_error("field pascal ident"@, pascal_case(name)) is Some {
        ident_error("field pascal ident"@, pascal_case(name))
    } else if ident_error("field component ident"@, name_with_behaviour(name, f.behaviour)) is Some {
        ident_error("field component ident"@, name_with_behaviour(name, f.behaviour))
    } else if type_parse_error(f.field_type@) is Some {
        Some(
            PrototypingErrorView::InvalidType {
                field_name: name,
                value: f.field_type@,
                error: type_parse_error(f.field_type@)->0,
            },
        )
    } else {
        match f.custom_component {
            Some(p) => match path_parse_error(p@) {
                Some(m) => Some(
                    PrototypingErrorView::InvalidPath {
                        kind: "custom component path"@,
                        value: p@,
                        error: m,
                    },
                ),
                None => None,
            },
            None => None,
        }
    }
}

/// The error of the first field, from position `i` on, that has one.
pub open spec fn first_field_error(fields: Seq<FieldVariant>, i: int) -> Option<PrototypingErrorView>
    decreases fields.len() - i,
{
    if i < 0 || i >= fields.len() {
        None
    } else if field_error(fields[i]) is Some {
        field_error(fields[i])
    } else {
        first_field_error(fields, i + 1)
    }
}

/// Checks one field's names, value type and custom component path.
pub fn check_field(field: &FieldVariant) -> (r: Result<(), PrototypingError>)
    ensures
        match r {
            Ok(()) => field_error(*field) is None,
            Err(e) => field_error(*field) == Some(e@),
        },
{
    parse_ident("field name", field.field_name)?;
    let pascal = field.field_name_pascal();
    parse_ident("field pascal ident", pascal.as_str())?;
    let component = field.field_name_with_behaviour();
    parse_ident("field component ident", component.as_str())?;
    match check_rust_type(field.field_type) {
        Some(error) => {
            return Err(
                PrototypingError::InvalidType {
                    field_name: String::from_str(field.field_name),
                    value: String::from_str(field.field_type),
                    error,
                },
            );
        },
        None => {},
    }
    match field.custom_component {
        Some(p) => match check_rust_path(p) {
            Some(error) => Err(
                PrototypingError::InvalidPath {
                    kind: "custom component path",
                    value: String::from_str(p),
                    error,
                },
            ),
            None => Ok(()),
        },
        None => Ok(()),
    }
}

/// Generates a form scaffold's decisions from a form shape.
pub struct FormShapeAdapter<'a> {
    pub shape_data: &'a GpuiFormShape,
}

impl<'a> FormShapeAdapter<'a> {
    /// An adapter over the given shape.
    pub fn new(shape_data: &'a GpuiFormShape) -> (r: Self)
        ensures
            r.shape_data == shape_data,
    {
        FormShapeAdapter { shape_data }
    }

    /// Runs the shape-level checks (see `shape_error`).
    pub fn validate_shape_data(&self) -> (r: Result<(), PrototypingError>)
        ensures
            match r {
                Ok(()) => shape_error(self.shape_data.struct_name@, self.shape_data.source_path@)
                    is None,
                Err(e) => shape_error(self.shape_data.struct_name@, self.shape_data.source_path@)
                    == Some(e@),
            },
    {
        let data = self.shape_data;
        parse_ident("struct name", data.struct_name)?;
        let form = suffixed(data.struct_name, "Form");
        parse_ident("generated form ident", form.as_str())?;
        let fields = suffixed(data.struct_name, "FormFields");
        parse_ident("generated form fields ident", fields.as_str())?;
        let holder = suffixed(data.struct_name, "FormValueHolder");
        parse_ident("generated form value holder ident", holder.as_str())?;
        match source_path_to_use_path(data.source_path) {
            Some(_) => Ok(()),
            None => Err(
                PrototypingError::InvalidSourcePath {
                    source_path: String::from_str(data.source_path),
                },
            ),
        }
    }

    /// Runs every field's checks in order, stopping at the first error.
    pub fn check_fields(&self) -> (r: Result<(), PrototypingError>)
        ensures
            match r {
                Ok(()) => first_field_error(self.shape_data.components@, 0) is None,
                Err(e) => first_field_error(self.shape_data.components@, 0) == Some(e@),
            },
    {
        let fields = self.shape_data.components;
        let mut i: usize = 0;
        while i < fields.len()
            invariant
                fields == self.shape_data.components,
                i <= fields@.len(),
                first_field_error(fields@, 0) == first_field_error(fields@, i as int),
            decreases fields@.len() - i,
        {
            let field = &fields[i];
            match check_field(field) {
                Ok(()) => {},
                Err(e) => {
                    return Err(e);
                },
            }
            i = i + 1;
        }
        Ok(())
    }
}

/// The key of an import of `path` without a rename.
pub open spec fn plain(path: Seq<char>) -> ItemKey {
    (path, None)
}

/// The key of an anonymous (`as _`) import of `path`.
pub open spec fn anonymous(path: Seq<char>) -> ItemKey {
    (path, Some("_"@))
}

/// What the shared fragments of every non-empty form need.
pub open spec fn fragment_import_keys() -> Seq<ItemKey> {
    seq![
        plain("gpui::InteractiveElement"@),
        anonymous("gpui::ParentElement"@),
        plain("gpui::Styled"@),
        plain("gpui::div"@),
        anonymous("gpui::prelude::FluentBuilder"@),
        anonymous("gpui_component::ActiveTheme"@),
        plain("gpui_component::form::field"@),
    ]
}

/// What a form with at least one subscription needs.
pub open spec fn subscription_import_keys() -> Seq<ItemKey> {
    seq![plain("gpui::Subscription"@)]
}

/// What text inputs need (phone inputs too).
pub open spec fn input_import_keys() -> Seq<ItemKey> {
    seq![
        plain("gpui_component::input::Input"@),
        plain("gpui_component::input::InputEvent"@),
        plain("gpui_component::input::InputState"@),
    ]
}

/// What number inputs need.
pub open spec fn number_input_import_keys() -> Seq<ItemKey> {
    seq![
        plain("gpui_component::input::InputEvent"@),
        plain("gpui_component::input::InputState"@),
        plain("gpui_component::input::NumberInput"@),
        plain("gpui_component::input::NumberInputEvent"@),
        plain("gpui_component::input::StepAction"@),
    ]
}

/// What switches need.
pub open spec fn switch_import_keys() -> Seq<ItemKey> {
    seq![plain("gpui_component::switch::Switch"@)]
}

/// What file pickers need.
pub open spec fn file_picker_import_keys() -> Seq<ItemKey> {
    seq![
        plain("gpui_form::runtime::file_picker::FilePicker"@),
        plain("gpui_form::runtime::file_picker::FilePickerEvent"@),
        plain("gpui_form::runtime::file_picker::FilePickerState"@),
    ]
}

/// What selects need: the select types, and the searchable list for a
/// searchable select behaviour.
pub open spec fn select_import_keys(b: ComponentsBehaviour) -> Seq<ItemKey> {
    let base = seq![
        plain("gpui_component::select::Select"@),
        plain("gpui_component::select::SelectEvent"@),
        plain("gpui_component::select::SelectState"@),
    ];
    if b matches ComponentsBehaviour::Select(o) && o.searchable {
        base.push(plain("gpui_component::select::SearchableVec"@))
    } else {
        base
    }
}

/// What infinite selects need: the select and its event, and for an
/// infinite-select behaviour the (searchable or plain) state type.
pub open spec fn infinite_select_import_keys(b: ComponentsBehaviour) -> Seq<ItemKey> {
    let base = seq![
        plain("gpui_component::select::Select"@),
        plain("gpui_form::infinite_select::InfiniteSelectEvent"@),
    ];
    match b {
        ComponentsBehaviour::InfiniteSelect(o) => base.push(
            if o.searchable {
                plain("gpui_form::infinite_select::SearchableInfiniteSelectState"@)
            } else {
                plain("gpui_form::infinite_select::InfiniteSelectState"@)
            },
        ),
        _ => base,
    }
}

/// What custom components need: the component's path when it is qualified
/// (holds `::`); a bare name is in scope through the source module's glob.
pub open spec fn custom_import_keys(custom: Option<Seq<char>>) -> Seq<ItemKey> {
    match custom {
        Some(p) => if has_double_colon(p) {
            seq![plain(p)]
        } else {
            Seq::empty()
        },
        None => Seq::empty(),
    }
}

/// What the generator of a field's behaviour needs.
pub open spec fn behaviour_import_keys(b: ComponentsBehaviour, custom: Option<Seq<char>>) -> Seq<
    ItemKey,
> {
    match b {
        ComponentsBehaviour::Input => input_import_keys(),
        ComponentsBehaviour::NumberInput(_) => number_input_import_keys(),
        ComponentsBehaviour::Switch => switch_import_keys(),
        ComponentsBehaviour::Select(_) => select_import_keys(b),
        ComponentsBehaviour::InfiniteSelect(_) => infinite_select_import_keys(b),
        ComponentsBehaviour::Custom => custom_import_keys(custom),
        ComponentsBehaviour::Checkbox => Seq::empty(),
        ComponentsBehaviour::DatePicker => Seq::empty(),
    }
}

/// The imports every field's generator needs, merged.
pub open spec fn field_import_keys(fields: Seq<FieldVariant>) -> Set<ItemKey>
    decreases fields.len(),
{
    if fields.len() == 0 {
        Set::empty()
    } else {
        field_import_keys(fields.drop_last()).union(
            behaviour_import_keys(fields.last().behaviour, opt_chars(fields.last().custom_component)).to_set(),
        )
    }
}

/// Whether some field is subscribed to.
pub open spec fn some_field_subscribable(fields: Seq<FieldVariant>) -> bool {
    exists|i: int| 0 <= i < fields.len() && #[trigger] fields[i].behaviour.spec_subscribable()
}

/// Every import a form's generated file needs: the shared fragments' when
/// there is a field, the subscription type's when some field is subscribed
/// to, and each field generator's.
pub open spec fn required_import_keys(fields: Seq<FieldVariant>) -> Set<ItemKey> {
    (if fields.len() > 0 {
        fragment_import_keys().to_set()
    } else {
        Set::empty()
    }).union(
        if some_field_subscribable(fields) {
            subscription_import_keys().to_set()
        } else {
            Set::empty()
        },
    ).union(field_import_keys(fields))
}

/// Whether a field names `gpui::Subscription` itself as its custom
/// component.
pub open spec fn custom_is_subscription(f: FieldVariant) -> bool {
    f.behaviour is Custom && opt_chars(f.custom_component) == Some("gpui::Subscription"@)
}

/// No generator but a custom component's asks for the subscription type.
proof fn lemma_behaviour_keys_lack_subscription(b: ComponentsBehaviour, custom: Option<Seq<char>>)
    requires
        b is Custom ==> custom != Some("gpui::Subscription"@),
    ensures
        !behaviour_import_keys(b, custom).contains(plain("gpui::Subscription"@)),
{
    reveal_strlit("gpui::Subscription");
    reveal_strlit("gpui_component::input::Input");
    reveal_strlit("gpui_component::input::InputEvent");
    reveal_strlit("gpui_component::input::InputState");
    reveal_strlit("gpui_component::input::NumberInput");
    reveal_strlit("gpui_component::input::NumberInputEvent");
    reveal_strlit("gpui_component::input::StepAction");
    reveal_strlit("gpui_component::switch::Switch");
    reveal_strlit("gpui_component::select::Select");
    reveal_strlit("gpui_component::select::SelectEvent");
    reveal_strlit("gpui_component::select::SelectState");
    reveal_strlit("gpui_component::select::SearchableVec");
    reveal_strlit("gpui_form::infinite_select::InfiniteSelectEvent");
    reveal_strlit("gpui_form::infinite_select::SearchableInfiniteSelectState");
    reveal_strlit("gpui_form::infinite_select::InfiniteSelectState");
    let keys = behaviour_import_keys(b, custom);
    let sub = plain("gpui::Subscription"@);
    assert forall|i: int| 0 <= i < keys.len() implies keys[i] != sub by {
        assert(keys[i].0.len() != sub.0.len() || keys[i].0[4] != sub.0[4] || keys[i] != sub);
    }
}

/// The shared fragments do not hold the subscription type.
proof fn lemma_fragment_keys_lack_subscription()
    ensures
        !fragment_import_keys().contains(plain("gpui::Subscription"@)),
{
    reveal_strlit("gpui::Subscription");
    reveal_strlit("gpui::InteractiveElement");
    reveal_strlit("gpui::ParentElement");
    reveal_strlit("gpui::Styled");
    reveal_strlit("gpui::div");
    reveal_strlit("gpui::prelude::FluentBuilder");
    reveal_strlit("gpui_component::ActiveTheme");
    reveal_strlit("gpui_component::form::field");
    let keys = fragment_import_keys();
    let sub = plain("gpui::Subscription"@);
    assert forall|i: int| 0 <= i < keys.len() implies keys[i] != sub by {
        assert(keys[i].0.len() != sub.0.len() || keys[i].1 != sub.1);
    }
}

/// No field's generator asks for the subscription type, when no field names
/// it as a custom component.
proof fn lemma_field_keys_lack_subscription(fields: Seq<FieldVariant>)
    requires
        forall|i: int| 0 <= i < fields.len() ==> !custom_is_subscription(#[trigger] fields[i]),
    ensures
        !field_import_keys(fields).contains(plain("gpui::Subscription"@)),
    decreases fields.len(),
{
    if fields.len() > 0 {
        let init = fields.drop_last();
        assert forall|i: int| 0 <= i < init.len() implies !custom_is_subscription(
            #[trigger] init[i],
        ) by {
            assert(init[i] == fields[i]);
        }
        lemma_field_keys_lack_subscription(init);
        let last = fields.last();
        assert(!custom_is_subscription(fields[fields.len() - 1]));
        lemma_behaviour_keys_lack_subscription(last.behaviour, opt_chars(last.custom_component));
    }
}

/// A generated file imports `gpui::Subscription` exactly when some field is
/// subscribed to (provided no field names that type as its custom
/// component, which would import it on its own account).
pub proof fn lemma_subscription_import_iff_subscribable(fields: Seq<FieldVariant>)
    requires
        forall|i: int| 0 <= i < fields.len() ==> !custom_is_subscription(#[trigger] fields[i]),
    ensures
        required_import_keys(fields).contains(plain("gpui::Subscription"@))
            <==> some_field_subscribable(fields),
{
    lemma_fragment_keys_lack_subscription();
    lemma_field_keys_lack_subscription(fields);
    assert(subscription_import_keys().contains(plain("gpui::Subscription"@))) by {
        assert(subscription_import_keys()[0] == plain("gpui::Subscription"@));
    }
}

/// The shared fragments' imports.
pub fn fragment_imports() -> (r: Vec<ImportItem>)
    ensures
        keys_of(r@) == fragment_import_keys(),
{
    let r = vec![
        ImportItem::path("gpui::InteractiveElement"),
        ImportItem::aliased("gpui::ParentElement", "_"),
        ImportItem::path("gpui::Styled"),
        ImportItem::path("gpui::div"),
        ImportItem::aliased("gpui::prelude::FluentBuilder", "_"),
        ImportItem::aliased("gpui_component::ActiveTheme", "_"),
        ImportItem::path("gpui_component::form::field"),
    ];
    assert(keys_of(r@) =~= fragment_import_keys());
    r
}

/// The subscription type's import.
pub fn subscription_imports() -> (r: Vec<ImportItem>)
    ensures
        keys_of(r@) == subscription_import_keys(),
{
    let r = vec![ImportItem::path("gpui::Subscription")];
    assert(keys_of(r@) =~= subscription_import_keys());
    r
}

/// The code generator of text inputs.
pub struct InputCodeGenerator;

/// The code generator of phone inputs, rendered as text inputs.
pub struct PhoneInputCodeGenerator;

/// The code generator of number inputs.
pub struct NumberInputCodeGenerator;

/// The code generator of checkboxes.
pub struct CheckboxCodeGenerator;

/// The code generator of switches.
pub struct SwitchCodeGenerator;

/// The code generator of selects.
pub struct SelectCodeGenerator;

/// The code generator of infinite selects.
pub struct InfiniteSelectCodeGenerator;

/// The code generator of tuple selects.
pub struct TupleSelectCodeGenerator;

/// The code generator of custom components.
pub struct CustomCodeGenerator;

/// The code generator of date pickers.
pub struct DatePickerCodeGenerator;

/// The code generator of file pickers.
pub struct FilePickerCodeGenerator;

impl InputCodeGenerator {
    /// The imports a text input needs.
    pub fn generate_imports(&self, _field: &FieldVariant) -> (r: Vec<ImportItem>)
        ensures
            keys_of(r@) == input_import_keys(),
    {
        let r = vec![
            ImportItem::path("gpui_component::input::Input"),
            ImportItem::path("gpui_component::input::InputEvent"),
            ImportItem::path("gpui_component::input::InputState"),
        ];
        assert(keys_of(r@) =~= input_import_keys());
        r
    }
}

impl PhoneInputCodeGenerator {
    /// The imports a phone input needs: those of a text input.
    pub fn generate_imports(&self, field: &FieldVariant) -> (r: Vec<ImportItem>)
        ensures
            keys_of(r@) == input_import_keys(),
    {
        InputCodeGenerator.generate_imports(field)
    }
}

impl NumberInputCodeGenerator {
    /// The imports a number input needs.
    pub fn generate_imports(&self, _field: &FieldVariant) -> (r: Vec<ImportItem>)
        ensures
            keys_of(r@) == number_input_import_keys(),
    {
        let r = vec![
            ImportItem::path("gpui_component::input::InputEvent"),
            ImportItem::path("gpui_component::input::InputState"),
            ImportItem::path("gpui_component::input::NumberInput"),
            ImportItem::path("gpui_component::input::NumberInputEvent"),
            ImportItem::path("gpui_component::input::StepAction"),
        ];
        assert(keys_of(r@) =~= number_input_import_keys());
        r
    }
}

impl CheckboxCodeGenerator {
    /// A checkbox needs no imports of its own.
    pub fn generate_imports(&self, _field: &FieldVariant) -> (r: Vec<ImportItem>)
        ensures
            r@.len() == 0,
    {
        Vec::new()
    }
}

impl DatePickerCodeGenerator {
    /// A date picker needs no imports of its own.
    pub fn generate_imports(&self, _field: &FieldVariant) -> (r: Vec<ImportItem>)
        ensures
            r@.len() == 0,
    {
        Vec::new()
    }
}

impl TupleSelectCodeGenerator {
    /// A tuple select needs no imports of its own.
    pub fn generate_imports(&self, _field: &FieldVariant) -> (r: Vec<ImportItem>)
        ensures
            r@.len() == 0,
    {
        Vec::new()
    }
}

impl SwitchCodeGenerator {
    /// The imports a switch needs.
    pub fn generate_imports(&self, _field: &FieldVariant) -> (r: Vec<ImportItem>)
        ensures
            keys_of(r@) == switch_import_keys(),
    {
        let r = vec![ImportItem::path("gpui_component::switch::Switch")];
        assert(keys_of(r@) =~= switch_import_keys());
        r
    }
}

impl FilePickerCodeGenerator {
    /// The imports a file picker needs.
    pub fn generate_imports(&self, _field: &FieldVariant) -> (r: Vec<ImportItem>)
        ensures
            keys_of(r@) == file_picker_import_keys(),
    {
        let r = vec![
            ImportItem::path("gpui_form::runtime::file_picker::FilePicker"),
            ImportItem::path("gpui_form::runtime::file_picker::FilePickerEvent"),
            ImportItem::path("gpui_form::runtime::file_picker::FilePickerState"),
        ];
        assert(keys_of(r@) =~= file_picker_import_keys());
        r
    }
}

impl SelectCodeGenerator {
    /// The imports a select needs (see `select_import_keys`).
    pub fn generate_imports(&self, field: &FieldVariant) -> (r: Vec<ImportItem>)
        ensures
            keys_of(r@) == select_import_keys(field.behaviour),
    {
        let mut r = vec![
            ImportItem::path("gpui_component::select::Select"),
            ImportItem::path("gpui_component::select::SelectEvent"),
            ImportItem::path("gpui_component::select::SelectState"),
        ];
        match field.behaviour {
            ComponentsBehaviour::Select(o) => {
                if o.searchable {
                    r.push(ImportItem::path("gpui_component::select::SearchableVec"));
                }
            },
            _ => {},
        }
        assert(keys_of(r@) =~= select_import_keys(field.behaviour));
        r
    }
}

impl InfiniteSelectCodeGenerator {
    /// The imports an infinite select needs (see
    /// `infinite_select_import_keys`).
    pub fn generate_imports(&self, field: &FieldVariant) -> (r: Vec<ImportItem>)
        ensures
            keys_of(r@) == infinite_select_import_keys(field.behaviour),
    {
        let mut r = vec![
            ImportItem::path("gpui_component::select::Select"),
            ImportItem::path("gpui_form::infinite_select::InfiniteSelectEvent"),
        ];
        match field.behaviour {
            ComponentsBehaviour::InfiniteSelect(o) => {
                if o.searchable {
                    r.push(
                        ImportItem::path("gpui_form::infinite_select::SearchableInfiniteSelectState"),
                    );
                } else {
                    r.push(ImportItem::path("gpui_form::infinite_select::InfiniteSelectState"));
                }
            },
            _ => {},
        }
        assert(keys_of(r@) =~= infinite_select_import_keys(field.behaviour));
        r
    }
}

impl CustomCodeGenerator {
    /// The imports a custom component needs (see `custom_import_keys`).
    pub fn generate_imports(&self, field: &FieldVariant) -> (r: Vec<ImportItem>)
        ensures
            keys_of(r@) == custom_import_keys(opt_chars(field.custom_component)),
    {
        let r = match field.custom_component {
            Some(p) => if contains_double_colon(p) {
                vec![ImportItem::path(p)]
            } else {
                Vec::new()
            },
            None => Vec::new(),
        };
        assert(keys_of(r@) =~= custom_import_keys(opt_chars(field.custom_component)));
        r
    }
}

/// The imports the generator of a field's behaviour needs.
pub fn generator_imports(field: &FieldVariant) -> (r: Vec<ImportItem>)
    ensures
        keys_of(r@) == behaviour_import_keys(field.behaviour, opt_chars(field.custom_component)),
{
    let r = match field.behaviour {
        ComponentsBehaviour::Input => InputCodeGenerator.generate_imports(field),
        ComponentsBehaviour::NumberInput(_) => NumberInputCodeGenerator.generate_imports(field),
        ComponentsBehaviour::Checkbox => CheckboxCodeGenerator.generate_imports(field),
        ComponentsBehaviour::Switch => SwitchCodeGenerator.generate_imports(field),
        ComponentsBehaviour::Select(_) => SelectCodeGenerator.generate_imports(field),
        ComponentsBehaviour::InfiniteSelect(_) => InfiniteSelectCodeGenerator.generate_imports(
            field,
        ),
        ComponentsBehaviour::Custom => CustomCodeGenerator.generate_imports(field),
        ComponentsBehaviour::DatePicker => DatePickerCodeGenerator.generate_imports(field),
    };
    assert(keys_of(r@) =~= behaviour_import_keys(field.behaviour, opt_chars(field.custom_component)));
    r
}

impl<'a> FormShapeAdapter<'a> {
    /// Every import the form's generated file needs (see
    /// `required_import_keys`).
    pub fn required_imports(&self) -> (r: ImportSet)
        ensures
            r@ == required_import_keys(self.shape_data.components@),
    {
        let fields = self.shape_data.components;
        let mut set = ImportSet::new();
        if fields.len() > 0 {
            set.extend(fragment_imports());
        }
        let mut any_subscribable = false;
        let mut i: usize = 0;
        while i < fields.len()
            invariant
                i <= fields@.len(),
                any_subscribable == exists|j: int|
                    0 <= j < i && #[trigger] fields@[j].behaviour.spec_subscribable(),
            decreases fields@.len() - i,
        {
            if fields[i].behaviour.subscribable() {
                any_subscribable = true;
            }
            i = i + 1;
        }
        if any_subscribable {
            set.extend(subscription_imports());
        }
        let ghost head = set@;
        let mut i: usize = 0;
        assert(fields@.subrange(0, 0) =~= Seq::<FieldVariant>::empty());
        assert(head.union(field_import_keys(Seq::empty())) =~= head);
        while i < fields.len()
            invariant
                i <= fields@.len(),
                set@ == head.union(field_import_keys(fields@.subrange(0, i as int))),
            decreases fields@.len() - i,
        {
            let items = generator_imports(&fields[i]);
            set.extend(items);
            proof {
                let pre = fields@.subrange(0, i as int);
                assert(fields@.subrange(0, i + 1).drop_last() =~= pre);
                assert(set@ =~= head.union(field_import_keys(fields@.subrange(0, i + 1))));
            }
            i = i + 1;
        }
        assert(fields@.subrange(0, fields@.len() as int) =~= fields@);
        assert(set@ =~= required_import_keys(fields@));
        set
    }
}

/// The kind of number a number input edits, read from the first letter of
/// its value type: `f…` float, `u…` unsigned, `i…` signed, anything else
/// custom.
pub open spec fn step_kind_of(type_text: Seq<char>) -> NumberInputKind {
    if type_text.len() > 0 && type_text[0] == 'f' {
        NumberInputKind::Float
    } else if type_text.len() > 0 && type_text[0] == 'u' {
        NumberInputKind::UnsignedInteger
    } else if type_text.len() > 0 && type_text[0] == 'i' {
        NumberInputKind::SignedInteger
    } else {
        NumberInputKind::Custom
    }
}

/// How a number input steps its value, from the field's value type.
pub fn number_input_step_kind(type_str: &str) -> (r: NumberInputKind)
    ensures
        r == step_kind_of(type_str@),
{
    if type_str.unicode_len() == 0 {
        return NumberInputKind::Custom;
    }
    let c = type_str.get_char(0);
    if c == 'f' {
        NumberInputKind::Float
    } else if c == 'u' {
        NumberInputKind::UnsignedInteger
    } else if c == 'i' {
        NumberInputKind::SignedInteger
    } else {
        NumberInputKind::Custom
    }
}

/// How a number input's step buttons change its value.
#[derive(Clone, Copy, Debug, PartialEq, Eq)]
pub enum StepOperation {
    /// Add or subtract `1.0`.
    FloatStep,
    /// Saturating add or subtract of `1`.
    SaturatingStep,
    /// Saturating add or subtract of `1u8.into()`, converting back into the
    /// field's type.
    ConvertedSaturatingStep,
}

/// The step operation for a kind of number: floats step by `1.0`, integers
/// saturate, custom types saturate through conversions.
pub open spec fn step_operation_of(kind: NumberInputKind) -> StepOperation {
    match kind {
        NumberInputKind::Float => StepOperation::FloatStep,
        NumberInputKind::SignedInteger => StepOperation::SaturatingStep,
        NumberInputKind::UnsignedInteger => StepOperation::SaturatingStep,
        NumberInputKind::Custom => StepOperation::ConvertedSaturatingStep,
    }
}

/// The step operation of a number input whose value type is `type_str`.
pub fn number_input_step_operation(type_str: &str) -> (r: StepOperation)
    ensures
        r == step_operation_of(step_kind_of(type_str@)),
{
    match number_input_step_kind(type_str) {
        NumberInputKind::Float => StepOperation::FloatStep,
        NumberInputKind::SignedInteger => StepOperation::SaturatingStep,
        NumberInputKind::UnsignedInteger => StepOperation::SaturatingStep,
        NumberInputKind::Custom => StepOperation::ConvertedSaturatingStep,
    }
}

/// Whether generated scaffolds wire koruma validation in. This build has no
/// koruma support.
pub fn has_koruma_support() -> (r: bool)
    ensures
        !r,
{
    false
}

impl GpuiFormShape {
    /// The generated form view's name, e.g. `UserForm`.
    pub fn struct_form_ident(&self) -> (r: String)
        ensures
            r@ == self.struct_name@ + "Form"@,
    {
        suffixed(self.struct_name, "Form")
    }

    /// The generated components struct's name, e.g. `UserFormComponents`.
    pub fn struct_form_components_ident(&self) -> (r: String)
        ensures
            r@ == self.struct_name@ + "FormComponents"@,
    {
        suffixed(self.struct_name, "FormComponents")
    }

    /// The generated fields struct's name, e.g. `UserFormFields`.
    pub fn struct_form_fields_ident(&self) -> (r: String)
        ensures
            r@ == self.struct_name@ + "FormFields"@,
    {
        suffixed(self.struct_name, "FormFields")
    }

    /// The generated value holder's name, e.g. `UserFormValueHolder`.
    pub fn struct_form_value_holder_ident(&self) -> (r: String)
        ensures
            r@ == self.struct_name@ + "FormValueHolder"@,
    {
        suffixed(self.struct_name, "FormValueHolder")
    }

    /// The label enum's name, e.g. `UserLabelVariants`.
    pub fn ftl_label_ident(&self) -> (r: String)
        ensures
            r@ == self.struct_name@ + "LabelVariants"@,
    {
        suffixed(self.struct_name, "LabelVariants")
    }

    /// The description enum's name, e.g. `UserDescriptionVariants`.
    pub fn ftl_description_ident(&self) -> (r: String)
        ensures
            r@ == self.struct_name@ + "DescriptionVariants"@,
    {
        suffixed(self.struct_name, "DescriptionVariants")
    }

    /// The form's element id: the struct name in snake_case followed by
    /// `-form`, e.g. `user-form`.
    pub fn form_id_literal(&self) -> (r: String)
        ensures
            r@ == snake_case(self.struct_name@) + "-form"@,
    {
        let mut out = to_snake_case(self.struct_name);
        out.append("-form");
        out
    }
}

/// One entry of a form body, in render order.
#[derive(Clone, Copy, Debug, PartialEq, Eq)]
pub enum RenderItem {
    /// A section heading with this title.
    Heading(&'static str),
    /// The field at this position.
    Field(usize),
}

/// Whether the field at `i` opens a section: it declares one, and it is the
/// first field or the field before it declares a different one or none.
pub open spec fn starts_section(sections: Seq<Option<&'static str>>, i: int) -> bool {
    &&& sections[i] is Some
    &&& (i == 0 || opt_chars(sections[i - 1]) != opt_chars(sections[i]))
}

/// The body of a form whose fields declare `sections`, for its first `n`
/// fields: each field in order, preceded by a heading when it opens a
/// section.
pub open spec fn render_plan(sections: Seq<Option<&'static str>>, n: nat) -> Seq<RenderItem>
    decreases n,
{
    if n == 0 {
        Seq::empty()
    } else {
        let i = n - 1;
        let prev = render_plan(sections, i as nat);
        if starts_section(sections, i) {
            prev.push(RenderItem::Heading(sections[i]->0)).push(RenderItem::Field(i as usize))
        } else {
            prev.push(RenderItem::Field(i as usize))
        }
    }
}

/// The sections the fields declare, in order.
pub open spec fn sections_of(fields: Seq<FieldVariant>) -> Seq<Option<&'static str>> {
    fields.map_values(|f: FieldVariant| f.layout.section)
}

/// Whether two optional section names are the same.
fn same_section(a: Option<&'static str>, b: Option<&'static str>) -> (r: bool)
    ensures
        r == (opt_chars(a) == opt_chars(b)),
{
    match (a, b) {
        (Some(x), Some(y)) => str_eq(x, y),
        (None, None) => true,
        _ => false,
    }
}

/// The body of the form: every field in order, with a section heading
/// before each field that opens a section (see `render_plan`).
pub fn render_items(fields: &[FieldVariant]) -> (r: Vec<RenderItem>)
    ensures
        r@ == render_plan(sections_of(fields@), fields@.len()),
{
    let ghost sections = sections_of(fields@);
    let mut out: Vec<RenderItem> = Vec::new();
    let mut prev: Option<&'static str> = None;
    let mut i: usize = 0;
    while i < fields.len()
        invariant
            sections == sections_of(fields@),
            i <= fields@.len(),
            out@ == render_plan(sections, i as nat),
            i > 0 ==> prev == sections[i - 1],
        decreases fields@.len() - i,
    {
        let current = fields[i].layout.section;
        assert(current == sections[i as int]);
        let opens = match current {
            Some(title) => i == 0 || !same_section(prev, current),
            None => false,
        };
        if opens {
            match current {
                Some(title) => out.push(RenderItem::Heading(title)),
                None => {},
            }
        }
        out.push(RenderItem::Field(i));
        prev = current;
        i = i + 1;
    }
    out
}

/// The position of every field entry in a body, in order.
pub open spec fn field_entries(items: Seq<RenderItem>) -> Seq<usize>
    decreases items.len(),
{
    if items.len() == 0 {
        Seq::empty()
    } else {
        let prev = field_entries(items.drop_last());
        match items.last() {
            RenderItem::Field(i) => prev.push(i),
            RenderItem::Heading(_) => prev,
        }
    }
}

/// Every field is rendered exactly once, in order: the field entries of a
/// form body are the positions `0, 1, …, n - 1`.
pub proof fn lemma_render_plan_lists_every_field_once(sections: Seq<Option<&'static str>>, n: nat)
    requires
        n <= usize::MAX,
    ensures
        field_entries(render_plan(sections, n)) == Seq::new(n, |i: int| i as usize),
    decreases n,
{
    if n > 0 {
        let i = n - 1;
        lemma_render_plan_lists_every_field_once(sections, i as nat);
        let prev = render_plan(sections, i as nat);
        let fe_prev = field_entries(prev);
        let full = render_plan(sections, n);
        if starts_section(sections, i) {
            let wh = prev.push(RenderItem::Heading(sections[i]->0));
            assert(wh.drop_last() =~= prev);
            assert(field_entries(wh) == fe_prev);
            assert(full == wh.push(RenderItem::Field(i as usize)));
            assert(full.drop_last() =~= wh);
        } else {
            assert(full == prev.push(RenderItem::Field(i as usize)));
            assert(full.drop_last() =~= prev);
        }
        assert(field_entries(full) == fe_prev.push(i as usize));
        assert(field_entries(full) =~= Seq::new(n, |i: int| i as usize));
    }
}

/// Every heading names a section that the field right after it declares.
pub proof fn lemma_heading_precedes_its_field(sections: Seq<Option<&'static str>>, n: nat, k: int)
    requires
        n <= sections.len(),
        n <= usize::MAX,
        0 <= k < render_plan(sections, n).len(),
        render_plan(sections, n)[k] is Heading,
    ensures
        k + 1 < render_plan(sections, n).len(),
        render_plan(sections, n)[k + 1] matches RenderItem::Field(i) && i < n && starts_section(
            sections,
            i as int,
        ) && sections[i as int] == Some(render_plan(sections, n)[k]->Heading_0),
    decreases n,
{
    let i = n - 1;
    let prev = render_plan(sections, i as nat);
    let full = render_plan(sections, n);
    lemma_render_plan_prefix(sections, i as nat);
    if k < prev.len() {
        lemma_heading_precedes_its_field(sections, i as nat, k);
        assert(full[k] == full.subrange(0, prev.len() as int)[k]);
        assert(full[k + 1] == full.subrange(0, prev.len() as int)[k + 1]);
    } else if starts_section(sections, i) {
        assert(full == prev.push(RenderItem::Heading(sections[i]->0)).push(
            RenderItem::Field(i as usize),
        ));
        assert(k == prev.len());
    } else {
        assert(full == prev.push(RenderItem::Field(i as usize)));
    }
}

/// A body for more fields extends the body for fewer.
proof fn lemma_render_plan_prefix(sections: Seq<Option<&'static str>>, n: nat)
    requires
        n < sections.len(),
    ensures
        render_plan(sections, n + 1).subrange(0, render_plan(sections, n).len() as int)
            == render_plan(sections, n),
        render_plan(sections, n + 1).len() > render_plan(sections, n).len(),
{
    let prev = render_plan(sections, n);
    if starts_section(sections, n as int) {
        assert(render_plan(sections, n + 1).subrange(0, prev.len() as int) =~= prev);
    } else {
        assert(render_plan(sections, n + 1).subrange(0, prev.len() as int) =~= prev);
    }
}

/// The first error that stops a scaffold: the shape-level checks come
/// first, then each field's checks in order.
pub open spec fn scaffold_error(shape: GpuiFormShape) -> Option<PrototypingErrorView> {
    if shape_error(shape.struct_name@, shape.source_path@) is Some {
        shape_error(shape.struct_name@, shape.source_path@)
    } else {
        first_field_error(shape.components@, 0)
    }
}

/// Everything a form scaffold is built from, apart from the code fragments
/// themselves: the generated names, the module to glob-import, the flags
/// that select optional fragments, the body's render order and the imports.
pub struct FormPlan {
    /// The original struct's name, e.g. `User`.
    pub struct_name: &'static str,
    /// The generated form view's name, e.g. `UserForm`.
    pub form_ident: String,
    /// The generated fields struct's name, e.g. `UserFormFields`.
    pub form_fields_ident: String,
    /// The generated value holder's name, e.g. `UserFormValueHolder`.
    pub form_value_holder_ident: String,
    /// The module path of the source file, e.g. `some_lib::structs::user`.
    pub source_module_path: String,
    /// The key context, e.g. `UserForm`.
    pub context_str: String,
    /// The element id, e.g. `user-form`.
    pub form_id_literal: String,
    /// Whether the form has no fields.
    pub is_empty: bool,
    /// Whether koruma validation is enabled.
    pub has_koruma: bool,
    /// Whether some source field is left out of the form.
    pub has_skipped_fields: bool,
    /// The form body: fields in order, with section headings.
    pub render_items: Vec<RenderItem>,
    /// The imports of the generated file, besides the source module's glob.
    pub imports: ImportSet,
}

impl<'a> FormShapeAdapter<'a> {
    /// Checks the shape and computes its scaffold plan. Fails with the first
    /// error of `scaffold_error`, and succeeds exactly when there is none.
    pub fn plan(&self) -> (r: Result<FormPlan, PrototypingError>)
        ensures
            match r {
                Ok(p) => {
                    let shape = *self.shape_data;
                    let name = shape.struct_name@;
                    let fields = shape.components@;
                    &&& scaffold_error(shape) is None
                    &&& p.struct_name == shape.struct_name
                    &&& p.form_ident@ == name + "Form"@
                    &&& p.form_fields_ident@ == name + "FormFields"@
                    &&& p.form_value_holder_ident@ == name + "FormValueHolder"@
                    &&& source_use_path(shape.source_path@) == Some(p.source_module_path@)
                    &&& p.context_str@ == name + "Form"@
                    &&& p.form_id_literal@ == snake_case(name) + "-form"@
                    &&& p.is_empty == (fields.len() == 0)
                    &&& p.has_koruma == shape.koruma_enabled
                    &&& p.has_skipped_fields == shape.has_skipped_fields
                    &&& p.render_items@ == render_plan(sections_of(fields), fields.len())
                    &&& p.imports@ == required_import_keys(fields)
                },
                Err(e) => scaffold_error(*self.shape_data) == Some(e@),
            },
    {
        match self.validate_shape_data() {
            Ok(()) => {},
            Err(e) => {
                return Err(e);
            },
        }
        match self.check_fields() {
            Ok(()) => {},
            Err(e) => {
                return Err(e);
            },
        }
        let data = self.shape_data;
        let source_module_path = match source_path_to_use_path(data.source_path) {
            Some(p) => p,
            None => {
                return Err(
                    PrototypingError::InvalidSourcePath {
                        source_path: String::from_str(data.source_path),
                    },
                );
            },
        };
        let render_items = render_items(data.components);
        let imports = self.required_imports();
        Ok(
            FormPlan {
                struct_name: data.struct_name,
                form_ident: data.struct_form_ident(),
                form_fields_ident: data.struct_form_fields_ident(),
                form_value_holder_ident: data.struct_form_value_holder_ident(),
                source_module_path,
                context_str: data.struct_form_ident(),
                form_id_literal: data.form_id_literal(),
                is_empty: data.components.len() == 0,
                has_koruma: data.has_koruma(),
                has_skipped_fields: data.has_skipped_fields(),
                render_items,
                imports,
            },
        )
    }
}

/// The label a field is rendered with: its layout's label when it declares
/// one, else its name in Title Case.
pub open spec fn label_text(f: FieldVariant) -> Seq<char> {
    match f.layout.label {
        Some(l) => l@,
        None => title_case(f.field_name@),
    }
}

/// The description a field is rendered with: its layout's description when
/// it declares one, else its name in Title Case.
pub open spec fn description_text(f: FieldVariant) -> Seq<char> {
    match f.layout.description {
        Some(d) => d@,
        None => title_case(f.field_name@),
    }
}

/// The label text of a field (see `label_text`).
pub fn field_label(field: &FieldVariant) -> (r: String)
    ensures
        r@ == label_text(*field),
{
    match field.layout.label {
        Some(label) => String::from_str(label),
        None => to_title_case(field.field_name),
    }
}

/// The description text of a field (see `description_text`).
pub fn field_description(field: &FieldVariant) -> (r: String)
    ensures
        r@ == description_text(*field),
{
    match field.layout.description {
        Some(description) => String::from_str(description),
        None => to_title_case(field.field_name),
    }
}

/// Whether a field's validation errors are rendered: it has validation
/// rules and the form has koruma enabled.
pub fn field_shows_validation_errors(field: &FieldVariant, shape: &GpuiFormShape) -> (r: bool)
    ensures
        r == (field.validations@.len() > 0 && shape.koruma_enabled),
{
    field.validations.len() > 0 && shape.has_koruma()
}

} // verus!
