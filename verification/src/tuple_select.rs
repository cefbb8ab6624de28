//! Cascading select for tuple enums whose variants hold inner values (each
//! variant may hold a different inner type): selection paths, rebuilding a
//! value from a path, and the per-level choices shown for a value.

use vstd::prelude::*;

use crate::infinite_select::{entry_at, set_at, truncated};
use crate::text::str_eq;

verus! {

/// A tuple enum that exposes its nesting for cascading selects.
pub trait TupleEnumInner: Sized {
    /// All variants at this level, with default inner values.
    spec fn spec_variants() -> Seq<Self>;

    /// The name of this variant.
    spec fn spec_variant_name(&self) -> Seq<char>;

    /// Whether this variant holds an inner value.
    spec fn spec_has_inner(&self) -> bool;

    /// The names of this variant's children.
    spec fn spec_child_variant_names(&self) -> Seq<Seq<char>>;

    /// This value with its child set to the `index`-th child variant; `None`
    /// when the variant has no children or the index is out of range.
    spec fn spec_set_child_by_index(&self, index: int) -> Option<Self>;

    /// This value with the children along `path` set.
    spec fn spec_set_child_by_path(&self, path: Seq<usize>) -> Option<Self>;

    /// The maximum nesting depth of the type.
    spec fn spec_depth() -> nat;

    /// How many levels lie below this value's variant along its current
    /// selection; 0 for a leaf.
    spec fn spec_child_depth(&self) -> nat;

    /// The index of the current selection at each depth, the root first.
    spec fn spec_selection_path(&self) -> Seq<usize>;

    /// The variant names offered at `depth` along the current selection
    /// (depth 0 lists the type's own variants).
    spec fn spec_names_at_depth(&self, depth: int) -> Seq<Seq<char>>;

    fn variants() -> (r: Vec<Self>)
        ensures
            r@ == Self::spec_variants(),
            forall|i: int, j: int|
                0 <= i < j < r@.len() ==> (#[trigger] r@[i]).spec_variant_name()
                    != (#[trigger] r@[j]).spec_variant_name(),
    ;

    fn variant_name(&self) -> (r: &'static str)
        ensures
            r@ == self.spec_variant_name(),
    ;

    fn has_inner(&self) -> (r: bool)
        ensures
            r == self.spec_has_inner(),
    ;

    fn child_variant_names(&self) -> (r: Vec<&'static str>)
        ensures
            r@.map_values(|n: &'static str| n@) == self.spec_child_variant_names(),
            (r@.len() == 0) == (self.spec_child_depth() == 0),
    ;

    /// This value with its child set to the `index`-th variant; `None` when
    /// the variant has no children or the index is out of range.
    fn set_child_by_index(&self, index: usize) -> (r: Option<Self>)
        ensures
            r == self.spec_set_child_by_index(index as int),
    ;

    fn set_child_by_path(&self, path: &[usize]) -> (r: Option<Self>)
        ensures
            r == self.spec_set_child_by_path(path@),
    ;

    /// The nesting depth below this variant; 0 for leaves.
    fn child_depth(&self) -> (r: usize)
        ensures
            r == self.spec_child_depth(),
    ;

    /// The current selection's index at each depth, the root first: one
    /// entry for this level and one for each level below it.
    fn selection_path(&self) -> (r: TupleSelectPath)
        ensures
            r@ == self.spec_selection_path(),
            r@.len() == 1 + self.spec_child_depth(),
            r@[0] < Self::spec_variants().len(),
            Self::spec_variants()[r@[0] as int].spec_variant_name() == self.spec_variant_name(),
    ;

    /// The variant names offered at `depth` along the current selection.
    fn variant_names_at_depth(&self, depth: usize) -> (r: Vec<&'static str>)
        ensures
            r@.map_values(|n: &'static str| n@) == self.spec_names_at_depth(depth as int),
    ;

    fn depth() -> (r: usize)
        ensures
            r == Self::spec_depth(),
    ;
}

/// A tuple-enum variant wrapped for display in a select: the value and its
/// title.
pub struct TupleSelectItem<T: TupleEnumInner> {
    value: T,
    title: String,
}

impl<T: TupleEnumInner> TupleSelectItem<T> {
    /// The wrapped value.
    pub closed spec fn spec_value(&self) -> T {
        self.value
    }

    /// The displayed title.
    pub closed spec fn spec_title(&self) -> Seq<char> {
        self.title@
    }

    /// An item with a custom title.
    pub fn new(value: T, title: String) -> (r: Self)
        ensures
            r.spec_value() == value,
            r.spec_title() == title@,
    {
        TupleSelectItem { value, title }
    }

    /// An item titled with the variant name.
    pub fn from_variant(value: T) -> (r: Self)
        ensures
            r.spec_value() == value,
            r.spec_title() == value.spec_variant_name(),
    {
        let title = String::from_str(value.variant_name());
        TupleSelectItem { value, title }
    }

    /// The displayed title.
    pub fn title(&self) -> (r: &str)
        ensures
            r@ == self.spec_title(),
    {
        self.title.as_str()
    }

    /// Borrows the wrapped value.
    pub fn get_value(&self) -> (r: &T)
        ensures
            *r == self.spec_value(),
    {
        &self.value
    }

    /// Consumes the item and returns the wrapped value.
    pub fn into_value(self) -> (r: T)
        ensures
            r == self.spec_value(),
    {
        self.value
    }

    /// Whether the wrapped value has nested inner values.
    pub fn has_inner(&self) -> (r: bool)
        ensures
            r == self.spec_value().spec_has_inner(),
    {
        self.value.has_inner()
    }

    /// The child variant names of the wrapped value.
    pub fn child_variant_names(&self) -> (r: Vec<&'static str>)
        ensures
            r@.map_values(|n: &'static str| n@) == self.spec_value().spec_child_variant_names(),
    {
        self.value.child_variant_names()
    }

    /// An item for the wrapped value with the child at `index` selected,
    /// titled with its variant name; `None` when the value has no such
    /// child.
    pub fn with_child_at(&self, index: usize) -> (r: Option<Self>)
        ensures
            match self.spec_value().spec_set_child_by_index(index as int) {
                Some(c) => r matches Some(it) && it.spec_value() == c && it.spec_title()
                    == c.spec_variant_name(),
                None => r is None,
            },
    {
        match self.value.set_child_by_index(index) {
            Some(c) => Some(TupleSelectItem::from_variant(c)),
            None => None,
        }
    }
}

/// The root items: every variant titled with its name, in order.
pub fn tuple_enum_to_select_items<T: TupleEnumInner>() -> (r: Vec<TupleSelectItem<T>>)
    ensures
        r@.map_values(|it: TupleSelectItem<T>| (it.spec_value(), it.spec_title()))
            == T::spec_variants().map_values(|v: T| (v, v.spec_variant_name())),
{
    let mut variants = T::variants();
    let ghost all = variants@;
    let n = variants.len();
    let mut out: Vec<TupleSelectItem<T>> = Vec::new();
    let mut k: usize = 0;
    while variants.len() > 0
        invariant
            all.len() == n,
            k <= all.len(),
            variants@ == all.subrange(k as int, all.len() as int),
            out@.map_values(|it: TupleSelectItem<T>| (it.spec_value(), it.spec_title()))
                == all.subrange(0, k as int).map_values(|v: T| (v, v.spec_variant_name())),
        decreases variants@.len(),
    {
        let v = variants.remove(0);
        assert(v == all[k as int]);
        let item = TupleSelectItem::from_variant(v);
        let ghost old_out = out@;
        out.push(item);
        assert(out@.map_values(|it: TupleSelectItem<T>| (it.spec_value(), it.spec_title()))
            =~= old_out.map_values(|it: TupleSelectItem<T>| (it.spec_value(), it.spec_title())).push(
            (v, v.spec_variant_name()),
        ));
        assert(all.subrange(0, k + 1) =~= all.subrange(0, k as int).push(v));
        assert(all.subrange(0, k + 1).map_values(|v: T| (v, v.spec_variant_name()))
            =~= all.subrange(0, k as int).map_values(|v: T| (v, v.spec_variant_name())).push(
            (v, v.spec_variant_name()),
        ));
        assert(variants@ =~= all.subrange(k + 1, all.len() as int));
        k = k + 1;
    }
    assert(all.subrange(0, all.len() as int) =~= all);
    out
}

/// A selection path through nested tuple enums: the chosen index per depth.
#[derive(Debug)]
pub struct TupleSelectPath {
    indices: Vec<usize>,
}

impl View for TupleSelectPath {
    type V = Seq<usize>;

    closed spec fn view(&self) -> Seq<usize> {
        self.indices@
    }
}

impl Clone for TupleSelectPath {
    fn clone(&self) -> (r: Self)
        ensures
            r@ == self@,
    {
        TupleSelectPath { indices: self.indices.clone() }
    }
}

impl Default for TupleSelectPath {
    fn default() -> (r: Self)
        ensures
            r@ == Seq::<usize>::empty(),
    {
        TupleSelectPath::new()
    }
}

impl TupleSelectPath {
    /// An empty path.
    pub fn new() -> (r: Self)
        ensures
            r@ == Seq::<usize>::empty(),
    {
        TupleSelectPath { indices: Vec::new() }
    }

    /// A path with the given indices.
    pub fn with_indices(indices: Vec<usize>) -> (r: Self)
        ensures
            r@ == indices@,
    {
        TupleSelectPath { indices }
    }

    /// The selection at `depth`, if the path is that deep.
    pub fn get(&self, depth: usize) -> (r: Option<usize>)
        ensures
            r == entry_at(self@, depth as int),
    {
        if depth < self.indices.len() {
            Some(self.indices[depth])
        } else {
            None
        }
    }

    /// Selects `index` at `depth`, dropping every deeper selection.
    pub fn set(&mut self, depth: usize, index: usize)
        ensures
            final(self)@ == set_at(old(self)@, depth as int, index),
    {
        self.indices.truncate(depth);
        self.indices.push(index);
    }

    /// Clears the selections from `depth` onwards.
    pub fn clear_from(&mut self, depth: usize)
        ensures
            final(self)@ == truncated(old(self)@, depth as int),
    {
        self.indices.truncate(depth);
    }

    /// Truncates the path to at most `len` entries.
    pub fn truncate(&mut self, len: usize)
        ensures
            final(self)@ == truncated(old(self)@, len as int),
    {
        self.indices.truncate(len);
    }

    /// The depth of the selection.
    pub fn len(&self) -> (r: usize)
        ensures
            r == self@.len(),
    {
        self.indices.len()
    }

    /// All indices, in order.
    pub fn indices(&self) -> (r: &[usize])
        ensures
            r@ == self@,
    {
        self.indices.as_slice()
    }

    /// Whether the path is empty.
    pub fn is_empty(&self) -> (r: bool)
        ensures
            r == (self@.len() == 0),
    {
        self.indices.len() == 0
    }
}

/// The value a path selects: the root variant at `path[0]`, then the
/// children along the rest of the path.
pub open spec fn build_from_path_spec<T: TupleEnumInner>(path: Seq<usize>) -> Option<T> {
    if path.len() == 0 {
        None
    } else if path[0] >= T::spec_variants().len() {
        None
    } else if path.len() > 1 {
        T::spec_variants()[path[0] as int].spec_set_child_by_path(path.subrange(1, path.len() as int))
    } else {
        Some(T::spec_variants()[path[0] as int])
    }
}

/// Builds a value from a selection path: `path[0]` picks the root variant,
/// `path[1]` the child within it, and so on.
pub fn build_from_path<T: TupleEnumInner>(path: &TupleSelectPath) -> (r: Option<T>)
    ensures
        r == build_from_path_spec::<T>(path@),
{
    if path.is_empty() {
        return None;
    }
    let mut variants = T::variants();
    let root_index = match path.get(0) {
        Some(i) => i,
        None => return None,
    };
    if root_index >= variants.len() {
        return None;
    }
    let root = variants.remove(root_index);
    if path.len() > 1 {
        let (_, rest) = path.indices().split_at(1);
        root.set_child_by_path(rest)
    } else {
        Some(root)
    }
}

/// What a path builds: nothing for an empty path or a root index past the
/// type's variants; the root variant itself for a one-entry path; else the
/// root variant with the children along the rest of the path set (so every
/// index after the root takes part).
pub proof fn lemma_build_from_path_follows_the_whole_path<T: TupleEnumInner>(path: Seq<usize>)
    ensures
        path.len() == 0 ==> build_from_path_spec::<T>(path) is None,
        path.len() > 0 && path[0] >= T::spec_variants().len() ==> build_from_path_spec::<T>(path) is None,
        path.len() == 1 && path[0] < T::spec_variants().len() ==> build_from_path_spec::<T>(path) == Some(
            T::spec_variants()[path[0] as int],
        ),
        path.len() > 1 && path[0] < T::spec_variants().len() ==> build_from_path_spec::<T>(path)
            == T::spec_variants()[path[0] as int].spec_set_child_by_path(path.drop_first()),
{
    if path.len() > 1 {
        assert(path.subrange(1, path.len() as int) =~= path.drop_first());
    }
}

/// The maximum depth of a tuple enum hierarchy.
pub fn get_max_depth<T: TupleEnumInner>() -> (r: usize)
    ensures
        r == T::spec_depth(),
{
    T::depth()
}

/// One level of a cascading select: the names offered and the selected one.
#[derive(Clone, Debug)]
pub struct SelectionLevel {
    pub variant_names: Vec<&'static str>,
    pub selected_index: Option<usize>,
}

/// The names of the given variants, in order.
pub open spec fn names_of<T: TupleEnumInner>(vs: Seq<T>) -> Seq<Seq<char>> {
    vs.map_values(|v: T| v.spec_variant_name())
}

/// `found` is the first position of `x` in `names`, or `None` when `x` does
/// not occur.
pub open spec fn first_position(names: Seq<Seq<char>>, x: Seq<char>, found: Option<usize>) -> bool {
    match found {
        Some(i) => i < names.len() && names[i as int] == x && forall|j: int|
            0 <= j < i ==> names[j] != x,
        None => forall|j: int| 0 <= j < names.len() ==> names[j] != x,
    }
}

/// Whether `level` is the level at `depth` (at least 1) below `value`: the
/// names offered there along the current selection, with the current
/// selection's index marked.
pub open spec fn is_child_level<T: TupleEnumInner>(level: SelectionLevel, value: T, depth: int) -> bool {
    &&& level.variant_names@.map_values(|n: &'static str| n@) == value.spec_names_at_depth(depth)
    &&& level.selected_index == Some(value.spec_selection_path()[depth])
}

/// The selection levels for `value`, one for each depth of its current
/// selection: the root level lists every variant name with the value's own
/// variant selected (its first occurrence); each deeper level lists the
/// names offered at that depth with the current selection's index marked.
pub fn get_selection_levels<T: TupleEnumInner>(value: &T) -> (r: Vec<SelectionLevel>)
    ensures
        r@.len() == 1 + value.spec_child_depth(),
        r@[0].variant_names@.map_values(|n: &'static str| n@) == names_of(T::spec_variants()),
        first_position(
            names_of(T::spec_variants()),
            value.spec_variant_name(),
            r@[0].selected_index,
        ),
        forall|d: int| 1 <= d < r@.len() ==> is_child_level(#[trigger] r@[d], *value, d),
        r@[0].selected_index == Some(value.spec_selection_path()[0]),
        value.spec_child_variant_names().len() == 0 ==> r@.len() == 1,
{
    let mut levels: Vec<SelectionLevel> = Vec::new();
    let variants = T::variants();
    let ghost all = names_of(T::spec_variants());
    let mut variant_names: Vec<&'static str> = Vec::new();
    let mut i: usize = 0;
    while i < variants.len()
        invariant
            i <= variants@.len(),
            variants@ == T::spec_variants(),
            all == names_of(T::spec_variants()),
            variant_names@.map_values(|n: &'static str| n@) == all.subrange(0, i as int),
        decreases variants@.len() - i,
    {
        let n = variants[i].variant_name();
        let ghost old_names = variant_names@;
        variant_names.push(n);
        assert(variant_names@.map_values(|n: &'static str| n@) =~= old_names.map_values(
            |n: &'static str| n@,
        ).push(n@));
        assert(all.subrange(0, i + 1) =~= all.subrange(0, i as int).push(n@));
        i = i + 1;
    }
    assert(all.subrange(0, all.len() as int) =~= all);
    let current_name = value.variant_name();
    let mut selected_index: Option<usize> = None;
    let mut j: usize = 0;
    while j < variant_names.len()
        invariant_except_break
            selected_index is None,
        invariant
            j <= variant_names@.len(),
            variant_names@.map_values(|n: &'static str| n@) == all,
            forall|k: int| 0 <= k < j ==> all[k] != current_name@,
        ensures
            first_position(all, current_name@, selected_index),
        decreases variant_names@.len() - j,
    {
        if str_eq(variant_names[j], current_name) {
            assert(all[j as int] == variant_names@[j as int]@);
            selected_index = Some(j);
            break;
        }
        j = j + 1;
    }
    let root_level = SelectionLevel { variant_names, selected_index };
    levels.push(root_level);
    let ghost mid = levels@;
    assert(mid[0] == root_level);
    add_child_levels(value, &mut levels);
    assert(levels@[0] == root_level) by {
        assert(levels@.subrange(0, mid.len() as int)[0] == levels@[0]);
    }
    proof {
        let k = value.spec_selection_path()[0] as int;
        assert(variants@[k].spec_variant_name() == current_name@);
        assert(all[k] == current_name@);
        if selected_index != Some(k as usize) {
            match selected_index {
                Some(j) => {
                    assert(all[j as int] == current_name@);
                    if (j as int) < k {
                        assert(variants@[j as int].spec_variant_name() != variants@[k].spec_variant_name());
                    } else {
                        assert(variants@[k].spec_variant_name() != variants@[j as int].spec_variant_name());
                    }
                },
                None => {},
            }
        }
    }
    assert forall|d: int| 1 <= d < levels@.len() implies is_child_level(
        #[trigger] levels@[d],
        *value,
        d,
    ) by {
        assert(levels@[mid.len() + d - 1] == levels@[d]);
    }
    levels
}

/// Appends the levels below the root: one for each depth of `value`'s
/// current selection, listing the names offered there with the current
/// selection's index marked.
pub fn add_child_levels<T: TupleEnumInner>(value: &T, levels: &mut Vec<SelectionLevel>)
    ensures
        final(levels)@.len() == old(levels)@.len() + value.spec_child_depth(),
        final(levels)@.subrange(0, old(levels)@.len() as int) == old(levels)@,
        forall|d: int|
            1 <= d <= value.spec_child_depth() ==> is_child_level(
                #[trigger] final(levels)@[old(levels)@.len() + d - 1],
                *value,
                d,
            ),
        (value.spec_child_variant_names().len() == 0) == (value.spec_child_depth() == 0),
        value.spec_selection_path().len() == 1 + value.spec_child_depth(),
        value.spec_selection_path()[0] < T::spec_variants().len(),
        T::spec_variants()[value.spec_selection_path()[0] as int].spec_variant_name()
            == value.spec_variant_name(),
{
    let child_names = value.child_variant_names();
    let path = value.selection_path();
    if child_names.len() == 0 {
        return;
    }
    let indices = path.indices();
    let n = indices.len();
    let ghost start = levels@;
    let mut d: usize = 1;
    while d < n
        invariant
            1 <= d <= n,
            n == indices@.len(),
            indices@ == value.spec_selection_path(),
            n == 1 + value.spec_child_depth(),
            levels@.len() == start.len() + d - 1,
            levels@.subrange(0, start.len() as int) == start,
            forall|k: int|
                1 <= k < d ==> is_child_level(#[trigger] levels@[start.len() + k - 1], *value, k),
        decreases n - d,
    {
        let names = value.variant_names_at_depth(d);
        let level = SelectionLevel { variant_names: names, selected_index: Some(indices[d]) };
        let ghost before = levels@;
        levels.push(level);
        proof {
            assert(levels@.subrange(0, start.len() as int) =~= before.subrange(
                0,
                start.len() as int,
            ));
            assert forall|k: int| 1 <= k < d + 1 implies is_child_level(
                #[trigger] levels@[start.len() + k - 1],
                *value,
                k,
            ) by {
                if k < d {
                    assert(levels@[start.len() + k - 1] == before[start.len() + k - 1]);
                }
            }
        }
        d = d + 1;
    }
}

} // verus!
