//! Cascading selection over nested enums: the selection path (one index per
//! depth), the options of the runtime state, and rebuilding a value from a
//! path.

use vstd::prelude::*;

verus! {

/// The first `n` entries of `s` (all of `s` when `n` is past its end).
pub open spec fn truncated(s: Seq<usize>, n: int) -> Seq<usize> {
    if n < s.len() {
        s.subrange(0, n)
    } else {
        s
    }
}

/// The path after selecting `index` at `depth`: deeper selections are
/// dropped and `index` is appended. When `depth` is past the end, `index`
/// lands at the end of the path.
pub open spec fn set_at(s: Seq<usize>, depth: int, index: usize) -> Seq<usize> {
    truncated(s, depth).push(index)
}

/// The entry at `depth`, if the path is that deep.
pub open spec fn entry_at(s: Seq<usize>, depth: int) -> Option<usize> {
    if 0 <= depth < s.len() {
        Some(s[depth])
    } else {
        None
    }
}

/// A selection path through nested enums: the chosen index at each depth.
#[derive(Debug, PartialEq, Eq)]
pub struct InfiniteSelectPath {
    indices: Vec<usize>,
}

impl View for InfiniteSelectPath {
    type V = Seq<usize>;

    closed spec fn view(&self) -> Seq<usize> {
        self.indices@
    }
}

impl Clone for InfiniteSelectPath {
    fn clone(&self) -> (r: Self)
        ensures
            r@ == self@,
    {
        InfiniteSelectPath { indices: self.indices.clone() }
    }
}

impl Default for InfiniteSelectPath {
    fn default() -> (r: Self)
        ensures
            r@ == Seq::<usize>::empty(),
    {
        InfiniteSelectPath::new()
    }
}

impl InfiniteSelectPath {
    /// An empty path.
    pub fn new() -> (r: Self)
        ensures
            r@ == Seq::<usize>::empty(),
    {
        InfiniteSelectPath { indices: Vec::new() }
    }

    /// A path with the given indices.
    pub fn with_indices(indices: Vec<usize>) -> (r: Self)
        ensures
            r@ == indices@,
    {
        InfiniteSelectPath { indices }
    }

    /// The selection at `depth`, if the path is that deep.
    pub fn get(&self, depth: usize) -> (r: Option<usize>)
        ensures
            r == entry_at(self@, depth as int),
    {
        if depth < self.indices.len() {
            Some(self.indices[depth])
        } else {
            None
        }
    }

    /// Selects `index` at `depth`, dropping every deeper selection.
    pub fn set(&mut self, depth: usize, index: usize)
        ensures
            final(self)@ == set_at(old(self)@, depth as int, index),
    {
        self.indices.truncate(depth);
        self.indices.push(index);
    }

    /// Clears the selections from `depth` onwards.
    pub fn clear_from(&mut self, depth: usize)
        ensures
            final(self)@ == truncated(old(self)@, depth as int),
    {
        self.indices.truncate(depth);
    }

    /// Truncates the path to at most `len` entries.
    pub fn truncate(&mut self, len: usize)
        ensures
            final(self)@ == truncated(old(self)@, len as int),
    {
        self.indices.truncate(len);
    }

    /// The depth of the selection.
    pub fn len(&self) -> (r: usize)
        ensures
            r == self@.len(),
    {
        self.indices.len()
    }

    /// All indices, in order.
    pub fn indices(&self) -> (r: &[usize])
        ensures
            r@ == self@,
    {
        self.indices.as_slice()
    }

    /// Whether the path is empty.
    pub fn is_empty(&self) -> (r: bool)
        ensures
            r == (self@.len() == 0),
    {
        self.indices.len() == 0
    }
}

/// Selecting at a depth within the path (or just past its end) and reading
/// that depth back gives the selection, the selections above it are kept,
/// and nothing deeper remains.
pub proof fn lemma_set_then_get(s: Seq<usize>, depth: int, index: usize, k: int)
    requires
        0 <= depth <= s.len(),
    ensures
        entry_at(set_at(s, depth, index), depth) == Some(index),
        set_at(s, depth, index).len() == depth + 1,
        0 <= k < depth ==> entry_at(set_at(s, depth, index), k) == entry_at(s, k),
        k > depth ==> entry_at(set_at(s, depth, index), k) is None,
{
}

/// Selecting past the end of a path appends: the selection lands at the old
/// length, not at the requested depth.
pub proof fn lemma_set_past_end_appends(s: Seq<usize>, depth: int, index: usize)
    requires
        depth > s.len(),
    ensures
        set_at(s, depth, index) == s.push(index),
        entry_at(set_at(s, depth, index), depth) is None,
{
}

/// Clearing from a depth keeps exactly the selections above it.
pub proof fn lemma_clear_from_keeps_prefix(s: Seq<usize>, depth: int, k: int)
    requires
        0 <= depth,
    ensures
        truncated(s, depth).len() <= depth,
        0 <= k < depth ==> entry_at(truncated(s, depth), k) == entry_at(s, k),
        k >= depth ==> entry_at(truncated(s, depth), k) is None,
        truncated(truncated(s, depth), depth) == truncated(s, depth),
{
}

/// Options of the runtime cascading-select state.
#[derive(Clone, Copy, Debug, PartialEq, Eq)]
pub struct InfiniteSelectStateOptions {
    searchable: bool,
    max_depth: Option<usize>,
}

impl Default for InfiniteSelectStateOptions {
    fn default() -> (r: Self)
        ensures
            !r.spec_searchable(),
            r.spec_max_depth() is None,
    {
        InfiniteSelectStateOptions { searchable: false, max_depth: None }
    }
}

/// How many levels a cascading select renders: every level of the type when
/// no limit is set, else the limit clamped into `1..=type_depth`.
pub open spec fn rendered_depth_spec(max_depth: Option<usize>, type_depth: nat) -> nat {
    match max_depth {
        None => type_depth,
        Some(m) => if m < 1 {
            1
        } else if m > type_depth {
            type_depth
        } else {
            m as nat
        },
    }
}

impl InfiniteSelectStateOptions {
    /// Whether the backing select widgets are searchable.
    pub closed spec fn spec_searchable(&self) -> bool {
        self.searchable
    }

    /// The rendering depth limit.
    pub closed spec fn spec_max_depth(&self) -> Option<usize> {
        self.max_depth
    }

    /// Enables or disables search on the backing select widgets.
    pub fn searchable(self, searchable: bool) -> (r: Self)
        ensures
            r.spec_searchable() == searchable,
            r.spec_max_depth() == self.spec_max_depth(),
    {
        InfiniteSelectStateOptions { searchable, ..self }
    }

    /// Limits how many levels are rendered; the stored value and its path
    /// still keep deeper selections.
    pub fn max_depth(self, max_depth: usize) -> (r: Self)
        ensures
            r.spec_max_depth() == Some(max_depth),
            r.spec_searchable() == self.spec_searchable(),
    {
        InfiniteSelectStateOptions { max_depth: Some(max_depth), ..self }
    }

    /// Whether search is enabled.
    pub fn is_searchable(&self) -> (r: bool)
        ensures
            r == self.spec_searchable(),
    {
        self.searchable
    }

    /// How many levels are rendered for a type whose nesting depth is
    /// `type_depth`. A limit needs a type at least one level deep (the limit
    /// is clamped into `1..=type_depth`).
    pub fn rendered_depth(&self, type_depth: usize) -> (r: usize)
        requires
            self.spec_max_depth() is Some ==> type_depth >= 1,
        ensures
            r == rendered_depth_spec(self.spec_max_depth(), type_depth as nat),
    {
        match self.max_depth {
            Some(m) => if m < 1 {
                1
            } else if m > type_depth {
                type_depth
            } else {
                m
            },
            None => type_depth,
        }
    }
}

/// The rendered depth never exceeds the type's depth, and is at least one
/// level when a limit is set.
pub proof fn lemma_rendered_depth_bounds(max_depth: Option<usize>, type_depth: nat)
    requires
        max_depth is Some ==> type_depth >= 1,
    ensures
        rendered_depth_spec(max_depth, type_depth) <= type_depth,
        max_depth is Some ==> rendered_depth_spec(max_depth, type_depth) >= 1,
{
}

/// A limit within `1..=type_depth` is rendered exactly; a larger limit
/// renders the whole type, a zero limit one level, and no limit the whole
/// type.
pub proof fn lemma_rendered_depth_honours_the_limit(m: usize, type_depth: nat)
    requires
        type_depth >= 1,
    ensures
        1 <= m <= type_depth ==> rendered_depth_spec(Some(m), type_depth) == m,
        m > type_depth ==> rendered_depth_spec(Some(m), type_depth) == type_depth,
        m == 0 ==> rendered_depth_spec(Some(m), type_depth) == 1,
        rendered_depth_spec(None, type_depth) == type_depth,
{
}

/// The child select at `level` shows the row the path selected one level
/// deeper, capped at the last row, and the first row when the path does not
/// reach that deep; the row is always one of the select's rows.
pub proof fn lemma_child_row_follows_the_path(path: Seq<usize>, level: int, item_count: int)
    requires
        0 <= level,
        item_count > 0,
    ensures
        0 <= child_row_spec(path, level, item_count) < item_count,
        level + 1 < path.len() && path[level + 1] < item_count ==> child_row_spec(
            path,
            level,
            item_count,
        ) == path[level + 1],
        level + 1 < path.len() && path[level + 1] >= item_count ==> child_row_spec(
            path,
            level,
            item_count,
        ) == item_count - 1,
        level + 1 >= path.len() ==> child_row_spec(path, level, item_count) == 0,
{
}

/// The defaults path selects the root and then the first option at each of
/// the `child_count` levels below it.
pub proof fn lemma_defaults_path_selects_first_options(root_index: usize, child_count: nat)
    ensures
        defaults_path(root_index, child_count).len() == child_count + 1,
        defaults_path(root_index, child_count)[0] == root_index,
        forall|i: int| 1 <= i <= child_count ==> #[trigger] defaults_path(root_index, child_count)[i] == 0,
{
}

/// The row selected in the child select at `level`: the path's entry one
/// deeper (0 when the path is not that deep), capped at the last row.
pub open spec fn child_row_spec(path: Seq<usize>, level: int, item_count: int) -> int {
    let wanted = match entry_at(path, level + 1) {
        Some(i) => i as int,
        None => 0,
    };
    if wanted < item_count - 1 {
        wanted
    } else {
        item_count - 1
    }
}

/// The row to select in the child select at `level` holding `item_count`
/// items.
pub fn child_selected_row(path: &InfiniteSelectPath, level: usize, item_count: usize) -> (r: usize)
    requires
        item_count > 0,
        level < usize::MAX,
    ensures
        r == child_row_spec(path@, level as int, item_count as int),
        r < item_count,
{
    let wanted = match path.get(level + 1) {
        Some(i) => i,
        None => 0,
    };
    if wanted < item_count - 1 {
        wanted
    } else {
        item_count - 1
    }
}

/// The path `[root_index, 0, 0, ...]` with `child_count` zero selections
/// below the root.
pub open spec fn defaults_path(root_index: usize, child_count: nat) -> Seq<usize> {
    seq![root_index] + Seq::new(child_count, |i: int| 0usize)
}

/// A path that selects `root_index` and then the first option at each of the
/// next `child_count` levels.
pub fn path_with_defaults(root_index: usize, child_count: usize) -> (r: InfiniteSelectPath)
    requires
        child_count < usize::MAX,
    ensures
        r@ == defaults_path(root_index, child_count as nat),
{
    let mut path = InfiniteSelectPath::new();
    path.set(0, root_index);
    let mut depth: usize = 0;
    while depth < child_count
        invariant
            depth <= child_count < usize::MAX,
            path@ == defaults_path(root_index, depth as nat),
        decreases child_count - depth,
    {
        path.set(depth + 1, 0);
        assert(path@ =~= defaults_path(root_index, (depth + 1) as nat));
        depth = depth + 1;
    }
    path
}


/// A nested enum whose levels can be chosen one index at a time, as the
/// cascading select presents them. Each variant may hold a different inner
/// type; `inner_*` methods reach one level below the immediate children.
pub trait InfiniteSelect: Sized {
    /// All variants at this level, each with default inner values.
    spec fn spec_variants() -> Seq<Self>;

    /// The name of this variant.
    spec fn spec_variant_name(&self) -> Seq<char>;

    /// Whether this variant holds an inner value.
    spec fn spec_has_inner(&self) -> bool;

    /// The names of this variant's children.
    spec fn spec_child_variant_names(&self) -> Seq<Seq<char>>;

    /// This value with its child set to the `index`-th child variant.
    spec fn spec_set_child_by_index(&self, index: int) -> Option<Self>;

    /// This value with the children along `path` set, `path[0]` being the
    /// child index at this level.
    spec fn spec_set_child_by_path(&self, path: Seq<usize>) -> Option<Self>;

    /// The maximum nesting depth of the type.
    spec fn spec_depth() -> nat;

    /// The nesting depth below this variant; 0 for leaves.
    spec fn spec_child_depth(&self) -> nat;

    /// The selection path of this value, root index first.
    spec fn spec_selection_path(&self) -> Seq<usize>;

    /// Whether the inner value itself has children.
    spec fn spec_inner_has_inner(&self) -> bool;

    /// The names of the inner value's children.
    spec fn spec_inner_child_variant_names(&self) -> Seq<Seq<char>>;

    /// This value with its inner value's child set to the `index`-th variant.
    spec fn spec_inner_set_child_by_index(&self, index: int) -> Option<Self>;

    fn variants() -> (r: Vec<Self>)
        ensures
            r@ == Self::spec_variants(),
    ;

    fn variant_name(&self) -> (r: &'static str)
        ensures
            r@ == self.spec_variant_name(),
    ;

    fn has_inner(&self) -> (r: bool)
        ensures
            r == self.spec_has_inner(),
    ;

    fn child_variant_names(&self) -> (r: Vec<&'static str>)
        ensures
            r@.map_values(|n: &'static str| n@) == self.spec_child_variant_names(),
    ;

    fn set_child_by_index(&self, index: usize) -> (r: Option<Self>)
        ensures
            r == self.spec_set_child_by_index(index as int),
    ;

    fn set_child_by_path(&self, path: &[usize]) -> (r: Option<Self>)
        ensures
            r == self.spec_set_child_by_path(path@),
    ;

    /// The nesting depth below this variant; 0 for leaves.
    fn child_depth(&self) -> (r: usize)
        ensures
            r == self.spec_child_depth(),
    ;

    fn depth() -> (r: usize)
        ensures
            r == Self::spec_depth(),
    ;

    fn selection_path(&self) -> (r: InfiniteSelectPath)
        ensures
            r@ == self.spec_selection_path(),
    ;

    fn inner_child_variant_names(&self) -> (r: Vec<&'static str>)
        ensures
            r@.map_values(|n: &'static str| n@) == self.spec_inner_child_variant_names(),
    ;

    fn inner_set_child_by_index(&self, index: usize) -> (r: Option<Self>)
        ensures
            r == self.spec_inner_set_child_by_index(index as int),
    ;

    fn inner_has_inner(&self) -> (r: bool)
        ensures
            r == self.spec_inner_has_inner(),
    ;

    /// The label of this level.
    fn type_label(&self) -> &'static str;

    /// The description of this level.
    fn type_description(&self) -> &'static str;

    /// The label of the child level `depth` below this node (0 is the
    /// immediate child).
    fn child_label_at_depth(&self, depth: usize) -> Option<&'static str>;

    /// The description of the child level `depth` below this node.
    fn child_description_at_depth(&self, depth: usize) -> Option<&'static str>;

    /// The label lookup delegated to the inner value.
    fn inner_child_label_at_depth(&self, depth: usize) -> Option<&'static str>;

    /// The description lookup delegated to the inner value.
    fn inner_child_description_at_depth(&self, depth: usize) -> Option<&'static str>;
}

/// The value a path selects: the root variant at `path[0]`, then the
/// children along the rest of the path; nothing for an empty path or an
/// out-of-range root.
pub open spec fn build_from_path_spec<T: InfiniteSelect>(path: Seq<usize>) -> Option<T> {
    if path.len() == 0 {
        None
    } else if path[0] >= T::spec_variants().len() {
        None
    } else if path.len() > 1 {
        T::spec_variants()[path[0] as int].spec_set_child_by_path(path.subrange(1, path.len() as int))
    } else {
        Some(T::spec_variants()[path[0] as int])
    }
}

/// What a path builds: nothing for an empty path or a root index past the
/// type's variants; the root variant itself for a one-entry path; else the
/// root variant with the children along the rest of the path set (so every
/// index after the root takes part).
pub proof fn lemma_build_from_path_follows_the_whole_path<T: InfiniteSelect>(path: Seq<usize>)
    ensures
        path.len() == 0 ==> build_from_path_spec::<T>(path) is None,
        path.len() > 0 && path[0] >= T::spec_variants().len() ==> build_from_path_spec::<T>(path) is None,
        path.len() == 1 && path[0] < T::spec_variants().len() ==> build_from_path_spec::<T>(path) == Some(
            T::spec_variants()[path[0] as int],
        ),
        path.len() > 1 && path[0] < T::spec_variants().len() ==> build_from_path_spec::<T>(path)
            == T::spec_variants()[path[0] as int].spec_set_child_by_path(path.drop_first()),
{
    if path.len() > 1 {
        assert(path.subrange(1, path.len() as int) =~= path.drop_first());
    }
}

/// Rebuilds a value from a selection path.
pub fn build_from_path<T: InfiniteSelect>(path: &InfiniteSelectPath) -> (r: Option<T>)
    ensures
        r == build_from_path_spec::<T>(path@),
{
    if path.is_empty() {
        return None;
    }
    let mut variants = T::variants();
    let root_index = match path.get(0) {
        Some(i) => i,
        None => return None,
    };
    if root_index >= variants.len() {
        return None;
    }
    let root = variants.remove(root_index);
    if path.len() > 1 {
        let (_, rest) = path.indices().split_at(1);
        root.set_child_by_path(rest)
    } else {
        Some(root)
    }
}

/// The selection path of a value.
pub fn path_from_value<T: InfiniteSelect>(value: &T) -> (r: InfiniteSelectPath)
    ensures
        r@ == value.spec_selection_path(),
{
    value.selection_path()
}

/// A variant wrapped for display in a select: the value and its title.
#[derive(Clone)]
pub struct InfiniteSelectItem<T: InfiniteSelect> {
    value: T,
    title: String,
}

impl<T: InfiniteSelect> InfiniteSelectItem<T> {
    /// The wrapped value.
    pub closed spec fn spec_value(&self) -> T {
        self.value
    }

    /// The displayed title.
    pub closed spec fn spec_title(&self) -> Seq<char> {
        self.title@
    }

    /// An item with a custom title.
    pub fn new(value: T, title: String) -> (r: Self)
        ensures
            r.spec_value() == value,
            r.spec_title() == title@,
    {
        InfiniteSelectItem { value, title }
    }

    /// An item titled with the variant name.
    pub fn from_variant(value: T) -> (r: Self)
        ensures
            r.spec_value() == value,
            r.spec_title() == value.spec_variant_name(),
    {
        let title = String::from_str(value.variant_name());
        InfiniteSelectItem { value, title }
    }

    /// The displayed title.
    pub fn title(&self) -> (r: &str)
        ensures
            r@ == self.spec_title(),
    {
        self.title.as_str()
    }

    /// Borrows the wrapped value.
    pub fn get_value(&self) -> (r: &T)
        ensures
            *r == self.spec_value(),
    {
        &self.value
    }

    /// Consumes the item and returns the wrapped value.
    pub fn into_value(self) -> (r: T)
        ensures
            r == self.spec_value(),
    {
        self.value
    }

    /// Whether the wrapped value has nested inner values.
    pub fn has_inner(&self) -> (r: bool)
        ensures
            r == self.spec_value().spec_has_inner(),
    {
        self.value.has_inner()
    }

    /// The child variant names of the wrapped value.
    pub fn child_variant_names(&self) -> (r: Vec<&'static str>)
        ensures
            r@.map_values(|n: &'static str| n@) == self.spec_value().spec_child_variant_names(),
    {
        self.value.child_variant_names()
    }

    /// An item for the wrapped value with the child at `index` selected,
    /// titled with its variant name.
    pub fn with_child_at(&self, index: usize) -> (r: Option<Self>)
        ensures
            match self.spec_value().spec_set_child_by_index(index as int) {
                Some(c) => r matches Some(it) && it.spec_value() == c && it.spec_title()
                    == c.spec_variant_name(),
                None => r is None,
            },
    {
        match self.value.set_child_by_index(index) {
            Some(c) => Some(InfiniteSelectItem::from_variant(c)),
            None => None,
        }
    }
}

/// The value and title of each item.
pub open spec fn item_pairs<T: InfiniteSelect>(items: Seq<InfiniteSelectItem<T>>) -> Seq<(T, Seq<char>)> {
    items.map_values(|it: InfiniteSelectItem<T>| (it.spec_value(), it.spec_title()))
}

/// The root items: every variant titled with its name.
pub fn to_select_items<T: InfiniteSelect>() -> (r: Vec<InfiniteSelectItem<T>>)
    ensures
        item_pairs(r@) == T::spec_variants().map_values(|v: T| (v, v.spec_variant_name())),
{
    let mut variants = T::variants();
    let ghost all = variants@;
    let n = variants.len();
    let mut out: Vec<InfiniteSelectItem<T>> = Vec::new();
    let mut k: usize = 0;
    while variants.len() > 0
        invariant
            all.len() == n,
            k <= all.len(),
            variants@ == all.subrange(k as int, all.len() as int),
            item_pairs(out@) == all.subrange(0, k as int).map_values(
                |v: T| (v, v.spec_variant_name()),
            ),
        decreases variants@.len(),
    {
        assert(k < all.len());
        let v = variants.remove(0);
        assert(v == all[k as int]);
        let item = InfiniteSelectItem::from_variant(v);
        let ghost old_out = out@;
        out.push(item);
        assert(out@ == old_out.push(item));
        assert(item_pairs(out@) =~= item_pairs(old_out).push((v, v.spec_variant_name())));
        assert(all.subrange(0, k + 1) =~= all.subrange(0, k as int).push(v));
        assert(item_pairs(out@) =~= all.subrange(0, k + 1).map_values(
            |v: T| (v, v.spec_variant_name()),
        ));
        assert(variants@ =~= all.subrange(k + 1, all.len() as int));
        k = k + 1;
    }
    assert(all.subrange(0, all.len() as int) =~= all);
    out
}

/// Whether the value has children at `level` (0: its own children, deeper:
/// its inner value's children).
pub open spec fn level_has_more<T: InfiniteSelect>(v: T, level: int) -> bool {
    if level == 0 {
        v.spec_has_inner()
    } else {
        v.spec_inner_has_inner()
    }
}

/// The child names offered at `level`.
pub open spec fn level_names<T: InfiniteSelect>(v: T, level: int) -> Seq<Seq<char>> {
    if level == 0 {
        v.spec_child_variant_names()
    } else {
        v.spec_inner_child_variant_names()
    }
}

/// The value with the `i`-th child chosen at `level`.
pub open spec fn level_child<T: InfiniteSelect>(v: T, level: int, i: int) -> Option<T> {
    if level == 0 {
        v.spec_set_child_by_index(i)
    } else {
        v.spec_inner_set_child_by_index(i)
    }
}

/// The (value, title) pairs for the first `n` names at `level`, skipping the
/// indices that give no value.
pub open spec fn child_items_upto<T: InfiniteSelect>(
    v: T,
    level: int,
    names: Seq<Seq<char>>,
    n: nat,
) -> Seq<(T, Seq<char>)>
    decreases n,
{
    if n == 0 {
        Seq::empty()
    } else {
        let prev = child_items_upto(v, level, names, (n - 1) as nat);
        match level_child(v, level, n - 1) {
            Some(c) => prev.push((c, names[n - 1])),
            None => prev,
        }
    }
}

/// The items of the select at `level`: nothing when the value has no
/// children there, else one item per child name whose index gives a value.
pub open spec fn child_items_spec<T: InfiniteSelect>(v: T, level: int) -> Seq<(T, Seq<char>)> {
    if !level_has_more(v, level) || level_names(v, level).len() == 0 {
        Seq::empty()
    } else {
        child_items_upto(v, level, level_names(v, level), level_names(v, level).len())
    }
}

/// The select items offered at `level` below `current_value`, each titled
/// with its child name.
pub fn child_items_for_level<T: InfiniteSelect>(current_value: &T, level: usize) -> (r: Vec<
    InfiniteSelectItem<T>,
>)
    ensures
        item_pairs(r@) == child_items_spec(*current_value, level as int),
{
    let has_more;
    let child_names;
    if level == 0 {
        has_more = current_value.has_inner();
        child_names = current_value.child_variant_names();
    } else {
        has_more = current_value.inner_has_inner();
        child_names = current_value.inner_child_variant_names();
    }
    let ghost names = level_names(*current_value, level as int);
    assert(child_names@.len() == names.len());
    let mut out: Vec<InfiniteSelectItem<T>> = Vec::new();
    if !has_more || child_names.len() == 0 {
        return out;
    }
    let mut i: usize = 0;
    while i < child_names.len()
        invariant
            i <= child_names@.len(),
            child_names@.map_values(|n: &'static str| n@) == names,
            names == level_names(*current_value, level as int),
            item_pairs(out@) == child_items_upto(*current_value, level as int, names, i as nat),
        decreases child_names@.len() - i,
    {
        let child = if level == 0 {
            current_value.set_child_by_index(i)
        } else {
            current_value.inner_set_child_by_index(i)
        };
        let ghost old_out = out@;
        assert(names[i as int] == child_names@[i as int]@);
        match child {
            Some(c) => {
                let item = InfiniteSelectItem::new(c, String::from_str(child_names[i]));
                out.push(item);
                assert(out@ == old_out.push(item));
                assert(item_pairs(out@) =~= item_pairs(old_out).push((c, names[i as int])));
            },
            None => {},
        }
        i = i + 1;
    }
    out
}

/// The items of the first `n` names: each is titled with some name among
/// them and holds the value chosen by that name's index; when every one of
/// those indices gives a value, the items are exactly those, in order.
proof fn lemma_child_items_upto<T: InfiniteSelect>(v: T, level: int, names: Seq<Seq<char>>, n: nat)
    requires
        n <= names.len(),
    ensures
        child_items_upto(v, level, names, n).len() <= n,
        forall|k: int|
            #![trigger child_items_upto(v, level, names, n)[k]]
            0 <= k < child_items_upto(v, level, names, n).len() ==> exists|i: int|
                #![trigger level_child(v, level, i)]
                0 <= i < n && child_items_upto(v, level, names, n)[k].1 == names[i] && level_child(
                    v,
                    level,
                    i,
                ) == Some(child_items_upto(v, level, names, n)[k].0),
        (forall|i: int| 0 <= i < n ==> (#[trigger] level_child(v, level, i)) is Some) ==> (
        child_items_upto(v, level, names, n).len() == n && forall|i: int|
            0 <= i < n ==> Some(#[trigger] child_items_upto(v, level, names, n)[i].0) == level_child(
                v,
                level,
                i,
            ) && child_items_upto(v, level, names, n)[i].1 == names[i]),
    decreases n,
{
    if n > 0 {
        lemma_child_items_upto(v, level, names, (n - 1) as nat);
        let prev = child_items_upto(v, level, names, (n - 1) as nat);
        let cur = child_items_upto(v, level, names, n);
        assert forall|k: int| 0 <= k < cur.len() implies #[trigger] cur[k] == cur[k] && exists|i: int|
            #![trigger level_child(v, level, i)]
            0 <= i < n && cur[k].1 == names[i] && level_child(v, level, i) == Some(cur[k].0) by {
            if k < prev.len() {
                assert(cur[k] == prev[k]);
                let i = choose|i: int|
                    #![trigger level_child(v, level, i)]
                    0 <= i < n - 1 && prev[k].1 == names[i] && level_child(v, level, i) == Some(
                        prev[k].0,
                    );
                assert(0 <= i < n && cur[k].1 == names[i] && level_child(v, level, i) == Some(
                    cur[k].0,
                ));
            } else {
                let j = n - 1;
                match level_child(v, level, j) {
                    Some(c) => {
                        assert(cur == prev.push((c, names[j])));
                        assert(cur[k] == (c, names[j]));
                        assert(0 <= j < n && cur[k].1 == names[j] && level_child(v, level, j)
                            == Some(cur[k].0));
                    },
                    None => {
                        assert(cur == prev);
                    },
                }
            }
        }
    }
}

/// Below the first level, the select offers the inner value's children:
/// nothing when the inner value has none; otherwise each item is titled
/// with one of the inner value's child names and holds the value with that
/// inner child chosen, and when every inner child index gives a value the
/// items are exactly the inner children, in order.
pub proof fn lemma_deeper_levels_offer_the_inner_children<T: InfiniteSelect>(v: T, level: int)
    requires
        level >= 1,
    ensures
        !v.spec_inner_has_inner() ==> child_items_spec(v, level).len() == 0,
        forall|k: int|
            #![trigger child_items_spec(v, level)[k]]
            0 <= k < child_items_spec(v, level).len() ==> exists|i: int|
                0 <= i < v.spec_inner_child_variant_names().len() && child_items_spec(v, level)[k].1
                    == v.spec_inner_child_variant_names()[i] && v.spec_inner_set_child_by_index(i)
                    == Some(child_items_spec(v, level)[k].0),
        v.spec_inner_has_inner() && (forall|i: int|
            0 <= i < v.spec_inner_child_variant_names().len()
                ==> (#[trigger] v.spec_inner_set_child_by_index(i)) is Some) ==> (
        child_items_spec(v, level).len() == v.spec_inner_child_variant_names().len() && forall|
            i: int,
        |
            0 <= i < v.spec_inner_child_variant_names().len() ==> Some(
                #[trigger] child_items_spec(v, level)[i].0,
            ) == v.spec_inner_set_child_by_index(i) && child_items_spec(v, level)[i].1
                == v.spec_inner_child_variant_names()[i]),
{
    let names = v.spec_inner_child_variant_names();
    lemma_child_items_upto(v, level, names, names.len());
    assert forall|i: int| 0 <= i < names.len() implies level_child(v, level, i)
        == v.spec_inner_set_child_by_index(i) by {}
}

/// The first level offers the value's own children: nothing when it has
/// none; otherwise each item is titled with one of its child names and
/// holds the value with that child chosen, and when every child index gives
/// a value the items are exactly its children, in order.
pub proof fn lemma_first_level_offers_the_own_children<T: InfiniteSelect>(v: T)
    ensures
        !v.spec_has_inner() ==> child_items_spec(v, 0).len() == 0,
        forall|k: int|
            #![trigger child_items_spec(v, 0)[k]]
            0 <= k < child_items_spec(v, 0).len() ==> exists|i: int|
                0 <= i < v.spec_child_variant_names().len() && child_items_spec(v, 0)[k].1
                    == v.spec_child_variant_names()[i] && v.spec_set_child_by_index(i) == Some(
                    child_items_spec(v, 0)[k].0,
                ),
        v.spec_has_inner() && (forall|i: int|
            0 <= i < v.spec_child_variant_names().len()
                ==> (#[trigger] v.spec_set_child_by_index(i)) is Some) ==> (child_items_spec(
            v,
            0,
        ).len() == v.spec_child_variant_names().len() && forall|i: int|
            0 <= i < v.spec_child_variant_names().len() ==> Some(
                #[trigger] child_items_spec(v, 0)[i].0,
            ) == v.spec_set_child_by_index(i) && child_items_spec(v, 0)[i].1
                == v.spec_child_variant_names()[i]),
{
    let names = v.spec_child_variant_names();
    lemma_child_items_upto(v, 0, names, names.len());
    assert forall|i: int| 0 <= i < names.len() implies level_child(v, 0, i)
        == v.spec_set_child_by_index(i) by {}
}

} // verus!
