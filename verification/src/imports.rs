//! Import planning for generated scaffolds: each generator names the items
//! it needs; they are merged into a deduplicated, ordered set, which is then
//! grouped by parent module so that one `use parent::{a, b as c};` is
//! emitted per module.

use vstd::prelude::*;

use crate::text::{chars_lt, lemma_chars_lt_strict_total, lemma_chars_lt_transitive, str_eq, str_lt};
use vstd::string::StrSliceExecFns;

verus! {

/// One item to import: its full path and an optional rename (`_` for an
/// anonymous trait import).
#[derive(Clone, Copy, Debug, PartialEq, Eq, Hash, PartialOrd, Ord)]
pub struct ImportItem {
    /// Full path of the item, e.g. `gpui_component::checkbox::Checkbox`.
    pub path: &'static str,
    /// Optional rename alias.
    pub alias: Option<&'static str>,
}

/// The characters of an item's path and alias.
pub type ItemKey = (Seq<char>, Option<Seq<char>>);

/// The characters of an optional text.
pub open spec fn opt_chars(o: Option<&'static str>) -> Option<Seq<char>> {
    match o {
        Some(s) => Some(s@),
        None => None,
    }
}

impl ImportItem {
    /// The characters of the path and of the alias.
    pub open spec fn key(&self) -> ItemKey {
        (self.path@, opt_chars(self.alias))
    }

    /// An import with no alias.
    pub fn path(path: &'static str) -> (r: Self)
        ensures
            r.path == path,
            r.alias is None,
    {
        ImportItem { path, alias: None }
    }

    /// An import with a rename alias.
    pub fn aliased(path: &'static str, alias: &'static str) -> (r: Self)
        ensures
            r.path == path,
            r.alias == Some(alias),
    {
        ImportItem { path, alias: Some(alias) }
    }
}

/// Alias order: no alias first, then aliases in character order.
pub open spec fn alias_lt(a: Option<Seq<char>>, b: Option<Seq<char>>) -> bool {
    match (a, b) {
        (None, Some(_)) => true,
        (Some(x), Some(y)) => chars_lt(x, y),
        _ => false,
    }
}

/// Item order: by path, then by alias.
pub open spec fn key_lt(x: ItemKey, y: ItemKey) -> bool {
    chars_lt(x.0, y.0) || (x.0 == y.0 && alias_lt(x.1, y.1))
}

/// `key_lt` is a strict total order.
pub proof fn lemma_key_lt_order(x: ItemKey, y: ItemKey, z: ItemKey)
    ensures
        !key_lt(x, x),
        key_lt(x, y) ==> !key_lt(y, x),
        x != y ==> key_lt(x, y) || key_lt(y, x),
        key_lt(x, y) && key_lt(y, z) ==> key_lt(x, z),
{
    lemma_chars_lt_strict_total(x.0, y.0);
    lemma_chars_lt_strict_total(y.0, z.0);
    lemma_chars_lt_strict_total(x.0, z.0);
    if let (Some(a), Some(b)) = (x.1, y.1) {
        lemma_chars_lt_strict_total(a, b);
    }
    if let Some(a) = x.1 {
        lemma_chars_lt_strict_total(a, a);
    }
    if chars_lt(x.0, y.0) && chars_lt(y.0, z.0) {
        lemma_chars_lt_transitive(x.0, y.0, z.0);
    }
    if let (Some(a), Some(b), Some(c)) = (x.1, y.1, z.1) {
        if chars_lt(a, b) && chars_lt(b, c) {
            lemma_chars_lt_transitive(a, b, c);
        }
    }
}

/// Whether `a` orders strictly before `b`.
fn item_lt(a: &ImportItem, b: &ImportItem) -> (r: bool)
    ensures
        r == key_lt(a.key(), b.key()),
{
    if str_lt(a.path, b.path) {
        return true;
    }
    if !str_eq(a.path, b.path) {
        return false;
    }
    match (a.alias, b.alias) {
        (None, Some(_)) => true,
        (Some(x), Some(y)) => str_lt(x, y),
        _ => false,
    }
}

/// Whether two items have the same path and alias.
fn item_eq(a: &ImportItem, b: &ImportItem) -> (r: bool)
    ensures
        r == (a.key() == b.key()),
{
    if !str_eq(a.path, b.path) {
        return false;
    }
    match (a.alias, b.alias) {
        (None, None) => true,
        (Some(x), Some(y)) => str_eq(x, y),
        _ => false,
    }
}

/// The keys of a sequence of items, in order.
pub open spec fn keys_of(items: Seq<ImportItem>) -> Seq<ItemKey> {
    items.map_values(|it: ImportItem| it.key())
}

/// Strictly increasing in item order (hence free of duplicates).
pub open spec fn strictly_sorted(keys: Seq<ItemKey>) -> bool {
    forall|i: int, j: int| 0 <= i < j < keys.len() ==> key_lt(#[trigger] keys[i], #[trigger] keys[j])
}

/// In a strictly sorted sequence, the first key is below every later one and
/// does not occur again.
proof fn lemma_sorted_first_is_least(a: Seq<ItemKey>)
    requires
        strictly_sorted(a),
        a.len() > 0,
    ensures
        forall|k: ItemKey| a.to_set().contains(k) ==> k == a[0] || key_lt(a[0], k),
        !a.drop_first().to_set().contains(a[0]),
        a.drop_first().to_set() == a.to_set().remove(a[0]),
        strictly_sorted(a.drop_first()),
{
    assert forall|k: ItemKey| a.to_set().contains(k) implies k == a[0] || key_lt(a[0], k) by {
        let i = choose|i: int| 0 <= i < a.len() && a[i] == k;
        if i > 0 {
            assert(key_lt(a[0], a[i]));
        }
    }
    let t = a.drop_first();
    if t.to_set().contains(a[0]) {
        let i = choose|i: int| 0 <= i < t.len() && t[i] == a[0];
        assert(key_lt(a[0], a[i + 1]));
        lemma_key_lt_order(a[0], a[0], a[0]);
    }
    assert(t.to_set() =~= a.to_set().remove(a[0])) by {
        assert forall|k: ItemKey| a.to_set().remove(a[0]).contains(k) implies t.to_set().contains(
            k,
        ) by {
            let i = choose|i: int| 0 <= i < a.len() && a[i] == k;
            assert(t[i - 1] == k);
        }
        assert forall|k: ItemKey| t.to_set().contains(k) implies a.to_set().remove(a[0]).contains(
            k,
        ) by {
            let i = choose|i: int| 0 <= i < t.len() && t[i] == k;
            assert(a[i + 1] == k);
        }
    }
    assert forall|i: int, j: int| 0 <= i < j < t.len() implies key_lt(
        #[trigger] t[i],
        #[trigger] t[j],
    ) by {
        assert(key_lt(a[i + 1], a[j + 1]));
    }
}

/// Import order does not depend on how the items arrived: two strictly
/// sorted key sequences that hold the same keys are the same sequence. (The
/// items of an `ImportSet` are such a sequence, see `ImportSet::items`.)
pub proof fn lemma_sorted_keys_are_unique(a: Seq<ItemKey>, b: Seq<ItemKey>)
    requires
        strictly_sorted(a),
        strictly_sorted(b),
        a.to_set() == b.to_set(),
    ensures
        a == b,
    decreases a.len(),
{
    if a.len() == 0 || b.len() == 0 {
        if a.len() > 0 {
            assert(a.to_set().contains(a[0]));
        }
        if b.len() > 0 {
            assert(b.to_set().contains(b[0]));
        }
        assert(a =~= b);
    } else {
        lemma_sorted_first_is_least(a);
        lemma_sorted_first_is_least(b);
        assert(a.to_set().contains(a[0]));
        assert(b.to_set().contains(b[0]));
        if a[0] != b[0] {
            assert(key_lt(b[0], a[0]));
            assert(key_lt(a[0], b[0]));
            lemma_key_lt_order(a[0], b[0], a[0]);
        }
        lemma_sorted_keys_are_unique(a.drop_first(), b.drop_first());
        assert(a =~= seq![a[0]] + a.drop_first());
        assert(b =~= seq![b[0]] + b.drop_first());
    }
}

/// A deduplicated collection of import items, kept in item order.
///
/// The items are held in a strictly sorted `Vec` rather than a `BTreeSet`:
/// vstd states `BTreeSet::insert` and its ordered iteration only for keys
/// whose `Ord` obeys its spec, and the order of `ImportItem` comes from a
/// derived `Ord` (on text fields) that Verus does not read, so a `BTreeSet`
/// of items would carry no usable contract. The order is stated here
/// instead (`key_lt`, the same path-then-alias order the derive gives).
pub struct ImportSet {
    items: Vec<ImportItem>,
}

impl View for ImportSet {
    type V = Set<ItemKey>;

    /// The set of item keys held.
    closed spec fn view(&self) -> Set<ItemKey> {
        keys_of(self.items@).to_set()
    }
}

impl ImportSet {
    /// The held items, in item order.
    pub closed spec fn spec_items(&self) -> Seq<ImportItem> {
        self.items@
    }

    #[verifier::type_invariant]
    spec fn sorted_invariant(&self) -> bool {
        strictly_sorted(keys_of(self.items@))
    }

    /// An empty set.
    pub fn new() -> (r: Self)
        ensures
            r@ == Set::<ItemKey>::empty(),
            r.spec_items().len() == 0,
    {
        let r = ImportSet { items: Vec::new() };
        assert(keys_of(r.items@).to_set() =~= Set::<ItemKey>::empty());
        r
    }

    /// Inserts one item (nothing changes when an equal item is held).
    pub fn add(&mut self, item: ImportItem)
        ensures
            final(self)@ == old(self)@.insert(item.key()),
    {
        proof {
            use_type_invariant(&*self);
        }
        let n = self.items.len();
        let ghost keys = keys_of(self.items@);
        let mut i: usize = 0;
        while i < n && item_lt(&self.items[i], &item)
            invariant
                n == self.items@.len(),
                keys == keys_of(self.items@),
                strictly_sorted(keys),
                i <= n,
                forall|j: int| 0 <= j < i ==> key_lt(#[trigger] keys[j], item.key()),
            decreases n - i,
        {
            i = i + 1;
        }
        if i < n && item_eq(&self.items[i], &item) {
            assert(keys[i as int] == item.key());
            assert(keys.to_set().insert(item.key()) =~= keys.to_set());
            return;
        }
        proof {
            if i < n {
                lemma_key_lt_order(keys[i as int], item.key(), item.key());
                assert(key_lt(item.key(), keys[i as int]));
            }
        }
        let mut items = Vec::new();
        std::mem::swap(&mut items, &mut self.items);
        items.insert(i, item);
        let ghost new_keys = keys_of(items@);
        proof {
            assert(new_keys =~= keys.insert(i as int, item.key()));
            assert forall|a: int, b: int| 0 <= a < b < new_keys.len() implies key_lt(
                #[trigger] new_keys[a],
                #[trigger] new_keys[b],
            ) by {
                if a < i && b == i {
                } else if a < i && b > i {
                    assert(key_lt(keys[a], item.key()));
                    assert(key_lt(item.key(), keys[i as int]));
                    if b - 1 > i {
                        assert(key_lt(keys[i as int], keys[b - 1]));
                        lemma_key_lt_order(item.key(), keys[i as int], keys[b - 1]);
                    }
                    lemma_key_lt_order(keys[a], item.key(), keys[b - 1]);
                } else if a == i && b > i {
                    if b - 1 > i {
                        assert(key_lt(keys[i as int], keys[b - 1]));
                        lemma_key_lt_order(item.key(), keys[i as int], keys[b - 1]);
                    }
                } else if a > i {
                    assert(key_lt(keys[a - 1], keys[b - 1]));
                }
            }
            assert(new_keys.to_set() =~= keys.to_set().insert(item.key())) by {
                assert forall|k: ItemKey| new_keys.to_set().contains(k) implies keys.to_set().insert(
                    item.key(),
                ).contains(k) by {
                    let idx = choose|idx: int| 0 <= idx < new_keys.len() && new_keys[idx] == k;
                    if idx < i {
                        assert(keys[idx] == k);
                    } else if idx > i {
                        assert(keys[idx - 1] == k);
                    }
                }
                assert forall|k: ItemKey| keys.to_set().insert(item.key()).contains(k) implies new_keys.to_set().contains(
                    k,
                ) by {
                    if k == item.key() {
                        assert(new_keys[i as int] == k);
                    } else {
                        let idx = choose|idx: int| 0 <= idx < keys.len() && keys[idx] == k;
                        if idx < i {
                            assert(new_keys[idx] == k);
                        } else {
                            assert(new_keys[idx + 1] == k);
                        }
                    }
                }
            }
        }
        self.items = items;
    }

    /// Inserts every item of a slice.
    pub fn extend_items(&mut self, items: &[ImportItem])
        ensures
            final(self)@ == old(self)@.union(keys_of(items@).to_set()),
    {
        let mut i: usize = 0;
        while i < items.len()
            invariant
                i <= items@.len(),
                self@ == old(self)@.union(keys_of(items@.subrange(0, i as int)).to_set()),
            decreases items@.len() - i,
        {
            self.add(items[i]);
            proof {
                let pre = keys_of(items@.subrange(0, i as int));
                assert(keys_of(items@.subrange(0, i + 1)) =~= pre.push(items@[i as int].key()));
                pre.lemma_push_to_set_commute(items@[i as int].key());
            }
            i = i + 1;
        }
        assert(items@.subrange(0, items@.len() as int) =~= items@);
        assert(self@ =~= old(self)@.union(keys_of(items@).to_set()));
    }

    /// Inserts every item of a vector.
    pub fn extend(&mut self, items: Vec<ImportItem>)
        ensures
            final(self)@ == old(self)@.union(keys_of(items@).to_set()),
    {
        self.extend_items(items.as_slice());
    }

    /// The held items in item order.
    pub fn items(&self) -> (r: &[ImportItem])
        ensures
            r@ == self.spec_items(),
            strictly_sorted(keys_of(r@)),
            keys_of(r@).to_set() == self@,
    {
        proof {
            use_type_invariant(self);
        }
        self.items.as_slice()
    }

    /// The number of distinct items held.
    pub fn len(&self) -> (r: usize)
        ensures
            r == self.spec_items().len(),
    {
        self.items.len()
    }
}

impl Default for ImportSet {
    fn default() -> (r: Self)
        ensures
            r@ == Set::<ItemKey>::empty(),
    {
        ImportSet::new()
    }
}

/// Whether `::` starts at position `k` of `p`.
pub open spec fn sep_at(p: Seq<char>, k: int) -> bool {
    0 <= k && k + 1 < p.len() && p[k] == ':' && p[k + 1] == ':'
}

/// The last position below `n` where `::` starts, if any.
pub open spec fn last_sep_below(p: Seq<char>, n: int) -> Option<int>
    decreases n,
{
    if n <= 0 {
        None
    } else if sep_at(p, n - 1) {
        Some(n - 1)
    } else {
        last_sep_below(p, n - 1)
    }
}

/// An item path split at its last `::` into (parent module, item name); a
/// path without `::` has an empty parent.
pub open spec fn split_parent(p: Seq<char>) -> (Seq<char>, Seq<char>) {
    match last_sep_below(p, p.len() as int) {
        Some(k) => (p.subrange(0, k), p.subrange(k + 2, p.len() as int)),
        None => (Seq::empty(), p),
    }
}

/// Splits an item path at its last `::` into (parent, name); `("", path)`
/// when the path has no `::`.
pub fn split_parent_path(path: &'static str) -> (r: (&'static str, &'static str))
    ensures
        (r.0@, r.1@) == split_parent(path@),
{
    let n = path.unicode_len();
    let mut i: usize = n;
    while i > 0
        invariant
            n == path@.len(),
            i <= n,
            last_sep_below(path@, n as int) == last_sep_below(path@, i as int),
        decreases i,
    {
        let k = i - 1;
        if k + 1 < n && path.get_char(k) == ':' && path.get_char(k + 1) == ':' {
            assert(sep_at(path@, k as int));
            let parent = path.substring_char(0, k);
            let name = path.substring_char(k + 2, n);
            return (parent, name);
        }
        i = k;
    }
    let empty = path.substring_char(0, 0);
    assert(empty@ =~= Seq::<char>::empty());
    (empty, path)
}

/// The module path of an item's path.
pub open spec fn parent_of(it: ImportItem) -> Seq<char> {
    split_parent(it.path@).0
}

/// An item as it appears within its group: its name and alias.
pub open spec fn member_of(it: ImportItem) -> (Seq<char>, Option<Seq<char>>) {
    (split_parent(it.path@).1, opt_chars(it.alias))
}

/// The items of one parent module: their names and aliases.
pub struct ImportGroup {
    pub parent: &'static str,
    pub members: Vec<(&'static str, Option<&'static str>)>,
}

/// The characters of a group member.
pub open spec fn member_chars(m: (&'static str, Option<&'static str>)) -> (Seq<char>, Option<Seq<char>>) {
    (m.0@, opt_chars(m.1))
}

/// Strictly increasing in character order.
pub open spec fn texts_sorted(v: Seq<Seq<char>>) -> bool {
    forall|i: int, j: int| 0 <= i < j < v.len() ==> chars_lt(#[trigger] v[i], #[trigger] v[j])
}

/// The non-empty parent modules of the items.
pub open spec fn parents_of(items: Seq<ImportItem>) -> Set<Seq<char>> {
    Set::new(|p: Seq<char>| p.len() > 0 && exists|i: int| 0 <= i < items.len() && parent_of(#[trigger] items[i]) == p)
}

/// The members of the group of `parent`, in item order.
pub open spec fn members_of(items: Seq<ImportItem>, parent: Seq<char>) -> Seq<(Seq<char>, Option<Seq<char>>)> {
    items.filter(|it: ImportItem| parent_of(it) == parent).map_values(|it: ImportItem| member_of(it))
}

/// Inserts a non-empty text into a strictly sorted vector, keeping it
/// sorted and free of duplicates.
fn insert_sorted_text(v: &mut Vec<&'static str>, s: &'static str)
    requires
        texts_sorted(old(v)@.map_values(|t: &'static str| t@)),
    ensures
        texts_sorted(final(v)@.map_values(|t: &'static str| t@)),
        final(v)@.map_values(|t: &'static str| t@).to_set() == old(v)@.map_values(
            |t: &'static str| t@,
        ).to_set().insert(s@),
{
    let ghost keys = v@.map_values(|t: &'static str| t@);
    let n = v.len();
    let mut i: usize = 0;
    while i < n && str_lt(v[i], s)
        invariant
            n == v@.len(),
            keys == v@.map_values(|t: &'static str| t@),
            texts_sorted(keys),
            i <= n,
            forall|j: int| 0 <= j < i ==> chars_lt(#[trigger] keys[j], s@),
        decreases n - i,
    {
        i = i + 1;
    }
    if i < n && str_eq(v[i], s) {
        assert(keys[i as int] == s@);
        assert(keys.to_set().insert(s@) =~= keys.to_set());
        return;
    }
    proof {
        if i < n {
            lemma_chars_lt_strict_total(keys[i as int], s@);
        }
    }
    v.insert(i, s);
    let ghost new_keys = v@.map_values(|t: &'static str| t@);
    proof {
        assert(new_keys =~= keys.insert(i as int, s@));
        assert forall|a: int, b: int| 0 <= a < b < new_keys.len() implies chars_lt(
            #[trigger] new_keys[a],
            #[trigger] new_keys[b],
        ) by {
            if a < i && b == i {
            } else if a < i && b > i {
                if b - 1 > i {
                    assert(chars_lt(keys[i as int], keys[b - 1]));
                    lemma_chars_lt_transitive(s@, keys[i as int], keys[b - 1]);
                }
                lemma_chars_lt_transitive(keys[a], s@, keys[b - 1]);
            } else if a == i && b > i {
                if b - 1 > i {
                    assert(chars_lt(keys[i as int], keys[b - 1]));
                    lemma_chars_lt_transitive(s@, keys[i as int], keys[b - 1]);
                }
            } else if a > i {
                assert(chars_lt(keys[a - 1], keys[b - 1]));
            }
        }
        assert(new_keys.to_set() =~= keys.to_set().insert(s@)) by {
            assert forall|k: Seq<char>| new_keys.to_set().contains(k) implies keys.to_set().insert(
                s@,
            ).contains(k) by {
                let idx = choose|idx: int| 0 <= idx < new_keys.len() && new_keys[idx] == k;
                if idx < i {
                    assert(keys[idx] == k);
                } else if idx > i {
                    assert(keys[idx - 1] == k);
                }
            }
            assert forall|k: Seq<char>| keys.to_set().insert(s@).contains(k) implies new_keys.to_set().contains(
                k,
            ) by {
                if k == s@ {
                    assert(new_keys[i as int] == k);
                } else {
                    let idx = choose|idx: int| 0 <= idx < keys.len() && keys[idx] == k;
                    if idx < i {
                        assert(new_keys[idx] == k);
                    } else {
                        assert(new_keys[idx + 1] == k);
                    }
                }
            }
        }
    }
}

impl ImportSet {
    /// The held items grouped by parent module: one group per non-empty
    /// parent, groups in character order of their parent, each listing the
    /// names and aliases of its items in item order. Items without a parent
    /// module are left out (they are in scope already).
    pub fn grouped(&self) -> (r: Vec<ImportGroup>)
        ensures
            texts_sorted(r@.map_values(|g: ImportGroup| g.parent@)),
            r@.map_values(|g: ImportGroup| g.parent@).to_set() == parents_of(self.spec_items()),
            forall|g: int|
                0 <= g < r@.len() ==> (#[trigger] r@[g]).members@.map_values(
                    |m: (&'static str, Option<&'static str>)| member_chars(m),
                ) == members_of(self.spec_items(), r@[g].parent@),
    {
        let items = self.items();
        let ghost all = items@;
        let mut parents: Vec<&'static str> = Vec::new();
        let mut i: usize = 0;
        while i < items.len()
            invariant
                all == items@,
                all == self.spec_items(),
                i <= all.len(),
                texts_sorted(parents@.map_values(|t: &'static str| t@)),
                parents@.map_values(|t: &'static str| t@).to_set() == parents_of(
                    all.subrange(0, i as int),
                ),
            decreases all.len() - i,
        {
            let (parent, _) = split_parent_path(items[i].path);
            let ghost before = parents@.map_values(|t: &'static str| t@).to_set();
            if parent.unicode_len() > 0 {
                insert_sorted_text(&mut parents, parent);
            }
            proof {
                let pre = all.subrange(0, i as int);
                let post = all.subrange(0, i + 1);
                assert(post =~= pre.push(all[i as int]));
                assert(parent@ == parent_of(all[i as int]));
                assert forall|p: Seq<char>| #[trigger] parents_of(post).contains(p) implies (
                parents_of(pre).contains(p) || (p == parent@ && p.len() > 0)) by {
                    let idx = choose|idx: int| 0 <= idx < post.len() && parent_of(post[idx]) == p;
                    if idx < i {
                        assert(pre[idx] == post[idx]);
                    }
                }
                assert forall|p: Seq<char>| #[trigger] parents_of(pre).contains(p) implies parents_of(
                    post,
                ).contains(p) by {
                    let idx = choose|idx: int| 0 <= idx < pre.len() && parent_of(pre[idx]) == p;
                    assert(post[idx] == pre[idx]);
                }
                if parent@.len() > 0 {
                    assert(parent_of(post[i as int]) == parent@);
                    assert(parents_of(post) =~= parents_of(pre).insert(parent@));
                } else {
                    assert(parents_of(post) =~= parents_of(pre));
                }
            }
            i = i + 1;
        }
        assert(all.subrange(0, all.len() as int) =~= all);
        let mut groups: Vec<ImportGroup> = Vec::new();
        let mut g: usize = 0;
        while g < parents.len()
            invariant
                all == items@,
                all == self.spec_items(),
                g <= parents@.len(),
                groups@.len() == g,
                forall|k: int| 0 <= k < g ==> (#[trigger] groups@[k]).parent == parents@[k],
                forall|k: int|
                    0 <= k < g ==> (#[trigger] groups@[k]).members@.map_values(
                        |m: (&'static str, Option<&'static str>)| member_chars(m),
                    ) == members_of(all, groups@[k].parent@),
            decreases parents@.len() - g,
        {
            let parent = parents[g];
            let mut members: Vec<(&'static str, Option<&'static str>)> = Vec::new();
            let mut j: usize = 0;
            while j < items.len()
                invariant
                    all == items@,
                    j <= all.len(),
                    members@.map_values(|m: (&'static str, Option<&'static str>)| member_chars(m))
                        == members_of(all.subrange(0, j as int), parent@),
                decreases all.len() - j,
            {
                let it = items[j];
                let (p, name) = split_parent_path(it.path);
                let ghost pre = all.subrange(0, j as int);
                let ghost old_m = members@;
                proof {
                    assert(all.subrange(0, j + 1) =~= pre.push(it));
                    pre.lemma_filter_push(it, |x: ImportItem| parent_of(x) == parent@);
                }
                if str_eq(p, parent) {
                    members.push((name, it.alias));
                    assert(members@ =~= old_m.push((name, it.alias)));
                    assert(members@.map_values(
                        |m: (&'static str, Option<&'static str>)| member_chars(m),
                    ) =~= old_m.map_values(
                        |m: (&'static str, Option<&'static str>)| member_chars(m),
                    ).push(member_of(it)));
                    assert(pre.push(it).filter(|x: ImportItem| parent_of(x) == parent@) =~= pre.filter(
                        |x: ImportItem| parent_of(x) == parent@,
                    ).push(it));
                    assert(members_of(all.subrange(0, j + 1), parent@) =~= members_of(pre, parent@).push(
                        member_of(it),
                    ));
                } else {
                    assert(members_of(all.subrange(0, j + 1), parent@) =~= members_of(pre, parent@));
                }
                j = j + 1;
            }
            assert(all.subrange(0, all.len() as int) =~= all);
            groups.push(ImportGroup { parent, members });
            g = g + 1;
        }
        assert(groups@.map_values(|g: ImportGroup| g.parent@) =~= parents@.map_values(
            |t: &'static str| t@,
        ));
        groups
    }
}

} // verus!
