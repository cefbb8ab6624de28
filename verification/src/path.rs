//! Typed field paths: an ordered sequence of static segments naming a form
//! field. Equality and hashing are by segment sequence; the textual form joins
//! the segments with `.`.

use vstd::prelude::*;

use crate::text::{debug_text, joined, str_debug, str_eq};

verus! {

/// The dotted rendering of a segment sequence: the segments joined by `.`,
/// and the empty sequence for an empty path.
pub open spec fn dotted(segments: Seq<Seq<char>>) -> Seq<char>
    decreases segments.len(),
{
    if segments.len() == 0 {
        Seq::empty()
    } else if segments.len() == 1 {
        segments[0]
    } else {
        dotted(segments.drop_last()) + seq!['.'] + segments.last()
    }
}

/// A pure, headless path to a form field: an ordered sequence of static
/// string segments.
#[derive(Debug, Hash)]
pub struct FieldPath {
    segments: Vec<&'static str>,
}

impl View for FieldPath {
    type V = Seq<Seq<char>>;

    /// The characters of each segment, in order.
    closed spec fn view(&self) -> Seq<Seq<char>> {
        self.segments@.map_values(|s: &'static str| s@)
    }
}

impl FieldPath {
    /// The stored segment slices, in order.
    pub closed spec fn spec_segments(&self) -> Seq<&'static str> {
        self.segments@
    }

    /// Creates a path whose segments are a copy of `segments`, in order.
    pub fn new(segments: &[&'static str]) -> (r: Self)
        ensures
            r.spec_segments() == segments@,
            r@ == segments@.map_values(|s: &'static str| s@),
    {
        let mut v: Vec<&'static str> = Vec::new();
        let mut i: usize = 0;
        while i < segments.len()
            invariant
                i <= segments@.len(),
                v@ == segments@.subrange(0, i as int),
            decreases segments@.len() - i,
        {
            v.push(segments[i]);
            i = i + 1;
        }
        assert(v@ == segments@);
        FieldPath { segments: v }
    }

    /// Borrows the ordered segment slice.
    pub fn segments(&self) -> (r: &[&'static str])
        ensures
            r@ == self.spec_segments(),
            r@.map_values(|s: &'static str| s@) == self@,
    {
        self.segments.as_slice()
    }

    /// Whether the path has zero segments.
    pub fn is_empty(&self) -> (r: bool)
        ensures
            r == (self@.len() == 0),
    {
        self.segments.len() == 0
    }

    /// Renders the segments joined by `.`; an empty path renders as `""`.
    pub fn to_string(&self) -> (r: String)
        ensures
            r@ == dotted(self@),
    {
        let mut out = String::new();
        let mut i: usize = 0;
        while i < self.segments.len()
            invariant
                i <= self@.len(),
                self@.len() == self.segments@.len(),
                out@ == dotted(self@.subrange(0, i as int)),
            decreases self.segments@.len() - i,
        {
            let seg: &str = self.segments[i];
            let ghost prefix = self@.subrange(0, i + 1);
            assert(prefix.drop_last() == self@.subrange(0, i as int));
            assert(seg@ == self@[i as int]);
            assert(prefix.last() == self@[i as int]);
            if i > 0 {
                out.append(".");
                proof {
                    reveal_strlit(".");
                }
                assert("."@ =~= seq!['.']);
            }
            out.append(seg);
            assert(out@ =~= dotted(prefix));
            i = i + 1;
        }
        assert(self@.subrange(0, self@.len() as int) == self@);
        out
    }
}

/// The `Debug` rendering of a segment sequence: each segment's string
/// `Debug` text, joined by `, ` between square brackets, e.g.
/// `["address", "city"]`.
pub open spec fn debug_list(segments: Seq<Seq<char>>) -> Seq<char> {
    seq!['['] + joined(segments.map_values(|s: Seq<char>| debug_text(s)), seq![',', ' ']) + seq![
        ']',
    ]
}

impl FieldPath {
    /// Renders the path as a list of quoted segments, e.g.
    /// `["address", "city"]`.
    pub fn debug_string(&self) -> (r: String)
        ensures
            r@ == debug_list(self@),
    {
        let ghost quoted = self@.map_values(|s: Seq<char>| debug_text(s));
        let mut out = String::new();
        let mut i: usize = 0;
        while i < self.segments.len()
            invariant
                i <= self@.len(),
                self@.len() == self.segments@.len(),
                quoted == self@.map_values(|s: Seq<char>| debug_text(s)),
                out@ == joined(quoted.subrange(0, i as int), seq![',', ' ']),
            decreases self.segments@.len() - i,
        {
            let seg: &str = self.segments[i];
            assert(seg@ == self@[i as int]);
            let text = str_debug(seg);
            let ghost prefix = quoted.subrange(0, i + 1);
            assert(prefix.drop_last() =~= quoted.subrange(0, i as int));
            if i > 0 {
                out.append(", ");
                proof {
                    reveal_strlit(", ");
                }
                assert(", "@ =~= seq![',', ' ']);
            }
            out.append(text.as_str());
            assert(out@ =~= joined(prefix, seq![',', ' ']));
            i = i + 1;
        }
        assert(quoted.subrange(0, self@.len() as int) =~= quoted);
        let mut r = String::from_str("[");
        r.append(out.as_str());
        r.append("]");
        proof {
            reveal_strlit("[");
            reveal_strlit("]");
        }
        assert(r@ =~= debug_list(self@));
        r
    }
}

impl Clone for FieldPath {
    fn clone(&self) -> (r: Self)
        ensures
            r.spec_segments() == self.spec_segments(),
            r@ == self@,
    {
        let mut v: Vec<&'static str> = Vec::new();
        let mut i: usize = 0;
        while i < self.segments.len()
            invariant
                i <= self.segments@.len(),
                v@ == self.segments@.subrange(0, i as int),
            decreases self.segments@.len() - i,
        {
            v.push(self.segments[i]);
            i = i + 1;
        }
        assert(v@ == self.segments@);
        FieldPath { segments: v }
    }
}

impl PartialEq for FieldPath {
    fn eq(&self, other: &Self) -> (r: bool) {
        if self.segments.len() != other.segments.len() {
            return false;
        }
        let mut i: usize = 0;
        while i < self.segments.len()
            invariant
                i <= self@.len(),
                self@.len() == other@.len(),
                self@.len() == self.segments@.len(),
                other@.len() == other.segments@.len(),
                forall|j: int| 0 <= j < i ==> self@[j] == other@[j],
            decreases self.segments@.len() - i,
        {
            if !str_eq(self.segments[i], other.segments[i]) {
                assert(self@[i as int] != other@[i as int]);
                return false;
            }
            i = i + 1;
        }
        assert(self@ =~= other@);
        true
    }
}

impl vstd::std_specs::cmp::PartialEqSpecImpl for FieldPath {
    open spec fn obeys_eq_spec() -> bool {
        true
    }

    open spec fn eq_spec(&self, other: &FieldPath) -> bool {
        self@ == other@
    }
}

impl Eq for FieldPath {

}

} // verus!
