//! Non-rendering layout hints for form fields: section, label, description,
//! placeholder and a relative width. Metadata only; consumers decide how to
//! interpret each hint. Sections group *consecutive* fields (order-preserving).

use vstd::prelude::*;

use crate::text::str_eq;

verus! {

/// Relative width hint for a single field; defaults to `Full`.
#[derive(Clone, Copy, Debug, PartialEq, Eq, Structural)]
pub enum LayoutWidth {
    /// Full available width (the default).
    Full,
    /// Half of the available width.
    Half,
    /// A third of the available width.
    Third,
}

/// The snake-case name of a width: `full`, `half` or `third`.
pub open spec fn width_name(w: LayoutWidth) -> Seq<char> {
    match w {
        LayoutWidth::Full => seq!['f', 'u', 'l', 'l'],
        LayoutWidth::Half => seq!['h', 'a', 'l', 'f'],
        LayoutWidth::Third => seq!['t', 'h', 'i', 'r', 'd'],
    }
}

/// The width whose snake-case name is `s`, if any.
pub open spec fn width_from_name(s: Seq<char>) -> Option<LayoutWidth> {
    if s == width_name(LayoutWidth::Full) {
        Some(LayoutWidth::Full)
    } else if s == width_name(LayoutWidth::Half) {
        Some(LayoutWidth::Half)
    } else if s == width_name(LayoutWidth::Third) {
        Some(LayoutWidth::Third)
    } else {
        None
    }
}

impl LayoutWidth {
    /// The snake-case name of this width as a static string.
    pub fn as_static_str(self) -> (r: &'static str)
        ensures
            r@ == width_name(self),
    {
        proof {
            reveal_strlit("full");
            reveal_strlit("half");
            reveal_strlit("third");
        }
        match self {
            LayoutWidth::Full => "full",
            LayoutWidth::Half => "half",
            LayoutWidth::Third => "third",
        }
    }

    /// Renders the snake-case name: `full`, `half` or `third`.
    pub fn to_string(&self) -> (r: String)
        ensures
            r@ == width_name(*self),
    {
        let s = self.as_static_str();
        String::from_str(s)
    }

    /// Parses a snake-case width name; any other text is refused.
    pub fn parse_name(s: &str) -> (r: Option<LayoutWidth>)
        ensures
            r == width_from_name(s@),
    {
        proof {
            reveal_strlit("full");
            reveal_strlit("half");
            reveal_strlit("third");
            assert("full"@ =~= width_name(LayoutWidth::Full));
            assert("half"@ =~= width_name(LayoutWidth::Half));
            assert("third"@ =~= width_name(LayoutWidth::Third));
        }
        if str_eq(s, "full") {
            Some(LayoutWidth::Full)
        } else if str_eq(s, "half") {
            Some(LayoutWidth::Half)
        } else if str_eq(s, "third") {
            Some(LayoutWidth::Third)
        } else {
            None
        }
    }
}

impl Default for LayoutWidth {
    fn default() -> (r: Self)
        ensures
            r == LayoutWidth::Full,
    {
        LayoutWidth::Full
    }
}

/// The error of parsing text that names no width.
#[derive(Clone, Copy, Debug, PartialEq, Eq)]
pub struct ParseLayoutWidthError;

impl core::str::FromStr for LayoutWidth {
    type Err = ParseLayoutWidthError;

    fn from_str(s: &str) -> (r: Result<LayoutWidth, ParseLayoutWidthError>)
        ensures
            match r {
                Ok(w) => width_from_name(s@) == Some(w),
                Err(_) => width_from_name(s@) is None,
            },
    {
        match LayoutWidth::parse_name(s) {
            Some(w) => Ok(w),
            None => Err(ParseLayoutWidthError),
        }
    }
}

impl From<LayoutWidth> for &'static str {
    fn from(w: LayoutWidth) -> (r: &'static str) {
        match w {
            LayoutWidth::Full => "full",
            LayoutWidth::Half => "half",
            LayoutWidth::Third => "third",
        }
    }
}

impl vstd::std_specs::convert::FromSpecImpl<LayoutWidth> for &'static str {
    open spec fn obeys_from_spec() -> bool {
        true
    }

    open spec fn from_spec(w: LayoutWidth) -> &'static str {
        match w {
            LayoutWidth::Full => "full",
            LayoutWidth::Half => "half",
            LayoutWidth::Third => "third",
        }
    }
}

/// Non-rendering layout hints attached to a field.
#[derive(Clone, Copy, Debug, PartialEq, Eq)]
pub struct FieldLayout {
    /// Optional section name for grouping consecutive fields.
    pub section: Option<&'static str>,
    /// Preferred human-readable label; consumers fall back to the field name.
    pub label: Option<&'static str>,
    /// Optional help text shown alongside the field.
    pub description: Option<&'static str>,
    /// Optional placeholder text.
    pub placeholder: Option<&'static str>,
    /// Relative width hint.
    pub width: LayoutWidth,
}

impl FieldLayout {
    /// The layout that carries no information.
    pub open spec fn spec_empty() -> FieldLayout {
        FieldLayout {
            section: None,
            label: None,
            description: None,
            placeholder: None,
            width: LayoutWidth::Full,
        }
    }

    /// Whether every hint is absent and the width is `Full`.
    pub open spec fn spec_is_empty(&self) -> bool {
        &&& self.section is None
        &&& self.label is None
        &&& self.description is None
        &&& self.placeholder is None
        &&& self.width == LayoutWidth::Full
    }

    /// An empty layout: all hints absent, width `Full`.
    pub fn new() -> (r: Self)
        ensures
            r == FieldLayout::spec_empty(),
    {
        FieldLayout {
            section: None,
            label: None,
            description: None,
            placeholder: None,
            width: LayoutWidth::Full,
        }
    }

    /// Sets (or clears with `None`) the section hint.
    pub fn with_section(self, section: Option<&'static str>) -> (r: Self)
        ensures
            r == (FieldLayout { section, ..self }),
    {
        FieldLayout { section, ..self }
    }

    /// Sets (or clears with `None`) the label hint.
    pub fn with_label(self, label: Option<&'static str>) -> (r: Self)
        ensures
            r == (FieldLayout { label, ..self }),
    {
        FieldLayout { label, ..self }
    }

    /// Sets (or clears with `None`) the description hint.
    pub fn with_description(self, description: Option<&'static str>) -> (r: Self)
        ensures
            r == (FieldLayout { description, ..self }),
    {
        FieldLayout { description, ..self }
    }

    /// Sets (or clears with `None`) the placeholder hint.
    pub fn with_placeholder(self, placeholder: Option<&'static str>) -> (r: Self)
        ensures
            r == (FieldLayout { placeholder, ..self }),
    {
        FieldLayout { placeholder, ..self }
    }

    /// Sets the relative width hint.
    pub fn with_width(self, width: LayoutWidth) -> (r: Self)
        ensures
            r == (FieldLayout { width, ..self }),
    {
        FieldLayout { width, ..self }
    }

    /// Whether the layout carries no information: every hint absent and the
    /// width `Full`.
    pub fn is_empty(&self) -> (r: bool)
        ensures
            r == self.spec_is_empty(),
    {
        self.section.is_none() && self.label.is_none() && self.description.is_none()
            && self.placeholder.is_none() && match self.width {
            LayoutWidth::Full => true,
            _ => false,
        }
    }
}

impl Default for FieldLayout {
    fn default() -> (r: Self)
        ensures
            r == FieldLayout::spec_empty(),
    {
        FieldLayout::new()
    }
}

/// A layout is empty exactly when it equals the empty layout; in particular
/// `new()` is empty, and any layout with a non-`Full` width or with some hint
/// present is not.
pub proof fn lemma_is_empty_iff_new(l: FieldLayout)
    ensures
        l.spec_is_empty() <==> l == FieldLayout::spec_empty(),
{
}

/// Names and parsing agree: parsing the name of a width gives it back, and
/// every parsed width is named by the text it was parsed from.
pub proof fn lemma_width_name_round_trip(w: LayoutWidth, s: Seq<char>)
    ensures
        width_from_name(width_name(w)) == Some(w),
        width_from_name(s) matches Some(v) ==> width_name(v) == s,
{
    assert(width_name(LayoutWidth::Full) != width_name(LayoutWidth::Half));
    assert(width_name(LayoutWidth::Full) != width_name(LayoutWidth::Third));
    assert(width_name(LayoutWidth::Half) != width_name(LayoutWidth::Third));
}

} // verus!
