//! Component options as written in field attributes, and the behaviour a
//! field's component takes.

use vstd::prelude::*;
use vstd::string::StrSliceExecFns;

use crate::text::{pascal_case, to_pascal_case};

verus! {

/// Marker for the option types of a component.
pub trait ComponentOption {

}

/// A component type that knows its own snake-case name.
pub trait ComponentDefinition {
    fn component_name() -> &'static str;
}

/// A field together with its component options, its name and its type name.
pub struct FieldInformation<T: ComponentOption> {
    pub options: T,
    pub name: String,
    pub field_type: String,
}

impl<T: ComponentOption> FieldInformation<T> {
    pub fn new(options: T, name: String, field_type: String) -> (r: Self)
        ensures
            r.options == options,
            r.name == name,
            r.field_type == field_type,
    {
        FieldInformation { options, name, field_type }
    }
}

/// Options of a select written in the field attribute.
#[derive(Clone, Copy, Debug, PartialEq, Eq, Structural)]
pub struct BehaviourSelectOptions {
    pub partial: bool,
    pub searchable: bool,
}

impl Default for BehaviourSelectOptions {
    fn default() -> (r: Self)
        ensures
            !r.partial,
            !r.searchable,
    {
        BehaviourSelectOptions { partial: false, searchable: false }
    }
}

impl ComponentOption for BehaviourSelectOptions {

}

/// Select options plus the field-level default (a path expression such as
/// `Country::France`, kept as text).
#[derive(Clone, Debug)]
pub struct SelectOptions {
    pub behaviour: BehaviourSelectOptions,
    field_default: Option<String>,
}

impl ComponentOption for SelectOptions {

}

/// How a select picks its first selected row.
#[derive(Clone, Debug, PartialEq, Eq)]
pub enum InitialSelection {
    /// The row of the field's default value (a path such as
    /// `Country::France`).
    FieldDefault(String),
    /// The row of the enum's own `Default` variant.
    EnumDefault,
}

impl SelectOptions {
    /// The row selected first: the field default's when there is one, the
    /// enum default's otherwise.
    pub fn initial_selection(&self) -> (r: InitialSelection)
        ensures
            r == (match self.spec_field_default() {
                Some(d) => InitialSelection::FieldDefault(d),
                None => InitialSelection::EnumDefault,
            }),
    {
        match &self.field_default {
            Some(d) => InitialSelection::FieldDefault(d.clone()),
            None => InitialSelection::EnumDefault,
        }
    }

    /// Whether the select's state constructor is generated: not for a
    /// partial select, whose state the form author writes.
    pub fn emits_state_constructor(&self) -> (r: bool)
        ensures
            r == !self.spec_behaviour().partial,
    {
        !self.behaviour.partial
    }

    /// The field-level default path.
    pub closed spec fn spec_field_default(&self) -> Option<String> {
        self.field_default
    }

    /// The behaviour options.
    pub closed spec fn spec_behaviour(&self) -> BehaviourSelectOptions {
        self.behaviour
    }

    /// Options with the given behaviour and no field-level default.
    pub fn from_behaviour(behaviour: BehaviourSelectOptions) -> (r: Self)
        ensures
            r.spec_behaviour() == behaviour,
            r.spec_field_default() is None,
    {
        SelectOptions { behaviour, field_default: None }
    }

    /// Sets the field-level default.
    pub fn with_field_default(self, default: Option<String>) -> (r: Self)
        ensures
            r.spec_behaviour() == self.spec_behaviour(),
            r.spec_field_default() == default,
    {
        SelectOptions { field_default: default, ..self }
    }

    /// The field-level default, if one was given.
    pub fn named_index(&self) -> (r: Option<&String>)
        ensures
            r == match self.spec_field_default() {
                Some(d) => Some(&d),
                None => None::<&String>,
            },
    {
        match &self.field_default {
            Some(d) => Some(d),
            None => None,
        }
    }

    /// Whether the enum's own default variant is used (no field default).
    pub fn use_enum_default(&self) -> (r: bool)
        ensures
            r == (self.spec_field_default() is None),
    {
        self.field_default.is_none()
    }

    /// The behaviour options.
    pub fn behaviour_options(&self) -> (r: BehaviourSelectOptions)
        ensures
            r == self.spec_behaviour(),
    {
        self.behaviour
    }
}

/// Options of a text input.
#[derive(Clone, Copy, Debug)]
pub struct InputOptions;

impl ComponentOption for InputOptions {

}

/// Options of a number input: the standard numeric type used for validation
/// of custom numeric types (such as `f64` for a decimal type).
#[derive(Clone, Debug)]
pub struct NumberInputOptions {
    pub as_type: Option<String>,
}

impl ComponentOption for NumberInputOptions {

}

/// One entry of an attribute's option list, as far as the number-input
/// options read it.
#[derive(Clone, Debug, PartialEq, Eq)]
pub enum MetaItem {
    /// `name = Ident`, with the identifier's text (`None` when the value is
    /// not a single identifier).
    NameValue { name: String, ident_value: Option<String> },
    /// Any other entry.
    Other,
}

/// The `as` type an option list sets: the last `as = Ident` entry, if any.
pub open spec fn as_type_of(items: Seq<MetaItem>) -> Option<Seq<char>>
    decreases items.len(),
{
    if items.len() == 0 {
        None
    } else {
        match items.last() {
            MetaItem::NameValue { name, ident_value: Some(v) } => if name@ == "as"@ {
                Some(v@)
            } else {
                as_type_of(items.drop_last())
            },
            _ => as_type_of(items.drop_last()),
        }
    }
}

/// Whether an entry sets the `as` type.
pub open spec fn sets_as(m: MetaItem) -> bool {
    m matches MetaItem::NameValue { name, ident_value: Some(_) } && name@ == "as"@
}

/// The last `as = Ident` entry wins: an empty list sets no type, appending
/// such an entry sets its type whatever came before, and appending entries
/// that set none keeps the type already set.
pub proof fn lemma_last_as_entry_wins(
    items: Seq<MetaItem>,
    more: Seq<MetaItem>,
    name: String,
    value: String,
)
    ensures
        as_type_of(Seq::empty()) is None,
        name@ == "as"@ ==> as_type_of(
            items.push(MetaItem::NameValue { name, ident_value: Some(value) }),
        ) == Some(value@),
        (forall|k: int| 0 <= k < more.len() ==> !sets_as(#[trigger] more[k])) ==> as_type_of(
            items + more,
        ) == as_type_of(items),
    decreases more.len(),
{
    let pushed = items.push(MetaItem::NameValue { name, ident_value: Some(value) });
    assert(pushed.last() == MetaItem::NameValue { name, ident_value: Some(value) });
    if more.len() > 0 && (forall|k: int| 0 <= k < more.len() ==> !sets_as(#[trigger] more[k])) {
        lemma_last_as_entry_wins(items, more.drop_last(), name, value);
        assert(!sets_as(more[more.len() - 1]));
        assert((items + more).drop_last() =~= items + more.drop_last());
        assert((items + more).last() == more.last());
    } else if more.len() == 0 {
        assert(items + more =~= items);
    }
}

/// How the text of a number input is checked: whether a sign (and, for
/// floats, a point) is allowed, and whether only the character pattern is
/// checked (for a custom type validated as its `as` type) or the text must
/// also parse.
#[derive(Clone, Copy, Debug, PartialEq, Eq)]
pub struct NumberTextCheck {
    pub signed: bool,
    pub pattern_only: bool,
}

/// Whether a type name stands for a signed number: it starts with `i` or
/// `f`.
pub open spec fn signed_field_type_text(t: Seq<char>) -> bool {
    t.len() > 0 && (t[0] == 'i' || t[0] == 'f')
}

impl NumberInputOptions {
    /// How the field's text is checked, given the field's type name: the
    /// `as` type (when set) decides the sign, else the field's type; a set
    /// `as` type checks the pattern only.
    pub fn text_check(&self, field_type_text: &str) -> (r: NumberTextCheck)
        ensures
            r.pattern_only == (self.as_type is Some),
            r.signed == signed_field_type_text(
                match self.as_type {
                    Some(t) => t@,
                    None => field_type_text@,
                },
            ),
    {
        let name: &str = match &self.as_type {
            Some(t) => t.as_str(),
            None => field_type_text,
        };
        let signed = name.unicode_len() > 0 && (name.get_char(0) == 'i' || name.get_char(0) == 'f');
        NumberTextCheck { signed, pattern_only: self.as_type.is_some() }
    }

    /// The options of a bare `number_input` word: no `as` type.
    pub fn from_word() -> (r: Self)
        ensures
            r.as_type is None,
    {
        NumberInputOptions { as_type: None }
    }

    /// The options written as a list: the `as` type is the last
    /// `as = Ident` entry; other entries are ignored.
    pub fn from_list(items: &Vec<MetaItem>) -> (r: Self)
        ensures
            match r.as_type {
                Some(t) => as_type_of(items@) == Some(t@),
                None => as_type_of(items@) is None,
            },
    {
        let mut as_type: Option<String> = None;
        let mut i: usize = 0;
        assert(items@.subrange(0, 0) =~= Seq::<MetaItem>::empty());
        while i < items.len()
            invariant
                i <= items@.len(),
                match as_type {
                    Some(t) => as_type_of(items@.subrange(0, i as int)) == Some(t@),
                    None => as_type_of(items@.subrange(0, i as int)) is None,
                },
            decreases items@.len() - i,
        {
            let ghost pre = items@.subrange(0, i as int);
            assert(items@.subrange(0, i + 1).drop_last() =~= pre);
            match &items[i] {
                MetaItem::NameValue { name, ident_value: Some(v) } => {
                    if crate::text::str_eq(name.as_str(), "as") {
                        as_type = Some(v.clone());
                    }
                },
                _ => {},
            }
            i = i + 1;
        }
        assert(items@.subrange(0, items@.len() as int) =~= items@);
        NumberInputOptions { as_type }
    }
}

/// Options of a checkbox.
#[derive(Clone, Copy, Debug)]
pub struct CheckboxOptions;

impl ComponentOption for CheckboxOptions {

}

/// Options of a switch.
#[derive(Clone, Copy, Debug)]
pub struct SwitchOptions;

impl ComponentOption for SwitchOptions {

}

/// Options of a date picker.
#[derive(Clone, Copy, Debug)]
pub struct DatePickerOptions;

impl ComponentOption for DatePickerOptions {

}

/// Options of a cascading select: search per level and a maximum depth to
/// expand (`None` expands every level).
#[derive(Clone, Copy, Debug, PartialEq, Eq, Structural)]
pub struct BehaviourInfiniteSelectOptions {
    pub searchable: bool,
    pub max_depth: Option<usize>,
}

impl Default for BehaviourInfiniteSelectOptions {
    fn default() -> (r: Self)
        ensures
            !r.searchable,
            r.max_depth is None,
    {
        BehaviourInfiniteSelectOptions { searchable: false, max_depth: None }
    }
}

impl ComponentOption for BehaviourInfiniteSelectOptions {

}

/// Cascading-select options plus the field-level default path.
#[derive(Clone, Debug)]
pub struct InfiniteSelectOptions {
    pub behaviour: BehaviourInfiniteSelectOptions,
    field_default: Option<String>,
}

impl ComponentOption for InfiniteSelectOptions {

}

impl InfiniteSelectOptions {
    /// The row selected first at the root level: the field default's when
    /// there is one, the enum default's otherwise.
    pub fn initial_selection(&self) -> (r: InitialSelection)
        ensures
            r == (match self.spec_field_default() {
                Some(d) => InitialSelection::FieldDefault(d),
                None => InitialSelection::EnumDefault,
            }),
    {
        match &self.field_default {
            Some(d) => InitialSelection::FieldDefault(d.clone()),
            None => InitialSelection::EnumDefault,
        }
    }

    /// The field-level default path.
    pub closed spec fn spec_field_default(&self) -> Option<String> {
        self.field_default
    }

    /// The behaviour options.
    pub closed spec fn spec_behaviour(&self) -> BehaviourInfiniteSelectOptions {
        self.behaviour
    }

    /// Options with the given behaviour and no field-level default.
    pub fn from_behaviour(behaviour: BehaviourInfiniteSelectOptions) -> (r: Self)
        ensures
            r.spec_behaviour() == behaviour,
            r.spec_field_default() is None,
    {
        InfiniteSelectOptions { behaviour, field_default: None }
    }

    /// Sets the field-level default.
    pub fn with_field_default(self, default: Option<String>) -> (r: Self)
        ensures
            r.spec_behaviour() == self.spec_behaviour(),
            r.spec_field_default() == default,
    {
        InfiniteSelectOptions { field_default: default, ..self }
    }

    /// The field-level default, if one was given.
    pub fn named_index(&self) -> (r: Option<&String>)
        ensures
            r == match self.spec_field_default() {
                Some(d) => Some(&d),
                None => None::<&String>,
            },
    {
        match &self.field_default {
            Some(d) => Some(d),
            None => None,
        }
    }

    /// Whether the enum's own default variant is used (no field default).
    pub fn use_enum_default(&self) -> (r: bool)
        ensures
            r == (self.spec_field_default() is None),
    {
        self.field_default.is_none()
    }

    /// The behaviour options.
    pub fn behaviour_options(&self) -> (r: BehaviourInfiniteSelectOptions)
        ensures
            r == self.spec_behaviour(),
    {
        self.behaviour
    }
}

/// The component kinds a field attribute can name, with their options.
#[derive(Clone, Debug)]
pub enum Components {
    Input,
    NumberInput(NumberInputOptions),
    Checkbox,
    Switch,
    Select(SelectOptions),
    InfiniteSelect(InfiniteSelectOptions),
    DatePicker,
}

impl Components {
    /// Whether the value is wrapped in `Option` in the value holder: true for
    /// text-based inputs (an empty text means "no value"), false for
    /// components that always hold a defined value and for the date picker,
    /// which handles `Option` itself.
    pub fn wraps_in_option(&self) -> (r: bool)
        ensures
            r == (self is Input || self is NumberInput),
    {
        match self {
            Components::Input | Components::NumberInput(_) => true,
            Components::Checkbox
            | Components::Switch
            | Components::Select(_)
            | Components::InfiniteSelect(_) => false,
            Components::DatePicker => false,
        }
    }

    /// The behaviour recorded for a field with this component: the same
    /// kind, keeping the select and cascading-select behaviour options and
    /// dropping the field-level defaults and number-input options.
    pub open spec fn spec_behaviour(&self) -> ComponentsBehaviour {
        match self {
            Components::Input => ComponentsBehaviour::Input,
            Components::NumberInput(_) => ComponentsBehaviour::NumberInput,
            Components::Checkbox => ComponentsBehaviour::Checkbox,
            Components::Switch => ComponentsBehaviour::Switch,
            Components::Select(o) => ComponentsBehaviour::Select(o.spec_behaviour()),
            Components::InfiniteSelect(o) => ComponentsBehaviour::InfiniteSelect(o.spec_behaviour()),
            Components::DatePicker => ComponentsBehaviour::DatePicker,
        }
    }

    /// The behaviour recorded for a field with this component (see
    /// `spec_behaviour`).
    pub fn behaviour(&self) -> (r: ComponentsBehaviour)
        ensures
            r == self.spec_behaviour(),
    {
        match self {
            Components::Input => ComponentsBehaviour::Input,
            Components::NumberInput(_) => ComponentsBehaviour::NumberInput,
            Components::Checkbox => ComponentsBehaviour::Checkbox,
            Components::Switch => ComponentsBehaviour::Switch,
            Components::Select(o) => ComponentsBehaviour::Select(o.behaviour),
            Components::InfiniteSelect(o) => ComponentsBehaviour::InfiniteSelect(o.behaviour),
            Components::DatePicker => ComponentsBehaviour::DatePicker,
        }
    }
}

/// The behaviour a field's component takes.
#[derive(Clone, Copy, Debug, PartialEq, Eq)]
pub enum ComponentsBehaviour {
    Input,
    NumberInput,
    Checkbox,
    Switch,
    Select(BehaviourSelectOptions),
    InfiniteSelect(BehaviourInfiniteSelectOptions),
    DatePicker,
}

/// The snake-case name of a behaviour.
pub open spec fn behaviour_name(b: ComponentsBehaviour) -> Seq<char> {
    match b {
        ComponentsBehaviour::Input => seq!['i', 'n', 'p', 'u', 't'],
        ComponentsBehaviour::NumberInput => seq![
            'n', 'u', 'm', 'b', 'e', 'r', '_', 'i', 'n', 'p', 'u', 't',
        ],
        ComponentsBehaviour::Checkbox => seq!['c', 'h', 'e', 'c', 'k', 'b', 'o', 'x'],
        ComponentsBehaviour::Switch => seq!['s', 'w', 'i', 't', 'c', 'h'],
        ComponentsBehaviour::Select(_) => seq!['s', 'e', 'l', 'e', 'c', 't'],
        ComponentsBehaviour::InfiniteSelect(_) => seq![
            'i', 'n', 'f', 'i', 'n', 'i', 't', 'e', '_', 's', 'e', 'l', 'e', 'c', 't',
        ],
        ComponentsBehaviour::DatePicker => seq![
            'd', 'a', 't', 'e', '_', 'p', 'i', 'c', 'k', 'e', 'r',
        ],
    }
}

impl ComponentsBehaviour {
    /// The snake-case name of the behaviour, e.g. `number_input`.
    pub fn variant_name(&self) -> (r: &'static str)
        ensures
            r@ == behaviour_name(*self),
    {
        proof {
            reveal_strlit("input");
            reveal_strlit("number_input");
            reveal_strlit("checkbox");
            reveal_strlit("switch");
            reveal_strlit("select");
            reveal_strlit("infinite_select");
            reveal_strlit("date_picker");
        }
        match self {
            ComponentsBehaviour::Input => "input",
            ComponentsBehaviour::NumberInput => "number_input",
            ComponentsBehaviour::Checkbox => "checkbox",
            ComponentsBehaviour::Switch => "switch",
            ComponentsBehaviour::Select(_) => "select",
            ComponentsBehaviour::InfiniteSelect(_) => "infinite_select",
            ComponentsBehaviour::DatePicker => "date_picker",
        }
    }

    /// Renders the snake-case name of the behaviour.
    pub fn to_string(&self) -> (r: String)
        ensures
            r@ == behaviour_name(*self),
    {
        String::from_str(self.variant_name())
    }

    /// The component type name: the snake-case name in PascalCase
    /// (`number_input` gives `NumberInput`).
    pub fn component_ident_name(&self) -> (r: String)
        ensures
            r@ == pascal_case(behaviour_name(*self)),
    {
        to_pascal_case(self.variant_name())
    }

    /// Whether the field holds only a value (checkbox, switch).
    pub fn is_value_only_field(&self) -> (r: bool)
        ensures
            r == (self is Checkbox || self is Switch),
    {
        match self {
            ComponentsBehaviour::Checkbox | ComponentsBehaviour::Switch => true,
            _ => false,
        }
    }

    /// Whether the field needs a separate value field (number input).
    pub fn needs_value_field(&self) -> (r: bool)
        ensures
            r == (self is NumberInput),
    {
        match self {
            ComponentsBehaviour::NumberInput => true,
            _ => false,
        }
    }

    /// The `partial` option of a select; false for every other behaviour.
    pub fn partial(&self) -> (r: bool)
        ensures
            r == (match *self {
                ComponentsBehaviour::Select(o) => o.partial,
                _ => false,
            }),
    {
        match self {
            ComponentsBehaviour::Select(o) => o.partial,
            _ => false,
        }
    }

    /// Whether generated code subscribes to the component's events: input,
    /// number input, select, infinite select, date picker.
    pub fn subscribable(&self) -> (r: bool)
        ensures
            r == !(self is Checkbox || self is Switch),
    {
        match self {
            ComponentsBehaviour::Input
            | ComponentsBehaviour::NumberInput
            | ComponentsBehaviour::Select(_)
            | ComponentsBehaviour::InfiniteSelect(_)
            | ComponentsBehaviour::DatePicker => true,
            _ => false,
        }
    }

    /// Whether the component takes keyboard focus: input, number input,
    /// select, infinite select.
    pub fn focusable(&self) -> (r: bool)
        ensures
            r == (self is Input || self is NumberInput || self is Select || self is InfiniteSelect),
    {
        match self {
            ComponentsBehaviour::Input
            | ComponentsBehaviour::NumberInput
            | ComponentsBehaviour::Select(_)
            | ComponentsBehaviour::InfiniteSelect(_) => true,
            _ => false,
        }
    }
}

} // verus!
