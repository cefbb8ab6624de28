//! Component behaviours a form field can take, with the per-behaviour facts
//! that generators consult (value-only, needs a value field, partial,
//! subscribable, focusable).

use vstd::prelude::*;

verus! {

/// Options of a select field.
#[derive(Clone, Copy, Debug, PartialEq, Eq, Structural)]
pub struct SelectBehaviour {
    pub partial: bool,
    pub searchable: bool,
}

/// Options of a cascading (infinite) select field.
#[derive(Clone, Copy, Debug, PartialEq, Eq, Structural)]
pub struct InfiniteSelectBehaviour {
    pub searchable: bool,
    pub max_depth: Option<usize>,
}

/// The numeric family a number input steps in; defaults to `Float`.
#[derive(Clone, Copy, Debug, PartialEq, Eq, Structural)]
pub enum NumberInputKind {
    Float,
    SignedInteger,
    UnsignedInteger,
    Custom,
}

impl Default for NumberInputKind {
    fn default() -> (r: Self)
        ensures
            r == NumberInputKind::Float,
    {
        NumberInputKind::Float
    }
}

impl NumberInputKind {
    /// Whether this is the unsigned-integer family.
    pub fn is_unsigned(self) -> (r: bool)
        ensures
            r == (self == NumberInputKind::UnsignedInteger),
    {
        match self {
            NumberInputKind::UnsignedInteger => true,
            _ => false,
        }
    }
}

/// Options of a number input field.
#[derive(Clone, Copy, Debug, PartialEq, Eq)]
pub struct NumberInputBehaviour {
    /// Optional `as = ...` override used for numeric validation semantics.
    pub validation_type: Option<&'static str>,
    pub kind: NumberInputKind,
}

/// The component a field is rendered with, with its options.
#[derive(Clone, Copy, Debug, PartialEq, Eq)]
pub enum ComponentsBehaviour {
    Input,
    NumberInput(NumberInputBehaviour),
    Checkbox,
    Switch,
    Select(SelectBehaviour),
    InfiniteSelect(InfiniteSelectBehaviour),
    Custom,
    DatePicker,
}

/// The snake-case name of a behaviour.
pub open spec fn behaviour_name(b: ComponentsBehaviour) -> Seq<char> {
    match b {
        ComponentsBehaviour::Input => seq!['i', 'n', 'p', 'u', 't'],
        ComponentsBehaviour::NumberInput(_) => seq![
            'n', 'u', 'm', 'b', 'e', 'r', '_', 'i', 'n', 'p', 'u', 't',
        ],
        ComponentsBehaviour::Checkbox => seq!['c', 'h', 'e', 'c', 'k', 'b', 'o', 'x'],
        ComponentsBehaviour::Switch => seq!['s', 'w', 'i', 't', 'c', 'h'],
        ComponentsBehaviour::Select(_) => seq!['s', 'e', 'l', 'e', 'c', 't'],
        ComponentsBehaviour::InfiniteSelect(_) => seq![
            'i', 'n', 'f', 'i', 'n', 'i', 't', 'e', '_', 's', 'e', 'l', 'e', 'c', 't',
        ],
        ComponentsBehaviour::Custom => seq!['c', 'u', 's', 't', 'o', 'm'],
        ComponentsBehaviour::DatePicker => seq![
            'd', 'a', 't', 'e', '_', 'p', 'i', 'c', 'k', 'e', 'r',
        ],
    }
}

impl ComponentsBehaviour {
    /// Holds for checkbox and switch.
    pub open spec fn spec_value_only(&self) -> bool {
        self is Checkbox || self is Switch
    }

    /// Holds for input, number input, select, infinite select and date picker.
    pub open spec fn spec_subscribable(&self) -> bool {
        self is Input || self is NumberInput || self is Select || self is InfiniteSelect
            || self is DatePicker
    }

    /// Holds for input, number input, select and infinite select.
    pub open spec fn spec_focusable(&self) -> bool {
        self is Input || self is NumberInput || self is Select || self is InfiniteSelect
    }

    /// The snake-case component name, e.g. `number_input`.
    pub fn component_name(&self) -> (r: &'static str)
        ensures
            r@ == behaviour_name(*self),
    {
        proof {
            reveal_strlit("input");
            reveal_strlit("number_input");
            reveal_strlit("checkbox");
            reveal_strlit("switch");
            reveal_strlit("select");
            reveal_strlit("infinite_select");
            reveal_strlit("custom");
            reveal_strlit("date_picker");
        }
        match self {
            ComponentsBehaviour::Input => "input",
            ComponentsBehaviour::NumberInput(_) => "number_input",
            ComponentsBehaviour::Checkbox => "checkbox",
            ComponentsBehaviour::Switch => "switch",
            ComponentsBehaviour::Select(_) => "select",
            ComponentsBehaviour::InfiniteSelect(_) => "infinite_select",
            ComponentsBehaviour::Custom => "custom",
            ComponentsBehaviour::DatePicker => "date_picker",
        }
    }

    /// Renders the snake-case component name.
    pub fn to_string(&self) -> (r: String)
        ensures
            r@ == behaviour_name(*self),
    {
        String::from_str(self.component_name())
    }

    /// Whether the field holds only a value and no component state
    /// (checkbox, switch).
    pub fn is_value_only_field(&self) -> (r: bool)
        ensures
            r == self.spec_value_only(),
    {
        match self {
            ComponentsBehaviour::Checkbox | ComponentsBehaviour::Switch => true,
            _ => false,
        }
    }

    /// Whether the field needs a separate value field (number input).
    pub fn needs_value_field(&self) -> (r: bool)
        ensures
            r == (self is NumberInput),
    {
        match self {
            ComponentsBehaviour::NumberInput(_) => true,
            _ => false,
        }
    }

    /// The `partial` option of a select; false for every other behaviour.
    pub fn partial(&self) -> (r: bool)
        ensures
            r == (match *self {
                ComponentsBehaviour::Select(o) => o.partial,
                _ => false,
            }),
    {
        match self {
            ComponentsBehaviour::Select(o) => o.partial,
            _ => false,
        }
    }

    /// Whether the component emits change events that generated code
    /// subscribes to: input, number input, select, infinite select, date
    /// picker.
    pub fn subscribable(&self) -> (r: bool)
        ensures
            r == self.spec_subscribable(),
    {
        match self {
            ComponentsBehaviour::Input
            | ComponentsBehaviour::NumberInput(_)
            | ComponentsBehaviour::Select(_)
            | ComponentsBehaviour::InfiniteSelect(_)
            | ComponentsBehaviour::DatePicker => true,
            _ => false,
        }
    }

    /// Whether the component takes keyboard focus: input, number input,
    /// select, infinite select.
    pub fn focusable(&self) -> (r: bool)
        ensures
            r == self.spec_focusable(),
    {
        match self {
            ComponentsBehaviour::Input
            | ComponentsBehaviour::NumberInput(_)
            | ComponentsBehaviour::Select(_)
            | ComponentsBehaviour::InfiniteSelect(_) => true,
            _ => false,
        }
    }
}

/// Every focusable behaviour is subscribable, and a value-only behaviour is
/// neither focusable nor subscribable.
pub proof fn lemma_focusable_implies_subscribable(b: ComponentsBehaviour)
    ensures
        b.spec_focusable() ==> b.spec_subscribable(),
        b.spec_value_only() ==> !b.spec_subscribable() && !b.spec_focusable(),
{
}

} // verus!
