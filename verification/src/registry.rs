//! Static metadata that describes a form: its struct name, source file and
//! the component fields it holds.

use vstd::prelude::*;

use crate::schema::components::{behaviour_name, ComponentsBehaviour};
use crate::schema::layout::FieldLayout;
use crate::text::{
    is_rust_path, kebab_case, parses_as_path, pascal_case, to_kebab_case, to_pascal_case,
};

verus! {

/// The metadata of one form field.
#[derive(Debug)]
pub struct FieldVariant {
    pub field_name: &'static str,
    pub field_type: &'static str,
    pub optional: bool,
    pub behaviour: ComponentsBehaviour,
    /// Validation rule identifiers applied to this field.
    pub validations: &'static [&'static str],
    /// Default value expression as written in the source, if any.
    pub default_expr: Option<&'static str>,
    /// For custom components: the UI component type path.
    pub custom_component: Option<&'static str>,
    /// Non-rendering layout hints.
    pub layout: FieldLayout,
}

/// `name_behaviour`: the field name, `_`, and the behaviour's snake-case name.
pub open spec fn name_with_behaviour(field_name: Seq<char>, b: ComponentsBehaviour) -> Seq<char> {
    field_name + seq!['_'] + behaviour_name(b)
}

impl FieldVariant {
    /// A field with no validations, no default, no custom component and an
    /// empty layout.
    pub fn new(
        field_name: &'static str,
        field_type: &'static str,
        optional: bool,
        behaviour: ComponentsBehaviour,
    ) -> (r: Self)
        ensures
            r.field_name == field_name,
            r.field_type == field_type,
            r.optional == optional,
            r.behaviour == behaviour,
            r.validations@.len() == 0,
            r.default_expr is None,
            r.custom_component is None,
            r.layout == FieldLayout::spec_empty(),
    {
        FieldVariant {
            field_name,
            field_type,
            optional,
            behaviour,
            validations: &[],
            default_expr: None,
            custom_component: None,
            layout: FieldLayout::new(),
        }
    }

    /// Attaches a default value expression.
    pub fn with_default(self, default_expr: &'static str) -> (r: Self)
        ensures
            r == (FieldVariant { default_expr: Some(default_expr), ..self }),
    {
        FieldVariant { default_expr: Some(default_expr), ..self }
    }

    /// Attaches a custom UI component path.
    pub fn with_custom_component(self, component: &'static str) -> (r: Self)
        ensures
            r == (FieldVariant { custom_component: Some(component), ..self }),
    {
        FieldVariant { custom_component: Some(component), ..self }
    }

    /// Sets (or clears) the custom UI component path.
    pub fn with_custom_component_opt(self, component: Option<&'static str>) -> (r: Self)
        ensures
            r == (FieldVariant { custom_component: component, ..self }),
    {
        FieldVariant { custom_component: component, ..self }
    }

    /// Attaches validation rule identifiers.
    pub fn with_validations(self, validations: &'static [&'static str]) -> (r: Self)
        ensures
            r == (FieldVariant { validations, ..self }),
    {
        FieldVariant { validations, ..self }
    }

    /// Attaches layout hints.
    pub fn with_layout(self, layout: FieldLayout) -> (r: Self)
        ensures
            r == (FieldVariant { layout, ..self }),
    {
        FieldVariant { layout, ..self }
    }

    /// The behaviour's snake-case name, e.g. `number_input`.
    pub fn behaviour_suffix(&self) -> (r: String)
        ensures
            r@ == behaviour_name(self.behaviour),
    {
        self.behaviour.to_string()
    }

    /// `field_name` followed by `_` and the behaviour suffix, e.g.
    /// `age_number_input`.
    pub fn field_name_with_behaviour(&self) -> (r: String)
        ensures
            r@ == name_with_behaviour(self.field_name@, self.behaviour),
    {
        let suffix = self.behaviour_suffix();
        let mut out = String::from_str(self.field_name);
        out.append("_");
        proof {
            reveal_strlit("_");
        }
        out.append(suffix.as_str());
        assert(out@ =~= name_with_behaviour(self.field_name@, self.behaviour));
        out
    }

    /// The field name in PascalCase.
    pub fn field_name_pascal(&self) -> (r: String)
        ensures
            r@ == pascal_case(self.field_name@),
    {
        to_pascal_case(self.field_name)
    }

    /// The kebab-case form of `field_name_with_behaviour`, used as an element id.
    pub fn kebab_id(&self) -> (r: String)
        ensures
            r@ == kebab_case(name_with_behaviour(self.field_name@, self.behaviour)),
    {
        let s = self.field_name_with_behaviour();
        to_kebab_case(s.as_str())
    }

    /// The validation rule identifiers attached to this field.
    pub fn validation_rules(&self) -> (r: &'static [&'static str])
        ensures
            r == self.validations,
    {
        self.validations
    }

    /// The validation rules that parse as Rust paths, in order.
    pub fn validation_paths(&self) -> (r: Vec<&'static str>)
        ensures
            r@ == self.validations@.filter(|v: &'static str| parses_as_path(v@)),
    {
        let mut out: Vec<&'static str> = Vec::new();
        let mut i: usize = 0;
        while i < self.validations.len()
            invariant
                i <= self.validations@.len(),
                out@ == self.validations@.subrange(0, i as int).filter(
                    |v: &'static str| parses_as_path(v@),
                ),
            decreases self.validations@.len() - i,
        {
            let v = self.validations[i];
            proof {
                let ghost pre = self.validations@.subrange(0, i as int);
                assert(self.validations@.subrange(0, i + 1) == pre.push(v));
                pre.lemma_filter_push(v, |v: &'static str| parses_as_path(v@));
            }
            if is_rust_path(v) {
                out.push(v);
            }
            i = i + 1;
        }
        assert(self.validations@.subrange(0, self.validations@.len() as int) == self.validations@);
        out
    }

    /// The first validation rule that parses as a Rust path, if any.
    pub fn first_validation_path(&self) -> (r: Option<&'static str>)
        ensures
            r == (if self.validations@.filter(|v: &'static str| parses_as_path(v@)).len() > 0 {
                Some(self.validations@.filter(|v: &'static str| parses_as_path(v@))[0])
            } else {
                None
            }),
    {
        let paths = self.validation_paths();
        if paths.len() > 0 {
            Some(paths[0])
        } else {
            None
        }
    }
}

/// The metadata of one form: its struct, source file and fields.
#[derive(Debug)]
pub struct GpuiFormShape {
    pub struct_name: &'static str,
    pub components: &'static [FieldVariant],
    /// The source file path of the struct, as `file!()` gives it.
    pub source_path: &'static str,
    /// Whether koruma validation is enabled at the struct level.
    pub koruma_enabled: bool,
    /// Whether the original struct has fields left out of the form.
    pub has_skipped_fields: bool,
}

impl GpuiFormShape {
    /// Whether some field carries at least one validation rule.
    pub open spec fn spec_some_field_validated(&self) -> bool {
        exists|i: int| 0 <= i < self.components@.len() && #[trigger] self.components@[i].validations@.len() > 0
    }

    /// A shape with no skipped fields.
    pub fn new(
        struct_name: &'static str,
        components: &'static [FieldVariant],
        source_path: &'static str,
        koruma_enabled: bool,
    ) -> (r: Self)
        ensures
            r.struct_name == struct_name,
            r.components == components,
            r.source_path == source_path,
            r.koruma_enabled == koruma_enabled,
            !r.has_skipped_fields,
    {
        GpuiFormShape {
            struct_name,
            components,
            source_path,
            koruma_enabled,
            has_skipped_fields: false,
        }
    }

    /// Records whether the original struct has skipped fields.
    pub fn with_skipped_fields(self, has_skipped_fields: bool) -> (r: Self)
        ensures
            r == (GpuiFormShape { has_skipped_fields, ..self }),
    {
        GpuiFormShape { has_skipped_fields, ..self }
    }

    /// Whether koruma is enabled and some field carries validation rules.
    pub fn has_validations(&self) -> (r: bool)
        ensures
            r == (self.koruma_enabled && self.spec_some_field_validated()),
    {
        if !self.koruma_enabled {
            return false;
        }
        let mut i: usize = 0;
        while i < self.components.len()
            invariant
                self.koruma_enabled,
                i <= self.components@.len(),
                forall|j: int| 0 <= j < i ==> #[trigger] self.components@[j].validations@.len() == 0,
            decreases self.components@.len() - i,
        {
            if self.components[i].validations.len() > 0 {
                assert(self.components@[i as int].validations@.len() > 0);
                return true;
            }
            i = i + 1;
        }
        false
    }

    /// Whether koruma validation is enabled at the struct level.
    pub fn has_koruma(&self) -> (r: bool)
        ensures
            r == self.koruma_enabled,
    {
        self.koruma_enabled
    }

    /// Whether some source field is skipped by the form.
    pub fn has_skipped_fields(&self) -> (r: bool)
        ensures
            r == self.has_skipped_fields,
    {
        self.has_skipped_fields
    }
}

} // verus!
