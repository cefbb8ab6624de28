//! Source text of the form-level items the form derive writes next to the
//! value holder: the shape registration listing each field's metadata, the
//! components struct and builders, and the per-field error struct.

use vstd::prelude::*;

use crate::component_source::{component_field_source, component_field_text, ComponentFieldContent};
use crate::components::{Components, ComponentsBehaviour};
use crate::form_derive::{
    derive_error, field_validation_rules, is_skipped, koruma_enabled, plan_form_derive,
    validation_rules, DeriveField,
};
use crate::holder_source::{value_holder_source, value_holder_text};
use crate::infinite_select_derive::{decimal, decimal_text};
use crate::schema::layout::{FieldLayout, LayoutWidth};
use crate::text::{debug_text, str_debug};

verus! {

/// A boolean as Rust source.
pub open spec fn bool_text(b: bool) -> Seq<char> {
    if b {
        "true"@
    } else {
        "false"@
    }
}

/// The behaviour of a component, as the shape writes it.
pub open spec fn behaviour_text(b: ComponentsBehaviour) -> Seq<char> {
    match b {
        ComponentsBehaviour::Input => "::gpui_form::core::components::ComponentsBehaviour::Input"@,
        ComponentsBehaviour::NumberInput => "::gpui_form::core::components::ComponentsBehaviour::NumberInput"@,
        ComponentsBehaviour::Checkbox => "::gpui_form::core::components::ComponentsBehaviour::Checkbox"@,
        ComponentsBehaviour::Switch => "::gpui_form::core::components::ComponentsBehaviour::Switch"@,
        ComponentsBehaviour::Select(o) => "::gpui_form::core::components::ComponentsBehaviour::Select(\n::gpui_form::core::components::BehaviourSelectOptions {\nsearchable: "@
            + bool_text(o.searchable) + ",\npartial: "@ + bool_text(o.partial) + ",\n}\n)"@,
        ComponentsBehaviour::InfiniteSelect(o) => "::gpui_form::core::components::ComponentsBehaviour::InfiniteSelect(\n::gpui_form::core::components::BehaviourInfiniteSelectOptions {\nsearchable: "@
            + bool_text(o.searchable) + ",\nmax_depth: "@ + match o.max_depth {
            Some(d) => "Some("@ + decimal(d as nat) + "usize)"@,
            None => "None"@,
        } + ",\n}\n)"@,
        ComponentsBehaviour::DatePicker => "::gpui_form::core::components::ComponentsBehaviour::DatePicker"@,
    }
}

/// `.name(Some("text"))` for a present hint, nothing for an absent one.
pub open spec fn hint_text(method: Seq<char>, hint: Option<&'static str>) -> Seq<char> {
    match hint {
        Some(h) => "."@ + method + "(Some("@ + debug_text(h@) + "))"@,
        None => Seq::empty(),
    }
}

/// The width's variant name.
pub open spec fn width_text(w: LayoutWidth) -> Seq<char> {
    match w {
        LayoutWidth::Full => "Full"@,
        LayoutWidth::Half => "Half"@,
        LayoutWidth::Third => "Third"@,
    }
}

/// A field's layout hints: the present hints, then its width (always).
pub open spec fn layout_text(l: FieldLayout) -> Seq<char> {
    "::gpui_form::schema::layout::FieldLayout::new()"@ + hint_text("with_section"@, l.section)
        + hint_text("with_label"@, l.label) + hint_text("with_description"@, l.description)
        + hint_text("with_placeholder"@, l.placeholder)
        + ".with_width(::gpui_form::schema::layout::LayoutWidth::"@ + width_text(l.width) + ")"@
}

/// String literals separated by `, `.
pub open spec fn literals_text(items: Seq<Seq<char>>) -> Seq<char>
    decreases items.len(),
{
    if items.len() == 0 {
        Seq::empty()
    } else if items.len() == 1 {
        debug_text(items[0])
    } else {
        literals_text(items.drop_last()) + ", "@ + debug_text(items.last())
    }
}

/// The type a field's metadata records: the override's when there is one.
pub open spec fn shape_type_text(f: DeriveField) -> Seq<char> {
    match f.override_type_text {
        Some(t) => t@,
        None => f.type_text@,
    }
}

/// Whether a field appears in the shape: kept, with a component.
pub open spec fn in_shape(f: DeriveField) -> bool {
    !is_skipped(f) && f.component is Some
}

/// The metadata entry of a field in the shape: name, type, optionality and
/// behaviour, its validation rules, its default expression (as text) when
/// it has one, and its layout.
pub open spec fn field_variant_text(f: DeriveField) -> Seq<char> {
    "::gpui_form::core::registry::FieldVariant::new(\n"@ + debug_text(f.name@) + ",\n"@ + debug_text(
        shape_type_text(f),
    ) + ",\n"@ + bool_text(f.was_optional) + ",\n"@ + behaviour_text(
        match f.component {
            Some(c) => c.spec_behaviour(),
            None => ComponentsBehaviour::Input,
        },
    ) + "\n).with_validations(&["@ + literals_text(validation_rules(f)) + "])"@
        + match f.default_text {
        Some(d) => ".with_default("@ + debug_text(d@) + ")"@,
        None => Seq::empty(),
    } + ".with_layout("@ + layout_text(f.layout) + ")"@
}

/// The entries of the fields in the shape, separated by `,\n`.
pub open spec fn field_variants_text(fields: Seq<DeriveField>) -> Seq<char>
    decreases fields.len(),
{
    if fields.len() == 0 {
        Seq::empty()
    } else {
        let prev = field_variants_text(fields.drop_last());
        if !in_shape(fields.last()) {
            prev
        } else if prev.len() == 0 {
            field_variant_text(fields.last())
        } else {
            prev + ",\n"@ + field_variant_text(fields.last())
        }
    }
}

/// The registration of the form's shape with its fields' metadata.
pub open spec fn shape_registration_text(struct_name: Seq<char>, fields: Seq<DeriveField>) -> Seq<char> {
    "::gpui_form::core::registry::inventory::submit! {\n::gpui_form::core::registry::GpuiFormShape::new(\nstringify!("@
        + struct_name + "),\n&[\n"@ + field_variants_text(fields) + "\n],\nfile!()\n)\n}\n"@
}

/// One line per field in the shape, of the kind `k`: the error struct's
/// field, its default, or its emptiness check.
pub open spec fn error_part(f: DeriveField, k: int) -> Seq<char> {
    if k == 0 {
        "pub "@ + f.name@ + ": String,\n"@
    } else if k == 1 {
        f.name@ + ": String::new(),\n"@
    } else {
        "!self."@ + f.name@ + ".is_empty()"@
    }
}

/// The parts of kind `k` of the fields in the shape; the checks are joined
/// with ` || `.
pub open spec fn error_parts(fields: Seq<DeriveField>, k: int) -> Seq<char>
    decreases fields.len(),
{
    if fields.len() == 0 {
        Seq::empty()
    } else {
        let prev = error_parts(fields.drop_last(), k);
        if !in_shape(fields.last()) {
            prev
        } else if k == 2 && prev.len() > 0 {
            prev + " || "@ + error_part(fields.last(), k)
        } else {
            prev + error_part(fields.last(), k)
        }
    }
}

/// The error struct of a form: one message per field in the shape, a
/// `Default` with empty messages, `has_errors` (some message is not empty)
/// and `clear`.
pub open spec fn items_errors_text(struct_name: Seq<char>, fields: Seq<DeriveField>) -> Seq<char> {
    let name = struct_name + "FormItemsErrors"@;
    "/// Struct tracking which form fields have errors.\n#[derive(Clone, Debug)]\npub struct "@ + name
        + " {\n"@ + error_parts(fields, 0) + "}\nimpl Default for "@ + name
        + " {\nfn default() -> Self {\nSelf {\n"@ + error_parts(fields, 1) + "}\n}\n}\nimpl "@ + name
        + " {\n/// Returns true if any field has an error\npub fn has_errors(&self) -> bool {\n"@
        + error_parts(fields, 2)
        + "\n}\n/// Clears all errors\npub fn clear(&mut self) {\n*self = Self::default();\n}\n}\n"@
}

/// The components struct (the fields' entities) and the builders' impl,
/// from the fields' contents in order; `None` when a content has no source.
pub open spec fn components_text(struct_name: Seq<char>, contents: Seq<ComponentFieldContent>) -> Option<
    Seq<char>,
> {
    if exists|i: int| 0 <= i < contents.len() && (#[trigger] contents[i]).source is None {
        None
    } else {
        Some(
            "pub struct "@ + struct_name + "FormFields {\n"@ + contents_text(contents, true)
                + "}\npub struct "@ + struct_name + "FormComponents;\nimpl "@ + struct_name
                + "FormComponents {\n"@ + contents_text(contents, false) + "}\n"@,
        )
    }
}

/// The structures (or declarations) of the contents, concatenated.
pub open spec fn contents_text(contents: Seq<ComponentFieldContent>, structure: bool) -> Seq<char>
    decreases contents.len(),
{
    if contents.len() == 0 {
        Seq::empty()
    } else {
        contents_text(contents.drop_last(), structure) + match contents.last().source {
            Some(s) => if structure {
                s.structure@
            } else {
                s.declarations@
            },
            None => Seq::empty(),
        }
    }
}

fn bool_source(b: bool) -> (r: &'static str)
    ensures
        r@ == bool_text(b),
{
    if b {
        "true"
    } else {
        "false"
    }
}

fn behaviour_source(b: ComponentsBehaviour) -> (r: String)
    ensures
        r@ == behaviour_text(b),
{
    match b {
        ComponentsBehaviour::Input => String::from_str("::gpui_form::core::components::ComponentsBehaviour::Input"),
        ComponentsBehaviour::NumberInput => String::from_str(
            "::gpui_form::core::components::ComponentsBehaviour::NumberInput",
        ),
        ComponentsBehaviour::Checkbox => String::from_str(
            "::gpui_form::core::components::ComponentsBehaviour::Checkbox",
        ),
        ComponentsBehaviour::Switch => String::from_str("::gpui_form::core::components::ComponentsBehaviour::Switch"),
        ComponentsBehaviour::Select(o) => {
            let mut out = String::from_str(
                "::gpui_form::core::components::ComponentsBehaviour::Select(\n::gpui_form::core::components::BehaviourSelectOptions {\nsearchable: ",
            );
            out.append(bool_source(o.searchable));
            out.append(",\npartial: ");
            out.append(bool_source(o.partial));
            out.append(",\n}\n)");
            out
        },
        ComponentsBehaviour::InfiniteSelect(o) => {
            let mut out = String::from_str(
                "::gpui_form::core::components::ComponentsBehaviour::InfiniteSelect(\n::gpui_form::core::components::BehaviourInfiniteSelectOptions {\nsearchable: ",
            );
            out.append(bool_source(o.searchable));
            out.append(",\nmax_depth: ");
            match o.max_depth {
                Some(d) => {
                    let digits = decimal_text(d);
                    out.append("Some(");
                    out.append(digits.as_str());
                    out.append("usize)");
                },
                None => out.append("None"),
            }
            out.append(",\n}\n)");
            out
        },
        ComponentsBehaviour::DatePicker => String::from_str(
            "::gpui_form::core::components::ComponentsBehaviour::DatePicker",
        ),
    }
}

fn hint_source(method: &str, hint: Option<&'static str>) -> (r: String)
    ensures
        r@ == hint_text(method@, hint),
{
    match hint {
        Some(h) => {
            let lit = str_debug(h);
            let mut out = String::from_str(".");
            out.append(method);
            out.append("(Some(");
            out.append(lit.as_str());
            out.append("))");
            out
        },
        None => String::new(),
    }
}

fn layout_source(l: &FieldLayout) -> (r: String)
    ensures
        r@ == layout_text(*l),
{
    let mut out = String::from_str("::gpui_form::schema::layout::FieldLayout::new()");
    let a = hint_source("with_section", l.section);
    out.append(a.as_str());
    let b = hint_source("with_label", l.label);
    out.append(b.as_str());
    let c = hint_source("with_description", l.description);
    out.append(c.as_str());
    let d = hint_source("with_placeholder", l.placeholder);
    out.append(d.as_str());
    out.append(".with_width(::gpui_form::schema::layout::LayoutWidth::");
    match l.width {
        LayoutWidth::Full => out.append("Full"),
        LayoutWidth::Half => out.append("Half"),
        LayoutWidth::Third => out.append("Third"),
    }
    out.append(")");
    out
}

fn literals_source(items: &Vec<String>) -> (r: String)
    ensures
        r@ == literals_text(items@.map_values(|s: String| s@)),
{
    let ghost views = items@.map_values(|s: String| s@);
    let mut out = String::new();
    let mut i: usize = 0;
    assert(views.subrange(0, 0) =~= Seq::<Seq<char>>::empty());
    while i < items.len()
        invariant
            i <= items@.len(),
            views == items@.map_values(|s: String| s@),
            out@ == literals_text(views.subrange(0, i as int)),
        decreases items@.len() - i,
    {
        assert(views.subrange(0, i + 1).drop_last() =~= views.subrange(0, i as int));
        let lit = str_debug(items[i].as_str());
        if i > 0 {
            out.append(", ");
        }
        out.append(lit.as_str());
        i += 1;
    }
    assert(views.subrange(0, items@.len() as int) =~= views);
    out
}

fn field_variant_source(f: &DeriveField) -> (r: String)
    ensures
        r@ == field_variant_text(*f),
{
    let name = str_debug(f.name.as_str());
    let ty = match &f.override_type_text {
        Some(t) => str_debug(t.as_str()),
        None => str_debug(f.type_text.as_str()),
    };
    let behaviour = match &f.component {
        Some(c) => behaviour_source(c.behaviour()),
        None => behaviour_source(ComponentsBehaviour::Input),
    };
    let rules = field_validation_rules(f);
    let listed = literals_source(&rules);
    let layout = layout_source(&f.layout);
    let mut out = String::from_str("::gpui_form::core::registry::FieldVariant::new(\n");
    out.append(name.as_str());
    out.append(",\n");
    out.append(ty.as_str());
    out.append(",\n");
    out.append(bool_source(f.was_optional));
    out.append(",\n");
    out.append(behaviour.as_str());
    out.append("\n).with_validations(&[");
    out.append(listed.as_str());
    out.append("])");
    match &f.default_text {
        Some(d) => {
            let lit = str_debug(d.as_str());
            out.append(".with_default(");
            out.append(lit.as_str());
            out.append(")");
        },
        None => {},
    }
    out.append(".with_layout(");
    out.append(layout.as_str());
    out.append(")");
    out
}

fn in_shape_source(f: &DeriveField) -> (r: bool)
    ensures
        r == in_shape(*f),
{
    !(f.skip && f.component.is_none()) && f.component.is_some()
}

/// The registration of the form's shape (see `shape_registration_text`).
pub fn shape_registration_source(struct_name: &str, fields: &Vec<DeriveField>) -> (r: String)
    ensures
        r@ == shape_registration_text(struct_name@, fields@),
{
    let mut entries = String::new();
    let mut i: usize = 0;
    assert(fields@.subrange(0, 0) =~= Seq::<DeriveField>::empty());
    while i < fields.len()
        invariant
            i <= fields@.len(),
            entries@ == field_variants_text(fields@.subrange(0, i as int)),
        decreases fields@.len() - i,
    {
        assert(fields@.subrange(0, i + 1).drop_last() =~= fields@.subrange(0, i as int));
        let f = &fields[i];
        if in_shape_source(f) {
            let entry = field_variant_source(f);
            if entries.unicode_len() > 0 {
                entries.append(",\n");
            }
            entries.append(entry.as_str());
        }
        i += 1;
    }
    assert(fields@.subrange(0, fields@.len() as int) =~= fields@);
    let mut out = String::from_str(
        "::gpui_form::core::registry::inventory::submit! {\n::gpui_form::core::registry::GpuiFormShape::new(\nstringify!(",
    );
    out.append(struct_name);
    out.append("),\n&[\n");
    out.append(entries.as_str());
    out.append("\n],\nfile!()\n)\n}\n");
    out
}

fn error_parts_source(fields: &Vec<DeriveField>, k: u8) -> (r: String)
    requires
        k <= 2,
    ensures
        r@ == error_parts(fields@, k as int),
{
    let mut out = String::new();
    let mut i: usize = 0;
    assert(fields@.subrange(0, 0) =~= Seq::<DeriveField>::empty());
    while i < fields.len()
        invariant
            k <= 2,
            i <= fields@.len(),
            out@ == error_parts(fields@.subrange(0, i as int), k as int),
        decreases fields@.len() - i,
    {
        assert(fields@.subrange(0, i + 1).drop_last() =~= fields@.subrange(0, i as int));
        let f = &fields[i];
        if in_shape_source(f) {
            if k == 0 {
                out.append("pub ");
                out.append(f.name.as_str());
                out.append(": String,\n");
            } else if k == 1 {
                out.append(f.name.as_str());
                out.append(": String::new(),\n");
            } else {
                if out.unicode_len() > 0 {
                    out.append(" || ");
                }
                out.append("!self.");
                out.append(f.name.as_str());
                out.append(".is_empty()");
            }
        }
        i += 1;
    }
    assert(fields@.subrange(0, fields@.len() as int) =~= fields@);
    out
}

/// The form's error struct (see `items_errors_text`).
pub fn items_errors_source(struct_name: &str, fields: &Vec<DeriveField>) -> (r: String)
    ensures
        r@ == items_errors_text(struct_name@, fields@),
{
    let mut name = String::from_str(struct_name);
    name.append("FormItemsErrors");
    let members = error_parts_source(fields, 0);
    let defaults = error_parts_source(fields, 1);
    let checks = error_parts_source(fields, 2);
    let mut out = String::from_str(
        "/// Struct tracking which form fields have errors.\n#[derive(Clone, Debug)]\npub struct ",
    );
    out.append(name.as_str());
    out.append(" {\n");
    out.append(members.as_str());
    out.append("}\nimpl Default for ");
    out.append(name.as_str());
    out.append(" {\nfn default() -> Self {\nSelf {\n");
    out.append(defaults.as_str());
    out.append("}\n}\n}\nimpl ");
    out.append(name.as_str());
    out.append(" {\n/// Returns true if any field has an error\npub fn has_errors(&self) -> bool {\n");
    out.append(checks.as_str());
    out.append("\n}\n/// Clears all errors\npub fn clear(&mut self) {\n*self = Self::default();\n}\n}\n");
    out
}

/// The components struct and the builders' impl (see `components_text`).
pub fn components_source(struct_name: &str, contents: &Vec<ComponentFieldContent>) -> (r: Option<String>)
    ensures
        match r {
            Some(t) => components_text(struct_name@, contents@) == Some(t@),
            None => components_text(struct_name@, contents@) is None,
        },
{
    let mut structures = String::new();
    let mut declarations = String::new();
    let mut i: usize = 0;
    assert(contents@.subrange(0, 0) =~= Seq::<ComponentFieldContent>::empty());
    while i < contents.len()
        invariant
            i <= contents@.len(),
            forall|j: int| 0 <= j < i ==> (#[trigger] contents@[j]).source is Some,
            structures@ == contents_text(contents@.subrange(0, i as int), true),
            declarations@ == contents_text(contents@.subrange(0, i as int), false),
        decreases contents@.len() - i,
    {
        assert(contents@.subrange(0, i + 1).drop_last() =~= contents@.subrange(0, i as int));
        match &contents[i].source {
            Some(s) => {
                structures.append(s.structure.as_str());
                declarations.append(s.declarations.as_str());
            },
            None => {
                return None;
            },
        }
        i += 1;
    }
    assert(contents@.subrange(0, contents@.len() as int) =~= contents@);
    let mut out = String::from_str("pub struct ");
    out.append(struct_name);
    out.append("FormFields {\n");
    out.append(structures.as_str());
    out.append("}\npub struct ");
    out.append(struct_name);
    out.append("FormComponents;\nimpl ");
    out.append(struct_name);
    out.append("FormComponents {\n");
    out.append(declarations.as_str());
    out.append("}\n");
    Some(out)
}

/// The struct fields and builders of the kept fields' components, in
/// order, over each field's type ident; `None` when a kept field's
/// component has no template here.
pub open spec fn kept_contents(fields: Seq<DeriveField>) -> Option<(Seq<char>, Seq<char>)>
    decreases fields.len(),
{
    if fields.len() == 0 {
        Some((Seq::empty(), Seq::empty()))
    } else {
        match kept_contents(fields.drop_last()) {
            None => None,
            Some((s, d)) => if is_skipped(fields.last()) {
                Some((s, d))
            } else {
                match component_field_text(fields.last(), fields.last().type_ident@) {
                    None => None,
                    Some((s2, d2)) => Some((s + s2, d + d2)),
                }
            },
        }
    }
}

/// What the form derive writes for a struct with fields: the value holder
/// (with koruma as `koruma_enabled` decides), the components struct, the
/// shape registration when asked for, the builders and the error struct.
pub open spec fn expansion_text(
    struct_name: Seq<char>,
    struct_is_unit: bool,
    fields: Seq<DeriveField>,
    koruma_attr: bool,
    fluent: bool,
    generate_shape: bool,
) -> Option<Seq<char>> {
    match kept_contents(fields) {
        None => None,
        Some((s, d)) => Some(
            value_holder_text(
                struct_name,
                struct_is_unit,
                fields,
                koruma_enabled(koruma_attr, fields),
                fluent,
            ) + "pub struct "@ + struct_name + "FormFields {\n"@ + s + "}\n"@ + (if generate_shape {
                shape_registration_text(struct_name, fields)
            } else {
                Seq::empty()
            }) + "pub struct "@ + struct_name + "FormComponents;\nimpl "@ + struct_name
                + "FormComponents {\n"@ + d + "}\n"@ + items_errors_text(struct_name, fields),
        ),
    }
}

/// What the form derive writes for a struct marked empty: a value holder
/// without fields, unit components structs and a shape without fields.
pub open spec fn empty_expansion_text(
    struct_name: Seq<char>,
    struct_is_unit: bool,
    koruma_attr: bool,
    fluent: bool,
    generate_shape: bool,
) -> Seq<char> {
    value_holder_text(struct_name, struct_is_unit, Seq::empty(), koruma_attr, fluent) + "pub struct "@
        + struct_name + "FormFields;\n"@ + (if generate_shape {
        "::gpui_form::core::registry::inventory::submit! {\n::gpui_form::core::registry::GpuiFormShape::new(\nstringify!("@
            + struct_name + "),\n&[],\nfile!()\n)\n}\n"@
    } else {
        Seq::empty()
    }) + "pub struct "@ + struct_name + "FormComponents;\n"@
}

/// Once a prefix of the fields has a component without a template, every
/// longer prefix has too.
proof fn lemma_kept_none_stays(fields: Seq<DeriveField>, j: int)
    requires
        0 <= j <= fields.len(),
        kept_contents(fields.subrange(0, j)) is None,
    ensures
        kept_contents(fields.subrange(0, fields.len() as int)) is None,
    decreases fields.len() - j,
{
    if j < fields.len() {
        assert(fields.subrange(0, j + 1).drop_last() =~= fields.subrange(0, j));
        lemma_kept_none_stays(fields, j + 1);
    }
}

fn kept_contents_source(fields: &Vec<DeriveField>) -> (r: Option<(String, String)>)
    ensures
        match r {
            Some((s, d)) => kept_contents(fields@) == Some((s@, d@)),
            None => kept_contents(fields@) is None,
        },
{
    let mut structures = String::new();
    let mut declarations = String::new();
    let mut i: usize = 0;
    assert(fields@.subrange(0, 0) =~= Seq::<DeriveField>::empty());
    while i < fields.len()
        invariant
            i <= fields@.len(),
            kept_contents(fields@.subrange(0, i as int)) == Some((structures@, declarations@)),
        decreases fields@.len() - i,
    {
        let ghost pre = fields@.subrange(0, i as int);
        assert(fields@.subrange(0, i + 1).drop_last() =~= pre);
        let f = &fields[i];
        if !(f.skip && f.component.is_none()) {
            let content = component_field_source(f, f.type_ident.as_str());
            match content.source {
                Some(src) => {
                    structures.append(src.structure.as_str());
                    declarations.append(src.declarations.as_str());
                },
                None => {
                    proof {
                        lemma_kept_none_stays(fields@, i + 1);
                        assert(fields@.subrange(0, fields@.len() as int) =~= fields@);
                    }
                    return None;
                },
            }
        }
        i += 1;
    }
    assert(fields@.subrange(0, fields@.len() as int) =~= fields@);
    Some((structures, declarations))
}

/// What the form derive writes for a struct: for a struct marked `empty`,
/// `empty_expansion_text`; else the derive's error for a struct without
/// fields (see `derive_error`), or `expansion_text`, which is `None` when a
/// kept field's component has no template here.
pub fn expand_gpui_form_source(
    struct_name: &str,
    struct_is_unit: bool,
    empty: bool,
    fields: &Vec<DeriveField>,
    koruma_attr: bool,
    fluent: bool,
    generate_shape: bool,
) -> (r: Result<Option<String>, String>)
    ensures
        empty ==> (r matches Ok(Some(t)) && t@ == empty_expansion_text(
            struct_name@,
            struct_is_unit,
            koruma_attr,
            fluent,
            generate_shape,
        )),
        !empty ==> match r {
            Err(m) => derive_error(struct_name@, fields@) == Some(m@),
            Ok(o) => derive_error(struct_name@, fields@) is None && match expansion_text(
                struct_name@,
                struct_is_unit,
                fields@,
                koruma_attr,
                fluent,
                generate_shape,
            ) {
                Some(t) => o matches Some(x) && x@ == t,
                None => o is None,
            },
        },
{
    if empty {
        let none: Vec<DeriveField> = Vec::new();
        let mut out = value_holder_source(struct_name, struct_is_unit, &none, koruma_attr, fluent);
        assert(none@ =~= Seq::<DeriveField>::empty());
        out.append("pub struct ");
        out.append(struct_name);
        out.append("FormFields;\n");
        if generate_shape {
            out.append(
                "::gpui_form::core::registry::inventory::submit! {\n::gpui_form::core::registry::GpuiFormShape::new(\nstringify!(",
            );
            out.append(struct_name);
            out.append("),\n&[],\nfile!()\n)\n}\n");
        }
        out.append("pub struct ");
        out.append(struct_name);
        out.append("FormComponents;\n");
        return Ok(Some(out));
    }
    match crate::form_derive::check_derive_fields(struct_name, fields) {
        Err(m) => {
            return Err(m);
        },
        Ok(()) => {},
    }
    let (structures, declarations) = match kept_contents_source(fields) {
        Some(c) => c,
        None => {
            return Ok(None);
        },
    };
    let plan = plan_form_derive(koruma_attr, fields);
    let mut out = value_holder_source(struct_name, struct_is_unit, fields, plan.koruma_enabled, fluent);
    out.append("pub struct ");
    out.append(struct_name);
    out.append("FormFields {\n");
    out.append(structures.as_str());
    out.append("}\n");
    if generate_shape {
        let shape = shape_registration_source(struct_name, fields);
        out.append(shape.as_str());
    }
    out.append("pub struct ");
    out.append(struct_name);
    out.append("FormComponents;\nimpl ");
    out.append(struct_name);
    out.append("FormComponents {\n");
    out.append(declarations.as_str());
    out.append("}\n");
    let errors = items_errors_source(struct_name, fields);
    out.append(errors.as_str());
    Ok(Some(out))
}

} // verus!
