//! Source text of the items a form's components struct holds for one field:
//! its entity fields, and the functions that build the component states
//! (a number input's checked text input, and the master and child selects
//! of a cascading select).

use vstd::prelude::*;

use crate::components::{
    BehaviourSelectOptions, Components, FieldInformation, InfiniteSelectOptions,
    NumberInputOptions, NumberTextCheck, SelectOptions, signed_field_type_text,
};
use crate::form_derive::DeriveField;
use crate::infinite_select_derive::{decimal, decimal_text};
use crate::text::{is_rust_path, parses_as_path};

verus! {

/// The struct fields and the builder functions one component adds.
pub struct ComponentFieldSource {
    /// Field definitions of the components struct.
    pub structure: String,
    /// Builder functions of the components struct.
    pub declarations: String,
}

/// A number input held as an input state, with the text check of its
/// options.
pub struct NumberInputComponent(pub FieldInformation<NumberInputOptions>);

/// The struct field of a number input: an input-state entity.
pub open spec fn number_input_structure_text(name: Seq<char>) -> Seq<char> {
    "pub "@ + name + ": ::gpui::Entity<::gpui_component::input::InputState>,\n"@
}

/// The end of the check: for a type checked by pattern only, accept; else
/// the text must parse as the field's type.
pub open spec fn check_tail_text(check: NumberTextCheck, field_type: Seq<char>) -> Seq<char> {
    if check.pattern_only {
        "true\n})"@
    } else {
        "value.parse::<"@ + field_type + ">().is_ok()\n})"@
    }
}

/// The `.validate(..)` call of a number input: an empty text passes; a
/// signed number may start with `-` (alone too, while typing), has no
/// leading zero before a digit, and then only digits and points; an
/// unsigned number has only digits and no leading zero; then the tail (see
/// `check_tail_text`).
pub open spec fn number_check_text(check: NumberTextCheck, field_type: Seq<char>) -> Seq<char> {
    if check.signed {
        ".validate(|value, _| {\nif value.is_empty() {\nreturn true;\n}\nlet chars: Vec<char> = value.chars().collect();\nif chars.len() == 1 && chars[0] == '-' {\nreturn true;\n}\nif !chars[0].is_ascii_digit() && chars[0] != '-' {\nreturn false;\n}\nif chars.len() > 1 {\nlet start_idx = if chars[0] == '-' { 1 } else { 0 };\nif chars[start_idx] == '0' && chars.len() > start_idx + 1 && chars[start_idx + 1].is_ascii_digit() {\nreturn false;\n}\nif !chars[start_idx..].iter().all(|&c| c.is_ascii_digit() || c == '.') {\nreturn false;\n}\n}\n"@
            + check_tail_text(check, field_type)
    } else {
        ".validate(|value, _| {\nif value.is_empty() {\nreturn true;\n}\nlet chars: Vec<char> = value.chars().collect();\nif !chars[0].is_ascii_digit() {\nreturn false;\n}\nif chars[0] == '0' && chars.len() > 1 && chars[1].is_ascii_digit() {\nreturn false;\n}\nif !chars.iter().all(|&c| c.is_ascii_digit()) {\nreturn false;\n}\n"@
            + check_tail_text(check, field_type)
    }
}

/// The builder function of a number input: a new input state with the
/// check of `number_check_text`.
pub open spec fn number_input_declarations_text(
    name: Seq<char>,
    field_type: Seq<char>,
    check: NumberTextCheck,
) -> Seq<char> {
    "pub fn "@ + name
        + "(window: &mut ::gpui::Window, cx: &mut ::gpui::Context<'_, ::gpui_component::input::InputState>) -> ::gpui_component::input::InputState {\n::gpui_component::input::InputState::new(window, cx)"@
        + number_check_text(check, field_type) + "\n}\n"@
}

/// The text check of a number input's options: signed when the `as` type
/// (else the field's type) starts with `i` or `f`; by pattern only when an
/// `as` type is set.
pub open spec fn number_check_of(options: NumberInputOptions, field_type: Seq<char>) -> NumberTextCheck {
    NumberTextCheck {
        signed: signed_field_type_text(
            match options.as_type {
                Some(t) => t@,
                None => field_type,
            },
        ),
        pattern_only: options.as_type is Some,
    }
}

fn check_tail_source(check: NumberTextCheck, field_type: &str) -> (r: String)
    ensures
        r@ == check_tail_text(check, field_type@),
{
    if check.pattern_only {
        String::from_str("true\n})")
    } else {
        let mut out = String::from_str("value.parse::<");
        out.append(field_type);
        out.append(">().is_ok()\n})");
        out
    }
}

fn number_check_source(check: NumberTextCheck, field_type: &str) -> (r: String)
    ensures
        r@ == number_check_text(check, field_type@),
{
    let tail = check_tail_source(check, field_type);
    let mut out = if check.signed {
        String::from_str(
            ".validate(|value, _| {\nif value.is_empty() {\nreturn true;\n}\nlet chars: Vec<char> = value.chars().collect();\nif chars.len() == 1 && chars[0] == '-' {\nreturn true;\n}\nif !chars[0].is_ascii_digit() && chars[0] != '-' {\nreturn false;\n}\nif chars.len() > 1 {\nlet start_idx = if chars[0] == '-' { 1 } else { 0 };\nif chars[start_idx] == '0' && chars.len() > start_idx + 1 && chars[start_idx + 1].is_ascii_digit() {\nreturn false;\n}\nif !chars[start_idx..].iter().all(|&c| c.is_ascii_digit() || c == '.') {\nreturn false;\n}\n}\n",
        )
    } else {
        String::from_str(
            ".validate(|value, _| {\nif value.is_empty() {\nreturn true;\n}\nlet chars: Vec<char> = value.chars().collect();\nif !chars[0].is_ascii_digit() {\nreturn false;\n}\nif chars[0] == '0' && chars.len() > 1 && chars[1].is_ascii_digit() {\nreturn false;\n}\nif !chars.iter().all(|&c| c.is_ascii_digit()) {\nreturn false;\n}\n",
        )
    };
    out.append(tail.as_str());
    out
}

impl NumberInputComponent {
    /// The number input's entity field and its builder function.
    pub fn field_source(&self) -> (r: ComponentFieldSource)
        ensures
            r.structure@ == number_input_structure_text(self.0.name@),
            r.declarations@ == number_input_declarations_text(
                self.0.name@,
                self.0.field_type@,
                number_check_of(self.0.options, self.0.field_type@),
            ),
    {
        let info = &self.0;
        let mut structure = String::from_str("pub ");
        structure.append(info.name.as_str());
        structure.append(": ::gpui::Entity<::gpui_component::input::InputState>,\n");
        let check = info.options.text_check(info.field_type.as_str());
        let body = number_check_source(check, info.field_type.as_str());
        let mut declarations = String::from_str("pub fn ");
        declarations.append(info.name.as_str());
        declarations.append(
            "(window: &mut ::gpui::Window, cx: &mut ::gpui::Context<'_, ::gpui_component::input::InputState>) -> ::gpui_component::input::InputState {\n::gpui_component::input::InputState::new(window, cx)",
        );
        declarations.append(body.as_str());
        declarations.append("\n}\n");
        ComponentFieldSource { structure, declarations }
    }
}

/// The two cascading selects: over an `InfiniteSelect` enum or over a
/// `TupleEnumInner` enum.
#[derive(Clone, Copy, Debug, PartialEq, Eq, Structural)]
pub enum CascadeKind {
    Infinite,
    Tuple,
}

/// The item type name, as imported in the child-select builder.
pub open spec fn item_name(k: CascadeKind) -> Seq<char> {
    match k {
        CascadeKind::Infinite => "InfiniteSelectItem"@,
        CascadeKind::Tuple => "TupleSelectItem"@,
    }
}

/// The item type's full path.
pub open spec fn item_path(k: CascadeKind) -> Seq<char> {
    match k {
        CascadeKind::Infinite => "::gpui_form::infinite_select::InfiniteSelectItem"@,
        CascadeKind::Tuple => "gpui_form_component::TupleSelectItem"@,
    }
}

/// The trait the enum implements, by its full path.
pub open spec fn trait_path(k: CascadeKind) -> Seq<char> {
    match k {
        CascadeKind::Infinite => "::gpui_form::infinite_select::InfiniteSelect"@,
        CascadeKind::Tuple => "gpui_form_component::TupleEnumInner"@,
    }
}

/// The function that lists the root items.
pub open spec fn items_fn(k: CascadeKind) -> Seq<char> {
    match k {
        CascadeKind::Infinite => "::gpui_form::infinite_select::to_select_items"@,
        CascadeKind::Tuple => "gpui_form_component::tuple_enum_to_select_items"@,
    }
}

/// The `use` of the trait and the item type in the child-select builder.
pub open spec fn child_uses(k: CascadeKind) -> Seq<char> {
    match k {
        CascadeKind::Infinite => "::gpui_form::infinite_select::{InfiniteSelect, InfiniteSelectItem}"@,
        CascadeKind::Tuple => "gpui_form_component::{TupleEnumInner, TupleSelectItem}"@,
    }
}

/// The type that records the selection path.
pub open spec fn path_type(k: CascadeKind) -> Seq<char> {
    match k {
        CascadeKind::Infinite => "::gpui_form::infinite_select::InfiniteSelectPath"@,
        CascadeKind::Tuple => "gpui_form_component::TupleSelectPath"@,
    }
}

/// The state type of every select of the cascade.
pub open spec fn select_state_type(k: CascadeKind, ty: Seq<char>, searchable: bool) -> Seq<char> {
    "::gpui_component::select::SelectState<"@ + (if searchable {
        "::gpui_component::select::SearchableVec"@
    } else {
        "Vec"@
    }) + "<"@ + item_path(k) + "<"@ + ty + ">>>"@
}

/// The struct fields of a cascading select: the master select, the child
/// selects and the selection path.
pub open spec fn cascade_structure_text(
    k: CascadeKind,
    name: Seq<char>,
    ty: Seq<char>,
    searchable: bool,
) -> Seq<char> {
    let state = select_state_type(k, ty, searchable);
    "/// The master select for choosing the top-level variant\npub "@ + name
        + "_master_select: ::gpui::Entity<"@ + state
        + ">,\n/// The dynamic list of child selects for nested variants\npub "@ + name
        + "_child_selects: Vec<::gpui::Entity<"@ + state
        + ">>,\n/// The selection path tracking all levels of the hierarchy\npub "@ + name + "_path: "@
        + path_type(k) + ",\n"@
}

/// The loop that builds one child select per level below `start_level`,
/// each over the children of the first item of the level above, until a
/// level has no children or `max_depth` is reached.
pub open spec fn child_loop_text(k: CascadeKind, ty: Seq<char>) -> Seq<char> {
    "let mut current_value = parent.clone();\nlet mut selects = Vec::new();\nfor level in start_level..(max_depth - 1) {\nlet (child_names, has_more) = if level == 0 {\n(current_value.child_variant_names(), current_value.has_inner())\n} else {\n(current_value.inner_child_variant_names(), current_value.inner_has_inner())\n};\nif !has_more || child_names.is_empty() {\nbreak;\n}\nlet items: Vec<"@
        + item_name(k) + "<"@ + ty
        + ">> = child_names\n.iter()\n.enumerate()\n.filter_map(|(idx, name)| {\nlet variant = if level == 0 {\ncurrent_value.set_child_by_index(idx)\n} else {\ncurrent_value.inner_set_child_by_index(idx)\n};\nvariant.map(|v| "@
        + item_name(k)
        + "::new(v, name.to_string()))\n})\n.collect();\nif items.is_empty() {\nbreak;\n}\nlet selected_index = Some(IndexPath {\nsection: 0,\nrow: 0,\ncolumn: 0,\n});\nlet child_select = cx.new(|cx| SelectState::new(items.clone(), selected_index, window, cx));\nselects.push(child_select);\nif let Some(first_item) = items.first() {\ncurrent_value = first_item.get_value().clone();\n} else {\nbreak;\n}\n}\nselects\n"@
}

/// The builder functions of a cascading select: the master select with the
/// first selected row `index`, the child names of a value, and the child
/// selects down to `max_depth` levels.
pub open spec fn cascade_declarations_text(
    k: CascadeKind,
    name: Seq<char>,
    ty: Seq<char>,
    searchable: bool,
    index: Seq<char>,
    max_depth: Seq<char>,
) -> Seq<char> {
    let state = select_state_type(k, ty, searchable);
    "/// Initialize the master select for the enum's outer variants\npub fn "@ + name
        + "_master_select(window: &mut ::gpui::Window, cx: &mut ::gpui::Context<'_, "@ + state
        + ">) -> "@ + state + " {\nlet items: Vec<"@ + item_path(k) + "<"@ + ty + ">> =\n"@
        + items_fn(k) + "::<"@ + ty
        + ">();\n::gpui_component::select::SelectState::new(items.into(), "@ + index
        + ", window, cx)\n}\n/// Get the child variant names for a given parent value.\npub fn "@
        + name + "_path(parent: &"@ + ty + ") -> Vec<&'static str> {\nuse "@ + trait_path(k)
        + " as _;\nparent.child_variant_names()\n}\n/// Rebuilds the child selects for a given parent value.\npub fn "@
        + name + "_child_selects<V>(\nparent: &"@ + ty
        + ",\nstart_level: usize,\nwindow: &mut ::gpui::Window,\ncx: &mut ::gpui::Context<V>\n) -> Vec<::gpui::Entity<"@
        + state + ">>\nwhere V: 'static\n{\nuse "@ + child_uses(k)
        + ";\nuse ::gpui_component::select::SelectState;\nuse ::gpui_component::IndexPath;\nuse ::gpui::AppContext;\nlet max_depth = "@
        + max_depth + ";\n"@ + child_loop_text(k, ty) + "}\n"@
}

/// The first selected row of an infinite select: the row of the variant
/// named like the field default's, else the first row.
pub open spec fn infinite_index_text(ty: Seq<char>, field_default: Option<String>) -> Seq<char> {
    match field_default {
        Some(d) => "{\nlet __gpui_form_default = "@ + d@ + ";\nSome(\n::gpui_component::IndexPath::new(\n<"@
            + ty
            + " as ::gpui_form::infinite_select::InfiniteSelect>::variants()\n.iter()\n.position(|x| x.variant_name() == __gpui_form_default.variant_name())\n.unwrap()\n)\n)\n}"@,
        None => "Some(::gpui_component::IndexPath::new(0))"@,
    }
}

/// The depth an infinite select expands to: the enum's depth, capped at the
/// option's maximum (but at least one level) when one is set.
pub open spec fn infinite_max_depth_text(ty: Seq<char>, max_depth: Option<usize>) -> Seq<char> {
    match max_depth {
        Some(m) => "::core::cmp::max(\n1usize,\n::core::cmp::min(\n<"@ + ty
            + " as InfiniteSelect>::depth(),\n"@ + decimal(m as nat) + "usize\n)\n)"@,
        None => "<"@ + ty + " as InfiniteSelect>::depth()"@,
    }
}

/// The first selected row of a tuple select: the row of the variant named
/// like `named_index`, else the first row when `index_default` is set, else
/// none.
pub open spec fn tuple_index_text(ty: Seq<char>, named_index: Option<Seq<char>>, index_default: bool) -> Seq<
    char,
> {
    match named_index {
        Some(p) => "Some(\n::gpui_component::IndexPath::new(\n<"@ + ty
            + " as gpui_form_component::TupleEnumInner>::variants()\n.iter()\n.position(|x| x.variant_name() == "@
            + p + ".variant_name())\n.unwrap()\n)\n)"@,
        None => if index_default {
            "Some(::gpui_component::IndexPath::new(0))"@
        } else {
            "None"@
        },
    }
}

/// A cascading select over an `InfiniteSelect` enum.
pub struct InfiniteSelectComponent(pub FieldInformation<InfiniteSelectOptions>);

/// A cascading select over a `TupleEnumInner` enum: its name and type, and
/// whether its selects search, which variant (a path expression) is
/// selected first, and whether the first variant is selected when none is
/// named.
pub struct TupleSelectComponent {
    pub name: String,
    pub field_type: String,
    pub searchable: bool,
    pub named_index: Option<String>,
    pub index_default: bool,
}

fn item_name_source(k: CascadeKind) -> (r: &'static str)
    ensures
        r@ == item_name(k),
{
    match k {
        CascadeKind::Infinite => "InfiniteSelectItem",
        CascadeKind::Tuple => "TupleSelectItem",
    }
}

fn item_path_source(k: CascadeKind) -> (r: &'static str)
    ensures
        r@ == item_path(k),
{
    match k {
        CascadeKind::Infinite => "::gpui_form::infinite_select::InfiniteSelectItem",
        CascadeKind::Tuple => "gpui_form_component::TupleSelectItem",
    }
}

fn trait_path_source(k: CascadeKind) -> (r: &'static str)
    ensures
        r@ == trait_path(k),
{
    match k {
        CascadeKind::Infinite => "::gpui_form::infinite_select::InfiniteSelect",
        CascadeKind::Tuple => "gpui_form_component::TupleEnumInner",
    }
}

fn items_fn_source(k: CascadeKind) -> (r: &'static str)
    ensures
        r@ == items_fn(k),
{
    match k {
        CascadeKind::Infinite => "::gpui_form::infinite_select::to_select_items",
        CascadeKind::Tuple => "gpui_form_component::tuple_enum_to_select_items",
    }
}

fn child_uses_source(k: CascadeKind) -> (r: &'static str)
    ensures
        r@ == child_uses(k),
{
    match k {
        CascadeKind::Infinite => "::gpui_form::infinite_select::{InfiniteSelect, InfiniteSelectItem}",
        CascadeKind::Tuple => "gpui_form_component::{TupleEnumInner, TupleSelectItem}",
    }
}

fn path_type_source(k: CascadeKind) -> (r: &'static str)
    ensures
        r@ == path_type(k),
{
    match k {
        CascadeKind::Infinite => "::gpui_form::infinite_select::InfiniteSelectPath",
        CascadeKind::Tuple => "gpui_form_component::TupleSelectPath",
    }
}

fn select_state_source(k: CascadeKind, ty: &str, searchable: bool) -> (r: String)
    ensures
        r@ == select_state_type(k, ty@, searchable),
{
    let mut out = String::from_str("::gpui_component::select::SelectState<");
    if searchable {
        out.append("::gpui_component::select::SearchableVec");
    } else {
        out.append("Vec");
    }
    out.append("<");
    out.append(item_path_source(k));
    out.append("<");
    out.append(ty);
    out.append(">>>");
    out
}

fn cascade_structure_source(k: CascadeKind, name: &str, ty: &str, searchable: bool) -> (r: String)
    ensures
        r@ == cascade_structure_text(k, name@, ty@, searchable),
{
    let state = select_state_source(k, ty, searchable);
    let mut out = String::from_str("/// The master select for choosing the top-level variant\npub ");
    out.append(name);
    out.append("_master_select: ::gpui::Entity<");
    out.append(state.as_str());
    out.append(">,\n/// The dynamic list of child selects for nested variants\npub ");
    out.append(name);
    out.append("_child_selects: Vec<::gpui::Entity<");
    out.append(state.as_str());
    out.append(">>,\n/// The selection path tracking all levels of the hierarchy\npub ");
    out.append(name);
    out.append("_path: ");
    out.append(path_type_source(k));
    out.append(",\n");
    out
}

fn child_loop_source(k: CascadeKind, ty: &str) -> (r: String)
    ensures
        r@ == child_loop_text(k, ty@),
{
    let item = item_name_source(k);
    let mut out = String::from_str(
        "let mut current_value = parent.clone();\nlet mut selects = Vec::new();\nfor level in start_level..(max_depth - 1) {\nlet (child_names, has_more) = if level == 0 {\n(current_value.child_variant_names(), current_value.has_inner())\n} else {\n(current_value.inner_child_variant_names(), current_value.inner_has_inner())\n};\nif !has_more || child_names.is_empty() {\nbreak;\n}\nlet items: Vec<",
    );
    out.append(item);
    out.append("<");
    out.append(ty);
    out.append(
        ">> = child_names\n.iter()\n.enumerate()\n.filter_map(|(idx, name)| {\nlet variant = if level == 0 {\ncurrent_value.set_child_by_index(idx)\n} else {\ncurrent_value.inner_set_child_by_index(idx)\n};\nvariant.map(|v| ",
    );
    out.append(item);
    out.append(
        "::new(v, name.to_string()))\n})\n.collect();\nif items.is_empty() {\nbreak;\n}\nlet selected_index = Some(IndexPath {\nsection: 0,\nrow: 0,\ncolumn: 0,\n});\nlet child_select = cx.new(|cx| SelectState::new(items.clone(), selected_index, window, cx));\nselects.push(child_select);\nif let Some(first_item) = items.first() {\ncurrent_value = first_item.get_value().clone();\n} else {\nbreak;\n}\n}\nselects\n",
    );
    out
}

fn cascade_declarations_source(
    k: CascadeKind,
    name: &str,
    ty: &str,
    searchable: bool,
    index: &str,
    max_depth: &str,
) -> (r: String)
    ensures
        r@ == cascade_declarations_text(k, name@, ty@, searchable, index@, max_depth@),
{
    let state = select_state_source(k, ty, searchable);
    let lp = child_loop_source(k, ty);
    let mut out = String::from_str(
        "/// Initialize the master select for the enum's outer variants\npub fn ",
    );
    out.append(name);
    out.append("_master_select(window: &mut ::gpui::Window, cx: &mut ::gpui::Context<'_, ");
    out.append(state.as_str());
    out.append(">) -> ");
    out.append(state.as_str());
    out.append(" {\nlet items: Vec<");
    out.append(item_path_source(k));
    out.append("<");
    out.append(ty);
    out.append(">> =\n");
    out.append(items_fn_source(k));
    out.append("::<");
    out.append(ty);
    out.append(">();\n::gpui_component::select::SelectState::new(items.into(), ");
    out.append(index);
    out.append(
        ", window, cx)\n}\n/// Get the child variant names for a given parent value.\npub fn ",
    );
    out.append(name);
    out.append("_path(parent: &");
    out.append(ty);
    out.append(") -> Vec<&'static str> {\nuse ");
    out.append(trait_path_source(k));
    out.append(
        " as _;\nparent.child_variant_names()\n}\n/// Rebuilds the child selects for a given parent value.\npub fn ",
    );
    out.append(name);
    out.append("_child_selects<V>(\nparent: &");
    out.append(ty);
    out.append(
        ",\nstart_level: usize,\nwindow: &mut ::gpui::Window,\ncx: &mut ::gpui::Context<V>\n) -> Vec<::gpui::Entity<",
    );
    out.append(state.as_str());
    out.append(">>\nwhere V: 'static\n{\nuse ");
    out.append(child_uses_source(k));
    out.append(
        ";\nuse ::gpui_component::select::SelectState;\nuse ::gpui_component::IndexPath;\nuse ::gpui::AppContext;\nlet max_depth = ",
    );
    out.append(max_depth);
    out.append(";\n");
    out.append(lp.as_str());
    out.append("}\n");
    out
}

impl InfiniteSelectComponent {
    /// The cascade's entity fields and builder functions, over the enum
    /// type of the field.
    pub fn field_source(&self) -> (r: ComponentFieldSource)
        ensures
            r.structure@ == cascade_structure_text(
                CascadeKind::Infinite,
                self.0.name@,
                self.0.field_type@,
                self.0.options.spec_behaviour().searchable,
            ),
            r.declarations@ == cascade_declarations_text(
                CascadeKind::Infinite,
                self.0.name@,
                self.0.field_type@,
                self.0.options.spec_behaviour().searchable,
                infinite_index_text(self.0.field_type@, self.0.options.spec_field_default()),
                infinite_max_depth_text(self.0.field_type@, self.0.options.spec_behaviour().max_depth),
            ),
    {
        let info = &self.0;
        let ty = info.field_type.as_str();
        let behaviour = info.options.behaviour_options();
        let searchable = behaviour.searchable;
        let structure = cascade_structure_source(CascadeKind::Infinite, info.name.as_str(), ty, searchable);
        let index = match info.options.named_index() {
            Some(d) => {
                let mut out = String::from_str("{\nlet __gpui_form_default = ");
                out.append(d.as_str());
                out.append(";\nSome(\n::gpui_component::IndexPath::new(\n<");
                out.append(ty);
                out.append(
                    " as ::gpui_form::infinite_select::InfiniteSelect>::variants()\n.iter()\n.position(|x| x.variant_name() == __gpui_form_default.variant_name())\n.unwrap()\n)\n)\n}",
                );
                out
            },
            None => String::from_str("Some(::gpui_component::IndexPath::new(0))"),
        };
        let max_depth = match behaviour.max_depth {
            Some(m) => {
                let digits = decimal_text(m);
                let mut out = String::from_str("::core::cmp::max(\n1usize,\n::core::cmp::min(\n<");
                out.append(ty);
                out.append(" as InfiniteSelect>::depth(),\n");
                out.append(digits.as_str());
                out.append("usize\n)\n)");
                out
            },
            None => {
                let mut out = String::from_str("<");
                out.append(ty);
                out.append(" as InfiniteSelect>::depth()");
                out
            },
        };
        let declarations = cascade_declarations_source(
            CascadeKind::Infinite,
            info.name.as_str(),
            ty,
            searchable,
            index.as_str(),
            max_depth.as_str(),
        );
        ComponentFieldSource { structure, declarations }
    }
}

impl TupleSelectComponent {
    /// The cascade's entity fields and builder functions; the child selects
    /// expand to the enum's full depth.
    pub fn field_source(&self) -> (r: ComponentFieldSource)
        ensures
            r.structure@ == cascade_structure_text(
                CascadeKind::Tuple,
                self.name@,
                self.field_type@,
                self.searchable,
            ),
            r.declarations@ == cascade_declarations_text(
                CascadeKind::Tuple,
                self.name@,
                self.field_type@,
                self.searchable,
                tuple_index_text(
                    self.field_type@,
                    match self.named_index {
                        Some(p) => Some(p@),
                        None => None,
                    },
                    self.index_default,
                ),
                "<"@ + self.field_type@ + " as TupleEnumInner>::depth()"@,
            ),
    {
        let ty = self.field_type.as_str();
        let structure = cascade_structure_source(CascadeKind::Tuple, self.name.as_str(), ty, self.searchable);
        let index = match &self.named_index {
            Some(p) => {
                let mut out = String::from_str("Some(\n::gpui_component::IndexPath::new(\n<");
                out.append(ty);
                out.append(
                    " as gpui_form_component::TupleEnumInner>::variants()\n.iter()\n.position(|x| x.variant_name() == ",
                );
                out.append(p.as_str());
                out.append(".variant_name())\n.unwrap()\n)\n)");
                out
            },
            None => if self.index_default {
                String::from_str("Some(::gpui_component::IndexPath::new(0))")
            } else {
                String::from_str("None")
            },
        };
        let mut max_depth = String::from_str("<");
        max_depth.append(ty);
        max_depth.append(" as TupleEnumInner>::depth()");
        let declarations = cascade_declarations_source(
            CascadeKind::Tuple,
            self.name.as_str(),
            ty,
            self.searchable,
            index.as_str(),
            max_depth.as_str(),
        );
        ComponentFieldSource { structure, declarations }
    }
}

/// A select over the variants of a plain enum.
pub struct SelectComponent(pub FieldInformation<SelectOptions>);

/// The state type of a select over `ty`.
pub open spec fn plain_select_state(ty: Seq<char>, searchable: bool) -> Seq<char> {
    "::gpui_component::select::SelectState<"@ + (if searchable {
        "::gpui_component::select::SearchableVec"@
    } else {
        "Vec"@
    }) + "<"@ + ty + ">>"@
}

/// The struct field of a select: a select-state entity.
pub open spec fn select_structure_text(name: Seq<char>, ty: Seq<char>, searchable: bool) -> Seq<char> {
    "pub "@ + name + ": ::gpui::Entity<"@ + plain_select_state(ty, searchable) + ">,\n"@
}

/// The first selected row of a select: the row equal to the field default,
/// else the row of the enum's `Default` value.
pub open spec fn select_index_text(ty: Seq<char>, field_default: Option<String>) -> Seq<char> {
    match field_default {
        Some(d) => "{\nlet __gpui_form_default = "@ + d@ + ";\nSome(\n::gpui_component::IndexPath::new(\n"@
            + ty + "::iter()\n.position(|x| x == __gpui_form_default)\n.unwrap()\n)\n)\n}"@,
        None => "Some(\n::gpui_component::IndexPath::new(\n"@ + ty + "::iter()\n.position(|x| x == "@ + ty
            + "::default())\n.unwrap()\n)\n)"@,
    }
}

/// The builder function of a select over all the enum's variants; a
/// partial select has none (the form author writes it).
pub open spec fn select_declarations_text(
    name: Seq<char>,
    ty: Seq<char>,
    behaviour: BehaviourSelectOptions,
    field_default: Option<String>,
) -> Seq<char> {
    if behaviour.partial {
        Seq::empty()
    } else {
        let state = plain_select_state(ty, behaviour.searchable);
        "pub fn "@ + name + "(window: &mut ::gpui::Window, cx: &mut ::gpui::Context<'_, "@ + state
            + ">) -> "@ + state
            + " {\nuse strum::IntoEnumIterator as _;\n::gpui_component::select::SelectState::new("@ + ty
            + "::iter().collect::<Vec<"@ + ty + ">>().into(), "@ + select_index_text(ty, field_default)
            + ", window, cx)\n}\n"@
    }
}

fn plain_select_state_source(ty: &str, searchable: bool) -> (r: String)
    ensures
        r@ == plain_select_state(ty@, searchable),
{
    let mut out = String::from_str("::gpui_component::select::SelectState<");
    if searchable {
        out.append("::gpui_component::select::SearchableVec");
    } else {
        out.append("Vec");
    }
    out.append("<");
    out.append(ty);
    out.append(">>");
    out
}

impl SelectComponent {
    /// The select's entity field and, unless partial, its builder function.
    pub fn field_source(&self) -> (r: ComponentFieldSource)
        ensures
            r.structure@ == select_structure_text(
                self.0.name@,
                self.0.field_type@,
                self.0.options.spec_behaviour().searchable,
            ),
            r.declarations@ == select_declarations_text(
                self.0.name@,
                self.0.field_type@,
                self.0.options.spec_behaviour(),
                self.0.options.spec_field_default(),
            ),
    {
        let info = &self.0;
        let ty = info.field_type.as_str();
        let behaviour = info.options.behaviour_options();
        let state = plain_select_state_source(ty, behaviour.searchable);
        let mut structure = String::from_str("pub ");
        structure.append(info.name.as_str());
        structure.append(": ::gpui::Entity<");
        structure.append(state.as_str());
        structure.append(">,\n");
        if behaviour.partial {
            return ComponentFieldSource { structure, declarations: String::new() };
        }
        let index = match info.options.named_index() {
            Some(d) => {
                let mut out = String::from_str("{\nlet __gpui_form_default = ");
                out.append(d.as_str());
                out.append(";\nSome(\n::gpui_component::IndexPath::new(\n");
                out.append(ty);
                out.append("::iter()\n.position(|x| x == __gpui_form_default)\n.unwrap()\n)\n)\n}");
                out
            },
            None => {
                let mut out = String::from_str("Some(\n::gpui_component::IndexPath::new(\n");
                out.append(ty);
                out.append("::iter()\n.position(|x| x == ");
                out.append(ty);
                out.append("::default())\n.unwrap()\n)\n)");
                out
            },
        };
        let mut declarations = String::from_str("pub fn ");
        declarations.append(info.name.as_str());
        declarations.append("(window: &mut ::gpui::Window, cx: &mut ::gpui::Context<'_, ");
        declarations.append(state.as_str());
        declarations.append(">) -> ");
        declarations.append(state.as_str());
        declarations.append(
            " {\nuse strum::IntoEnumIterator as _;\n::gpui_component::select::SelectState::new(",
        );
        declarations.append(ty);
        declarations.append("::iter().collect::<Vec<");
        declarations.append(ty);
        declarations.append(">>().into(), ");
        declarations.append(index.as_str());
        declarations.append(", window, cx)\n}\n");
        ComponentFieldSource { structure, declarations }
    }
}

/// The field default a select starts on: the default expression when it is
/// a path (such as `Country::France`), else none.
pub open spec fn default_path(f: DeriveField) -> Option<String> {
    match f.default_text {
        Some(d) => if parses_as_path(d@) {
            Some(d)
        } else {
            None
        },
        None => None,
    }
}

/// The struct fields and builder functions of a field's component over its
/// type named `ty`: nothing for a field without a component; the templates
/// of number inputs, selects and cascading selects; `None` for the other
/// components, whose templates this library does not hold.
pub open spec fn component_field_text(f: DeriveField, ty: Seq<char>) -> Option<(Seq<char>, Seq<char>)> {
    let name = f.name@;
    match f.component {
        None => Some((Seq::empty(), Seq::empty())),
        Some(Components::NumberInput(o)) => Some(
            (
                number_input_structure_text(name),
                number_input_declarations_text(name, ty, number_check_of(o, ty)),
            ),
        ),
        Some(Components::Select(o)) => Some(
            (
                select_structure_text(name, ty, o.spec_behaviour().searchable),
                select_declarations_text(name, ty, o.spec_behaviour(), default_path(f)),
            ),
        ),
        Some(Components::InfiniteSelect(o)) => Some(
            (
                cascade_structure_text(CascadeKind::Infinite, name, ty, o.spec_behaviour().searchable),
                cascade_declarations_text(
                    CascadeKind::Infinite,
                    name,
                    ty,
                    o.spec_behaviour().searchable,
                    infinite_index_text(ty, default_path(f)),
                    infinite_max_depth_text(ty, o.spec_behaviour().max_depth),
                ),
            ),
        ),
        Some(_) => None,
    }
}

/// What a field contributes to the components struct: its name, whether the
/// value holder wraps it in `Option`, and its component's source, where the
/// library holds the component's template.
pub struct ComponentFieldContent {
    pub field_name: String,
    pub wrap_in_option: bool,
    pub source: Option<ComponentFieldSource>,
}

fn default_path_source(f: &DeriveField) -> (r: Option<String>)
    ensures
        r == default_path(*f),
{
    match &f.default_text {
        Some(d) => if is_rust_path(d.as_str()) {
            Some(d.clone())
        } else {
            None
        },
        None => None,
    }
}

/// The component source of a field (see `component_field_text`). `ty` is
/// the last segment of the field's type path (the `type = ..` override's
/// when there is one), looked through an outer `Option`, as the caller's
/// parser reads it.
pub fn component_field_source(field: &DeriveField, ty: &str) -> (r: ComponentFieldContent)
    ensures
        r.field_name@ == field.name@,
        r.wrap_in_option == match field.component {
            Some(c) => c is Input || c is NumberInput,
            None => false,
        },
        match component_field_text(*field, ty@) {
            Some((s, d)) => r.source matches Some(src) && src.structure@ == s && src.declarations@
                == d,
            None => r.source is None,
        },
{
    let field_name = field.name.clone();
    let (wrap_in_option, source) = match &field.component {
        None => (false, Some(ComponentFieldSource { structure: String::new(), declarations: String::new() })),
        Some(c) => {
            let wrap = c.wraps_in_option();
            let source = match c {
                Components::NumberInput(o) => {
                    let options = NumberInputOptions {
                        as_type: match &o.as_type {
                            Some(t) => Some(t.clone()),
                            None => None,
                        },
                    };
                    let component = NumberInputComponent(
                        FieldInformation::new(options, field.name.clone(), String::from_str(ty)),
                    );
                    Some(component.field_source())
                },
                Components::Select(o) => {
                    let d = default_path_source(field);
                    let options = SelectOptions::from_behaviour(o.behaviour_options())
                        .with_field_default(d);
                    let component = SelectComponent(
                        FieldInformation::new(options, field.name.clone(), String::from_str(ty)),
                    );
                    Some(component.field_source())
                },
                Components::InfiniteSelect(o) => {
                    let d = default_path_source(field);
                    let options = InfiniteSelectOptions::from_behaviour(o.behaviour_options())
                        .with_field_default(d);
                    let component = InfiniteSelectComponent(
                        FieldInformation::new(options, field.name.clone(), String::from_str(ty)),
                    );
                    Some(component.field_source())
                },
                _ => None,
            };
            (wrap, source)
        },
    };
    ComponentFieldContent { field_name, wrap_in_option, source }
}

} // verus!
