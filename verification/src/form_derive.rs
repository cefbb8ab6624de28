//! Decisions of the form derive: which fields are refused together, which
//! value-holder fields are wrapped in `Option` and need a `required` check,
//! whether koruma validation is switched on, and the validation rules each
//! field records in the form's shape.

use vstd::prelude::*;

use crate::components::{Components, ComponentsBehaviour};
use crate::schema::layout::FieldLayout;
use crate::text::str_eq;

verus! {

/// What koruma reports of a field's validation attributes.
#[derive(Clone, Debug)]
pub struct FieldValidation {
    /// The names of the field's validators, in order.
    pub validators: Vec<String>,
    /// How many validators apply to the field's elements.
    pub element_validators: usize,
    /// Whether the field is a validated newtype.
    pub is_newtype: bool,
    /// Whether the field is validated as a nested form.
    pub is_nested: bool,
    /// The validators as written: the field's own, then its elements'.
    pub attrs: Vec<ValidatorAttr>,
}

/// A koruma validator as written in a field attribute: its path, whether
/// its type parameter is inferred or given, and its named arguments (each
/// an expression as written).
#[derive(Clone, Debug)]
pub struct ValidatorAttr {
    pub path: String,
    pub infer_type: bool,
    pub explicit_type: Option<String>,
    pub args: Vec<(String, String)>,
}

/// A field of the struct the form derive reads.
#[derive(Clone, Debug)]
pub struct DeriveField {
    /// The field's name.
    pub name: String,
    /// Whether it is marked `skip` (a `skip` on a field that names a
    /// component is ignored, see `is_skipped`).
    pub skip: bool,
    /// The component named in its attribute, if any.
    pub component: Option<Components>,
    /// Whether its type is `Option<..>`.
    pub was_optional: bool,
    /// Its type as written, with an outer `Option<..>` removed.
    pub type_text: String,
    /// The last segment of its type path (the override's when there is
    /// one), looked through an outer `Option<..>`, as the parser reads it:
    /// the type its component is built over.
    pub type_ident: String,
    /// The `type = ..` override of its attribute, with an outer `Option<..>`
    /// removed, if any.
    pub override_type_text: Option<String>,
    /// Its default expression as written, if any.
    pub default_text: Option<String>,
    /// Its layout hints (section, label, description, placeholder, width).
    pub layout: FieldLayout,
    /// Whether it has a `from = ...` conversion.
    pub has_from: bool,
    /// Whether it has a default expression.
    pub has_default: bool,
    /// Its koruma validation, when koruma recognised the field.
    pub validation: Option<FieldValidation>,
}

/// The view of a field's validation: validator names, element validator
/// count, newtype and nested flags.
pub open spec fn validation_view(v: Option<FieldValidation>) -> (Seq<Seq<char>>, nat, bool, bool) {
    match v {
        Some(v) => (
            v.validators@.map_values(|s: String| s@),
            v.element_validators as nat,
            v.is_newtype,
            v.is_nested,
        ),
        None => (Seq::empty(), 0, false, false),
    }
}

/// Whether the field is left out of the form: it is marked `skip` and names
/// no component (a component keeps the field in).
pub open spec fn is_skipped(f: DeriveField) -> bool {
    f.skip && f.component is None
}

/// Whether a field is left out of the form (see `is_skipped`).
fn field_is_skipped(f: &DeriveField) -> (r: bool)
    ensures
        r == is_skipped(*f),
{
    f.skip && f.component.is_none()
}

/// Whether the value holder wraps the field in `Option`: a field with a
/// text-based component that is not skipped.
pub open spec fn wraps(f: DeriveField) -> bool {
    &&& !is_skipped(f)
    &&& f.component matches Some(c) && (c is Input || c is NumberInput)
}

/// Whether the field needs a `required` check: it is wrapped in `Option`
/// only by the form (its own type is not optional) and is neither a
/// validated newtype nor a nested form.
pub open spec fn needs_required(f: DeriveField) -> bool {
    &&& wraps(f)
    &&& !f.was_optional
    &&& !validation_view(f.validation).2
    &&& !validation_view(f.validation).3
}

/// Whether a field that takes part carries koruma validations of its own.
pub open spec fn has_own_validations(f: DeriveField) -> bool {
    &&& !is_skipped(f)
    &&& {
        let v = validation_view(f.validation);
        v.0.len() > 0 || v.1 > 0 || v.3
    }
}

/// Whether some field has the property.
pub open spec fn some_field(fields: Seq<DeriveField>, p: spec_fn(DeriveField) -> bool) -> bool {
    exists|i: int| 0 <= i < fields.len() && p(#[trigger] fields[i])
}

/// Whether koruma validation is switched on: the struct asks for it, koruma
/// recognised some field, or some field needs a `required` check while some
/// field carries validations of its own.
pub open spec fn koruma_enabled(koruma_attr: bool, fields: Seq<DeriveField>) -> bool {
    ||| koruma_attr
    ||| some_field(fields, |f: DeriveField| f.validation is Some)
    ||| (some_field(fields, |f: DeriveField| needs_required(f)) && some_field(
        fields,
        |f: DeriveField| has_own_validations(f),
    ))
}

/// Whether the value holder derives `Koruma`: whenever koruma validation
/// is switched on, even when no field carries a validator.
pub open spec fn koruma_derive(koruma_attr: bool, fields: Seq<DeriveField>) -> bool {
    koruma_enabled(koruma_attr, fields)
}

/// The validation rules a field records: its validator names, then
/// `NewtypeValidation` and `NestedValidation` when they apply, with
/// `RequiredValidation` put first when the field needs a `required` check
/// and does not list it already.
pub open spec fn validation_rules(f: DeriveField) -> Seq<Seq<char>> {
    let v = validation_view(f.validation);
    let with_newtype = if v.2 {
        v.0.push("NewtypeValidation"@)
    } else {
        v.0
    };
    let base = if v.3 {
        with_newtype.push("NestedValidation"@)
    } else {
        with_newtype
    };
    if needs_required(f) && !base.contains("RequiredValidation"@) {
        seq!["RequiredValidation"@] + base
    } else {
        base
    }
}

/// The error the derive reports for a struct that is not marked empty: a
/// struct without fields has to be marked empty. (Skipped fields do not
/// conflict with `from` conversions: the conversion from the original
/// struct is still generated.)
pub open spec fn derive_error(struct_name: Seq<char>, fields: Seq<DeriveField>) -> Option<Seq<char>> {
    if fields.len() == 0 {
        Some(
            "Struct `"@ + struct_name
                + "` has no fields. Add `#[gpui_form(empty)]` attribute to explicitly mark it as an empty form."@,
        )
    } else {
        None
    }
}

/// The names of the skipped fields, in order.
pub open spec fn skipped_names(fields: Seq<DeriveField>) -> Seq<Seq<char>> {
    fields.filter(|f: DeriveField| is_skipped(f)).map_values(|f: DeriveField| f.name@)
}

/// What the derive records of one field.
#[derive(Clone, Debug, PartialEq, Eq)]
pub struct FieldPlan {
    /// Whether the value holder wraps it in `Option`.
    pub wrap_in_option: bool,
    /// Whether it needs a `required` check.
    pub requires_required: bool,
    /// Whether it appears in the form's shape (kept, with a component).
    pub in_shape: bool,
    /// The validation rules recorded in the shape.
    pub validation_rules: Vec<String>,
    /// The value type recorded in the shape: the override's when there is
    /// one, else the field's own (an outer `Option` removed either way).
    pub shape_type: String,
    /// Whether the shape records the field as optional (its own type is
    /// `Option<..>`).
    pub shape_optional: bool,
    /// The default expression recorded in the shape.
    pub shape_default: Option<String>,
    /// The behaviour recorded in the shape, for a field with a component.
    pub behaviour: Option<ComponentsBehaviour>,
    /// The layout hints recorded in the shape, for a field in the shape.
    pub shape_layout: Option<FieldLayout>,
}

/// What the derive generates for a struct, beyond the code itself.
#[derive(Clone, Debug, PartialEq, Eq)]
pub struct FormDerivePlan {
    /// Whether koruma validation is switched on.
    pub koruma_enabled: bool,
    /// Whether the value holder derives `Koruma`.
    pub koruma_derive: bool,
    /// Whether `From<Holder>` for the original struct is generated: only
    /// when no field is skipped. (`From<Original>` for the holder, with the
    /// fields' `from` conversions, is generated in every case.)
    pub original_from_holder: bool,
    /// The skipped fields, in order: `into_original` takes their values.
    pub skipped_fields: Vec<String>,
    /// Whether the value holder derives `Default` (no field has a default
    /// expression of its own).
    pub derive_default: bool,
    /// One plan per field, in order.
    pub fields: Vec<FieldPlan>,
}

/// Whether a field plan is what the derive records of `f`.
pub open spec fn field_plan_matches(p: FieldPlan, f: DeriveField) -> bool {
    &&& p.wrap_in_option == wraps(f)
    &&& p.requires_required == needs_required(f)
    &&& p.in_shape == (!is_skipped(f) && f.component is Some)
    &&& p.validation_rules@.map_values(|s: String| s@) == validation_rules(f)
    &&& p.shape_type@ == match f.override_type_text {
        Some(t) => t@,
        None => f.type_text@,
    }
    &&& p.shape_optional == f.was_optional
    &&& p.shape_default.deep_view() == f.default_text.deep_view()
    &&& p.behaviour == match f.component {
        Some(c) => Some(c.spec_behaviour()),
        None => None,
    }
    &&& p.shape_layout == if !is_skipped(f) && f.component is Some {
        Some(f.layout)
    } else {
        None
    }
}

/// Whether a field is wrapped in `Option` (see `wraps`).
pub(crate) fn field_wraps(f: &DeriveField) -> (r: bool)
    ensures
        r == wraps(*f),
{
    if field_is_skipped(f) {
        return false;
    }
    match &f.component {
        Some(c) => c.wraps_in_option(),
        None => false,
    }
}

/// Whether a field needs a `required` check (see `needs_required`).
pub(crate) fn field_needs_required(f: &DeriveField) -> (r: bool)
    ensures
        r == needs_required(*f),
{
    let (newtype, nested) = match &f.validation {
        Some(v) => (v.is_newtype, v.is_nested),
        None => (false, false),
    };
    field_wraps(f) && !f.was_optional && !newtype && !nested
}

/// Whether a field carries validations of its own (see
/// `has_own_validations`).
fn field_has_own_validations(f: &DeriveField) -> (r: bool)
    ensures
        r == has_own_validations(*f),
{
    if field_is_skipped(f) {
        return false;
    }
    match &f.validation {
        Some(v) => v.validators.len() > 0 || v.element_validators > 0 || v.is_nested,
        None => false,
    }
}

/// Copies a list of texts.
fn copy_texts(v: &Vec<String>) -> (r: Vec<String>)
    ensures
        r@.map_values(|s: String| s@) == v@.map_values(|s: String| s@),
{
    let mut out: Vec<String> = Vec::new();
    let mut i: usize = 0;
    while i < v.len()
        invariant
            i <= v@.len(),
            out@.map_values(|s: String| s@) == v@.subrange(0, i as int).map_values(
                |s: String| s@,
            ),
        decreases v@.len() - i,
    {
        let ghost before = out@;
        let c = v[i].clone();
        out.push(c);
        proof {
            let pre = v@.subrange(0, i as int);
            assert(v@.subrange(0, i + 1) =~= pre.push(v@[i as int]));
            assert(pre.push(v@[i as int]).map_values(|s: String| s@) =~= pre.map_values(
                |s: String| s@,
            ).push(v@[i as int]@));
            assert(out@ =~= before.push(c));
            assert(before.push(c).map_values(|s: String| s@) =~= before.map_values(
                |s: String| s@,
            ).push(c@));
        }
        i = i + 1;
    }
    assert(v@.subrange(0, v@.len() as int) =~= v@);
    out
}

/// Whether a list of texts holds `t`.
fn lists_text(v: &Vec<String>, t: &str) -> (r: bool)
    ensures
        r == v@.map_values(|s: String| s@).contains(t@),
{
    let ghost views = v@.map_values(|s: String| s@);
    let mut i: usize = 0;
    while i < v.len()
        invariant
            i <= v@.len(),
            views == v@.map_values(|s: String| s@),
            forall|k: int| 0 <= k < i ==> views[k] != t@,
        decreases v@.len() - i,
    {
        if str_eq(v[i].as_str(), t) {
            assert(views[i as int] == t@);
            return true;
        }
        i = i + 1;
    }
    false
}

/// The validation rules a field records (see `validation_rules`).
pub fn field_validation_rules(f: &DeriveField) -> (r: Vec<String>)
    ensures
        r@.map_values(|s: String| s@) == validation_rules(*f),
{
    let mut base: Vec<String> = match &f.validation {
        Some(v) => copy_texts(&v.validators),
        None => Vec::new(),
    };
    let ghost v = validation_view(f.validation);
    assert(base@.map_values(|s: String| s@) =~= v.0);
    let (newtype, nested) = match &f.validation {
        Some(v) => (v.is_newtype, v.is_nested),
        None => (false, false),
    };
    if newtype {
        let ghost before = base@;
        base.push(String::from_str("NewtypeValidation"));
        assert(base@.map_values(|s: String| s@) =~= before.map_values(|s: String| s@).push(
            "NewtypeValidation"@,
        ));
    }
    if nested {
        let ghost before = base@;
        base.push(String::from_str("NestedValidation"));
        assert(base@.map_values(|s: String| s@) =~= before.map_values(|s: String| s@).push(
            "NestedValidation"@,
        ));
    }
    if field_needs_required(f) && !lists_text(&base, "RequiredValidation") {
        let ghost before = base@;
        base.insert(0, String::from_str("RequiredValidation"));
        assert(base@.map_values(|s: String| s@) =~= seq!["RequiredValidation"@]
            + before.map_values(|s: String| s@));
    }
    base
}

/// Checks a struct that is not marked empty (see `derive_error`).
pub fn check_derive_fields(struct_name: &str, fields: &Vec<DeriveField>) -> (r: Result<(), String>)
    ensures
        match r {
            Ok(()) => derive_error(struct_name@, fields@) is None,
            Err(e) => derive_error(struct_name@, fields@) == Some(e@),
        },
{
    if fields.len() == 0 {
        let mut e = String::from_str("Struct `");
        e.append(struct_name);
        e.append(
            "` has no fields. Add `#[gpui_form(empty)]` attribute to explicitly mark it as an empty form.",
        );
        return Err(e);
    }
    Ok(())
}

/// The names of the skipped fields, in order, and whether there is one.
fn skipped_field_names(fields: &Vec<DeriveField>) -> (r: Vec<String>)
    ensures
        r@.map_values(|s: String| s@) == skipped_names(fields@),
        (r@.len() == 0) == !some_field(fields@, |f: DeriveField| is_skipped(f)),
{
    let ghost p = |f: DeriveField| is_skipped(f);
    let mut out: Vec<String> = Vec::new();
    let mut i: usize = 0;
    while i < fields.len()
        invariant
            i <= fields@.len(),
            p == (|f: DeriveField| is_skipped(f)),
            out@.map_values(|s: String| s@) == fields@.subrange(0, i as int).filter(p).map_values(
                |f: DeriveField| f.name@,
            ),
            (out@.len() == 0) == !some_field(fields@.subrange(0, i as int), p),
        decreases fields@.len() - i,
    {
        let f = &fields[i];
        let ghost pre = fields@.subrange(0, i as int);
        let ghost next = fields@.subrange(0, i + 1);
        let ghost before = out@;
        proof {
            assert(next =~= pre.push(*f));
            pre.lemma_filter_push(*f, p);
        }
        if field_is_skipped(f) {
            let name = f.name.clone();
            out.push(name);
            proof {
                assert(next.filter(p) == pre.filter(p).push(*f));
                assert(pre.filter(p).push(*f).map_values(|f: DeriveField| f.name@)
                    =~= pre.filter(p).map_values(|f: DeriveField| f.name@).push(f.name@));
                assert(out@.map_values(|s: String| s@) =~= before.map_values(|s: String| s@).push(
                    name@,
                ));
                assert(next[i as int] == *f);
            }
        } else {
            proof {
                assert(next.filter(p) == pre.filter(p));
                if some_field(next, p) {
                    let j = choose|j: int| 0 <= j < next.len() && p(#[trigger] next[j]);
                    assert(pre[j] == next[j]);
                }
                if some_field(pre, p) {
                    let j = choose|j: int| 0 <= j < pre.len() && p(#[trigger] pre[j]);
                    assert(next[j] == pre[j]);
                }
            }
        }
        i = i + 1;
    }
    assert(fields@.subrange(0, fields@.len() as int) =~= fields@);
    out
}

/// Plans what the derive records for the fields of a struct, given
/// whether the struct carries a `koruma` attribute.
pub fn plan_form_derive(koruma_attr: bool, fields: &Vec<DeriveField>) -> (r: FormDerivePlan)
    ensures
        r.koruma_enabled == koruma_enabled(koruma_attr, fields@),
        r.koruma_derive == koruma_derive(koruma_attr, fields@),
        r.original_from_holder == !some_field(fields@, |f: DeriveField| is_skipped(f)),
        r.skipped_fields@.map_values(|s: String| s@) == skipped_names(fields@),
        r.derive_default == !some_field(fields@, |f: DeriveField| f.has_default),
        r.fields@.len() == fields@.len(),
        forall|i: int| 0 <= i < fields@.len() ==> field_plan_matches(#[trigger] r.fields@[i], fields@[i]),
{
    let ghost recognised = |f: DeriveField| f.validation is Some;
    let ghost required = |f: DeriveField| needs_required(f);
    let ghost own = |f: DeriveField| has_own_validations(f);
    let ghost defaulted = |f: DeriveField| f.has_default;
    let mut some_recognised = false;
    let mut some_required = false;
    let mut some_own = false;
    let mut some_default = false;
    let mut plans: Vec<FieldPlan> = Vec::new();
    let mut i: usize = 0;
    while i < fields.len()
        invariant
            i <= fields@.len(),
            recognised == (|f: DeriveField| f.validation is Some),
            required == (|f: DeriveField| needs_required(f)),
            own == (|f: DeriveField| has_own_validations(f)),
            defaulted == (|f: DeriveField| f.has_default),
            some_recognised == some_field(fields@.subrange(0, i as int), recognised),
            some_required == some_field(fields@.subrange(0, i as int), required),
            some_own == some_field(fields@.subrange(0, i as int), own),
            some_default == some_field(fields@.subrange(0, i as int), defaulted),
            plans@.len() == i,
            forall|k: int| 0 <= k < i ==> field_plan_matches(#[trigger] plans@[k], fields@[k]),
        decreases fields@.len() - i,
    {
        let f = &fields[i];
        let ghost pre = fields@.subrange(0, i as int);
        let ghost next = fields@.subrange(0, i + 1);
        assert(next =~= pre.push(*f));
        let wrap = field_wraps(f);
        let required_here = field_needs_required(f);
        let own_here = field_has_own_validations(f);
        let recognised_here = f.validation.is_some();
        proof {
            assert(some_field(next, recognised) == (some_field(pre, recognised) || recognised(*f))) by {
                if recognised(*f) {
                    assert(next[i as int] == *f);
                }
                if some_field(next, recognised) && !recognised(*f) {
                    let j = choose|j: int| 0 <= j < next.len() && recognised(#[trigger] next[j]);
                    assert(pre[j] == next[j]);
                }
                if some_field(pre, recognised) {
                    let j = choose|j: int| 0 <= j < pre.len() && recognised(#[trigger] pre[j]);
                    assert(next[j] == pre[j]);
                }
            }
            assert(some_field(next, required) == (some_field(pre, required) || required(*f))) by {
                if required(*f) {
                    assert(next[i as int] == *f);
                }
                if some_field(next, required) && !required(*f) {
                    let j = choose|j: int| 0 <= j < next.len() && required(#[trigger] next[j]);
                    assert(pre[j] == next[j]);
                }
                if some_field(pre, required) {
                    let j = choose|j: int| 0 <= j < pre.len() && required(#[trigger] pre[j]);
                    assert(next[j] == pre[j]);
                }
            }
            assert(some_field(next, own) == (some_field(pre, own) || own(*f))) by {
                if own(*f) {
                    assert(next[i as int] == *f);
                }
                if some_field(next, own) && !own(*f) {
                    let j = choose|j: int| 0 <= j < next.len() && own(#[trigger] next[j]);
                    assert(pre[j] == next[j]);
                }
                if some_field(pre, own) {
                    let j = choose|j: int| 0 <= j < pre.len() && own(#[trigger] pre[j]);
                    assert(next[j] == pre[j]);
                }
            }
            assert(some_field(next, defaulted) == (some_field(pre, defaulted) || defaulted(*f)))
                by {
                if defaulted(*f) {
                    assert(next[i as int] == *f);
                }
                if some_field(next, defaulted) && !defaulted(*f) {
                    let j = choose|j: int| 0 <= j < next.len() && defaulted(#[trigger] next[j]);
                    assert(pre[j] == next[j]);
                }
                if some_field(pre, defaulted) {
                    let j = choose|j: int| 0 <= j < pre.len() && defaulted(#[trigger] pre[j]);
                    assert(next[j] == pre[j]);
                }
            }
        }
        some_recognised = some_recognised || recognised_here;
        some_required = some_required || required_here;
        some_own = some_own || own_here;
        some_default = some_default || f.has_default;
        let rules = field_validation_rules(f);
        let shape_type = match &f.override_type_text {
            Some(t) => t.clone(),
            None => f.type_text.clone(),
        };
        let shape_default = match &f.default_text {
            Some(d) => Some(d.clone()),
            None => None,
        };
        let behaviour = match &f.component {
            Some(c) => Some(c.behaviour()),
            None => None,
        };
        plans.push(
            FieldPlan {
                wrap_in_option: wrap,
                requires_required: required_here,
                in_shape: !field_is_skipped(f) && f.component.is_some(),
                validation_rules: rules,
                shape_type,
                shape_optional: f.was_optional,
                shape_default,
                behaviour,
                shape_layout: if !field_is_skipped(f) && f.component.is_some() {
                    Some(f.layout)
                } else {
                    None
                },
            },
        );
        i = i + 1;
    }
    assert(fields@.subrange(0, fields@.len() as int) =~= fields@);
    let enabled = koruma_attr || some_recognised || (some_required && some_own);
    let skipped = skipped_field_names(fields);
    FormDerivePlan {
        koruma_enabled: enabled,
        koruma_derive: enabled,
        original_from_holder: skipped.len() == 0,
        skipped_fields: skipped,
        derive_default: !some_default,
        fields: plans,
    }
}

/// A skipped field is left out of everything: it is not wrapped in
/// `Option` and needs no `required` check; a field that needs one records
/// the `RequiredValidation` rule.
pub proof fn lemma_skipped_and_required_fields(f: DeriveField)
    ensures
        is_skipped(f) ==> !wraps(f) && !needs_required(f) && !has_own_validations(f),
        needs_required(f) ==> validation_rules(f).contains("RequiredValidation"@),
{
    if needs_required(f) {
        let v = validation_view(f.validation);
        let with_newtype = if v.2 {
            v.0.push("NewtypeValidation"@)
        } else {
            v.0
        };
        let base = if v.3 {
            with_newtype.push("NestedValidation"@)
        } else {
            with_newtype
        };
        if !base.contains("RequiredValidation"@) {
            assert((seq!["RequiredValidation"@] + base)[0] == "RequiredValidation"@);
        }
    }
}

} // verus!
