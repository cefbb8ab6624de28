//! The source text of the `InfiniteSelect` impl that the derive writes for
//! an enum: one match arm per variant that takes part in the tree, for each
//! method of the trait.

use vstd::prelude::*;

use crate::infinite_select_derive::{
    first_variant_error, fields_named, variant_outcome, FieldsStyle, FluentTexts, VariantDecl,
};
use crate::text::joined;

verus! {

/// Whether the variant holds no child (see `variant_outcome`).
pub open spec fn holds_no_child(d: VariantDecl) -> bool {
    variant_outcome(d) matches Ok(None)
}

/// The name of the field holding the variant's child, for a struct variant.
pub open spec fn child_field(d: VariantDecl) -> Option<Seq<char>> {
    match variant_outcome(d) {
        Ok(Some(Some(f))) => Some(f),
        _ => None,
    }
}

/// The variant written with `value` in its child's place: `Self::N`,
/// `Self::N(value)` or `Self::N { field: value }`. With `_` it is the
/// pattern that ignores the child, with `inner` the one that binds it.
pub open spec fn shape_text(d: VariantDecl, value: Seq<char>) -> Seq<char> {
    if holds_no_child(d) {
        "Self::"@ + d.name@
    } else {
        match child_field(d) {
            Some(f) => "Self::"@ + d.name@ + " { "@ + f + ": "@ + value + " }"@,
            None => "Self::"@ + d.name@ + "("@ + value + ")"@,
        }
    }
}

/// The child type as the trait: `<T as ...::InfiniteSelect>`.
pub open spec fn inner_as(d: VariantDecl) -> Seq<char> {
    "<"@ + d.inner_type@ + " as gpui_form_component::infinite_select::InfiniteSelect>"@
}

/// The methods whose bodies match on the variants.
#[derive(Clone, Copy, Debug, PartialEq, Eq, Structural)]
pub enum ArmKind {
    VariantItem,
    VariantName,
    HasInner,
    ChildVariantNames,
    SetChildByIndex,
    SetChildByPath,
    ChildDepth,
    InnerChildVariantNames,
    InnerSetChildByIndex,
    InnerHasInner,
    InnerChildLabel,
    InnerChildDescription,
    ChildLabel,
    ChildDescription,
}

/// The text of the arm (or, for `VariantItem`, the list entry) that a
/// method has for a variant.
pub open spec fn arm_text(d: VariantDecl, k: ArmKind) -> Seq<char> {
    let ignore = shape_text(d, "_"@);
    let bind = shape_text(d, "inner"@);
    let leaf = holds_no_child(d);
    match k {
        ArmKind::VariantItem => shape_text(d, "Default::default()"@) + ",\n"@,
        ArmKind::VariantName => ignore + " => \""@ + d.name@ + "\",\n"@,
        ArmKind::HasInner => if leaf {
            ignore + " => false,\n"@
        } else {
            ignore + " => true,\n"@
        },
        ArmKind::ChildVariantNames => if leaf {
            ignore + " => vec![],\n"@
        } else {
            ignore + " => "@ + inner_as(d)
                + "::variants().into_iter().map(|v| v.variant_name()).collect(),\n"@
        },
        ArmKind::SetChildByIndex => if leaf {
            ignore + " => None,\n"@
        } else {
            ignore + " => {\nlet children = "@ + inner_as(d)
                + "::variants();\nchildren.get(index).map(|child| "@ + shape_text(
                d,
                "child.clone()"@,
            ) + ")\n}\n"@
        },
        ArmKind::SetChildByPath => if leaf {
            ignore + " => None,\n"@
        } else {
            ignore + " => {\nif path.is_empty() {\nreturn None;\n}\nlet children = "@ + inner_as(d)
                + "::variants();\nlet child = children.get(path[0])?.clone();\nif path.len() == 1 {\nSome("@
                + shape_text(d, "child"@)
                + ")\n} else {\nlet updated_child = child.set_child_by_path(&path[1..])?;\nSome("@
                + shape_text(d, "updated_child"@) + ")\n}\n}\n"@
        },
        ArmKind::ChildDepth => if leaf {
            ignore + " => 0,\n"@
        } else {
            ignore + " => "@ + inner_as(d) + "::depth(),\n"@
        },
        ArmKind::InnerChildVariantNames => if leaf {
            ignore + " => vec![],\n"@
        } else {
            bind + " => inner.child_variant_names(),\n"@
        },
        ArmKind::InnerSetChildByIndex => if leaf {
            ignore + " => None,\n"@
        } else {
            bind + " => inner.set_child_by_index(index).map(|new_inner| "@ + shape_text(
                d,
                "new_inner"@,
            ) + "),\n"@
        },
        ArmKind::InnerHasInner => if leaf {
            ignore + " => false,\n"@
        } else {
            bind + " => inner.has_inner(),\n"@
        },
        ArmKind::InnerChildLabel => if leaf {
            ignore + " => None,\n"@
        } else {
            bind + " => inner.child_label_at_depth(depth),\n"@
        },
        ArmKind::InnerChildDescription => if leaf {
            ignore + " => None,\n"@
        } else {
            bind + " => inner.child_description_at_depth(depth),\n"@
        },
        ArmKind::ChildLabel => if leaf {
            ignore + " => None,\n"@
        } else {
            bind + " => Some(inner.type_label()),\n"@
        },
        ArmKind::ChildDescription => if leaf {
            ignore + " => None,\n"@
        } else {
            bind + " => Some(inner.type_description()),\n"@
        },
    }
}

/// The arms of one method over the variants that take part (those not
/// marked `skip`), in order.
pub open spec fn arms_text(ds: Seq<VariantDecl>, k: ArmKind) -> Seq<char>
    decreases ds.len(),
{
    if ds.len() == 0 {
        Seq::empty()
    } else if ds.last().skip {
        arms_text(ds.drop_last(), k)
    } else {
        arms_text(ds.drop_last(), k) + arm_text(ds.last(), k)
    }
}

/// The depth terms of the variants that hold a child, in order.
pub open spec fn depth_terms(ds: Seq<VariantDecl>) -> Seq<Seq<char>>
    decreases ds.len(),
{
    if ds.len() == 0 {
        Seq::empty()
    } else if ds.last().skip || holds_no_child(ds.last()) {
        depth_terms(ds.drop_last())
    } else {
        depth_terms(ds.drop_last()).push(inner_as(ds.last()) + "::depth()"@)
    }
}

/// The body of `depth()`: `1` when no variant holds a child, else one more
/// than the deepest child type.
pub open spec fn depth_text(ds: Seq<VariantDecl>) -> Seq<char> {
    if depth_terms(ds).len() == 0 {
        "1"@
    } else {
        "1 + ["@ + joined(depth_terms(ds), ", "@) + "].into_iter().max().unwrap_or(0)"@
    }
}

/// The body of `type_label()` (`is_label`) or `type_description()`: the
/// fluent message of the enum when it comes from fluent, else its name.
pub open spec fn type_text_body(enum_name: Seq<char>, from_fluent: bool, is_label: bool) -> Seq<char> {
    if from_fluent {
        "use es_fluent::ThisFtl as _;\n"@ + enum_name + (if is_label {
            "LabelVariants"@
        } else {
            "DescriptionVariants"@
        }) + "::this_ftl().into()"@
    } else {
        "stringify!("@ + enum_name + ").into()"@
    }
}

/// A method whose body is a match over `self` with the given arms.
pub open spec fn match_method(header: Seq<char>, arms: Seq<char>) -> Seq<char> {
    header + " {\nmatch self {\n"@ + arms + "}\n}\n"@
}

/// The whole impl block the derive writes for an enum.
pub open spec fn impl_text(enum_name: Seq<char>, ds: Seq<VariantDecl>, texts: FluentTexts) -> Seq<
    char,
> {
    "impl gpui_form_component::infinite_select::InfiniteSelect for "@ + enum_name + " {\n"@
        + "fn variants() -> Vec<Self> {\nvec![\n"@ + arms_text(ds, ArmKind::VariantItem) + "]\n}\n"@
        + match_method("fn variant_name(&self) -> &'static str"@, arms_text(ds, ArmKind::VariantName))
        + match_method("fn has_inner(&self) -> bool"@, arms_text(ds, ArmKind::HasInner))
        + match_method(
        "fn child_variant_names(&self) -> Vec<&'static str>"@,
        arms_text(ds, ArmKind::ChildVariantNames),
    ) + match_method(
        "fn set_child_by_index(&self, index: usize) -> Option<Self>"@,
        arms_text(ds, ArmKind::SetChildByIndex),
    ) + match_method(
        "fn set_child_by_path(&self, path: &[usize]) -> Option<Self>"@,
        arms_text(ds, ArmKind::SetChildByPath),
    ) + match_method("fn child_depth(&self) -> usize"@, arms_text(ds, ArmKind::ChildDepth))
        + "fn depth() -> usize {\n"@ + depth_text(ds) + "\n}\n"@ + match_method(
        "fn inner_child_variant_names(&self) -> Vec<&'static str>"@,
        arms_text(ds, ArmKind::InnerChildVariantNames),
    ) + match_method(
        "fn inner_set_child_by_index(&self, index: usize) -> Option<Self>"@,
        arms_text(ds, ArmKind::InnerSetChildByIndex),
    ) + match_method("fn inner_has_inner(&self) -> bool"@, arms_text(ds, ArmKind::InnerHasInner))
        + "fn type_label(&self) -> gpui::SharedString {\n"@ + type_text_body(
        enum_name,
        texts.label_from_fluent,
        true,
    ) + "\n}\n"@ + "fn type_description(&self) -> gpui::SharedString {\n"@ + type_text_body(
        enum_name,
        texts.description_from_fluent,
        false,
    ) + "\n}\n"@ + match_method(
        "fn inner_child_label_at_depth(&self, depth: usize) -> Option<gpui::SharedString>"@,
        arms_text(ds, ArmKind::InnerChildLabel),
    ) + match_method(
        "fn inner_child_description_at_depth(&self, depth: usize) -> Option<gpui::SharedString>"@,
        arms_text(ds, ArmKind::InnerChildDescription),
    ) + "fn child_label_at_depth(&self, depth: usize) -> Option<gpui::SharedString> {\nif depth == 0 {\nmatch self {\n"@
        + arms_text(ds, ArmKind::ChildLabel)
        + "}\n} else {\nself.inner_child_label_at_depth(depth - 1)\n}\n}\n"@
        + "fn child_description_at_depth(&self, depth: usize) -> Option<gpui::SharedString> {\nif depth == 0 {\nmatch self {\n"@
        + arms_text(ds, ArmKind::ChildDescription)
        + "}\n} else {\nself.inner_child_description_at_depth(depth - 1)\n}\n}\n"@ + "}\n"@
}

/// Whether a variant's outcome is accepted.
pub open spec fn accepted(d: VariantDecl) -> bool {
    d.skip || variant_outcome(d) is Ok
}

/// With no error among the variants, every variant is skipped or accepted.
proof fn lemma_no_error_all_accepted(ds: Seq<VariantDecl>, i: int)
    requires
        0 <= i,
        first_variant_error(ds, i) is None,
    ensures
        forall|j: int| i <= j < ds.len() ==> accepted(#[trigger] ds[j]),
    decreases ds.len() - i,
{
    if i < ds.len() {
        lemma_no_error_all_accepted(ds, i + 1);
    }
}

/// Writes the variant with `value` in its child's place (see `shape_text`).
fn shape_source(d: &VariantDecl, value: &str) -> (r: String)
    requires
        variant_outcome(*d) is Ok,
        d.style == FieldsStyle::Struct && d.field_count == 1 ==> d.first_field_name is Some,
    ensures
        r@ == shape_text(*d, value@),
{
    let mut out = String::from_str("Self::");
    out.append(d.name.as_str());
    let leaf = match d.style {
        FieldsStyle::Unit => true,
        _ => d.field_count == 0,
    };
    if leaf {
        return out;
    }
    let named = match d.style {
        FieldsStyle::Struct => true,
        _ => false,
    };
    if named {
        match &d.first_field_name {
            Some(f) => {
                out.append(" { ");
                out.append(f.as_str());
                out.append(": ");
                out.append(value);
                out.append(" }");
            },
            None => {},
        }
    } else {
        out.append("(");
        out.append(value);
        out.append(")");
    }
    out
}

/// `<T as ...::InfiniteSelect>` for the variant's child type.
fn inner_as_source(d: &VariantDecl) -> (r: String)
    ensures
        r@ == inner_as(*d),
{
    let mut out = String::from_str("<");
    out.append(d.inner_type.as_str());
    out.append(" as gpui_form_component::infinite_select::InfiniteSelect>");
    out
}

/// Writes the arm a method has for a variant (see `arm_text`).
fn arm_source(d: &VariantDecl, k: ArmKind) -> (r: String)
    requires
        variant_outcome(*d) is Ok,
        d.style == FieldsStyle::Struct && d.field_count == 1 ==> d.first_field_name is Some,
    ensures
        r@ == arm_text(*d, k),
{
    let leaf = match d.style {
        FieldsStyle::Unit => true,
        _ => d.field_count == 0,
    };
    assert(leaf == holds_no_child(*d));
    let ignore = shape_source(d, "_");
    let bind = shape_source(d, "inner");
    let mut out = String::new();
    match k {
        ArmKind::VariantItem => {
            let item = shape_source(d, "Default::default()");
            out.append(item.as_str());
            out.append(",\n");
        },
        ArmKind::VariantName => {
            out.append(ignore.as_str());
            out.append(" => \"");
            out.append(d.name.as_str());
            out.append("\",\n");
        },
        ArmKind::HasInner => {
            out.append(ignore.as_str());
            if leaf {
                out.append(" => false,\n");
            } else {
                out.append(" => true,\n");
            }
        },
        ArmKind::ChildVariantNames => {
            out.append(ignore.as_str());
            if leaf {
                out.append(" => vec![],\n");
            } else {
                let t = inner_as_source(d);
                out.append(" => ");
                out.append(t.as_str());
                out.append("::variants().into_iter().map(|v| v.variant_name()).collect(),\n");
            }
        },
        ArmKind::SetChildByIndex => {
            out.append(ignore.as_str());
            if leaf {
                out.append(" => None,\n");
            } else {
                let t = inner_as_source(d);
                let c = shape_source(d, "child.clone()");
                out.append(" => {\nlet children = ");
                out.append(t.as_str());
                out.append("::variants();\nchildren.get(index).map(|child| ");
                out.append(c.as_str());
                out.append(")\n}\n");
            }
        },
        ArmKind::SetChildByPath => {
            out.append(ignore.as_str());
            if leaf {
                out.append(" => None,\n");
            } else {
                let t = inner_as_source(d);
                let c = shape_source(d, "child");
                let u = shape_source(d, "updated_child");
                out.append(" => {\nif path.is_empty() {\nreturn None;\n}\nlet children = ");
                out.append(t.as_str());
                out.append(
                    "::variants();\nlet child = children.get(path[0])?.clone();\nif path.len() == 1 {\nSome(",
                );
                out.append(c.as_str());
                out.append(")\n} else {\nlet updated_child = child.set_child_by_path(&path[1..])?;\nSome(");
                out.append(u.as_str());
                out.append(")\n}\n}\n");
            }
        },
        ArmKind::ChildDepth => {
            out.append(ignore.as_str());
            if leaf {
                out.append(" => 0,\n");
            } else {
                let t = inner_as_source(d);
                out.append(" => ");
                out.append(t.as_str());
                out.append("::depth(),\n");
            }
        },
        ArmKind::InnerChildVariantNames => {
            if leaf {
                out.append(ignore.as_str());
                out.append(" => vec![],\n");
            } else {
                out.append(bind.as_str());
                out.append(" => inner.child_variant_names(),\n");
            }
        },
        ArmKind::InnerSetChildByIndex => {
            if leaf {
                out.append(ignore.as_str());
                out.append(" => None,\n");
            } else {
                let c = shape_source(d, "new_inner");
                out.append(bind.as_str());
                out.append(" => inner.set_child_by_index(index).map(|new_inner| ");
                out.append(c.as_str());
                out.append("),\n");
            }
        },
        ArmKind::InnerHasInner => {
            if leaf {
                out.append(ignore.as_str());
                out.append(" => false,\n");
            } else {
                out.append(bind.as_str());
                out.append(" => inner.has_inner(),\n");
            }
        },
        ArmKind::InnerChildLabel => {
            if leaf {
                out.append(ignore.as_str());
                out.append(" => None,\n");
            } else {
                out.append(bind.as_str());
                out.append(" => inner.child_label_at_depth(depth),\n");
            }
        },
        ArmKind::InnerChildDescription => {
            if leaf {
                out.append(ignore.as_str());
                out.append(" => None,\n");
            } else {
                out.append(bind.as_str());
                out.append(" => inner.child_description_at_depth(depth),\n");
            }
        },
        ArmKind::ChildLabel => {
            if leaf {
                out.append(ignore.as_str());
                out.append(" => None,\n");
            } else {
                out.append(bind.as_str());
                out.append(" => Some(inner.type_label()),\n");
            }
        },
        ArmKind::ChildDescription => {
            if leaf {
                out.append(ignore.as_str());
                out.append(" => None,\n");
            } else {
                out.append(bind.as_str());
                out.append(" => Some(inner.type_description()),\n");
            }
        },
    }
    out
}

/// Writes a method's arms over the variants that take part.
fn arms_source(ds: &Vec<VariantDecl>, k: ArmKind) -> (r: String)
    requires
        fields_named(ds@),
        forall|j: int| 0 <= j < ds@.len() ==> accepted(#[trigger] ds@[j]),
    ensures
        r@ == arms_text(ds@, k),
{
    let mut out = String::new();
    let mut i: usize = 0;
    assert(ds@.subrange(0, 0) =~= Seq::<VariantDecl>::empty());
    while i < ds.len()
        invariant
            fields_named(ds@),
            forall|j: int| 0 <= j < ds@.len() ==> accepted(#[trigger] ds@[j]),
            i <= ds@.len(),
            out@ == arms_text(ds@.subrange(0, i as int), k),
        decreases ds@.len() - i,
    {
        let d = &ds[i];
        assert(ds@.subrange(0, i + 1).drop_last() =~= ds@.subrange(0, i as int));
        assert(ds@.subrange(0, i + 1).last() == *d);
        assert(accepted(ds@[i as int]));
        if !d.skip {
            let a = arm_source(d, k);
            out.append(a.as_str());
        }
        i = i + 1;
    }
    assert(ds@.subrange(0, ds@.len() as int) =~= ds@);
    out
}

/// Writes the body of `depth()` (see `depth_text`).
fn depth_source(ds: &Vec<VariantDecl>) -> (r: String)
    requires
        forall|j: int| 0 <= j < ds@.len() ==> accepted(#[trigger] ds@[j]),
    ensures
        r@ == depth_text(ds@),
{
    let mut terms = String::new();
    let mut count: usize = 0;
    let mut i: usize = 0;
    assert(ds@.subrange(0, 0) =~= Seq::<VariantDecl>::empty());
    while i < ds.len()
        invariant
            forall|j: int| 0 <= j < ds@.len() ==> accepted(#[trigger] ds@[j]),
            i <= ds@.len(),
            count <= i,
            count == depth_terms(ds@.subrange(0, i as int)).len(),
            terms@ == joined(depth_terms(ds@.subrange(0, i as int)), ", "@),
        decreases ds@.len() - i,
    {
        let d = &ds[i];
        let ghost pre = ds@.subrange(0, i as int);
        assert(ds@.subrange(0, i + 1).drop_last() =~= pre);
        assert(ds@.subrange(0, i + 1).last() == *d);
        let leaf = match d.style {
            FieldsStyle::Unit => true,
            _ => d.field_count == 0,
        };
        assert(accepted(ds@[i as int]));
        assert(d.skip || leaf == holds_no_child(*d));
        if !d.skip && !leaf {
            let t = inner_as_source(d);
            let ghost before = depth_terms(pre);
            if count > 0 {
                terms.append(", ");
            }
            terms.append(t.as_str());
            terms.append("::depth()");
            proof {
                let after = before.push(inner_as(*d) + "::depth()"@);
                assert(after.drop_last() =~= before);
                if before.len() == 0 {
                    assert(after =~= seq![inner_as(*d) + "::depth()"@]);
                }
            }
            count = count + 1;
        }
        i = i + 1;
    }
    assert(ds@.subrange(0, ds@.len() as int) =~= ds@);
    if count == 0 {
        String::from_str("1")
    } else {
        let mut out = String::from_str("1 + [");
        out.append(terms.as_str());
        out.append("].into_iter().max().unwrap_or(0)");
        out
    }
}

/// Writes the body of `type_label()` or `type_description()` (see
/// `type_text_body`).
fn type_text_source(enum_name: &str, from_fluent: bool, is_label: bool) -> (r: String)
    ensures
        r@ == type_text_body(enum_name@, from_fluent, is_label),
{
    if from_fluent {
        let mut out = String::from_str("use es_fluent::ThisFtl as _;\n");
        out.append(enum_name);
        if is_label {
            out.append("LabelVariants");
        } else {
            out.append("DescriptionVariants");
        }
        out.append("::this_ftl().into()");
        out
    } else {
        let mut out = String::from_str("stringify!(");
        out.append(enum_name);
        out.append(").into()");
        out
    }
}

/// Appends a method whose body matches on `self` (see `match_method`).
fn push_match_method(out: &mut String, header: &str, ds: &Vec<VariantDecl>, k: ArmKind)
    requires
        fields_named(ds@),
        forall|j: int| 0 <= j < ds@.len() ==> accepted(#[trigger] ds@[j]),
    ensures
        final(out)@ == old(out)@ + match_method(header@, arms_text(ds@, k)),
{
    let arms = arms_source(ds, k);
    out.append(header);
    out.append(" {\nmatch self {\n");
    out.append(arms.as_str());
    out.append("}\n}\n");
}

/// The source text of the `InfiniteSelect` impl the derive writes for an
/// enum with these variants and fluent settings; fails with the derive's
/// message for the first refused variant.
pub fn infinite_select_impl_source(
    enum_name: &str,
    decls: &Vec<VariantDecl>,
    texts: FluentTexts,
) -> (r: Result<String, String>)
    requires
        fields_named(decls@),
    ensures
        match r {
            Ok(t) => first_variant_error(decls@, 0) is None && t@ == impl_text(
                enum_name@,
                decls@,
                texts,
            ),
            Err(e) => first_variant_error(decls@, 0) == Some(e@),
        },
{
    match crate::infinite_select_derive::tree_variants(decls) {
        Err(e) => {
            return Err(e);
        },
        Ok(_) => {},
    }
    proof {
        lemma_no_error_all_accepted(decls@, 0);
    }
    let ds = decls;
    let mut out = String::from_str("impl gpui_form_component::infinite_select::InfiniteSelect for ");
    out.append(enum_name);
    out.append(" {\n");
    out.append("fn variants() -> Vec<Self> {\nvec![\n");
    let items = arms_source(ds, ArmKind::VariantItem);
    out.append(items.as_str());
    out.append("]\n}\n");
    push_match_method(&mut out, "fn variant_name(&self) -> &'static str", ds, ArmKind::VariantName);
    push_match_method(&mut out, "fn has_inner(&self) -> bool", ds, ArmKind::HasInner);
    push_match_method(
        &mut out,
        "fn child_variant_names(&self) -> Vec<&'static str>",
        ds,
        ArmKind::ChildVariantNames,
    );
    push_match_method(
        &mut out,
        "fn set_child_by_index(&self, index: usize) -> Option<Self>",
        ds,
        ArmKind::SetChildByIndex,
    );
    push_match_method(
        &mut out,
        "fn set_child_by_path(&self, path: &[usize]) -> Option<Self>",
        ds,
        ArmKind::SetChildByPath,
    );
    push_match_method(&mut out, "fn child_depth(&self) -> usize", ds, ArmKind::ChildDepth);
    let depth = depth_source(ds);
    out.append("fn depth() -> usize {\n");
    out.append(depth.as_str());
    out.append("\n}\n");
    push_match_method(
        &mut out,
        "fn inner_child_variant_names(&self) -> Vec<&'static str>",
        ds,
        ArmKind::InnerChildVariantNames,
    );
    push_match_method(
        &mut out,
        "fn inner_set_child_by_index(&self, index: usize) -> Option<Self>",
        ds,
        ArmKind::InnerSetChildByIndex,
    );
    push_match_method(&mut out, "fn inner_has_inner(&self) -> bool", ds, ArmKind::InnerHasInner);
    let label = type_text_source(enum_name, texts.label_from_fluent, true);
    out.append("fn type_label(&self) -> gpui::SharedString {\n");
    out.append(label.as_str());
    out.append("\n}\n");
    let description = type_text_source(enum_name, texts.description_from_fluent, false);
    out.append("fn type_description(&self) -> gpui::SharedString {\n");
    out.append(description.as_str());
    out.append("\n}\n");
    push_match_method(
        &mut out,
        "fn inner_child_label_at_depth(&self, depth: usize) -> Option<gpui::SharedString>",
        ds,
        ArmKind::InnerChildLabel,
    );
    push_match_method(
        &mut out,
        "fn inner_child_description_at_depth(&self, depth: usize) -> Option<gpui::SharedString>",
        ds,
        ArmKind::InnerChildDescription,
    );
    let child_label = arms_source(ds, ArmKind::ChildLabel);
    out.append(
        "fn child_label_at_depth(&self, depth: usize) -> Option<gpui::SharedString> {\nif depth == 0 {\nmatch self {\n",
    );
    out.append(child_label.as_str());
    out.append("}\n} else {\nself.inner_child_label_at_depth(depth - 1)\n}\n}\n");
    let child_description = arms_source(ds, ArmKind::ChildDescription);
    out.append(
        "fn child_description_at_depth(&self, depth: usize) -> Option<gpui::SharedString> {\nif depth == 0 {\nmatch self {\n",
    );
    out.append(child_description.as_str());
    out.append("}\n} else {\nself.inner_child_description_at_depth(depth - 1)\n}\n}\n");
    out.append("}\n");
    Ok(out)
}

} // verus!
