//! Decisions of the `InfiniteSelect` derive: which variants of an enum take
//! part in the tree, how each one holds its child, which variants are
//! refused (with the message the derive reports), and whether the enum's
//! label and description come from fluent.

use vstd::prelude::*;

use crate::text::{push_char, str_eq};

verus! {

/// The decimal digit for `d < 10`.
pub open spec fn digit_char(d: nat) -> char {
    if d == 0 {
        '0'
    } else if d == 1 {
        '1'
    } else if d == 2 {
        '2'
    } else if d == 3 {
        '3'
    } else if d == 4 {
        '4'
    } else if d == 5 {
        '5'
    } else if d == 6 {
        '6'
    } else if d == 7 {
        '7'
    } else if d == 8 {
        '8'
    } else {
        '9'
    }
}

/// The decimal text of a number, as `Display` writes an unsigned integer.
pub open spec fn decimal(n: nat) -> Seq<char>
    decreases n,
{
    if n < 10 {
        seq![digit_char(n)]
    } else {
        decimal(n / 10).push(digit_char(n % 10))
    }
}

/// The decimal digit character of `d < 10`.
fn digit(d: usize) -> (c: char)
    requires
        d < 10,
    ensures
        c == digit_char(d as nat),
{
    match d {
        0 => '0',
        1 => '1',
        2 => '2',
        3 => '3',
        4 => '4',
        5 => '5',
        6 => '6',
        7 => '7',
        8 => '8',
        _ => '9',
    }
}

/// Writes a number in decimal.
pub fn decimal_text(n: usize) -> (r: String)
    ensures
        r@ == decimal(n as nat),
    decreases n,
{
    if n < 10 {
        let mut out = String::new();
        push_char(&mut out, digit(n));
        assert(out@ =~= decimal(n as nat));
        out
    } else {
        let mut out = decimal_text(n / 10);
        push_char(&mut out, digit(n % 10));
        out
    }
}

/// How a variant writes its fields.
#[derive(Clone, Copy, Debug, PartialEq, Eq, Structural)]
pub enum FieldsStyle {
    /// `Variant`
    Unit,
    /// `Variant(A, ..)`
    Tuple,
    /// `Variant { a: A, .. }`
    Struct,
}

/// A variant as the derive reads it from the enum.
#[derive(Clone, Debug, PartialEq, Eq)]
pub struct VariantDecl {
    /// The variant's name.
    pub name: String,
    /// How it writes its fields.
    pub style: FieldsStyle,
    /// How many fields it has.
    pub field_count: usize,
    /// The name of its first field (struct variants only).
    pub first_field_name: Option<String>,
    /// The type of its first field as written (empty for a variant without
    /// fields).
    pub inner_type: String,
    /// Whether it is marked `skip`.
    pub skip: bool,
}

/// How a variant of the tree holds its child.
#[derive(Clone, Debug, PartialEq, Eq)]
pub struct VariantInfo {
    /// The position of the variant among the declared variants.
    pub index: usize,
    /// Whether it holds no child.
    pub is_unit: bool,
    /// For a struct variant, the name of the field holding the child.
    pub field_name: Option<String>,
}

/// What the derive makes of one declared variant: `None` when it holds no
/// child, `Some(field name)` when it wraps one (no name for a tuple variant),
/// or the text of the error it reports when the variant has more than one
/// field.
pub open spec fn variant_outcome(d: VariantDecl) -> Result<Option<Option<Seq<char>>>, Seq<char>> {
    match d.style {
        FieldsStyle::Unit => Ok(None),
        FieldsStyle::Tuple => if d.field_count == 0 {
            Ok(None)
        } else if d.field_count == 1 {
            Ok(Some(None))
        } else {
            Err(
                "InfiniteSelect only supports single-element tuple variants for tree construction, got "@
                    + decimal(d.field_count as nat) + " elements in variant `"@ + d.name@ + "`"@,
            )
        },
        FieldsStyle::Struct => if d.field_count == 0 {
            Ok(None)
        } else if d.field_count == 1 {
            Ok(Some(Some(d.first_field_name->0@)))
        } else {
            Err(
                "InfiniteSelect only supports single-field struct variants for tree construction, got "@
                    + decimal(d.field_count as nat) + " fields in variant `"@ + d.name@ + "`"@,
            )
        },
    }
}

/// Whether a variant's info matches what the derive makes of it.
pub open spec fn info_matches(info: VariantInfo, i: int, d: VariantDecl) -> bool {
    &&& info.index == i
    &&& match variant_outcome(d) {
        Ok(None) => info.is_unit && info.field_name is None,
        Ok(Some(name)) => !info.is_unit && match (info.field_name, name) {
            (Some(f), Some(n)) => f@ == n,
            (None, None) => true,
            _ => false,
        },
        Err(_) => false,
    }
}

/// The error of the first non-skipped variant, from position `i` on, that
/// the derive refuses.
pub open spec fn first_variant_error(decls: Seq<VariantDecl>, i: int) -> Option<Seq<char>>
    decreases decls.len() - i,
{
    if i < 0 || i >= decls.len() {
        None
    } else if !decls[i].skip && variant_outcome(decls[i]) is Err {
        Some(variant_outcome(decls[i])->Err_0)
    } else {
        first_variant_error(decls, i + 1)
    }
}

/// The positions of the non-skipped variants among the first `n`.
pub open spec fn kept_positions(decls: Seq<VariantDecl>, n: nat) -> Seq<int>
    decreases n,
{
    if n == 0 {
        Seq::empty()
    } else {
        let prev = kept_positions(decls, (n - 1) as nat);
        if decls[n - 1].skip {
            prev
        } else {
            prev.push(n - 1)
        }
    }
}

/// Whether a struct variant with one field names it, as every struct field
/// of a Rust enum does.
pub open spec fn fields_named(decls: Seq<VariantDecl>) -> bool {
    forall|i: int|
        0 <= i < decls.len() && (#[trigger] decls[i]).style == FieldsStyle::Struct
            && decls[i].field_count == 1 ==> decls[i].first_field_name is Some
}

/// What the derive makes of one variant.
fn classify_variant(index: usize, d: &VariantDecl) -> (r: Result<VariantInfo, String>)
    requires
        d.style == FieldsStyle::Struct && d.field_count == 1 ==> d.first_field_name is Some,
    ensures
        match r {
            Ok(info) => info_matches(info, index as int, *d),
            Err(e) => variant_outcome(*d) == Err::<Option<Option<Seq<char>>>, Seq<char>>(e@),
        },
{
    match d.style {
        FieldsStyle::Unit => Ok(VariantInfo { index, is_unit: true, field_name: None }),
        FieldsStyle::Tuple => {
            if d.field_count == 0 {
                Ok(VariantInfo { index, is_unit: true, field_name: None })
            } else if d.field_count == 1 {
                Ok(VariantInfo { index, is_unit: false, field_name: None })
            } else {
                let mut e = String::from_str(
                    "InfiniteSelect only supports single-element tuple variants for tree construction, got ",
                );
                let count = decimal_text(d.field_count);
                e.append(count.as_str());
                e.append(" elements in variant `");
                e.append(d.name.as_str());
                e.append("`");
                Err(e)
            }
        },
        FieldsStyle::Struct => {
            if d.field_count == 0 {
                Ok(VariantInfo { index, is_unit: true, field_name: None })
            } else if d.field_count == 1 {
                let name = match &d.first_field_name {
                    Some(n) => n.clone(),
                    None => String::new(),
                };
                Ok(VariantInfo { index, is_unit: false, field_name: Some(name) })
            } else {
                let mut e = String::from_str(
                    "InfiniteSelect only supports single-field struct variants for tree construction, got ",
                );
                let count = decimal_text(d.field_count);
                e.append(count.as_str());
                e.append(" fields in variant `");
                e.append(d.name.as_str());
                e.append("`");
                Err(e)
            }
        },
    }
}

/// The variants that take part in the tree, in order, skipping those marked
/// `skip`; fails with the message for the first refused variant.
pub fn tree_variants(decls: &Vec<VariantDecl>) -> (r: Result<Vec<VariantInfo>, String>)
    requires
        fields_named(decls@),
    ensures
        match r {
            Ok(infos) => {
                &&& first_variant_error(decls@, 0) is None
                &&& infos@.len() == kept_positions(decls@, decls@.len()).len()
                &&& forall|k: int|
                    0 <= k < infos@.len() ==> info_matches(
                        #[trigger] infos@[k],
                        kept_positions(decls@, decls@.len())[k],
                        decls@[kept_positions(decls@, decls@.len())[k]],
                    )
            },
            Err(e) => first_variant_error(decls@, 0) == Some(e@),
        },
{
    let mut out: Vec<VariantInfo> = Vec::new();
    let mut i: usize = 0;
    while i < decls.len()
        invariant
            fields_named(decls@),
            i <= decls@.len(),
            first_variant_error(decls@, 0) == first_variant_error(decls@, i as int),
            out@.len() == kept_positions(decls@, i as nat).len(),
            forall|k: int|
                0 <= k < out@.len() ==> info_matches(
                    #[trigger] out@[k],
                    kept_positions(decls@, i as nat)[k],
                    decls@[kept_positions(decls@, i as nat)[k]],
                ),
        decreases decls@.len() - i,
    {
        let d = &decls[i];
        let ghost before = out@;
        if !d.skip {
            assert(decls@[i as int] == *d);
            match classify_variant(i, d) {
                Ok(info) => {
                    out.push(info);
                },
                Err(e) => {
                    return Err(e);
                },
            }
        }
        proof {
            let kp = kept_positions(decls@, i as nat);
            assert(kept_positions(decls@, (i + 1) as nat) == if decls@[i as int].skip {
                kp
            } else {
                kp.push(i as int)
            });
            if !d.skip {
                assert forall|k: int| 0 <= k < out@.len() implies info_matches(
                    #[trigger] out@[k],
                    kept_positions(decls@, (i + 1) as nat)[k],
                    decls@[kept_positions(decls@, (i + 1) as nat)[k]],
                ) by {
                    if k < before.len() {
                        assert(out@[k] == before[k]);
                    }
                }
            }
        }
        i = i + 1;
    }
    Ok(out)
}

/// Whether every variant of the tree holds no child.
pub fn all_unit(infos: &Vec<VariantInfo>) -> (r: bool)
    ensures
        r == forall|k: int| 0 <= k < infos@.len() ==> (#[trigger] infos@[k]).is_unit,
{
    let mut i: usize = 0;
    while i < infos.len()
        invariant
            i <= infos@.len(),
            forall|k: int| 0 <= k < i ==> (#[trigger] infos@[k]).is_unit,
        decreases infos@.len() - i,
    {
        if !infos[i].is_unit {
            return false;
        }
        i = i + 1;
    }
    true
}

/// Where the enum's label and description texts come from: fluent messages
/// when its `fluent_kv` attribute lists the key and sets `keys_this`, its
/// own name otherwise.
#[derive(Clone, Copy, Debug, PartialEq, Eq)]
pub struct FluentTexts {
    pub label_from_fluent: bool,
    pub description_from_fluent: bool,
}

/// Whether a key list holds `key`.
pub open spec fn lists_key(keys: Seq<String>, key: Seq<char>) -> bool {
    exists|k: int| 0 <= k < keys.len() && (#[trigger] keys[k])@ == key
}

/// Decides where the label and description come from, given the string
/// keys of the `fluent_kv(keys = [...])` attribute and whether it sets
/// `keys_this`.
pub fn fluent_texts(keys: &Vec<String>, keys_this: bool) -> (r: FluentTexts)
    ensures
        r.label_from_fluent == (keys_this && lists_key(keys@, "label"@)),
        r.description_from_fluent == (keys_this && lists_key(keys@, "description"@)),
{
    let mut has_label = false;
    let mut has_description = false;
    let mut i: usize = 0;
    while i < keys.len()
        invariant
            i <= keys@.len(),
            has_label == exists|k: int| 0 <= k < i && (#[trigger] keys@[k])@ == "label"@,
            has_description == exists|k: int|
                0 <= k < i && (#[trigger] keys@[k])@ == "description"@,
        decreases keys@.len() - i,
    {
        if str_eq(keys[i].as_str(), "label") {
            has_label = true;
        }
        if str_eq(keys[i].as_str(), "description") {
            has_description = true;
        }
        i = i + 1;
    }
    FluentTexts {
        label_from_fluent: has_label && keys_this,
        description_from_fluent: has_description && keys_this,
    }
}

} // verus!
