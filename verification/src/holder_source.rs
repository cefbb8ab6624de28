//! Source text of the value holder the form derive writes for a struct:
//! every field of the struct (skipped ones too, so that both conversions
//! are complete), text-input fields wrapped in `Option`, with their koruma
//! attributes; its `Default` impl and the `From` impls in both directions.

use vstd::prelude::*;

use crate::form_derive::{
    field_needs_required, field_wraps, needs_required, validation_view, wraps, DeriveField,
    ValidatorAttr,
};

verus! {

/// `name = expr` entries separated by `, `.
pub open spec fn args_text(args: Seq<(String, String)>) -> Seq<char>
    decreases args.len(),
{
    if args.len() == 0 {
        Seq::empty()
    } else if args.len() == 1 {
        args[0].0@ + " = "@ + args[0].1@
    } else {
        args_text(args.drop_last()) + ", "@ + args.last().0@ + " = "@ + args.last().1@
    }
}

/// A validator as the holder's attribute lists it:
/// `Path::<_>`, `Path::<T>` or `Path`, then `(name = expr, ..)` when it has
/// arguments.
pub open spec fn validator_text(v: ValidatorAttr) -> Seq<char> {
    v.path@ + (if v.infer_type {
        "::<_>"@
    } else {
        match v.explicit_type {
            Some(t) => "::<"@ + t@ + ">"@,
            None => Seq::empty(),
        }
    }) + (if v.args@.len() == 0 {
        Seq::empty()
    } else {
        "("@ + args_text(v.args@) + ")"@
    })
}

/// Validators separated by `, `.
pub open spec fn validators_text(vs: Seq<ValidatorAttr>) -> Seq<char>
    decreases vs.len(),
{
    if vs.len() == 0 {
        Seq::empty()
    } else if vs.len() == 1 {
        validator_text(vs[0])
    } else {
        validators_text(vs.drop_last()) + ", "@ + validator_text(vs.last())
    }
}

/// The newtype and nested flags of a field's validation.
pub open spec fn newtype_nested(f: DeriveField) -> (bool, bool) {
    match f.validation {
        Some(v) => (v.is_newtype, v.is_nested),
        None => (false, false),
    }
}

/// The validators a field carries as written (its own, then its elements').
pub open spec fn validator_attrs(f: DeriveField) -> Seq<ValidatorAttr> {
    match f.validation {
        Some(v) => v.attrs@,
        None => Seq::empty(),
    }
}

/// The koruma attributes the holder puts on a field: none without koruma, or when
/// the field needs no `required` check, has no validator and is no newtype;
/// else `#[koruma(newtype)]` and `#[koruma(nested)]` where they apply, then
/// one `#[koruma(..)]` listing the `required` check (where needed) and the
/// validators, when that list is not empty.
pub open spec fn holder_field_attrs(f: DeriveField, enable_koruma: bool) -> Seq<Seq<char>> {
    let validators = validator_attrs(f);
    let (newtype, nested) = newtype_nested(f);
    let required = needs_required(f);
    if !enable_koruma || !(required || validators.len() > 0 || newtype) {
        Seq::empty()
    } else {
        let flags = (if newtype {
            seq!["#[koruma(newtype)]"@]
        } else {
            Seq::empty()
        }) + (if nested {
            seq!["#[koruma(nested)]"@]
        } else {
            Seq::empty()
        });
        if !required && validators.len() == 0 {
            flags
        } else {
            flags.push(
                "#[koruma("@ + (if required {
                    "koruma_collection::general::RequiredValidation::<Option<_>>"@ + (if validators.len()
                        > 0 {
                        ", "@
                    } else {
                        Seq::empty()
                    })
                } else {
                    Seq::empty()
                }) + validators_text(validators) + ")]"@,
            )
        }
    }
}

fn args_source(args: &Vec<(String, String)>) -> (r: String)
    ensures
        r@ == args_text(args@),
{
    let mut out = String::new();
    let mut i: usize = 0;
    assert(args@.subrange(0, 0) =~= Seq::<(String, String)>::empty());
    while i < args.len()
        invariant
            i <= args@.len(),
            out@ == args_text(args@.subrange(0, i as int)),
        decreases args@.len() - i,
    {
        let ghost pre = args@.subrange(0, i as int);
        assert(args@.subrange(0, i + 1).drop_last() =~= pre);
        if i > 0 {
            out.append(", ");
        }
        out.append(args[i].0.as_str());
        out.append(" = ");
        out.append(args[i].1.as_str());
        i += 1;
    }
    assert(args@.subrange(0, args@.len() as int) =~= args@);
    out
}

/// The validator as the holder's attribute lists it (see `validator_text`).
pub fn validator_source(v: &ValidatorAttr) -> (r: String)
    ensures
        r@ == validator_text(*v),
{
    let mut out = v.path.clone();
    if v.infer_type {
        out.append("::<_>");
    } else {
        match &v.explicit_type {
            Some(t) => {
                out.append("::<");
                out.append(t.as_str());
                out.append(">");
            },
            None => {},
        }
    }
    if v.args.len() > 0 {
        let a = args_source(&v.args);
        out.append("(");
        out.append(a.as_str());
        out.append(")");
    }
    out
}

fn validators_source(vs: &Vec<ValidatorAttr>) -> (r: String)
    ensures
        r@ == validators_text(vs@),
{
    let mut out = String::new();
    let mut i: usize = 0;
    assert(vs@.subrange(0, 0) =~= Seq::<ValidatorAttr>::empty());
    while i < vs.len()
        invariant
            i <= vs@.len(),
            out@ == validators_text(vs@.subrange(0, i as int)),
        decreases vs@.len() - i,
    {
        let ghost pre = vs@.subrange(0, i as int);
        assert(vs@.subrange(0, i + 1).drop_last() =~= pre);
        let t = validator_source(&vs[i]);
        if i > 0 {
            out.append(", ");
        }
        out.append(t.as_str());
        i += 1;
    }
    assert(vs@.subrange(0, vs@.len() as int) =~= vs@);
    out
}

/// The koruma attributes of a holder field (see `holder_field_attrs`).
pub fn holder_field_attrs_source(field: &DeriveField, enable_koruma: bool) -> (r: Vec<String>)
    ensures
        r@.map_values(|s: String| s@) == holder_field_attrs(*field, enable_koruma),
{
    let empty: Vec<ValidatorAttr> = Vec::new();
    let validators = match &field.validation {
        Some(v) => &v.attrs,
        None => &empty,
    };
    assert(validators@ == validator_attrs(*field));
    let mut attrs: Vec<String> = Vec::new();
    let (newtype, nested) = match &field.validation {
        Some(v) => (v.is_newtype, v.is_nested),
        None => (false, false),
    };
    let required = field_needs_required(field);
    assert((newtype, nested) == newtype_nested(*field));
    if !enable_koruma || !(required || validators.len() > 0 || newtype) {
        assert(attrs@.map_values(|s: String| s@) =~= Seq::<Seq<char>>::empty());
        return attrs;
    }
    if newtype {
        attrs.push(String::from_str("#[koruma(newtype)]"));
    }
    if nested {
        attrs.push(String::from_str("#[koruma(nested)]"));
    }
    let ghost flags = attrs@.map_values(|s: String| s@);
    assert(flags =~= (if newtype {
        seq!["#[koruma(newtype)]"@]
    } else {
        Seq::empty()
    }) + (if nested {
        seq!["#[koruma(nested)]"@]
    } else {
        Seq::empty()
    }));
    if required || validators.len() > 0 {
        let mut item = String::from_str("#[koruma(");
        if required {
            item.append("koruma_collection::general::RequiredValidation::<Option<_>>");
            if validators.len() > 0 {
                item.append(", ");
            }
        }
        let ghost head = item@;
        assert(head == "#[koruma("@ + (if required {
            "koruma_collection::general::RequiredValidation::<Option<_>>"@ + (if validators.len() > 0 {
                ", "@
            } else {
                Seq::empty()
            })
        } else {
            Seq::empty()
        }));
        let listed = validators_source(validators);
        item.append(listed.as_str());
        item.append(")]");
        attrs.push(item);
        assert(attrs@.map_values(|s: String| s@) =~= flags.push(item@));
    } else {
        assert(attrs@.map_values(|s: String| s@) =~= flags);
    }
    attrs
}


/// Lines, each followed by a newline.
pub open spec fn lines_text(s: Seq<Seq<char>>) -> Seq<char>
    decreases s.len(),
{
    if s.len() == 0 {
        Seq::empty()
    } else {
        lines_text(s.drop_last()) + s.last() + "\n"@
    }
}

/// The field's type in the original struct.
pub open spec fn original_type_text(f: DeriveField) -> Seq<char> {
    if f.was_optional {
        "Option<"@ + f.type_text@ + ">"@
    } else {
        f.type_text@
    }
}

/// Whether only the holder wraps the field in `Option` (the original's
/// type is not optional).
pub open spec fn form_wrapped(f: DeriveField) -> bool {
    wraps(f) && !f.was_optional
}

/// A field of the holder struct: its koruma attributes, then the field,
/// typed `Option<inner>` when wrapped, else as in the original.
pub open spec fn holder_field_decl(f: DeriveField, enable_koruma: bool) -> Seq<char> {
    lines_text(holder_field_attrs(f, enable_koruma)) + "pub "@ + f.name@ + ": "@ + (if wraps(f) {
        "Option<"@ + f.type_text@ + ">"@
    } else {
        original_type_text(f)
    }) + ",\n"@
}

/// The holder's default value of a field: `None` for a wrapped field
/// (its default expression for a wrapped field that was optional
/// already), else its default expression or the type's default.
pub open spec fn holder_default_value(f: DeriveField) -> Seq<char> {
    if wraps(f) {
        if f.was_optional {
            match f.default_text {
                Some(d) => d@,
                None => "None"@,
            }
        } else {
            "None"@
        }
    } else {
        match f.default_text {
            Some(d) => d@,
            None => "Default::default()"@,
        }
    }
}

/// The holder's value of a field, from the original: a field only the
/// holder wraps is `None` when it equals its default (its default
/// expression, else the type's default), else `Some`; other fields move.
pub open spec fn from_original_value(f: DeriveField) -> Seq<char> {
    if form_wrapped(f) {
        "if from."@ + f.name@ + " == "@ + (match f.default_text {
            Some(d) => d@,
            None => "<"@ + f.type_text@ + " as Default>::default()"@,
        }) + " { None } else { Some(from."@ + f.name@ + ") }"@
    } else {
        "from."@ + f.name@
    }
}

/// The original's value of a field, from the holder: a field only the
/// holder wraps falls back to its default expression, else to the type's
/// default; other fields move.
pub open spec fn from_holder_value(f: DeriveField) -> Seq<char> {
    if form_wrapped(f) {
        match f.default_text {
            Some(d) => "from."@ + f.name@ + ".unwrap_or_else(|| "@ + d@ + ")"@,
            None => "from."@ + f.name@ + ".unwrap_or_default()"@,
        }
    } else {
        "from."@ + f.name@
    }
}

/// The four places the holder lists every field.
#[derive(Clone, Copy, Debug, PartialEq, Eq, Structural)]
pub enum HolderPart {
    Declaration,
    DefaultValue,
    FromOriginal,
    FromHolder,
}

/// What one field writes in a part.
pub open spec fn part_text(f: DeriveField, part: HolderPart, enable_koruma: bool) -> Seq<char> {
    match part {
        HolderPart::Declaration => holder_field_decl(f, enable_koruma),
        HolderPart::DefaultValue => f.name@ + ": "@ + holder_default_value(f) + ",\n"@,
        HolderPart::FromOriginal => f.name@ + ": "@ + from_original_value(f) + ",\n"@,
        HolderPart::FromHolder => f.name@ + ": "@ + from_holder_value(f) + ",\n"@,
    }
}

/// What all the fields write in a part, in order.
pub open spec fn parts_text(fields: Seq<DeriveField>, part: HolderPart, enable_koruma: bool) -> Seq<
    char,
>
    decreases fields.len(),
{
    if fields.len() == 0 {
        Seq::empty()
    } else {
        parts_text(fields.drop_last(), part, enable_koruma) + part_text(
            fields.last(),
            part,
            enable_koruma,
        )
    }
}

/// Whether a field asks for koruma: it has validators (its own or its
/// elements'), is a newtype or nested, or needs a `required` check.
pub open spec fn field_asks_koruma(f: DeriveField) -> bool {
    let v = validation_view(f.validation);
    v.0.len() > 0 || v.1 > 0 || v.2 || v.3 || needs_required(f)
}

/// Whether the holder derives koruma: koruma is on and some field asks for
/// it.
pub open spec fn holder_koruma_derive(fields: Seq<DeriveField>, enable_koruma: bool) -> bool {
    enable_koruma && exists|i: int| 0 <= i < fields.len() && field_asks_koruma(#[trigger] fields[i])
}

/// The value holder of the struct `struct_name` (`struct_is_unit` for a
/// unit struct) with these fields: the struct with its derives, `Default`,
/// `From<Original>` and `From<Holder>` for the original.
pub open spec fn value_holder_text(
    struct_name: Seq<char>,
    struct_is_unit: bool,
    fields: Seq<DeriveField>,
    enable_koruma: bool,
    fluent: bool,
) -> Seq<char> {
    let holder = struct_name + "FormValueHolder"@;
    let suppress = if fields.len() == 0 {
        "let _ = from;\n"@
    } else {
        Seq::empty()
    };
    "#[derive(Clone, Debug"@ + (if !holder_koruma_derive(fields, enable_koruma) {
        Seq::empty()
    } else if fluent {
        ", ::koruma::Koruma, ::koruma::KorumaAllFluent"@
    } else {
        ", ::koruma::Koruma"@
    }) + ")]\npub struct "@ + holder + " {\n"@ + parts_text(
        fields,
        HolderPart::Declaration,
        enable_koruma,
    ) + "}\nimpl Default for "@ + holder + " {\nfn default() -> Self {\nSelf {\n"@ + parts_text(
        fields,
        HolderPart::DefaultValue,
        enable_koruma,
    ) + "}\n}\n}\nimpl From<"@ + struct_name + "> for "@ + holder + " {\nfn from(from: "@ + struct_name
        + ") -> Self {\n"@ + suppress + "Self {\n"@ + parts_text(
        fields,
        HolderPart::FromOriginal,
        enable_koruma,
    ) + "}\n}\n}\nimpl From<"@ + holder + "> for "@ + struct_name + " {\nfn from(from: "@ + holder
        + ") -> Self {\n"@ + suppress + (if struct_is_unit {
        "Self"@
    } else {
        "Self {\n"@ + parts_text(fields, HolderPart::FromHolder, enable_koruma) + "}"@
    }) + "\n}\n}\n"@
}

fn lines_source(v: &Vec<String>) -> (r: String)
    ensures
        r@ == lines_text(v@.map_values(|s: String| s@)),
{
    let ghost views = v@.map_values(|s: String| s@);
    let mut out = String::new();
    let mut i: usize = 0;
    assert(views.subrange(0, 0) =~= Seq::<Seq<char>>::empty());
    while i < v.len()
        invariant
            i <= v@.len(),
            views == v@.map_values(|s: String| s@),
            out@ == lines_text(views.subrange(0, i as int)),
        decreases v@.len() - i,
    {
        assert(views.subrange(0, i + 1).drop_last() =~= views.subrange(0, i as int));
        out.append(v[i].as_str());
        out.append("\n");
        i += 1;
    }
    assert(views.subrange(0, v@.len() as int) =~= views);
    out
}

fn default_value_source(f: &DeriveField) -> (r: String)
    ensures
        r@ == holder_default_value(*f),
{
    let wrapped = field_wraps(f);
    if wrapped && !f.was_optional {
        return String::from_str("None");
    }
    match &f.default_text {
        Some(d) => d.clone(),
        None => if wrapped {
            String::from_str("None")
        } else {
            String::from_str("Default::default()")
        },
    }
}

fn from_original_source(f: &DeriveField) -> (r: String)
    ensures
        r@ == from_original_value(*f),
{
    let mut out = String::new();
    if field_wraps(f) && !f.was_optional {
        out.append("if from.");
        out.append(f.name.as_str());
        out.append(" == ");
        match &f.default_text {
            Some(d) => out.append(d.as_str()),
            None => {
                out.append("<");
                out.append(f.type_text.as_str());
                out.append(" as Default>::default()");
            },
        }
        out.append(" { None } else { Some(from.");
        out.append(f.name.as_str());
        out.append(") }");
    } else {
        out.append("from.");
        out.append(f.name.as_str());
    }
    out
}

fn from_holder_source(f: &DeriveField) -> (r: String)
    ensures
        r@ == from_holder_value(*f),
{
    let mut out = String::from_str("from.");
    out.append(f.name.as_str());
    if field_wraps(f) && !f.was_optional {
        match &f.default_text {
            Some(d) => {
                out.append(".unwrap_or_else(|| ");
                out.append(d.as_str());
                out.append(")");
            },
            None => out.append(".unwrap_or_default()"),
        }
    }
    out
}

fn field_decl_source(f: &DeriveField, enable_koruma: bool) -> (r: String)
    ensures
        r@ == holder_field_decl(*f, enable_koruma),
{
    let attrs = holder_field_attrs_source(f, enable_koruma);
    let mut out = lines_source(&attrs);
    out.append("pub ");
    out.append(f.name.as_str());
    out.append(": ");
    let ghost head = out@;
    if field_wraps(f) || f.was_optional {
        out.append("Option<");
        out.append(f.type_text.as_str());
        out.append(">");
    } else {
        out.append(f.type_text.as_str());
    }
    assert(out@ == head + (if wraps(*f) {
        "Option<"@ + f.type_text@ + ">"@
    } else {
        original_type_text(*f)
    }));
    out.append(",\n");
    out
}

fn part_source(f: &DeriveField, part: HolderPart, enable_koruma: bool) -> (r: String)
    ensures
        r@ == part_text(*f, part, enable_koruma),
{
    if let HolderPart::Declaration = part {
        return field_decl_source(f, enable_koruma);
    }
    let value = match part {
        HolderPart::DefaultValue => default_value_source(f),
        HolderPart::FromOriginal => from_original_source(f),
        _ => from_holder_source(f),
    };
    let mut out = f.name.clone();
    out.append(": ");
    out.append(value.as_str());
    out.append(",\n");
    out
}

fn parts_source(fields: &Vec<DeriveField>, part: HolderPart, enable_koruma: bool) -> (r: String)
    ensures
        r@ == parts_text(fields@, part, enable_koruma),
{
    let mut out = String::new();
    let mut i: usize = 0;
    assert(fields@.subrange(0, 0) =~= Seq::<DeriveField>::empty());
    while i < fields.len()
        invariant
            i <= fields@.len(),
            out@ == parts_text(fields@.subrange(0, i as int), part, enable_koruma),
        decreases fields@.len() - i,
    {
        assert(fields@.subrange(0, i + 1).drop_last() =~= fields@.subrange(0, i as int));
        let t = part_source(&fields[i], part, enable_koruma);
        out.append(t.as_str());
        i += 1;
    }
    assert(fields@.subrange(0, fields@.len() as int) =~= fields@);
    out
}

fn field_asks_koruma_source(f: &DeriveField) -> (r: bool)
    ensures
        r == field_asks_koruma(*f),
{
    let own = match &f.validation {
        Some(v) => v.validators.len() > 0 || v.element_validators > 0 || v.is_newtype || v.is_nested,
        None => false,
    };
    own || field_needs_required(f)
}

/// The value holder's source (see `value_holder_text`). `enable_koruma`
/// says whether koruma validation is on for the form (see
/// `FormDerivePlan::koruma_enabled`), `fluent` whether koruma's messages
/// come from fluent.
pub fn value_holder_source(
    struct_name: &str,
    struct_is_unit: bool,
    fields: &Vec<DeriveField>,
    enable_koruma: bool,
    fluent: bool,
) -> (r: String)
    ensures
        r@ == value_holder_text(struct_name@, struct_is_unit, fields@, enable_koruma, fluent),
{
    let mut holder = String::from_str(struct_name);
    holder.append("FormValueHolder");
    let mut asks = false;
    let mut i: usize = 0;
    while i < fields.len()
        invariant
            i <= fields@.len(),
            asks == exists|j: int| 0 <= j < i && field_asks_koruma(#[trigger] fields@[j]),
        decreases fields@.len() - i,
    {
        if field_asks_koruma_source(&fields[i]) {
            asks = true;
        }
        i += 1;
    }
    let declarations = parts_source(fields, HolderPart::Declaration, enable_koruma);
    let defaults = parts_source(fields, HolderPart::DefaultValue, enable_koruma);
    let from_original = parts_source(fields, HolderPart::FromOriginal, enable_koruma);
    let from_holder = parts_source(fields, HolderPart::FromHolder, enable_koruma);
    let mut out = String::from_str("#[derive(Clone, Debug");
    if enable_koruma && asks {
        if fluent {
            out.append(", ::koruma::Koruma, ::koruma::KorumaAllFluent");
        } else {
            out.append(", ::koruma::Koruma");
        }
    }
    out.append(")]\npub struct ");
    out.append(holder.as_str());
    out.append(" {\n");
    out.append(declarations.as_str());
    out.append("}\nimpl Default for ");
    out.append(holder.as_str());
    out.append(" {\nfn default() -> Self {\nSelf {\n");
    out.append(defaults.as_str());
    out.append("}\n}\n}\nimpl From<");
    out.append(struct_name);
    out.append("> for ");
    out.append(holder.as_str());
    out.append(" {\nfn from(from: ");
    out.append(struct_name);
    out.append(") -> Self {\n");
    if fields.len() == 0 {
        out.append("let _ = from;\n");
    }
    out.append("Self {\n");
    out.append(from_original.as_str());
    out.append("}\n}\n}\nimpl From<");
    out.append(holder.as_str());
    out.append("> for ");
    out.append(struct_name);
    out.append(" {\nfn from(from: ");
    out.append(holder.as_str());
    out.append(") -> Self {\n");
    if fields.len() == 0 {
        out.append("let _ = from;\n");
    }
    if struct_is_unit {
        out.append("Self");
    } else {
        out.append("Self {\n");
        out.append(from_holder.as_str());
        out.append("}");
    }
    out.append("\n}\n}\n");
    out
}

/// What the fields of `a` followed by those of `b` write in a part is what
/// `a` writes followed by what `b` writes.
proof fn lemma_parts_append(
    a: Seq<DeriveField>,
    b: Seq<DeriveField>,
    part: HolderPart,
    enable_koruma: bool,
)
    ensures
        parts_text(a + b, part, enable_koruma) == parts_text(a, part, enable_koruma) + parts_text(
            b,
            part,
            enable_koruma,
        ),
    decreases b.len(),
{
    if b.len() == 0 {
        assert(a + b =~= a);
        assert(parts_text(a, part, enable_koruma) + parts_text(b, part, enable_koruma) =~= parts_text(
            a,
            part,
            enable_koruma,
        ));
    } else {
        lemma_parts_append(a, b.drop_last(), part, enable_koruma);
        assert((a + b).drop_last() =~= a + b.drop_last());
        assert((a + b).last() == b.last());
        assert(parts_text(a + b, part, enable_koruma) =~= parts_text(a, part, enable_koruma) + (
        parts_text(b.drop_last(), part, enable_koruma) + part_text(b.last(), part, enable_koruma)));
    }
}

/// The value holder lists every field of the struct, skipped ones too, in
/// each of its four parts (the holder struct, its `Default`, and both `From`
/// impls): a field's text in a part stands right after the texts of the
/// fields before it.
pub proof fn lemma_holder_lists_every_field(
    fields: Seq<DeriveField>,
    part: HolderPart,
    enable_koruma: bool,
    i: int,
)
    requires
        0 <= i < fields.len(),
    ensures
        ({
            let before = parts_text(fields.subrange(0, i), part, enable_koruma);
            let own = part_text(fields[i], part, enable_koruma);
            parts_text(fields, part, enable_koruma).subrange(
                before.len() as int,
                (before.len() + own.len()) as int,
            ) == own
        }),
{
    let head = fields.subrange(0, i + 1);
    let tail = fields.subrange(i + 1, fields.len() as int);
    assert(fields =~= head + tail);
    lemma_parts_append(head, tail, part, enable_koruma);
    assert(head.drop_last() =~= fields.subrange(0, i));
    assert(head.last() == fields[i]);
    let before = parts_text(fields.subrange(0, i), part, enable_koruma);
    let own = part_text(fields[i], part, enable_koruma);
    let rest = parts_text(tail, part, enable_koruma);
    assert(parts_text(fields, part, enable_koruma) == before + own + rest);
    assert((before + own + rest).subrange(before.len() as int, (before.len() + own.len()) as int) =~= own);
}

} // verus!
