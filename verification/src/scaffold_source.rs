//! Source text of the pieces a form scaffold is assembled from: a field's
//! entity creation, initializer and focus entries, its form item with the
//! `description_fn` call that renders its description and validation
//! errors, and the event subscriptions of a number input.

use vstd::prelude::*;

use crate::codegen::{
    description_text, field_description, field_label, label_text, number_input_step_operation,
    step_kind_of, step_operation_of, StepOperation,
};
use crate::registry::{name_with_behaviour, FieldVariant, GpuiFormShape};
use crate::schema::components::{behaviour_name, ComponentsBehaviour};
use crate::text::{debug_text, pascal_case, str_debug, str_eq, to_pascal_case};

verus! {

/// The name of a field's event handler: `on_{field}_{suffix}`.
pub open spec fn handler_name(field_name: Seq<char>, suffix: Seq<char>) -> Seq<char> {
    "on_"@ + field_name + "_"@ + suffix
}

/// A subscription of the form's `handler` to the entity held in `var`.
pub open spec fn subscribe_call_text(var: Seq<char>, handler: Seq<char>) -> Seq<char> {
    "cx.subscribe_in(&"@ + var + ", window, Self::"@ + handler + ")"@
}

/// The handler that parses the input's text into the field on every change.
pub open spec fn input_change_handler_text(name: Seq<char>, value_type: Seq<char>) -> Seq<char> {
    "fn "@ + handler_name(name, "input_event"@)
        + "(\n&mut self,\nstate: &Entity<InputState>,\nevent: &InputEvent,\n_window: &mut Window,\n_cx: &mut Context<Self>,\n) {\nmatch event {\nInputEvent::Change => {\nlet text = state.read(_cx).value();\nself.current_data."@
        + name + " = text.parse::<"@ + value_type + ">().ok();\n}\n_ => {}\n}\n}\n"@
}

/// The statements that compute `new_value` for one step and store it.
pub open spec fn step_logic_text(name: Seq<char>, op: StepOperation, increment: bool) -> Seq<char> {
    let current = "let new_value = self.current_data."@ + name + ".unwrap_or_default()"@;
    let store = "self.current_data."@ + name;
    match op {
        StepOperation::FloatStep => current + (if increment {
            " + 1.0;\n"@
        } else {
            " - 1.0;\n"@
        }) + store + " = Some(new_value);\n"@,
        StepOperation::SaturatingStep => current + (if increment {
            ".saturating_add(1);\n"@
        } else {
            ".saturating_sub(1);\n"@
        }) + store + " = Some(new_value);\n"@,
        StepOperation::ConvertedSaturatingStep => current + (if increment {
            ".saturating_add(1u8.into());\n"@
        } else {
            ".saturating_sub(1u8.into());\n"@
        }) + store + " = Some(new_value.into());\n"@,
    }
}

/// The match arm of one step direction: compute, store, and write the new
/// value back into the input.
pub open spec fn step_arm_text(name: Seq<char>, op: StepOperation, increment: bool) -> Seq<char> {
    (if increment {
        "StepAction::Increment => {\n"@
    } else {
        "StepAction::Decrement => {\n"@
    }) + step_logic_text(name, op, increment)
        + "this.update(cx, |input, cx| {\ninput.set_value(new_value.to_string(), window, cx);\n});\n}\n"@
}

/// The handler of the number input's step buttons.
pub open spec fn number_step_handler_text(name: Seq<char>, op: StepOperation) -> Seq<char> {
    "fn "@ + handler_name(name, "number_input_event"@)
        + "(\n&mut self,\nthis: &Entity<InputState>,\nevent: &NumberInputEvent,\nwindow: &mut Window,\ncx: &mut Context<Self>,\n) {\nmatch event {\nNumberInputEvent::Step(step_action) => match step_action {\n"@
        + step_arm_text(name, op, false) + step_arm_text(name, op, true) + "},\n}\n}\n"@
}

/// Whether `needle` occurs in `hay`.
pub open spec fn occurs_in(needle: Seq<char>, hay: Seq<char>) -> bool {
    exists|i: int|
        0 <= i && i + needle.len() <= hay.len() && #[trigger] hay.subrange(i, i + needle.len())
            == needle
}

proof fn lemma_occurs_between(x: Seq<char>, needle: Seq<char>, y: Seq<char>)
    ensures
        occurs_in(needle, x + needle + y),
{
    let h = x + needle + y;
    assert(h.subrange(x.len() as int, (x.len() + needle.len()) as int) =~= needle);
}

/// The start of a step arm: the button and the current value (its default
/// when empty).
pub open spec fn step_arm_head(name: Seq<char>, increment: bool) -> Seq<char> {
    (if increment {
        "StepAction::Increment => {\n"@
    } else {
        "StepAction::Decrement => {\n"@
    }) + "let new_value = self.current_data."@ + name + ".unwrap_or_default()"@
}

/// The step buttons of a number input move the value in their direction,
/// store it in the field and write it back into the input: for an integer
/// field (its type starts with `u` or `i`) the `+` button adds one and the
/// `-` button subtracts one, both saturating; for a float field (`f…`) they
/// add and subtract `1.0`; for any other type they saturate by
/// `1u8.into()` in each direction and convert back into the field's type.
pub proof fn lemma_step_buttons_move_in_their_direction(f: FieldVariant)
    ensures
        ({
            let h = number_input_handlers(f)[1];
            let t = f.field_type@;
            let inc = step_arm_head(f.field_name@, true);
            let dec = step_arm_head(f.field_name@, false);
            let store = "self.current_data."@ + f.field_name@ + " = Some(new_value);\n"@;
            let store_into = "self.current_data."@ + f.field_name@ + " = Some(new_value.into());\n"@;
            let back = "this.update(cx, |input, cx| {\ninput.set_value(new_value.to_string(), window, cx);\n});\n}\n"@;
            &&& t.len() > 0 && (t[0] == 'u' || t[0] == 'i') ==> occurs_in(
                inc + ".saturating_add(1);\n"@ + store + back,
                h,
            ) && occurs_in(dec + ".saturating_sub(1);\n"@ + store + back, h)
            &&& t.len() > 0 && t[0] == 'f' ==> occurs_in(inc + " + 1.0;\n"@ + store + back, h)
                && occurs_in(dec + " - 1.0;\n"@ + store + back, h)
            &&& !(t.len() > 0 && (t[0] == 'u' || t[0] == 'i' || t[0] == 'f')) ==> occurs_in(
                inc + ".saturating_add(1u8.into());\n"@ + store_into + back,
                h,
            ) && occurs_in(dec + ".saturating_sub(1u8.into());\n"@ + store_into + back, h)
        }),
{
    let name = f.field_name@;
    let op = step_operation_of(step_kind_of(f.field_type@));
    let pre = "fn "@ + handler_name(name, "number_input_event"@)
        + "(\n&mut self,\nthis: &Entity<InputState>,\nevent: &NumberInputEvent,\nwindow: &mut Window,\ncx: &mut Context<Self>,\n) {\nmatch event {\nNumberInputEvent::Step(step_action) => match step_action {\n"@;
    let post = "},\n}\n}\n"@;
    let dec_arm = step_arm_text(name, op, false);
    let inc_arm = step_arm_text(name, op, true);
    let h = number_input_handlers(f)[1];
    assert(h == pre + dec_arm + inc_arm + post);
    let store = "self.current_data."@ + name;
    let arm_tail = "this.update(cx, |input, cx| {\ninput.set_value(new_value.to_string(), window, cx);\n});\n}\n"@;
    let (inc_step, dec_step, kept) = match op {
        StepOperation::FloatStep => (" + 1.0;\n"@, " - 1.0;\n"@, store + " = Some(new_value);\n"@),
        StepOperation::SaturatingStep => (
            ".saturating_add(1);\n"@,
            ".saturating_sub(1);\n"@,
            store + " = Some(new_value);\n"@,
        ),
        StepOperation::ConvertedSaturatingStep => (
            ".saturating_add(1u8.into());\n"@,
            ".saturating_sub(1u8.into());\n"@,
            store + " = Some(new_value.into());\n"@,
        ),
    };
    assert(inc_arm =~= step_arm_head(name, true) + inc_step + kept + arm_tail);
    assert(dec_arm =~= step_arm_head(name, false) + dec_step + kept + arm_tail);
    lemma_occurs_between(pre + dec_arm, inc_arm, post);
    lemma_occurs_between(pre, dec_arm, inc_arm + post);
    assert(h =~= pre + dec_arm + (inc_arm + post));
}

/// The subscription calls of a number-input field: its text changes, then
/// its step buttons.
pub open spec fn number_input_calls(f: FieldVariant) -> Seq<Seq<char>> {
    let var = name_with_behaviour(f.field_name@, f.behaviour);
    seq![
        subscribe_call_text(var, handler_name(f.field_name@, "input_event"@)),
        subscribe_call_text(var, handler_name(f.field_name@, "number_input_event"@)),
    ]
}

/// The handlers of a number-input field, in the order of its calls; the step
/// handler steps as the field's value type asks (see `step_operation_of`).
pub open spec fn number_input_handlers(f: FieldVariant) -> Seq<Seq<char>> {
    seq![
        input_change_handler_text(f.field_name@, f.field_type@),
        number_step_handler_text(f.field_name@, step_operation_of(step_kind_of(f.field_type@))),
    ]
}

/// Subscription calls and the handler methods they name, as source text.
pub struct SubscriptionSource {
    pub calls: Vec<String>,
    pub handlers: Vec<String>,
}

/// The views of a list of strings.
pub open spec fn texts_of(v: Seq<String>) -> Seq<Seq<char>> {
    v.map_values(|s: String| s@)
}

fn handler_name_source(field_name: &str, suffix: &str) -> (r: String)
    ensures
        r@ == handler_name(field_name@, suffix@),
{
    let mut out = String::from_str("on_");
    out.append(field_name);
    out.append("_");
    out.append(suffix);
    out
}

fn subscribe_call_source(var: &str, handler: &str) -> (r: String)
    ensures
        r@ == subscribe_call_text(var@, handler@),
{
    let mut out = String::from_str("cx.subscribe_in(&");
    out.append(var);
    out.append(", window, Self::");
    out.append(handler);
    out.append(")");
    out
}

fn input_change_handler_source(name: &str, value_type: &str) -> (r: String)
    ensures
        r@ == input_change_handler_text(name@, value_type@),
{
    let handler = handler_name_source(name, "input_event");
    let mut out = String::from_str("fn ");
    out.append(handler.as_str());
    out.append(
        "(\n&mut self,\nstate: &Entity<InputState>,\nevent: &InputEvent,\n_window: &mut Window,\n_cx: &mut Context<Self>,\n) {\nmatch event {\nInputEvent::Change => {\nlet text = state.read(_cx).value();\nself.current_data.",
    );
    out.append(name);
    out.append(" = text.parse::<");
    out.append(value_type);
    out.append(">().ok();\n}\n_ => {}\n}\n}\n");
    out
}

fn step_arm_source(name: &str, op: StepOperation, increment: bool) -> (r: String)
    ensures
        r@ == step_arm_text(name@, op, increment),
{
    let mut out = if increment {
        String::from_str("StepAction::Increment => {\n")
    } else {
        String::from_str("StepAction::Decrement => {\n")
    };
    let ghost head = out@;
    out.append("let new_value = self.current_data.");
    out.append(name);
    out.append(".unwrap_or_default()");
    match op {
        StepOperation::FloatStep => {
            if increment {
                out.append(" + 1.0;\n");
            } else {
                out.append(" - 1.0;\n");
            }
            out.append("self.current_data.");
            out.append(name);
            out.append(" = Some(new_value);\n");
        },
        StepOperation::SaturatingStep => {
            if increment {
                out.append(".saturating_add(1);\n");
            } else {
                out.append(".saturating_sub(1);\n");
            }
            out.append("self.current_data.");
            out.append(name);
            out.append(" = Some(new_value);\n");
        },
        StepOperation::ConvertedSaturatingStep => {
            if increment {
                out.append(".saturating_add(1u8.into());\n");
            } else {
                out.append(".saturating_sub(1u8.into());\n");
            }
            out.append("self.current_data.");
            out.append(name);
            out.append(" = Some(new_value.into());\n");
        },
    }
    assert(out@ =~= head + step_logic_text(name@, op, increment));
    out.append(
        "this.update(cx, |input, cx| {\ninput.set_value(new_value.to_string(), window, cx);\n});\n}\n",
    );
    out
}

fn number_step_handler_source(name: &str, op: StepOperation) -> (r: String)
    ensures
        r@ == number_step_handler_text(name@, op),
{
    let handler = handler_name_source(name, "number_input_event");
    let decrement = step_arm_source(name, op, false);
    let increment = step_arm_source(name, op, true);
    let mut out = String::from_str("fn ");
    out.append(handler.as_str());
    out.append(
        "(\n&mut self,\nthis: &Entity<InputState>,\nevent: &NumberInputEvent,\nwindow: &mut Window,\ncx: &mut Context<Self>,\n) {\nmatch event {\nNumberInputEvent::Step(step_action) => match step_action {\n",
    );
    out.append(decrement.as_str());
    out.append(increment.as_str());
    out.append("},\n}\n}\n");
    out
}

/// The subscriptions a number-input field adds to a scaffold: one call for
/// text changes and one for the step buttons, with their two handlers.
pub fn number_input_subscription_source(field: &FieldVariant) -> (r: SubscriptionSource)
    requires
        field.behaviour is NumberInput,
    ensures
        texts_of(r.calls@) == number_input_calls(*field),
        texts_of(r.handlers@) == number_input_handlers(*field),
{
    let var = field.field_name_with_behaviour();
    let on_input = handler_name_source(field.field_name, "input_event");
    let on_step = handler_name_source(field.field_name, "number_input_event");
    let mut calls: Vec<String> = Vec::new();
    calls.push(subscribe_call_source(var.as_str(), on_input.as_str()));
    calls.push(subscribe_call_source(var.as_str(), on_step.as_str()));
    let op = number_input_step_operation(field.field_type);
    let mut handlers: Vec<String> = Vec::new();
    handlers.push(input_change_handler_source(field.field_name, field.field_type));
    handlers.push(number_step_handler_source(field.field_name, op));
    assert(texts_of(calls@) =~= number_input_calls(*field));
    assert(texts_of(handlers@) =~= number_input_handlers(*field));
    SubscriptionSource { calls, handlers }
}

/// Whether a field lists the validation rule `rule`.
pub open spec fn has_rule(f: FieldVariant, rule: Seq<char>) -> bool {
    exists|i: int| 0 <= i < f.validations@.len() && (#[trigger] f.validations@[i])@ == rule
}

/// Whether a field's errors come from an optional inner value: the field is
/// optional and validated as a newtype or as a nested form.
pub open spec fn uses_optional_inner_errors(f: FieldVariant) -> bool {
    f.optional && (has_rule(f, "NewtypeValidation"@) || has_rule(f, "NestedValidation"@))
}

/// Whether the description shows validation errors: the field has rules and
/// the form validates with koruma.
pub open spec fn shows_errors(f: FieldVariant, shape: GpuiFormShape) -> bool {
    f.validations@.len() > 0 && shape.koruma_enabled
}

/// The expression that collects a field's validation messages, one per
/// line, or `None` when there are none.
pub open spec fn error_text(f: FieldVariant) -> Seq<char> {
    let name = f.field_name@;
    if uses_optional_inner_errors(f) {
        "validation_errors\n.as_ref()\n.and_then(|e| e."@ + name
            + "())\n.map(|inner_error| inner_error.all())\n.filter(|errs| !errs.is_empty())\n.map(|errs| {\nerrs.iter()\n.map(|v| v.to_string())\n.collect::<Vec<_>>()\n.join(\"\\n\")\n})"@
    } else {
        "{\nvalidation_errors.as_ref().and_then(|e| {\nlet errs = e."@ + name
            + "().all();\nif errs.is_empty() {\nNone\n} else {\nSome(\nerrs.iter()\n.map(|v| v.to_string())\n.collect::<Vec<_>>()\n.join(\"\\n\"),\n)\n}\n})\n}"@
    }
}

/// The `.description_fn(..)` call of a field: its description (see
/// `description_text`) as a string literal, and below it, where the field
/// shows errors, its validation messages in the theme's danger colour.
pub open spec fn description_fn_text(f: FieldVariant, shape: GpuiFormShape) -> Seq<char> {
    let description = debug_text(description_text(f));
    if !shows_errors(f, shape) {
        ".description_fn({\nlet description = "@ + description
            + ";\nmove |_, _| {\ndiv()\n.flex()\n.flex_col()\n.gap_1()\n.child(div().child(description.clone()))\n}\n})"@
    } else {
        ".description_fn({\nlet description = "@ + description + ";\nlet error = "@ + error_text(f)
            + ";\nlet error_color = cx.theme().danger;\nmove |_, _| {\ndiv()\n.flex()\n.flex_col()\n.gap_1()\n.child(div().child(description.clone()))\n.when(error.is_some(), |this| {\nthis.child(\ndiv()\n.text_color(error_color)\n.child(error.clone().unwrap_or_default()),\n)\n})\n}\n})"@
    }
}

fn has_rule_source(field: &FieldVariant, rule: &str) -> (r: bool)
    ensures
        r == has_rule(*field, rule@),
{
    let rules = field.validations;
    let mut i: usize = 0;
    while i < rules.len()
        invariant
            rules@ == field.validations@,
            0 <= i <= rules@.len(),
            forall|j: int| 0 <= j < i ==> (#[trigger] rules@[j])@ != rule@,
        decreases rules@.len() - i,
    {
        if str_eq(rules[i], rule) {
            return true;
        }
        i += 1;
    }
    false
}

fn error_source(field: &FieldVariant) -> (r: String)
    ensures
        r@ == error_text(*field),
{
    let inner = field.optional && (has_rule_source(field, "NewtypeValidation") || has_rule_source(
        field,
        "NestedValidation",
    ));
    if inner {
        let mut out = String::from_str("validation_errors\n.as_ref()\n.and_then(|e| e.");
        out.append(field.field_name);
        out.append(
            "())\n.map(|inner_error| inner_error.all())\n.filter(|errs| !errs.is_empty())\n.map(|errs| {\nerrs.iter()\n.map(|v| v.to_string())\n.collect::<Vec<_>>()\n.join(\"\\n\")\n})",
        );
        out
    } else {
        let mut out = String::from_str("{\nvalidation_errors.as_ref().and_then(|e| {\nlet errs = e.");
        out.append(field.field_name);
        out.append(
            "().all();\nif errs.is_empty() {\nNone\n} else {\nSome(\nerrs.iter()\n.map(|v| v.to_string())\n.collect::<Vec<_>>()\n.join(\"\\n\"),\n)\n}\n})\n}",
        );
        out
    }
}

/// The `.description_fn(..)` call a scaffold chains onto a field's form
/// item (see `description_fn_text`).
pub fn description_fn_source(field: &FieldVariant, shape: &GpuiFormShape) -> (r: String)
    ensures
        r@ == description_fn_text(*field, *shape),
{
    let text = field_description(field);
    let description = str_debug(text.as_str());
    let mut out = String::from_str(".description_fn({\nlet description = ");
    out.append(description.as_str());
    if !(field.validations.len() > 0 && shape.has_koruma()) {
        out.append(
            ";\nmove |_, _| {\ndiv()\n.flex()\n.flex_col()\n.gap_1()\n.child(div().child(description.clone()))\n}\n})",
        );
    } else {
        let error = error_source(field);
        out.append(";\nlet error = ");
        out.append(error.as_str());
        out.append(
            ";\nlet error_color = cx.theme().danger;\nmove |_, _| {\ndiv()\n.flex()\n.flex_col()\n.gap_1()\n.child(div().child(description.clone()))\n.when(error.is_some(), |this| {\nthis.child(\ndiv()\n.text_color(error_color)\n.child(error.clone().unwrap_or_default()),\n)\n})\n}\n})",
        );
    }
    out
}

/// The statement that creates a field's component entity with the form's
/// builder of the same name.
pub open spec fn entity_creation_text(f: FieldVariant, shape: GpuiFormShape) -> Seq<char> {
    let var = name_with_behaviour(f.field_name@, f.behaviour);
    "let "@ + var + " =\ncx.new(|cx| "@ + shape.struct_name@ + "FormComponents::"@ + var
        + "(window, cx));\n"@
}

/// The entity's entry in the fields struct initializer.
pub open spec fn entity_field_initializer_text(f: FieldVariant) -> Seq<char> {
    name_with_behaviour(f.field_name@, f.behaviour) + ","@
}

/// The entity's entry in the focus cycle.
pub open spec fn entity_focus_text(f: FieldVariant) -> Seq<char> {
    "self.fields."@ + name_with_behaviour(f.field_name@, f.behaviour) + ".focus_handle(cx),"@
}

/// The form item of a component field: its label (see `label_text`) as a
/// string literal, its `description_fn` call, and the component built on
/// the field's entity.
pub open spec fn component_entity_field_text(f: FieldVariant, shape: GpuiFormShape) -> Seq<char> {
    ".child(\nfield()\n.label("@ + debug_text(label_text(f)) + ")\n"@ + description_fn_text(f, shape)
        + "\n.child("@ + pascal_case(behaviour_name(f.behaviour)) + "::new(&self.fields."@
        + name_with_behaviour(f.field_name@, f.behaviour) + "))\n)"@
}

/// The statement that creates the field's entity (see
/// `entity_creation_text`).
pub fn entity_creation_source(field: &FieldVariant, shape: &GpuiFormShape) -> (r: String)
    ensures
        r@ == entity_creation_text(*field, *shape),
{
    let var = field.field_name_with_behaviour();
    let mut out = String::from_str("let ");
    out.append(var.as_str());
    out.append(" =\ncx.new(|cx| ");
    out.append(shape.struct_name);
    out.append("FormComponents::");
    out.append(var.as_str());
    out.append("(window, cx));\n");
    out
}

/// The entity's initializer entry (see `entity_field_initializer_text`).
pub fn entity_field_initializer_source(field: &FieldVariant) -> (r: String)
    ensures
        r@ == entity_field_initializer_text(*field),
{
    let mut out = field.field_name_with_behaviour();
    out.append(",");
    out
}

/// The entity's focus entry (see `entity_focus_text`).
pub fn entity_focus_source(field: &FieldVariant) -> (r: String)
    ensures
        r@ == entity_focus_text(*field),
{
    let var = field.field_name_with_behaviour();
    let mut out = String::from_str("self.fields.");
    out.append(var.as_str());
    out.append(".focus_handle(cx),");
    out
}

/// The form item of a component field (see `component_entity_field_text`).
pub fn component_entity_field_source(field: &FieldVariant, shape: &GpuiFormShape) -> (r: String)
    ensures
        r@ == component_entity_field_text(*field, *shape),
{
    let label = field_label(field);
    let literal = str_debug(label.as_str());
    let description = description_fn_source(field, shape);
    let component = to_pascal_case(field.behaviour.component_name());
    let var = field.field_name_with_behaviour();
    let mut out = String::from_str(".child(\nfield()\n.label(");
    out.append(literal.as_str());
    out.append(")\n");
    out.append(description.as_str());
    out.append("\n.child(");
    out.append(component.as_str());
    out.append("::new(&self.fields.");
    out.append(var.as_str());
    out.append("))\n)");
    out
}

} // verus!
