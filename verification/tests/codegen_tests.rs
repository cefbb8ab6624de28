use gpui_form::codegen::{
    field_description, field_label, number_input_step_kind, number_input_step_operation,
    path_components, StepOperation,
    source_path_to_use_path, FormShapeAdapter, PrototypingError, RenderItem,
};
use gpui_form::imports::ImportItem;
use gpui_form::registry::{FieldVariant, GpuiFormShape};
use gpui_form::schema::components::{
    ComponentsBehaviour, InfiniteSelectBehaviour, NumberInputKind, SelectBehaviour,
};
use gpui_form::schema::layout::{FieldLayout, LayoutWidth};

fn leak(fields: Vec<FieldVariant>) -> &'static [FieldVariant] {
    Box::leak(fields.into_boxed_slice())
}

fn input_field(name: &'static str, layout: FieldLayout) -> FieldVariant {
    FieldVariant::new(name, "String", false, ComponentsBehaviour::Input).with_layout(layout)
}

fn headings(items: &[RenderItem]) -> Vec<&'static str> {
    items
        .iter()
        .filter_map(|item| match item {
            RenderItem::Heading(title) => Some(*title),
            RenderItem::Field(_) => None,
        })
        .collect()
}

fn import_paths(shape: &GpuiFormShape) -> Vec<&'static str> {
    let adapter = FormShapeAdapter::new(shape);
    adapter.required_imports().items().iter().map(|item| item.path).collect()
}

#[test]
fn parts_return_error_for_invalid_source_path() {
    let shape = GpuiFormShape::new("Demo", leak(vec![]), "demo.rs", false);

    let error = match FormShapeAdapter::new(&shape).plan() {
        Ok(_) => panic!("invalid source paths should return an error"),
        Err(error) => error,
    };

    assert_eq!(
        error,
        PrototypingError::InvalidSourcePath {
            source_path: "demo.rs".to_string(),
        }
    );
}

#[test]
fn parts_return_error_for_invalid_field_type_metadata() {
    let fields = leak(vec![FieldVariant::new(
        "country",
        "Vec<",
        false,
        ComponentsBehaviour::Select(SelectBehaviour {
            partial: false,
            searchable: false,
        }),
    )]);
    let shape = GpuiFormShape::new("Demo", fields, "examples/some-lib/src/demo.rs", false);

    let error = match FormShapeAdapter::new(&shape).plan() {
        Ok(_) => panic!("invalid field types should return an error"),
        Err(error) => error,
    };

    assert!(
        matches!(
            error,
            PrototypingError::InvalidType {
                ref field_name,
                ref value,
                ..
            } if field_name == "country" && value == "Vec<"
        ),
        "unexpected error: {error:?}"
    );
}

#[test]
fn required_imports_only_include_subscription_when_needed() {
    let fields = leak(vec![FieldVariant::new(
        "enabled",
        "bool",
        false,
        ComponentsBehaviour::Checkbox,
    )]);
    let shape = GpuiFormShape::new("Demo", fields, "examples/some-lib/src/demo.rs", false);

    let plan = FormShapeAdapter::new(&shape)
        .plan()
        .expect("valid checkbox shapes should generate parts");
    let paths: Vec<&str> = plan.imports.items().iter().map(|item| item.path).collect();

    assert!(
        !paths.contains(&"gpui::Subscription"),
        "subscription import should be omitted when no generated subscriptions exist: {paths:?}"
    );
}

#[test]
fn render_children_emits_section_heading_when_section_changes() {
    let account = FieldLayout::new().with_section(Some("Account"));
    let profile = FieldLayout::new().with_section(Some("Profile"));
    let fields = leak(vec![
        input_field("username", account),
        input_field("email", account),
        input_field("bio", profile),
    ]);
    let shape = GpuiFormShape::new("Demo", fields, "examples/some-lib/src/demo.rs", false);

    let plan = FormShapeAdapter::new(&shape)
        .plan()
        .expect("valid shapes should generate parts");

    assert_eq!(headings(&plan.render_items), vec!["Account", "Profile"]);
    assert_eq!(
        plan.render_items,
        vec![
            RenderItem::Heading("Account"),
            RenderItem::Field(0),
            RenderItem::Field(1),
            RenderItem::Heading("Profile"),
            RenderItem::Field(2),
        ]
    );
}

#[test]
fn render_children_does_not_repeat_heading_for_consecutive_same_section() {
    let account = FieldLayout::new().with_section(Some("Account"));
    let fields = leak(vec![input_field("username", account), input_field("email", account)]);
    let shape = GpuiFormShape::new("Demo", fields, "examples/some-lib/src/demo.rs", false);

    let plan = FormShapeAdapter::new(&shape)
        .plan()
        .expect("valid shapes should generate parts");

    assert_eq!(headings(&plan.render_items).len(), 1);
}

#[test]
fn render_children_omits_heading_when_no_section_declared() {
    let fields = leak(vec![
        FieldVariant::new("name", "String", false, ComponentsBehaviour::Input),
        FieldVariant::new("email", "String", false, ComponentsBehaviour::Input),
    ]);
    let shape = GpuiFormShape::new("Demo", fields, "examples/some-lib/src/demo.rs", false);

    let plan = FormShapeAdapter::new(&shape)
        .plan()
        .expect("valid shapes should generate parts");

    assert!(headings(&plan.render_items).is_empty());
    assert_eq!(plan.render_items, vec![RenderItem::Field(0), RenderItem::Field(1)]);
}

#[test]
fn render_children_heading_re_appears_after_unsectioned_field_resets_tracker() {
    let account = FieldLayout::new().with_section(Some("Account"));
    let fields = leak(vec![
        input_field("username", account),
        FieldVariant::new("nickname", "String", false, ComponentsBehaviour::Input),
        input_field("recovery_email", account),
    ]);
    let shape = GpuiFormShape::new("Demo", fields, "examples/some-lib/src/demo.rs", false);

    let plan = FormShapeAdapter::new(&shape)
        .plan()
        .expect("valid shapes should generate parts");

    assert_eq!(headings(&plan.render_items), vec!["Account", "Account"]);
}

#[test]
fn layout_label_override_appears_in_render_children() {
    let layout = FieldLayout::new()
        .with_label(Some("Enable experiments"))
        .with_width(LayoutWidth::Half);
    let fields = leak(vec![input_field("enable_experimental", layout)]);
    let shape = GpuiFormShape::new("Demo", fields, "examples/some-lib/src/demo.rs", false);

    let plan = FormShapeAdapter::new(&shape)
        .plan()
        .expect("valid shapes should generate parts");
    assert_eq!(plan.render_items, vec![RenderItem::Field(0)]);
    assert_eq!(field_label(&fields[0]), "Enable experiments");
    assert_eq!(field_description(&fields[0]), "Enable Experimental");
}

#[test]
fn label_uses_layout_label_when_present() {
    let layout = FieldLayout::new().with_label(Some("Enable experiments"));
    let field = FieldVariant::new("enable_experimental", "bool", false, ComponentsBehaviour::Switch)
        .with_layout(layout);

    let label = field_label(&field);
    assert!(label.contains("Enable experiments"));
    assert!(!label.contains("Enable Experimental"));
}

#[test]
fn label_falls_back_to_field_name_title_case_when_absent() {
    let field =
        FieldVariant::new("enable_experimental", "bool", false, ComponentsBehaviour::Switch);
    assert!(field_label(&field).contains("Enable Experimental"));
}

#[test]
fn description_uses_layout_description_when_present() {
    let layout = FieldLayout::new().with_description(Some("Toggles unreleased features"));
    let field = FieldVariant::new("enable_experimental", "bool", false, ComponentsBehaviour::Switch)
        .with_layout(layout);

    let description = field_description(&field);
    assert!(description.contains("Toggles unreleased features"));
    assert!(!description.contains("Enable Experimental"));
}

#[test]
fn description_falls_back_to_field_name_title_case_when_absent() {
    let field =
        FieldVariant::new("enable_experimental", "bool", false, ComponentsBehaviour::Switch);
    assert!(field_description(&field).contains("Enable Experimental"));
}

#[test]
fn source_path_becomes_module_path() {
    assert_eq!(
        source_path_to_use_path("examples/some-lib/src/structs/user.rs").as_deref(),
        Some("some_lib::structs::user")
    );
    assert_eq!(source_path_to_use_path("my-crate/src/a/mod.rs").as_deref(), Some("my_crate::a"));
    assert_eq!(source_path_to_use_path("my_crate/src/lib.rs").as_deref(), Some("my_crate::lib"));
    assert_eq!(source_path_to_use_path("x//src/./y.rs").as_deref(), Some("x::y"));
}

#[test]
fn source_path_without_crate_or_src_is_refused() {
    assert_eq!(source_path_to_use_path("demo.rs"), None);
    assert_eq!(source_path_to_use_path("src/demo.rs"), None);
    assert_eq!(source_path_to_use_path("/src/demo.rs"), None);
    assert_eq!(source_path_to_use_path("../src/demo.rs"), None);
    assert_eq!(source_path_to_use_path("1crate/src/demo.rs"), None);
}

#[test]
fn path_components_skip_root_and_dots() {
    assert_eq!(
        path_components("/a//./b/../c.rs"),
        vec![
            Some("a".to_string()),
            Some("b".to_string()),
            None,
            Some("c.rs".to_string()),
        ]
    );
    assert!(path_components("").is_empty());
}

#[test]
fn number_input_step_kind_follows_first_letter() {
    assert_eq!(number_input_step_kind("f64"), NumberInputKind::Float);
    assert_eq!(number_input_step_kind("u8"), NumberInputKind::UnsignedInteger);
    assert_eq!(number_input_step_kind("i32"), NumberInputKind::SignedInteger);
    assert_eq!(number_input_step_kind("Decimal"), NumberInputKind::Custom);
    assert_eq!(number_input_step_kind(""), NumberInputKind::Custom);
}

#[test]
fn plan_names_the_generated_items() {
    let fields = leak(vec![FieldVariant::new("name", "String", false, ComponentsBehaviour::Input)]);
    let shape = GpuiFormShape::new("UserProfile", fields, "app/src/user.rs", true)
        .with_skipped_fields(true);
    let plan = FormShapeAdapter::new(&shape).plan().expect("valid shape");

    assert_eq!(plan.struct_name, "UserProfile");
    assert_eq!(plan.form_ident, "UserProfileForm");
    assert_eq!(plan.form_fields_ident, "UserProfileFormFields");
    assert_eq!(plan.form_value_holder_ident, "UserProfileFormValueHolder");
    assert_eq!(plan.source_module_path, "app::user");
    assert_eq!(plan.context_str, "UserProfileForm");
    assert_eq!(plan.form_id_literal, "user_profile-form");
    assert!(!plan.is_empty);
    assert!(plan.has_koruma);
    assert!(plan.has_skipped_fields);
}

#[test]
fn plan_reports_invalid_struct_name_first() {
    let shape = GpuiFormShape::new("fn", leak(vec![]), "demo.rs", false);
    assert_eq!(
        FormShapeAdapter::new(&shape).plan().err(),
        Some(PrototypingError::InvalidIdentifier {
            kind: "struct name",
            value: "fn".to_string(),
        })
    );
}

#[test]
fn plan_reports_invalid_field_name() {
    let fields = leak(vec![FieldVariant::new("1st", "String", false, ComponentsBehaviour::Input)]);
    let shape = GpuiFormShape::new("Demo", fields, "a/src/demo.rs", false);
    assert_eq!(
        FormShapeAdapter::new(&shape).plan().err(),
        Some(PrototypingError::InvalidIdentifier {
            kind: "field name",
            value: "1st".to_string(),
        })
    );
}

#[test]
fn plan_reports_invalid_custom_component_path() {
    let fields = leak(vec![FieldVariant::new("tags", "Vec<String>", false, ComponentsBehaviour::Custom)
        .with_custom_component("a::::b")]);
    let shape = GpuiFormShape::new("Demo", fields, "a/src/demo.rs", false);
    match FormShapeAdapter::new(&shape).plan() {
        Err(PrototypingError::InvalidPath { kind, value, .. }) => {
            assert_eq!(kind, "custom component path");
            assert_eq!(value, "a::::b");
        },
        other => panic!("unexpected result: {:?}", other.err()),
    }
}

#[test]
fn empty_form_needs_no_imports() {
    let shape = GpuiFormShape::new("Demo", leak(vec![]), "a/src/demo.rs", false);
    assert!(import_paths(&shape).is_empty());
    let plan = FormShapeAdapter::new(&shape).plan().expect("valid shape");
    assert!(plan.is_empty);
    assert!(plan.render_items.is_empty());
}

#[test]
fn subscribable_field_pulls_in_subscription_and_fragments() {
    let fields = leak(vec![FieldVariant::new("name", "String", false, ComponentsBehaviour::Input)]);
    let shape = GpuiFormShape::new("Demo", fields, "a/src/demo.rs", false);
    let paths = import_paths(&shape);
    assert!(paths.contains(&"gpui::Subscription"));
    assert!(paths.contains(&"gpui_component::form::field"));
    assert!(paths.contains(&"gpui_component::input::InputState"));
    let mut sorted = paths.clone();
    sorted.sort();
    sorted.dedup();
    assert_eq!(sorted.len(), paths.len());
}

#[test]
fn searchable_selects_import_their_search_types() {
    let fields = leak(vec![
        FieldVariant::new(
            "country",
            "Country",
            false,
            ComponentsBehaviour::Select(SelectBehaviour {
                partial: false,
                searchable: true,
            }),
        ),
        FieldVariant::new(
            "target",
            "Target",
            false,
            ComponentsBehaviour::InfiniteSelect(InfiniteSelectBehaviour {
                searchable: true,
                max_depth: None,
            }),
        ),
    ]);
    let shape = GpuiFormShape::new("Demo", fields, "a/src/demo.rs", false);
    let paths = import_paths(&shape);
    assert!(paths.contains(&"gpui_component::select::SearchableVec"));
    assert!(paths.contains(&"gpui_form::infinite_select::SearchableInfiniteSelectState"));
    assert!(!paths.contains(&"gpui_form::infinite_select::InfiniteSelectState"));
}

#[test]
fn custom_component_imported_only_when_qualified() {
    let qualified = leak(vec![FieldVariant::new("tags", "Tags", false, ComponentsBehaviour::Custom)
        .with_custom_component("my_ui::TagsInput")]);
    let bare = leak(vec![FieldVariant::new("tags", "Tags", false, ComponentsBehaviour::Custom)
        .with_custom_component("TagsInput")]);
    let q = GpuiFormShape::new("Demo", qualified, "a/src/demo.rs", false);
    let b = GpuiFormShape::new("Demo", bare, "a/src/demo.rs", false);
    assert!(import_paths(&q).contains(&"my_ui::TagsInput"));
    assert!(!import_paths(&b).contains(&"TagsInput"));
}

#[test]
fn anonymous_trait_imports_carry_underscore_alias() {
    let fields = leak(vec![FieldVariant::new("on", "bool", false, ComponentsBehaviour::Checkbox)]);
    let shape = GpuiFormShape::new("Demo", fields, "a/src/demo.rs", false);
    let set = FormShapeAdapter::new(&shape).required_imports();
    assert!(set
        .items()
        .contains(&ImportItem::aliased("gpui::prelude::FluentBuilder", "_")));
    assert!(set.items().contains(&ImportItem::path("gpui::div")));
}

#[test]
fn number_step_operations_follow_kind() {
    assert_eq!(number_input_step_operation("f32"), StepOperation::FloatStep);
    assert_eq!(number_input_step_operation("i8"), StepOperation::SaturatingStep);
    assert_eq!(number_input_step_operation("usize"), StepOperation::SaturatingStep);
    assert_eq!(number_input_step_operation("Decimal"), StepOperation::ConvertedSaturatingStep);
}
