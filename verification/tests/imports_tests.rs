use gpui_form::imports::{split_parent_path, ImportItem, ImportSet};

#[test]
fn import_set_dedups_and_sorts() {
    let mut set = ImportSet::default();
    set.add(ImportItem::path("b::Y"));
    set.add(ImportItem::path("a::X"));
    set.add(ImportItem::path("b::Y"));
    set.add(ImportItem::aliased("a::X", "_"));
    assert_eq!(set.len(), 3);
    assert_eq!(
        set.items(),
        &[
            ImportItem::path("a::X"),
            ImportItem::aliased("a::X", "_"),
            ImportItem::path("b::Y"),
        ]
    );
}

#[test]
fn insertion_order_does_not_matter() {
    let items = [
        ImportItem::path("gpui::div"),
        ImportItem::path("gpui::Styled"),
        ImportItem::aliased("gpui::ParentElement", "_"),
    ];
    let mut forward = ImportSet::new();
    forward.extend_items(&items);
    let mut backward = ImportSet::new();
    for item in items.iter().rev() {
        backward.add(*item);
    }
    assert_eq!(forward.items(), backward.items());
}

#[test]
fn grouped_by_parent_module() {
    let mut set = ImportSet::new();
    set.extend(vec![
        ImportItem::path("gpui_component::input::InputState"),
        ImportItem::path("gpui_component::input::Input"),
        ImportItem::aliased("gpui::ParentElement", "_"),
        ImportItem::path("gpui::div"),
        ImportItem::path("TopLevel"),
    ]);
    let groups = set.grouped();
    let parents: Vec<&str> = groups.iter().map(|g| g.parent).collect();
    assert_eq!(parents, vec!["gpui", "gpui_component::input"]);
    assert_eq!(groups[0].members, vec![("ParentElement", Some("_")), ("div", None)]);
    assert_eq!(groups[1].members, vec![("Input", None), ("InputState", None)]);
}

#[test]
fn split_parent_at_last_separator() {
    assert_eq!(split_parent_path("a::b::C"), ("a::b", "C"));
    assert_eq!(split_parent_path("C"), ("", "C"));
}
