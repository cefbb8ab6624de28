use gpui_form::demo::{AvailabilityZone, DeploymentTarget, DesktopPlatform, WebRegion};
use gpui_form::infinite_select::{
    build_from_path, child_items_for_level, child_selected_row, path_from_value,
    path_with_defaults, to_select_items, InfiniteSelect, InfiniteSelectItem, InfiniteSelectPath,
    InfiniteSelectStateOptions,
};

#[test]
fn path_set_get_and_clear() {
    let mut path = InfiniteSelectPath::new();
    assert!(path.is_empty());
    path.set(0, 2);
    path.set(3, 7);
    assert_eq!(path.indices(), &[2, 7]);
    assert_eq!(path.get(1), Some(7));
    assert_eq!(path.get(2), None);
    path.set(0, 1);
    assert_eq!(path.get(0), Some(1));
    path.clear_from(1);
    assert_eq!(path.len(), 1);
    path.truncate(0);
    assert!(path.is_empty());
}

#[test]
fn path_with_defaults_selects_first_children() {
    let path = path_with_defaults(2, 3);
    assert_eq!(path.indices(), &[2, 0, 0, 0]);
}

#[test]
fn child_row_is_capped_and_defaults_to_first_item() {
    let path = InfiniteSelectPath::with_indices(vec![1, 5, 1]);
    assert_eq!(child_selected_row(&path, 0, 3), 2);
    assert_eq!(child_selected_row(&path, 1, 3), 1);
    assert_eq!(child_selected_row(&path, 2, 3), 0);
}

#[test]
fn state_options_limit_rendered_depth() {
    let options = InfiniteSelectStateOptions::default();
    assert!(!options.is_searchable());
    assert_eq!(options.rendered_depth(3), 3);
    let limited = InfiniteSelectStateOptions::default().max_depth(1).searchable(true);
    assert!(limited.is_searchable());
    assert_eq!(limited.rendered_depth(3), 1);
}

#[test]
fn demo_paths_round_trip() {
    let values = [
        DeploymentTarget::Web(WebRegion::UsEast(AvailabilityZone::Primary)),
        DeploymentTarget::Web(WebRegion::Europe(AvailabilityZone::DisasterRecovery)),
        DeploymentTarget::Desktop(DesktopPlatform::Linux),
        DeploymentTarget::Docs,
    ];
    for value in values {
        let path = path_from_value(&value);
        assert_eq!(build_from_path::<DeploymentTarget>(&path), Some(value));
    }
    let europe = path_from_value(&DeploymentTarget::Web(WebRegion::Europe(
        AvailabilityZone::DisasterRecovery,
    )));
    assert_eq!(europe.indices(), &[0, 1, 1]);
}

#[test]
fn build_from_bad_path_is_none() {
    assert_eq!(build_from_path::<DeploymentTarget>(&InfiniteSelectPath::new()), None);
    assert_eq!(
        build_from_path::<DeploymentTarget>(&InfiniteSelectPath::with_indices(vec![9])),
        None
    );
}

#[test]
fn demo_summaries_and_labels() {
    let web = DeploymentTarget::Web(WebRegion::Europe(AvailabilityZone::Primary));
    assert_eq!(web.summary(), "Web / Europe / Primary");
    assert_eq!(DeploymentTarget::Desktop(DesktopPlatform::MacOs).summary(), "Desktop / macOS");
    assert_eq!(DeploymentTarget::Docs.summary(), "Docs");
    assert_eq!(web.child_label_at_depth(0), Some("Region"));
    assert_eq!(DeploymentTarget::Docs.child_label_at_depth(0), None);
}

#[test]
fn root_items_are_titled_variants() {
    let items: Vec<InfiniteSelectItem<DeploymentTarget>> = to_select_items();
    let titles: Vec<&str> = items.iter().map(|item| item.title()).collect();
    assert_eq!(titles.len(), 3);
    assert_eq!(titles[2], "Docs");
}

#[test]
fn child_items_list_the_next_level() {
    let web = DeploymentTarget::Web(WebRegion::UsEast(AvailabilityZone::Primary));
    let level0 = child_items_for_level(&web, 0);
    let names: Vec<&str> = level0.iter().map(|item| item.title()).collect();
    assert_eq!(names, vec!["US East", "Europe"]);
    assert!(child_items_for_level(&DeploymentTarget::Docs, 0).is_empty());
}

#[test]
fn item_with_child_at_updates_value() {
    let item = InfiniteSelectItem::from_variant(DeploymentTarget::Desktop(DesktopPlatform::MacOs));
    assert!(item.has_inner());
    let changed = item.with_child_at(2).expect("windows is the third platform");
    assert_eq!(
        *changed.get_value(),
        DeploymentTarget::Desktop(DesktopPlatform::Windows)
    );
    assert!(item.with_child_at(9).is_none());
}
