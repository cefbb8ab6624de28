use gpui_form::state::FormState;

#[derive(Clone, Debug, PartialEq, Default)]
struct Holder {
    name: String,
    age: u32,
}

#[test]
fn new_state_is_not_dirty() {
    let state = FormState::new(Holder {
        name: "a".into(),
        age: 1,
    });
    assert!(!state.is_dirty());
}

#[test]
fn mutate_via_current_mut_marks_dirty() {
    let mut state = FormState::new(Holder {
        name: "a".into(),
        age: 1,
    });
    assert!(!state.is_dirty());

    state.current_mut().age = 2;
    assert!(state.is_dirty());
}

#[test]
fn reset_to_baseline_clears_dirty() {
    let mut state = FormState::new(Holder {
        name: "a".into(),
        age: 1,
    });
    state.current_mut().age = 99;
    assert!(state.is_dirty());

    state.reset_to_baseline();
    assert!(!state.is_dirty());
    assert_eq!(state.current().age, 1);
    assert_eq!(state.baseline().age, 1);
}

#[test]
fn sync_baseline_marks_clean_then_mutation_redirties() {
    let mut state = FormState::new(Holder {
        name: "a".into(),
        age: 1,
    });
    state.current_mut().age = 5;
    assert!(state.is_dirty());

    state.sync_baseline();
    assert!(!state.is_dirty());
    assert_eq!(state.baseline().age, 5);

    state.current_mut().age = 6;
    assert!(state.is_dirty());
    state.sync_baseline();
    assert!(!state.is_dirty());
}

#[test]
fn diff_against_detects_difference_and_equality() {
    let state = FormState::new(Holder {
        name: "a".into(),
        age: 1,
    });
    let other = Holder {
        name: "a".into(),
        age: 2,
    };
    assert!(state.diff_against(&other));

    let same = Holder {
        name: "a".into(),
        age: 1,
    };
    assert!(!state.diff_against(&same));
}

#[test]
fn replace_current_overwrites_live_value() {
    let mut state = FormState::new(Holder {
        name: "a".into(),
        age: 1,
    });
    state.replace_current(Holder {
        name: "a".into(),
        age: 1,
    });
    assert!(!state.is_dirty());

    state.replace_current(Holder {
        name: "b".into(),
        age: 9,
    });
    assert!(state.is_dirty());
    assert_eq!(state.current().name, "b");
    assert_eq!(state.current().age, 9);
    assert_eq!(state.baseline().name, "a");
}

#[test]
fn into_current_returns_live_value_and_drops_baseline() {
    let state = FormState::new(Holder {
        name: "a".into(),
        age: 1,
    });
    let live = state.into_current();
    assert_eq!(live.name, "a");
    assert_eq!(live.age, 1);
}

#[test]
fn baseline_and_current_accessors_are_distinct_after_edit() {
    let mut state = FormState::new(Holder {
        name: "a".into(),
        age: 1,
    });
    state.current_mut().name = "z".into();
    assert_eq!(state.baseline().name, "a");
    assert_eq!(state.current().name, "z");
}

#[test]
fn reset_after_replace_restores_baseline_value() {
    let mut state = FormState::new(7u32);
    state.replace_current(8);
    assert!(state.is_dirty());
    state.reset_to_baseline();
    assert_eq!(*state.current(), 7);
    assert!(!state.is_dirty());
}

#[test]
fn sync_then_diff_against_old_baseline_reports_difference() {
    let mut state = FormState::new(1u32);
    state.replace_current(2);
    state.sync_baseline();
    assert_eq!(*state.baseline(), 2);
    assert!(state.diff_against(&1));
    assert!(!state.diff_against(&2));
}
