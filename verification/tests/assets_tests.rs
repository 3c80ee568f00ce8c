use sprite_scene::assets::{AssetStore, HandleState};

#[test]
fn load_records_path_and_starts_pending() {
    let mut store = AssetStore::new();
    let h = store.load("cyborg/Idle1.png".to_owned());
    assert_eq!(h, 0);
    assert_eq!(store.paths[0], "cyborg/Idle1.png");
    assert_eq!(store.state_of(0), Some(HandleState::Pending));
}

#[test]
fn handles_are_issued_in_request_order() {
    let mut store = AssetStore::new();
    assert_eq!(store.load("a.png".to_owned()), 0);
    assert_eq!(store.load("b.png".to_owned()), 1);
    assert_eq!(store.paths.len(), 2);
}

#[test]
fn set_state_marks_one_handle_ready() {
    let mut store = AssetStore::new();
    store.load("a.png".to_owned());
    store.load("b.png".to_owned());
    store.set_state(0, HandleState::Ready);
    assert_eq!(store.state_of(0), Some(HandleState::Ready));
    assert_eq!(store.state_of(1), Some(HandleState::Pending));
}

#[test]
fn set_state_can_mark_failed() {
    let mut store = AssetStore::new();
    store.load("missing.png".to_owned());
    store.set_state(0, HandleState::Failed);
    assert_eq!(store.state_of(0), Some(HandleState::Failed));
}

#[test]
fn state_of_unknown_handle_is_none() {
    let store = AssetStore::new();
    assert_eq!(store.state_of(3), None);
}
