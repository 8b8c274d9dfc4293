use multiselect::select::{Effect, SelectEvent, SelectState};

fn options() -> Vec<(&'static str, &'static str)> {
    vec![("Rust", "Rust"), ("Java", "Java")]
}

#[test]
fn click_item_twice_selects_then_unselects() {
    let opts = options();
    let mut s = SelectState::new(opts.len(), false);
    s.set_open(true);
    let e = s.handle(SelectEvent::ItemClick(0));
    assert_eq!(s.selected_indices(), vec![0]);
    assert!(!s.is_open());
    assert_eq!(e, Effect { refocus: true, notify: Some(0) });
    let e = s.handle(SelectEvent::ItemClick(0));
    assert_eq!(s.selected_indices(), Vec::<usize>::new());
    assert_eq!(e.notify, Some(0));
}

#[test]
fn focus_opens_and_blur_closes_keeping_selection() {
    let mut s = SelectState::new(2, false);
    s.toggle(1);
    let e = s.handle(SelectEvent::FocusIn);
    assert!(s.is_open());
    assert_eq!(e, Effect { refocus: false, notify: None });
    let e = s.handle(SelectEvent::Blur);
    assert!(!s.is_open());
    assert_eq!(e, Effect { refocus: false, notify: None });
    assert_eq!(s.selected_indices(), vec![1]);
}

#[test]
fn toggle_closes_whatever_the_open_flag() {
    let mut s = SelectState::new(3, true);
    s.toggle(2);
    assert!(!s.is_open());
    s.toggle(2);
    assert!(!s.is_open());
    assert!(!s.is_selected(2));
}

#[test]
fn remove_tag_keeps_open_flag() {
    let mut s = SelectState::new(3, false);
    s.toggle(0);
    s.toggle(2);
    s.set_open(true);
    let e = s.handle(SelectEvent::TagRemove(0));
    assert_eq!(e, Effect { refocus: false, notify: None });
    assert!(s.is_open());
    assert_eq!(s.selected_indices(), vec![2]);
    s.set_open(false);
    s.remove_tag(2);
    assert!(!s.is_open());
    assert_eq!(s.selected_indices(), Vec::<usize>::new());
}

#[test]
fn remove_tag_of_unselected_index_changes_nothing() {
    let mut s = SelectState::new(3, true);
    s.toggle(1);
    s.remove_tag(0);
    assert_eq!(s.selected_indices(), vec![1]);
    assert!(!s.is_open());
}

#[test]
fn each_toggle_reports_its_index_once() {
    let mut s = SelectState::new(4, false);
    let mut reported = Vec::new();
    for i in [3usize, 1, 3] {
        let e = s.handle(SelectEvent::ItemClick(i));
        assert!(e.refocus);
        if let Some(j) = e.notify {
            reported.push(j);
        }
    }
    assert_eq!(reported, vec![3, 1, 3]);
}

#[test]
fn membership_follows_toggle_parity() {
    let mut s = SelectState::new(3, false);
    for i in [0usize, 1, 0, 2, 1, 0] {
        s.toggle(i);
    }
    assert!(s.is_selected(0));
    assert!(!s.is_selected(1));
    assert!(s.is_selected(2));
    assert_eq!(s.selected_indices(), vec![0, 2]);
}

#[test]
fn selected_indices_are_ascending() {
    let mut s = SelectState::new(5, false);
    for i in [4usize, 0, 3] {
        s.toggle(i);
    }
    assert_eq!(s.selected_indices(), vec![0, 3, 4]);
}

#[test]
fn new_state_is_empty_and_keeps_initial_open_flag() {
    let s = SelectState::new(4, true);
    assert!(s.is_open());
    assert_eq!(s.option_count(), 4);
    assert_eq!(s.selected_indices(), Vec::<usize>::new());
    let s = SelectState::new(0, false);
    assert!(!s.is_open());
    assert_eq!(s.selected_indices(), Vec::<usize>::new());
}
