use gtk_subclass::application::{ApplicationVfuncs, WindowSignal};

#[test]
fn empty_parent_has_nothing_to_chain_to() {
    let parent: ApplicationVfuncs<u32> = ApplicationVfuncs { window_added: None, window_removed: None };
    assert_eq!(parent.parent_window_added(), None);
    assert_eq!(parent.parent_window_removed(), None);
    assert_eq!(parent.parent_handler(WindowSignal::Added), None);
    assert_eq!(parent.parent_handler(WindowSignal::Removed), None);
}

#[test]
fn parent_handler_picks_the_signal_slot() {
    let parent = ApplicationVfuncs { window_added: Some(1u32), window_removed: Some(2u32) };
    assert_eq!(parent.parent_handler(WindowSignal::Added), Some(1));
    assert_eq!(parent.parent_handler(WindowSignal::Removed), Some(2));
    assert_eq!(parent.parent_window_added(), Some(1));
    assert_eq!(parent.parent_window_removed(), Some(2));
}

#[test]
fn parent_with_one_slot_chains_for_that_signal_only() {
    let parent = ApplicationVfuncs { window_added: None, window_removed: Some(9u32) };
    assert_eq!(parent.parent_window_added(), None);
    assert_eq!(parent.parent_window_removed(), Some(9));
}

#[test]
fn override_fills_both_slots() {
    let mut class = ApplicationVfuncs { window_added: Some(1u32), window_removed: None };
    class.override_vfuncs(7, 8);
    assert_eq!(class.window_added, Some(7));
    assert_eq!(class.window_removed, Some(8));
}

fn added_handler(n: i32) -> i32 {
    n + 1
}

fn removed_handler(n: i32) -> i32 {
    n - 1
}

#[test]
fn override_with_function_handlers_dispatches_to_them() {
    let mut class: ApplicationVfuncs<fn(i32) -> i32> = ApplicationVfuncs { window_added: None, window_removed: None };
    class.override_vfuncs(added_handler, removed_handler);
    let added = class.parent_handler(WindowSignal::Added).unwrap();
    let removed = class.parent_handler(WindowSignal::Removed).unwrap();
    assert_eq!(added(10), 11);
    assert_eq!(removed(10), 9);
}
