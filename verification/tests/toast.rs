use funky_lesson::toast::{
    show_toast, toast_error, toast_info, toast_success, toast_warning, ToastStore, ToastType,
    TOAST_LIFETIME_MS,
};

#[test]
fn toasts_are_numbered_from_zero_in_order() {
    let mut store = ToastStore::new();
    assert_eq!(show_toast(&mut store, "a".to_string(), ToastType::Info), 0);
    assert_eq!(toast_success(&mut store, "b".to_string()), 1);
    assert_eq!(toast_error(&mut store, "c".to_string()), 2);
    assert_eq!(toast_info(&mut store, "d".to_string()), 3);
    assert_eq!(toast_warning(&mut store, "e".to_string()), 4);
    assert_eq!(store.next_id, 5);
    let kinds: Vec<ToastType> = store.toasts.iter().map(|t| t.toast_type).collect();
    assert_eq!(
        kinds,
        vec![ToastType::Info, ToastType::Success, ToastType::Error, ToastType::Info, ToastType::Warning]
    );
    let messages: Vec<&str> = store.toasts.iter().map(|t| t.message.as_str()).collect();
    assert_eq!(messages, vec!["a", "b", "c", "d", "e"]);
    assert_eq!(TOAST_LIFETIME_MS, 3000);
}

#[test]
fn dismissing_drops_that_toast_only() {
    let mut store = ToastStore::new();
    for m in ["a", "b", "c"] {
        show_toast(&mut store, m.to_string(), ToastType::Info);
    }
    store.dismiss(1);
    let ids: Vec<u32> = store.toasts.iter().map(|t| t.id).collect();
    assert_eq!(ids, vec![0, 2]);
    store.dismiss(7);
    assert_eq!(store.toasts.len(), 2);
    store.dismiss(0);
    store.dismiss(2);
    assert!(store.toasts.is_empty());
    assert_eq!(store.next_id, 3);
}

#[test]
fn the_numbering_starts_again_after_the_largest_number() {
    let mut store = ToastStore { next_id: u32::MAX, toasts: Vec::new() };
    assert_eq!(show_toast(&mut store, "last".to_string(), ToastType::Warning), u32::MAX);
    assert_eq!(store.next_id, 0);
    assert_eq!(show_toast(&mut store, "first".to_string(), ToastType::Warning), 0);
}
