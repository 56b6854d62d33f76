use ops_hub::compare::{at_limit, toggle_compare, COMPARE_LIMIT};

#[test]
fn compare_limit_constant_is_three() {
    assert_eq!(COMPARE_LIMIT, 3);
}

#[test]
fn adding_first_id_succeeds() {
    let mut sel = Vec::new();
    toggle_compare(&mut sel, "a");
    assert_eq!(sel, vec!["a"]);
}

#[test]
fn adding_up_to_limit_succeeds() {
    let mut sel = Vec::new();
    toggle_compare(&mut sel, "a");
    toggle_compare(&mut sel, "b");
    toggle_compare(&mut sel, "c");
    assert_eq!(sel.len(), COMPARE_LIMIT);
}

#[test]
fn adding_beyond_limit_is_silently_ignored() {
    let mut sel = vec!["a".into(), "b".into(), "c".into()];
    toggle_compare(&mut sel, "d");
    assert_eq!(sel.len(), COMPARE_LIMIT, "must not exceed limit");
    assert!(!sel.contains(&"d".to_string()), "d must not be added");
}

#[test]
fn removing_a_present_id_shrinks_selection() {
    let mut sel = vec!["a".into(), "b".into(), "c".into()];
    toggle_compare(&mut sel, "b");
    assert_eq!(sel, vec!["a", "c"]);
}

#[test]
fn removing_allows_adding_a_new_id_after_limit() {
    let mut sel = vec!["a".into(), "b".into(), "c".into()];
    toggle_compare(&mut sel, "a");
    toggle_compare(&mut sel, "d");
    assert!(sel.contains(&"d".to_string()));
    assert!(!sel.contains(&"a".to_string()));
}

#[test]
fn at_limit_false_when_below_limit() {
    let sel: Vec<String> = vec!["a".into(), "b".into()];
    assert!(!at_limit(&sel));
}

#[test]
fn at_limit_true_when_at_limit() {
    let sel: Vec<String> = vec!["a".into(), "b".into(), "c".into()];
    assert!(at_limit(&sel));
}

#[test]
fn at_limit_true_when_empty_and_limit_is_zero_edge() {
    let sel: Vec<String> = Vec::new();
    assert!(!at_limit(&sel), "empty is not at limit");
}

#[test]
fn toggle_is_idempotent_over_add_then_remove() {
    let mut sel = Vec::new();
    toggle_compare(&mut sel, "x");
    toggle_compare(&mut sel, "x");
    assert!(sel.is_empty(), "add then remove must yield empty");
}

#[test]
fn removal_at_limit_still_works_and_keeps_order() {
    let mut sel: Vec<String> = vec!["a".into(), "b".into(), "c".into()];
    toggle_compare(&mut sel, "c");
    assert_eq!(sel, vec!["a", "b"]);
    assert!(!at_limit(&sel));
}

#[test]
fn only_the_first_of_repeated_ids_is_removed() {
    let mut sel: Vec<String> = vec!["a".into(), "b".into(), "a".into()];
    toggle_compare(&mut sel, "a");
    assert_eq!(sel, vec!["b", "a"]);
}

#[test]
fn toggling_within_limit_never_exceeds_it() {
    let mut sel: Vec<String> = Vec::new();
    for id in ["a", "b", "c", "d", "e", "b", "f", "g"] {
        toggle_compare(&mut sel, id);
        assert!(sel.len() <= COMPARE_LIMIT);
    }
    assert_eq!(sel, vec!["a", "c", "f"]);
}
