use ops_hub::tag_selection::toggle_tag;

#[test]
fn toggling_absent_tag_adds_it() {
    let mut v: Vec<String> = vec![];
    toggle_tag(&mut v, "a");
    assert_eq!(v, vec!["a".to_string()]);
}

#[test]
fn toggling_present_tag_removes_it() {
    let mut v: Vec<String> = vec!["a".into(), "b".into()];
    toggle_tag(&mut v, "a");
    assert_eq!(v, vec!["b".to_string()]);
}

#[test]
fn toggling_is_idempotent_over_two_clicks() {
    let mut v: Vec<String> = vec!["x".into()];
    toggle_tag(&mut v, "y");
    toggle_tag(&mut v, "y");
    assert_eq!(v, vec!["x".to_string()]);
}

#[test]
fn toggle_preserves_order_of_other_tags() {
    let mut v: Vec<String> = vec!["a".into(), "b".into(), "c".into()];
    toggle_tag(&mut v, "b");
    assert_eq!(v, vec!["a".to_string(), "c".to_string()]);
}

#[test]
fn toggling_a_present_tag_twice_moves_it_to_the_end() {
    let mut v: Vec<String> = vec!["a".into(), "b".into(), "c".into()];
    toggle_tag(&mut v, "a");
    toggle_tag(&mut v, "a");
    assert_eq!(v, vec!["b", "c", "a"]);
}

#[test]
fn tags_are_compared_exactly() {
    let mut v: Vec<String> = vec!["a".into()];
    toggle_tag(&mut v, "A");
    toggle_tag(&mut v, " a");
    assert_eq!(v, vec!["a", "A", " a"]);
}
