use parse_cve::ordered_set::{holds, insert};

fn list(values: &[&str]) -> Vec<String> {
    values.iter().map(|v| v.to_string()).collect()
}

#[test]
fn holds_finds_a_member() {
    assert!(holds(&list(&["a", "b"]), &"b".to_string()));
}

#[test]
fn holds_misses_what_is_absent() {
    assert!(!holds(&list(&["a", "b"]), &"c".to_string()));
    assert!(!holds(&list(&[]), &"".to_string()));
}

#[test]
fn insert_adds_a_new_value_at_the_end() {
    let mut set = list(&["a", "b"]);
    insert(&mut set, "c".to_string());
    assert_eq!(set, list(&["a", "b", "c"]));
}

#[test]
fn insert_leaves_a_set_that_holds_the_value() {
    let mut set = list(&["a", "b"]);
    insert(&mut set, "a".to_string());
    assert_eq!(set, list(&["a", "b"]));
}

#[test]
fn insert_into_the_empty_set() {
    let mut set = list(&[]);
    insert(&mut set, "".to_string());
    assert_eq!(set, list(&[""]));
}
