use shadow_provider::registry::Registry;

#[test]
fn insert_then_get_gives_the_value() {
    let mut r: Registry<u32> = Registry::new();
    assert_eq!(r.insert("alice".to_string(), 1), None);
    assert_eq!(r.insert("bob".to_string(), 2), None);
    assert_eq!(r.get("alice"), Some(&1));
    assert_eq!(r.get("bob"), Some(&2));
    assert_eq!(r.get("carol"), None);
    assert_eq!(r.len(), 2);
    assert!(r.contains("alice"));
    assert!(!r.contains("carol"));
}

#[test]
fn insert_replaces_a_value_of_the_same_name() {
    let mut r: Registry<u32> = Registry::new();
    r.insert("alice".to_string(), 1);
    assert_eq!(r.insert("alice".to_string(), 5), Some(1));
    assert_eq!(r.get("alice"), Some(&5));
    assert_eq!(r.len(), 1);
}

#[test]
fn remove_forgets_only_that_name() {
    let mut r: Registry<u32> = Registry::new();
    r.insert("alice".to_string(), 1);
    r.insert("bob".to_string(), 2);
    assert_eq!(r.remove("alice"), Some(1));
    assert_eq!(r.remove("alice"), None);
    assert_eq!(r.get("bob"), Some(&2));
    assert_eq!(r.len(), 1);
}

#[test]
fn names_lists_each_name_once() {
    let mut r: Registry<u32> = Registry::new();
    r.insert("alice".to_string(), 1);
    r.insert("bob".to_string(), 2);
    r.insert("alice".to_string(), 3);
    let mut names = r.names();
    names.sort();
    assert_eq!(names, vec!["alice".to_string(), "bob".to_string()]);
}

#[test]
fn removing_every_listed_name_empties_the_registry() {
    let mut r: Registry<u32> = Registry::new();
    r.insert("alice".to_string(), 1);
    r.insert("bob".to_string(), 2);
    let names = r.names();
    r.remove_all(&names);
    assert_eq!(r.len(), 0);
    assert!(r.names().is_empty());
}

#[test]
fn remove_all_keeps_unlisted_names() {
    let mut r: Registry<u32> = Registry::new();
    r.insert("alice".to_string(), 1);
    r.insert("bob".to_string(), 2);
    r.remove_all(&vec!["bob".to_string(), "carol".to_string()]);
    assert_eq!(r.get("alice"), Some(&1));
    assert_eq!(r.len(), 1);
}
