use name_registry::registry::{AlreadyExists, NameRegistry};

fn owned(s: &str) -> String {
    s.to_string()
}

#[test]
fn new_registry_is_empty() {
    let r = NameRegistry::new();
    assert_eq!(r.len(), 0);
    assert!(r.list().is_empty());
    assert!(!r.contains(&owned("Divit")));
}

#[test]
fn seeded_registry_holds_divit_only() {
    let r = NameRegistry::seeded();
    assert_eq!(r.list(), vec![owned("Divit")]);
    assert!(r.contains(&owned("Divit")));
}

#[test]
fn contains_is_case_sensitive_and_exact() {
    let r = NameRegistry::seeded();
    assert!(!r.contains(&owned("divit")));
    assert!(!r.contains(&owned("Divit ")));
    assert!(!r.contains(&owned("Div")));
    assert!(!r.contains(&owned("")));
}

#[test]
fn add_appends_in_insertion_order() {
    let mut r = NameRegistry::new();
    assert_eq!(r.add(owned("Bob")), Ok(()));
    assert_eq!(r.add(owned("Alice")), Ok(()));
    assert_eq!(r.add(owned("Carol")), Ok(()));
    assert_eq!(r.list(), vec![owned("Bob"), owned("Alice"), owned("Carol")]);
    assert_eq!(r.len(), 3);
}

#[test]
fn add_rejects_duplicate_and_keeps_contents() {
    let mut r = NameRegistry::seeded();
    assert_eq!(r.add(owned("Divit")), Err(AlreadyExists));
    assert_eq!(r.list(), vec![owned("Divit")]);
}

#[test]
fn add_accepts_empty_and_unicode_names() {
    let mut r = NameRegistry::new();
    assert_eq!(r.add(owned("")), Ok(()));
    assert_eq!(r.add(owned("Zoë")), Ok(()));
    assert!(r.contains(&owned("")));
    assert!(r.contains(&owned("Zoë")));
    assert!(!r.contains(&owned("Zoe")));
    assert_eq!(r.add(owned("")), Err(AlreadyExists));
}
