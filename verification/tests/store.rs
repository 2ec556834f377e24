use hop::store::{rank, Rank, Store};

fn store_chars(s: &str) -> Vec<char> {
    s.chars().collect()
}

fn store_names(store: &Store) -> Vec<String> {
    let mut names = Vec::new();
    for shortcut in store.shortcuts() {
        names.push(shortcut.name.clone());
    }
    names
}

#[test]
fn new_store_is_empty() {
    let store = Store::new();
    assert!(store.is_empty());
    assert_eq!(store.len(), 0);
    assert!(store.shortcuts().is_empty());
    assert_eq!(store.get("proj"), None);
}

#[test]
fn add_then_get() {
    let mut store = Store::new();
    assert!(store.add(String::from("proj"), String::from("~/code/proj")));
    assert_eq!(store.len(), 1);
    assert!(!store.is_empty());
    assert!(store.contains_key("proj"));
    assert_eq!(store.get("proj"), Some(&String::from("~/code/proj")));
}

#[test]
fn add_rejects_a_name_that_exists() {
    let mut store = Store::new();
    assert!(store.add(String::from("proj"), String::from("~/code/proj")));
    assert!(!store.add(String::from("proj"), String::from("/elsewhere")));
    assert_eq!(store.len(), 1);
    assert_eq!(store.get("proj"), Some(&String::from("~/code/proj")));
}

#[test]
fn set_replaces_the_path() {
    let mut store = Store::new();
    assert!(store.set(String::from("proj"), String::from("~/code/proj")));
    assert!(!store.set(String::from("proj"), String::from("/elsewhere")));
    assert_eq!(store.len(), 1);
    assert_eq!(store.get("proj"), Some(&String::from("/elsewhere")));
}

#[test]
fn get_matches_the_exact_name_only() {
    let mut store = Store::new();
    store.add(String::from("proj"), String::from("~/code/proj"));
    for name in ["pro", "proj ", " proj", "Proj", "PROJ", "project", "roj", ""] {
        assert_eq!(store.get(name), None);
        assert!(!store.contains_key(name));
    }
    assert!(store.contains_key("proj"));
}

#[test]
fn names_that_differ_in_case_are_different_shortcuts() {
    let mut store = Store::new();
    assert!(store.add(String::from("proj"), String::from("/lower")));
    assert!(store.add(String::from("Proj"), String::from("/upper")));
    assert_eq!(store.get("proj"), Some(&String::from("/lower")));
    assert_eq!(store.get("Proj"), Some(&String::from("/upper")));
}

#[test]
fn remove_takes_the_shortcut_out() {
    let mut store = Store::new();
    store.add(String::from("a"), String::from("/a"));
    store.add(String::from("b"), String::from("/b"));
    assert!(store.remove("a"));
    assert_eq!(store.get("a"), None);
    assert_eq!(store.get("b"), Some(&String::from("/b")));
    assert_eq!(store.len(), 1);
}

#[test]
fn remove_of_an_absent_name_changes_nothing() {
    let mut store = Store::new();
    store.add(String::from("a"), String::from("/a"));
    store.add(String::from("b"), String::from("/b"));
    let mut same = Store::new();
    same.add(String::from("a"), String::from("/a"));
    same.add(String::from("b"), String::from("/b"));
    assert!(!store.remove("c"));
    assert!(!store.remove("A"));
    assert!(!store.remove(""));
    assert_eq!(store, same);
    assert!(store.remove("a"));
    assert!(!store.remove("a"));
}

#[test]
fn shortcuts_stand_in_the_order_of_their_names() {
    let mut store = Store::new();
    for name in ["work", "api", "zeta", "Api", "ap", "apis", "é", ""] {
        assert!(store.add(String::from(name), format!("/{}", name)));
    }
    assert_eq!(store_names(&store), vec!["", "Api", "ap", "api", "apis", "work", "zeta", "é"]);
    let mut sorted = store_names(&store);
    sorted.sort();
    assert_eq!(store_names(&store), sorted);
}

#[test]
fn the_order_does_not_depend_on_how_the_store_came_about() {
    let mut one = Store::new();
    one.add(String::from("b"), String::from("/b"));
    one.add(String::from("a"), String::from("/a"));
    one.add(String::from("c"), String::from("/c"));
    one.remove("c");
    let mut other = Store::new();
    other.add(String::from("a"), String::from("/x"));
    other.set(String::from("a"), String::from("/a"));
    other.add(String::from("b"), String::from("/b"));
    assert_eq!(one, other);
}

#[test]
fn rank_orders_names_character_by_character() {
    assert_eq!(rank(&store_chars("a"), &store_chars("b")), Rank::Before);
    assert_eq!(rank(&store_chars("b"), &store_chars("a")), Rank::After);
    assert_eq!(rank(&store_chars("ab"), &store_chars("ab")), Rank::Same);
    assert_eq!(rank(&store_chars("ab"), &store_chars("abc")), Rank::Before);
    assert_eq!(rank(&store_chars("abc"), &store_chars("ab")), Rank::After);
    assert_eq!(rank(&store_chars(""), &store_chars("")), Rank::Same);
    assert_eq!(rank(&store_chars(""), &store_chars("a")), Rank::Before);
    assert_eq!(rank(&store_chars("Z"), &store_chars("a")), Rank::Before);
    assert_eq!(rank(&store_chars("abd"), &store_chars("abcz")), Rank::After);
}
