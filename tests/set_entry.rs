use set_entry::HashSet;
use set_entry::RustcEntry;
use std::rc::Rc;

#[test]
fn singles_and_dupes() {
    let mut singles: HashSet<char> = HashSet::new();
    let mut dupes: HashSet<char> = HashSet::new();
    for ch in "a short treatise on fungi".chars() {
        if let RustcEntry::Vacant(dupe_entry) = dupes.rustc_entry(ch) {
            match singles.rustc_entry(ch) {
                RustcEntry::Vacant(single_entry) => single_entry.insert(),
                RustcEntry::Occupied(single_entry) => {
                    single_entry.remove();
                    dupe_entry.insert();
                }
            }
        }
    }
    assert!(!singles.contains(&'t') && dupes.contains(&'t'));
    assert!(singles.contains(&'u') && !dupes.contains(&'u'));
    assert!(!singles.contains(&'v') && !dupes.contains(&'v'));
}

#[test]
fn entry_insert_returns_occupied() {
    let mut set: HashSet<&str> = HashSet::new();
    let entry = set.rustc_entry("horseyland").insert();
    assert_eq!(entry.get(), &"horseyland");
}

#[test]
fn entry_or_insert_twice() {
    let mut set: HashSet<&str> = HashSet::new();
    set.rustc_entry("poneyland").or_insert();
    assert!(set.contains(&"poneyland"));
    set.rustc_entry("poneyland").or_insert();
    assert!(set.contains(&"poneyland"));
    assert_eq!(set.len(), 1);
}

#[test]
fn entry_get_on_vacant() {
    let mut set: HashSet<&str> = HashSet::new();
    assert_eq!(set.rustc_entry("poneyland").get(), &"poneyland");
    assert_eq!(set.len(), 0);
}

#[test]
fn entry_get_on_occupied() {
    let mut set: HashSet<&str> = HashSet::new();
    set.rustc_entry("poneyland").or_insert();
    match set.rustc_entry("poneyland") {
        RustcEntry::Occupied(o) => assert_eq!(o.get(), &"poneyland"),
        RustcEntry::Vacant(_) => panic!("expected an occupied entry"),
    }
}

#[test]
fn occupied_remove() {
    let mut set: HashSet<&str> = HashSet::new();
    set.rustc_entry("poneyland").or_insert();
    if let RustcEntry::Occupied(o) = set.rustc_entry("poneyland") {
        assert_eq!(o.remove(), "poneyland");
    } else {
        panic!("expected an occupied entry");
    }
    assert_eq!(set.contains(&"poneyland"), false);
    assert_eq!(set.len(), 0);
}

#[test]
fn occupied_replace_swaps_in_queried_value() {
    let mut set: HashSet<Rc<String>> = HashSet::new();
    let stored = Rc::new("Stringthing".to_string());
    set.rustc_entry(stored.clone()).or_insert();
    let my_key = Rc::new("Stringthing".to_string());
    match set.rustc_entry(my_key.clone()) {
        RustcEntry::Occupied(entry) => {
            let old_key: Rc<String> = entry.replace();
            assert!(Rc::ptr_eq(&old_key, &stored));
        }
        RustcEntry::Vacant(_) => panic!("expected an occupied entry"),
    }
    assert_eq!(set.len(), 1);
    let probe = Rc::new("Stringthing".to_string());
    let entry = set.rustc_entry(probe);
    assert!(Rc::ptr_eq(entry.get(), &my_key));
    assert!(!Rc::ptr_eq(entry.get(), &stored));
}

#[test]
fn vacant_into_value() {
    let mut set: HashSet<&str> = HashSet::new();
    if let RustcEntry::Vacant(v) = set.rustc_entry("poneyland") {
        assert_eq!(v.get(), &"poneyland");
        assert_eq!(v.into_value(), "poneyland");
    } else {
        panic!("expected a vacant entry");
    }
    assert!(!set.contains(&"poneyland"));
    assert_eq!(set.len(), 0);
}

#[test]
fn vacant_insert() {
    let mut set: HashSet<&str> = HashSet::new();
    if let RustcEntry::Vacant(o) = set.rustc_entry("poneyland") {
        o.insert();
    } else {
        panic!("expected a vacant entry");
    }
    assert!(set.contains(&"poneyland"));
    assert_eq!(set.len(), 1);
}

#[test]
fn vacant_insert_entry() {
    let mut set: HashSet<&str> = HashSet::new();
    if let RustcEntry::Vacant(v) = set.rustc_entry("poneyland") {
        let o = v.insert_entry();
        assert_eq!(o.get(), &"poneyland");
    } else {
        panic!("expected a vacant entry");
    }
    assert!(set.contains(&"poneyland"));
}

#[test]
fn new_value_is_vacant_then_held() {
    let mut set: HashSet<u32> = HashSet::new();
    set.rustc_entry(1).or_insert();
    set.rustc_entry(2).or_insert();
    let before = set.len();
    match set.rustc_entry(7) {
        RustcEntry::Vacant(v) => v.insert(),
        RustcEntry::Occupied(_) => panic!("expected a vacant entry"),
    }
    assert!(set.contains(&7));
    assert_eq!(set.len(), before + 1);
}

#[test]
fn held_value_is_occupied_and_or_insert_is_no_op() {
    let mut set: HashSet<u32> = HashSet::new();
    set.rustc_entry(5).or_insert();
    set.rustc_entry(6).or_insert();
    let entry = set.rustc_entry(5);
    assert!(matches!(entry, RustcEntry::Occupied(_)));
    entry.or_insert();
    assert_eq!(set.len(), 2);
    assert!(set.contains(&5) && set.contains(&6));
}

#[test]
fn or_insert_twice_matches_once() {
    let mut once: HashSet<u32> = HashSet::new();
    let mut twice: HashSet<u32> = HashSet::new();
    once.rustc_entry(3).or_insert();
    twice.rustc_entry(3).or_insert();
    twice.rustc_entry(3).or_insert();
    assert_eq!(once.len(), twice.len());
    assert!(once.contains(&3) && twice.contains(&3));
}

#[test]
fn insert_entry_then_remove_round_trip() {
    let mut set: HashSet<&str> = HashSet::new();
    set.rustc_entry("other").or_insert();
    match set.rustc_entry("v") {
        RustcEntry::Vacant(v) => assert_eq!(v.insert_entry().remove(), "v"),
        RustcEntry::Occupied(_) => panic!("expected a vacant entry"),
    }
    assert!(!set.contains(&"v"));
    assert!(set.contains(&"other"));
    assert_eq!(set.len(), 1);
}

#[test]
fn scenario_insert_third_value() {
    let mut set: HashSet<&str> = HashSet::new();
    set.rustc_entry("a").or_insert();
    set.rustc_entry("b").or_insert();
    let entry = set.rustc_entry("c");
    assert!(matches!(entry, RustcEntry::Vacant(_)));
    let occupied = entry.insert();
    assert_eq!(occupied.get(), &"c");
    assert!(set.contains(&"a") && set.contains(&"b") && set.contains(&"c"));
    assert_eq!(set.len(), 3);
}

#[test]
fn scenario_remove_only_value() {
    let mut set: HashSet<&str> = HashSet::new();
    set.rustc_entry("a").or_insert();
    match set.rustc_entry("a") {
        RustcEntry::Occupied(o) => assert_eq!(o.remove(), "a"),
        RustcEntry::Vacant(_) => panic!("expected an occupied entry"),
    }
    assert!(!set.contains(&"a"));
    assert_eq!(set.len(), 0);
}

#[test]
fn scenario_or_insert_twice_on_empty() {
    let mut set: HashSet<&str> = HashSet::new();
    set.rustc_entry("x").or_insert();
    set.rustc_entry("x").or_insert();
    assert!(set.contains(&"x"));
    assert_eq!(set.len(), 1);
}

#[test]
fn insert_on_occupied_keeps_stored_value() {
    let mut set: HashSet<Rc<String>> = HashSet::new();
    let stored = Rc::new("k".to_string());
    set.rustc_entry(stored.clone()).or_insert();
    let occupied = set.rustc_entry(Rc::new("k".to_string())).insert();
    assert!(Rc::ptr_eq(occupied.get(), &stored));
    assert_eq!(set.len(), 1);
}
