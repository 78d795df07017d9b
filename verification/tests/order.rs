use core::cmp::Ordering;
use maytrix_value::order::{compare_text, same_text};
use maytrix_value::Symbol;
use std::collections::{BTreeMap, BTreeSet};

fn symbol(text: &str) -> Symbol {
    Symbol::try_new(text).unwrap()
}

#[test]
fn compare_text_orders_by_first_difference() {
    assert_eq!(compare_text("alpha", "beta"), Ordering::Less);
    assert_eq!(compare_text("beta", "alpha"), Ordering::Greater);
    assert_eq!(compare_text("alpha0", "alpha_1"), Ordering::Less);
    assert_eq!(compare_text("alpha_1", "alpha0"), Ordering::Greater);
    assert_eq!(compare_text("abc", "abd"), Ordering::Less);
    assert_eq!(compare_text("abd", "abc"), Ordering::Greater);
    assert_eq!(compare_text("b", "abc"), Ordering::Greater);
}

#[test]
fn compare_text_puts_a_prefix_first() {
    assert_eq!(compare_text("alpha", "alpha0"), Ordering::Less);
    assert_eq!(compare_text("alpha0", "alpha"), Ordering::Greater);
    assert_eq!(compare_text("", "a"), Ordering::Less);
    assert_eq!(compare_text("a", ""), Ordering::Greater);
}

#[test]
fn compare_text_finds_equal_texts_equal() {
    assert_eq!(compare_text("", ""), Ordering::Equal);
    assert_eq!(compare_text("a", "a"), Ordering::Equal);
    assert_eq!(compare_text("alpha_1", "alpha_1"), Ordering::Equal);
    assert_eq!(compare_text("Bad-Name", "Bad-Name"), Ordering::Equal);
}

#[test]
fn compare_text_goes_by_code_point() {
    assert_eq!(compare_text("z", "é"), Ordering::Less);
    assert_eq!(compare_text("é", "z"), Ordering::Greater);
    assert_eq!(compare_text("Z", "a"), Ordering::Less);
    assert_eq!(compare_text("_", "a"), Ordering::Less);
    assert_eq!(compare_text("9", "_"), Ordering::Less);
    assert_eq!(compare_text("é", "€"), Ordering::Less);
    assert_eq!(compare_text("\u{ffff}", "\u{10000}"), Ordering::Less);
    assert_eq!(compare_text("aé", "aé"), Ordering::Equal);
}

#[test]
fn compare_text_agrees_with_the_order_of_str() {
    let texts = ["", "a", "a0", "a_", "aa", "ab", "b", "alpha", "alpha0", "alpha_1", "é", "z", "Z"];
    for a in texts {
        for b in texts {
            assert_eq!(compare_text(a, b), a.cmp(b));
            assert_eq!(same_text(a, b), a == b);
        }
    }
}

#[test]
fn same_text_compares_character_by_character() {
    assert!(same_text("", ""));
    assert!(same_text("delta_1", "delta_1"));
    assert!(!same_text("delta_1", "delta2"));
    assert!(!same_text("delta", "delta_1"));
    assert!(!same_text("delta_1", "delta"));
    assert!(!same_text("a", ""));
}

#[test]
fn symbols_are_ordered_as_their_text() {
    assert_eq!(symbol("alpha").partial_cmp(&symbol("alpha0")), Some(Ordering::Less));
    assert_eq!(symbol("alpha0").partial_cmp(&symbol("alpha_1")), Some(Ordering::Less));
    assert_eq!(symbol("alpha_1").partial_cmp(&symbol("beta")), Some(Ordering::Less));
    assert_eq!(symbol("beta").partial_cmp(&symbol("alpha")), Some(Ordering::Greater));
    assert_eq!(symbol("beta").partial_cmp(&symbol("beta")), Some(Ordering::Equal));
    assert!(symbol("a") < symbol("b"));
    assert!(symbol("a") <= symbol("a"));
    assert!(symbol("b2") > symbol("b1"));
    assert!(symbol("b") >= symbol("a_z"));
    assert!(!(symbol("b") < symbol("a")));
}

#[test]
fn both_comparisons_of_symbols_agree() {
    let texts = ["a", "a0", "a_", "aa", "ab", "b", "alpha", "alpha0", "alpha_1", "beta", "z9_"];
    for a in texts {
        for b in texts {
            let (x, y) = (symbol(a), symbol(b));
            assert_eq!(x.partial_cmp(&y), Some(x.cmp(&y)));
            assert_eq!(x.cmp(&y), a.cmp(b));
            assert_eq!(x.partial_cmp(&y), y.partial_cmp(&x).map(Ordering::reverse));
            assert_eq!(x.cmp(&y) == Ordering::Equal, x == y);
        }
    }
}

#[test]
fn order_of_symbols_is_transitive() {
    let texts = ["a", "a0", "a_", "aa", "b", "alpha", "alpha0", "beta"];
    for a in texts {
        for b in texts {
            for c in texts {
                let (x, y, z) = (symbol(a), symbol(b), symbol(c));
                if x < y && y < z {
                    assert!(x < z);
                }
            }
        }
    }
}

#[test]
fn ordered_containers_take_text_as_key() {
    let mut map = BTreeMap::new();
    map.insert(symbol("beta"), 2);
    map.insert(symbol("alpha"), 1);
    map.insert(symbol("alpha_1"), 3);
    assert_eq!(map.get("alpha"), Some(&1));
    assert_eq!(map.get("beta"), Some(&2));
    assert_eq!(map.get("alpha_1"), Some(&3));
    assert_eq!(map.get("gamma"), None);
    assert_eq!(map.get(&symbol("alpha")), Some(&1));
    let keys: Vec<&str> = map.keys().map(|k| k.as_str()).collect();
    assert_eq!(keys, vec!["alpha", "alpha_1", "beta"]);

    let mut set = BTreeSet::new();
    assert!(set.insert(symbol("task1")));
    assert!(!set.insert(symbol("task1")));
    assert!(set.contains("task1"));
    assert!(!set.contains("task2"));
}
