use keyboard::KeyCode;
use std::collections::hash_map::DefaultHasher;
use std::collections::HashSet;
use std::hash::{Hash, Hasher};

fn unit_keys() -> Vec<KeyCode> {
    vec![
        KeyCode::Backspace,
        KeyCode::Enter,
        KeyCode::Left,
        KeyCode::Right,
        KeyCode::Up,
        KeyCode::Down,
        KeyCode::Home,
        KeyCode::End,
        KeyCode::PageUp,
        KeyCode::PageDown,
        KeyCode::Tab,
        KeyCode::BackTab,
        KeyCode::Delete,
        KeyCode::Insert,
        KeyCode::Null,
        KeyCode::Esc,
    ]
}

fn key_hash(key_code: KeyCode) -> u64 {
    let mut hasher = DefaultHasher::new();
    key_code.hash(&mut hasher);
    hasher.finish()
}

#[test]
fn unit_keys_are_pairwise_different() {
    let keys = unit_keys();
    assert_eq!(keys.len(), 16);
    for (i, a) in keys.iter().enumerate() {
        for (j, b) in keys.iter().enumerate() {
            assert_eq!(a == b, i == j);
        }
    }
    let distinct: HashSet<KeyCode> = keys.into_iter().collect();
    assert_eq!(distinct.len(), 16);
}

#[test]
fn keys_with_payload_are_equal_iff_payload_matches() {
    assert_eq!(KeyCode::F(1), KeyCode::F(1));
    assert_ne!(KeyCode::F(1), KeyCode::F(2));
    assert_eq!(KeyCode::Char('c'), KeyCode::Char('c'));
    assert_ne!(KeyCode::Char('c'), KeyCode::Char('C'));
    assert_ne!(KeyCode::F(0), KeyCode::Char('\0'));
    assert_ne!(KeyCode::Char('\0'), KeyCode::Null);
    assert_ne!(KeyCode::Char('\u{1b}'), KeyCode::Esc);
    assert_ne!(KeyCode::Char('\t'), KeyCode::Tab);
}

#[test]
fn equal_keys_have_equal_hashes() {
    assert_eq!(key_hash(KeyCode::Enter), key_hash(KeyCode::Enter));
    assert_eq!(key_hash(KeyCode::F(12)), key_hash(KeyCode::F(12)));
    assert_eq!(key_hash(KeyCode::Char('q')), key_hash(KeyCode::Char('q')));
}

#[test]
fn keys_are_ordered_by_variant_then_payload() {
    assert!(KeyCode::Backspace < KeyCode::Enter);
    assert!(KeyCode::Insert < KeyCode::F(0));
    assert!(KeyCode::F(255) < KeyCode::Char('\0'));
    assert!(KeyCode::Char(char::MAX) < KeyCode::Null);
    assert!(KeyCode::Null < KeyCode::Esc);
    assert!(KeyCode::F(1) < KeyCode::F(2));
    assert!(KeyCode::Char('a') < KeyCode::Char('b'));
}

#[test]
fn function_key_index_is_not_validated() {
    assert!(matches!(KeyCode::F(0), KeyCode::F(0)));
    assert!(matches!(KeyCode::F(255), KeyCode::F(255)));
}

#[test]
fn keys_are_copied_and_printed() {
    let key_code = KeyCode::Char('x');
    let copy = key_code;
    assert_eq!(key_code, copy);
    assert_eq!(key_code.clone(), copy);
    assert_eq!(format!("{:?}", KeyCode::PageDown), "PageDown");
    assert_eq!(format!("{:?}", KeyCode::F(5)), "F(5)");
    assert_eq!(format!("{:?}", key_code), "Char('x')");
}
