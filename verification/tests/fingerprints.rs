use atm::{hash, Key};
use std::collections::hash_map::DefaultHasher;
use std::hash::{Hash, Hasher};

fn by_default_hasher(keys: &Vec<Key>) -> u64 {
    let mut hasher = DefaultHasher::new();
    keys.hash(&mut hasher);
    hasher.finish()
}

#[test]
fn hash_is_what_a_fresh_default_hasher_gives() {
    let samples = [
        Vec::new(),
        vec![Key::One],
        vec![Key::Enter],
        vec![Key::One, Key::Two, Key::Three, Key::Four],
        vec![Key::Three, Key::Three, Key::Three, Key::Three],
        vec![Key::Four; 30],
    ];
    for keys in samples.iter() {
        assert_eq!(hash(keys), by_default_hasher(keys));
    }
}

#[test]
fn hash_of_equal_sequences_is_equal() {
    let pin = vec![Key::One, Key::Two, Key::Three, Key::Four];
    let again = vec![Key::One, Key::Two, Key::Three, Key::Four];
    assert_eq!(hash(&pin), hash(&again));
    assert_eq!(hash(&pin), hash(&pin.clone()));
}

#[test]
fn hash_tells_these_sequences_apart() {
    let pin: u64 = hash(&vec![Key::One, Key::Two, Key::Three, Key::Four]);
    assert_ne!(pin, hash(&vec![Key::Three, Key::Three, Key::Three, Key::Three]));
    assert_ne!(pin, hash(&vec![Key::Four, Key::Three, Key::Two, Key::One]));
    assert_ne!(pin, hash(&vec![Key::One, Key::Two, Key::Three]));
    assert_ne!(pin, hash(&Vec::new()));
}
