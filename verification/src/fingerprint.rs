//! Fingerprints of key sequences. A card carries the fingerprint of its PIN;
//! the machine compares fingerprints and never holds a PIN itself.

use crate::keypad::Key;
use std::collections::hash_map::DefaultHasher;
use std::hash::{BuildHasher, BuildHasherDefault};
use vstd::prelude::*;

verus! {

/// The fingerprint of a sequence of keys: the 64 bits that std's
/// `DefaultHasher`, as `DefaultHasher::new()` makes it, gives for a `Vec` of
/// these keys. Its value is not stated here, only that equal sequences have
/// equal fingerprints.
pub uninterp spec fn pin_fingerprint(keys: Seq<Key>) -> u64;

/// Calls `std::hash::BuildHasher::hash_one` on a
/// `BuildHasherDefault<DefaultHasher>`: a fresh `DefaultHasher`, which has no
/// seed, is fed `keys` through their `Hash` impl and then finished. Not
/// proved: that the result depends on the keys alone, which is what equating
/// it with `pin_fingerprint(keys@)` says.
#[verifier::external_body]
fn default_hash_of(keys: &Vec<Key>) -> (h: u64)
    ensures
        h == pin_fingerprint(keys@),
{
    BuildHasherDefault::<DefaultHasher>::default().hash_one(keys)
}

/// The fingerprint of `keys`.
pub fn hash(keys: &Vec<Key>) -> (h: u64)
    ensures
        h == pin_fingerprint(keys@),
{
    default_hash_of(keys)
}

} // verus!
