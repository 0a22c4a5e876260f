//! The keypad: its keys, and the number that a run of key presses spells.

use vstd::prelude::*;

verus! {

/// The keys on the keypad.
#[derive(Hash, Debug, PartialEq, Eq, Clone, Copy, Structural)]
pub enum Key {
    One,
    Two,
    Three,
    Four,
    Enter,
}

impl Key {
    /// The decimal digit printed on the key. `Enter` carries none.
    pub open spec fn digit_value(self) -> Option<u64> {
        match self {
            Key::One => Some(1),
            Key::Two => Some(2),
            Key::Three => Some(3),
            Key::Four => Some(4),
            Key::Enter => None,
        }
    }

    /// Whether the key is one of the four digit keys.
    pub open spec fn is_digit(self) -> bool {
        self != Key::Enter
    }

    /// The decimal digit printed on the key, `None` for `Enter`.
    pub fn digit(&self) -> (d: Option<u64>)
        ensures
            d == self.digit_value(),
    {
        match self {
            Key::One => Some(1),
            Key::Two => Some(2),
            Key::Three => Some(3),
            Key::Four => Some(4),
            Key::Enter => None,
        }
    }
}

/// The number that `keys` spell in base ten, read left to right. An `Enter`
/// among them adds no digit. No keys at all spell zero.
pub open spec fn spelled_number(keys: Seq<Key>) -> nat
    decreases keys.len(),
{
    if keys.len() == 0 {
        0
    } else {
        let front = spelled_number(keys.drop_last());
        match keys.last().digit_value() {
            Some(d) => 10 * front + d as nat,
            None => front,
        }
    }
}

/// The amount that `keys` ask for: the number they spell where a `u64` holds
/// it, and zero where it does not. Zero is a request for nothing.
pub open spec fn requested_amount(keys: Seq<Key>) -> nat {
    if spelled_number(keys) <= u64::MAX {
        spelled_number(keys)
    } else {
        0
    }
}

/// A longer run of keys never spells a smaller number than its beginning.
pub proof fn lemma_spelled_number_grows(keys: Seq<Key>, n: int)
    requires
        0 <= n <= keys.len(),
    ensures
        spelled_number(keys.take(n)) <= spelled_number(keys),
    decreases keys.len(),
{
    if n == keys.len() {
        assert(keys.take(n) =~= keys);
    } else {
        assert(keys.drop_last().take(n) =~= keys.take(n));
        lemma_spelled_number_grows(keys.drop_last(), n);
    }
}

/// Reads the keys as a withdrawal amount.
pub fn parse_amount(keys: &Vec<Key>) -> (amount: u64)
    ensures
        amount == requested_amount(keys@),
{
    let mut amount: u64 = 0;
    let mut i: usize = 0;
    while i < keys.len()
        invariant
            i <= keys.len(),
            amount == spelled_number(keys@.take(i as int)),
        decreases keys.len() - i,
    {
        proof {
            assert(keys@.take(i + 1).drop_last() =~= keys@.take(i as int));
            lemma_spelled_number_grows(keys@, i + 1);
        }
        if let Some(d) = keys[i].digit() {
            let shifted: u64 = match amount.checked_mul(10) {
                Some(s) => s,
                None => { return 0; },
            };
            amount = match shifted.checked_add(d) {
                Some(a) => a,
                None => { return 0; },
            };
        }
        i += 1;
    }
    assert(keys@.take(i as int) =~= keys@);
    amount
}

} // verus!
