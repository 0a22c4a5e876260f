//! What holds of the transition function on every state, stated over the
//! model that `Atm::next_state` is specified by.

use crate::fingerprint::pin_fingerprint;
use crate::keypad::{requested_amount, spelled_number, Key};
use crate::machine::{Action, AtmView, Auth};
use vstd::math::min;
use vstd::prelude::*;

verus! {

/// Keys pressed before a card is swiped are ignored.
pub proof fn lemma_waiting_ignores_keys(s: AtmView, key: Key)
    requires
        s.phase is Waiting,
    ensures
        s.next(Action::PressKey(key)) == s,
{
}

/// A card swiped at a waiting machine opens a session for the card's
/// fingerprint. Cash and register stay as they were.
pub proof fn lemma_swipe_opens_session(s: AtmView, expected: u64)
    requires
        s.phase is Waiting,
    ensures
        s.next(Action::SwipeCard(expected)).phase == Auth::Authenticating(expected),
        s.next(Action::SwipeCard(expected)).cash_inside == s.cash_inside,
        s.next(Action::SwipeCard(expected)).register == s.register,
{
}

/// Once a session has begun, a card swiped is ignored, whatever fingerprint
/// it carries.
pub proof fn lemma_session_ignores_swipe(s: AtmView, fingerprint: u64)
    requires
        s.phase !is Waiting,
    ensures
        s.next(Action::SwipeCard(fingerprint)) == s,
{
}

/// `Enter` while a PIN is awaited ends the entry with an empty register and
/// the cash untouched: authenticated if and only if the keys in the register
/// have the card's fingerprint, and waiting for a card otherwise.
pub proof fn lemma_enter_submits_pin(s: AtmView, expected: u64)
    requires
        s.phase == Auth::Authenticating(expected),
    ensures
        s.next(Action::PressKey(Key::Enter)).register == Seq::<Key>::empty(),
        s.next(Action::PressKey(Key::Enter)).cash_inside == s.cash_inside,
        s.next(Action::PressKey(Key::Enter)).phase is Authenticated <==> pin_fingerprint(
            s.register,
        ) == expected,
        s.next(Action::PressKey(Key::Enter)).phase is Waiting <==> pin_fingerprint(s.register)
            != expected,
{
}

/// `Enter` at an authenticated machine hands out the requested amount, or
/// all the cash where that is less, and ends the session with an empty
/// register. The requested amount is the number that the register spells,
/// as long as a `u64` holds that number.
pub proof fn lemma_enter_withdraws(s: AtmView)
    requires
        s.phase is Authenticated,
    ensures
        s.next(Action::PressKey(Key::Enter)).phase is Waiting,
        s.next(Action::PressKey(Key::Enter)).register == Seq::<Key>::empty(),
        s.next(Action::PressKey(Key::Enter)).cash_inside == s.cash_inside - min(
            requested_amount(s.register) as int,
            s.cash_inside as int,
        ),
        spelled_number(s.register) <= u64::MAX ==> s.next(
            Action::PressKey(Key::Enter),
        ).cash_inside == s.cash_inside - min(
            spelled_number(s.register) as int,
            s.cash_inside as int,
        ),
{
}

/// The requested amount is the number that the register spells, as long as
/// a `u64` holds that number; a number beyond it is a request for nothing.
pub proof fn lemma_requested_amount(keys: Seq<Key>)
    ensures
        spelled_number(keys) <= u64::MAX ==> requested_amount(keys) == spelled_number(keys),
        spelled_number(keys) > u64::MAX ==> requested_amount(keys) == 0,
        requested_amount(keys) <= u64::MAX,
{
}

/// One more digit key shifts the spelled number by a decimal place and adds
/// the digit.
pub proof fn lemma_spelled_number_push(keys: Seq<Key>, key: Key)
    ensures
        key.digit_value() matches Some(d) ==> spelled_number(keys.push(key)) == 10
            * spelled_number(keys) + d,
        key.digit_value() is None ==> spelled_number(keys.push(key)) == spelled_number(keys),
{
    assert(keys.push(key).drop_last() =~= keys);
}

/// A digit key pressed during a session is added at the end of the register.
/// Phase and cash stay as they were.
pub proof fn lemma_digit_is_appended(s: AtmView, key: Key)
    requires
        s.phase !is Waiting,
        key.is_digit(),
    ensures
        s.next(Action::PressKey(key)) == s.with_key(key),
{
}

/// Events taken in two runs lead where they lead in one.
pub proof fn lemma_run_concat(s: AtmView, first: Seq<Action>, second: Seq<Action>)
    ensures
        s.run(first + second) == s.run(first).run(second),
    decreases second.len(),
{
    if second.len() == 0 {
        assert(first + second =~= first);
    } else {
        assert((first + second).drop_last() =~= first + second.drop_last());
        lemma_run_concat(s, first, second.drop_last());
    }
}

/// Digit keys pressed during a session pile up in the register in the order
/// in which they were pressed. Phase and cash stay as they were.
pub proof fn lemma_digits_accumulate(s: AtmView, digits: Seq<Key>)
    requires
        s.phase !is Waiting,
        forall|i: int| 0 <= i < digits.len() ==> digits[i].is_digit(),
    ensures
        s.run(AtmView::presses(digits)).register == s.register + digits,
        s.run(AtmView::presses(digits)).phase == s.phase,
        s.run(AtmView::presses(digits)).cash_inside == s.cash_inside,
    decreases digits.len(),
{
    if digits.len() == 0 {
        assert(s.register + digits =~= s.register);
    } else {
        let front = digits.drop_last();
        assert(AtmView::presses(digits).drop_last() =~= AtmView::presses(front));
        lemma_digits_accumulate(s, front);
        assert((s.register + front).push(digits.last()) =~= s.register + digits);
    }
}

/// Digits keyed in one go leave the register that they leave when keyed in
/// two goes.
pub proof fn lemma_digits_in_two_goes(s: AtmView, first: Seq<Key>, second: Seq<Key>)
    requires
        s.phase !is Waiting,
        forall|i: int| 0 <= i < first.len() ==> first[i].is_digit(),
        forall|i: int| 0 <= i < second.len() ==> second[i].is_digit(),
    ensures
        s.run(AtmView::presses(first + second)) == s.run(AtmView::presses(first)).run(
            AtmView::presses(second),
        ),
        s.run(AtmView::presses(first + second)).register == s.register + first + second,
{
    assert(AtmView::presses(first + second) =~= AtmView::presses(first) + AtmView::presses(
        second,
    ));
    lemma_run_concat(s, AtmView::presses(first), AtmView::presses(second));
    lemma_digits_accumulate(s, first + second);
    assert(s.register + (first + second) =~= s.register + first + second);
}

/// No event puts cash into the machine.
pub proof fn lemma_cash_never_grows(s: AtmView, event: Action)
    ensures
        s.next(event).cash_inside <= s.cash_inside,
{
}

/// A well-formed state is followed by a well-formed state.
pub proof fn lemma_next_preserves_wf(s: AtmView, event: Action)
    requires
        s.wf(),
    ensures
        s.next(event).wf(),
{
}

/// Whatever the events, a well-formed state leads to a well-formed state
/// that holds no more cash.
pub proof fn lemma_run_preserves_wf(s: AtmView, events: Seq<Action>)
    requires
        s.wf(),
    ensures
        s.run(events).wf(),
        s.run(events).cash_inside <= s.cash_inside,
    decreases events.len(),
{
    if events.len() > 0 {
        lemma_run_preserves_wf(s, events.drop_last());
        lemma_next_preserves_wf(s.run(events.drop_last()), events.last());
        lemma_cash_never_grows(s.run(events.drop_last()), events.last());
    }
}

/// The machine becomes authenticated in one way only: `Enter` is pressed
/// while a PIN is awaited, and the keys in the register have the card's
/// fingerprint.
pub proof fn lemma_authenticated_only_by_pin(s: AtmView, event: Action)
    requires
        s.phase !is Authenticated,
        s.next(event).phase is Authenticated,
    ensures
        s.phase == Auth::Authenticating(pin_fingerprint(s.register)),
        event == Action::PressKey(Key::Enter),
{
}

} // verus!
