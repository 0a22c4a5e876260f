//! The machine: its state, the events it takes, and the transition function.

use crate::fingerprint::{hash, pin_fingerprint};
use crate::keypad::{parse_amount, requested_amount, Key};
use vstd::prelude::*;

verus! {

/// Something done to the machine.
#[derive(Debug, PartialEq, Eq, Clone, Copy, Structural)]
pub enum Action {
    /// A card is swiped. It carries the fingerprint of the PIN that is to be
    /// keyed in next.
    SwipeCard(u64),
    /// A key is pressed.
    PressKey(Key),
}

/// How far a session has come.
#[derive(Debug, PartialEq, Eq, Clone, Copy, Structural)]
pub enum Auth {
    /// No session. The machine waits for a card.
    Waiting,
    /// A card was swiped and gave this fingerprint. The machine waits for
    /// the PIN.
    Authenticating(u64),
    /// The PIN was right. The machine waits for the amount to hand out.
    Authenticated,
}

/// The machine's state. A transition takes one and gives the next; none is
/// changed in place.
#[derive(Debug, PartialEq, Eq)]
pub struct Atm {
    /// The cash in the machine.
    pub cash_inside: u64,
    /// How far the session has come.
    pub expected_pin_hash: Auth,
    /// The keys pressed since the last `Enter`.
    pub keystroke_register: Vec<Key>,
}

/// A machine state as a mathematical value.
pub struct AtmView {
    /// The cash in the machine.
    pub cash_inside: nat,
    /// How far the session has come.
    pub phase: Auth,
    /// The keys pressed since the last `Enter`, oldest first.
    pub register: Seq<Key>,
}

impl View for Atm {
    type V = AtmView;

    open spec fn view(&self) -> AtmView {
        AtmView {
            cash_inside: self.cash_inside as nat,
            phase: self.expected_pin_hash,
            register: self.keystroke_register@,
        }
    }
}

impl AtmView {
    /// What holds of every state that the machine reaches from a fresh one:
    /// while it waits for a card the register is empty, and the register
    /// never holds `Enter`.
    pub open spec fn wf(self) -> bool {
        &&& self.phase is Waiting ==> self.register.len() == 0
        &&& forall|i: int| 0 <= i < self.register.len() ==> self.register[i].is_digit()
    }

    /// The same state in another phase.
    pub open spec fn with_phase(self, phase: Auth) -> AtmView {
        AtmView { phase, ..self }
    }

    /// The same state with `key` added at the end of the register.
    pub open spec fn with_key(self, key: Key) -> AtmView {
        AtmView { register: self.register.push(key), ..self }
    }

    /// The same state with nothing in the register.
    pub open spec fn with_register_reset(self) -> AtmView {
        AtmView { register: Seq::empty(), ..self }
    }

    /// The state once a PIN has been submitted against the fingerprint
    /// `expected`, where the keys in the register have the fingerprint
    /// `entered`: authenticated if the two are equal, waiting for a card
    /// again if not. Either way the register is emptied and the cash stays.
    pub open spec fn after_pin_entry(self, expected: u64, entered: u64) -> AtmView {
        AtmView {
            cash_inside: self.cash_inside,
            phase: if entered == expected {
                Auth::Authenticated
            } else {
                Auth::Waiting
            },
            register: Seq::empty(),
        }
    }

    /// The cash that a request for `requested` hands out: all that was asked
    /// for, or all there is where that is less.
    pub open spec fn dispensed(self, requested: nat) -> nat {
        if requested <= self.cash_inside {
            requested
        } else {
            self.cash_inside
        }
    }

    /// The state once `requested` has been asked for: the machine holds
    /// what it held less what it handed out, and waits for a card with an
    /// empty register.
    pub open spec fn after_withdrawal(self, requested: nat) -> AtmView {
        AtmView {
            cash_inside: (self.cash_inside - self.dispensed(requested)) as nat,
            phase: Auth::Waiting,
            register: Seq::empty(),
        }
    }

    /// The events that press `keys` one after another.
    pub open spec fn presses(keys: Seq<Key>) -> Seq<Action> {
        keys.map_values(|key: Key| Action::PressKey(key))
    }

    /// The state that `events` lead to from `self`, taken in order.
    pub open spec fn run(self, events: Seq<Action>) -> AtmView
        decreases events.len(),
    {
        if events.len() == 0 {
            self
        } else {
            self.run(events.drop_last()).next(events.last())
        }
    }

    /// The transition function: the state that follows `self` on `event`.
    pub open spec fn next(self, event: Action) -> AtmView {
        match self.phase {
            Auth::Waiting => match event {
                Action::SwipeCard(expected) => self.with_phase(Auth::Authenticating(expected)),
                Action::PressKey(_) => self,
            },
            Auth::Authenticating(expected) => match event {
                Action::SwipeCard(_) => self,
                Action::PressKey(Key::Enter) => self.after_pin_entry(
                    expected,
                    pin_fingerprint(self.register),
                ),
                Action::PressKey(key) => self.with_key(key),
            },
            Auth::Authenticated => match event {
                Action::SwipeCard(_) => self,
                Action::PressKey(Key::Enter) => self.after_withdrawal(
                    requested_amount(self.register),
                ),
                Action::PressKey(key) => self.with_key(key),
            },
        }
    }
}

impl Clone for Atm {
    fn clone(&self) -> (copy: Self)
        ensures
            copy@ == self@,
    {
        let keys = self.keystroke_register.clone();
        assert(keys@ =~= self.keystroke_register@);
        Atm {
            cash_inside: self.cash_inside,
            expected_pin_hash: self.expected_pin_hash,
            keystroke_register: keys,
        }
    }
}

impl Atm {
    /// A machine that holds `cash_inside` and waits for a card.
    pub fn new(cash_inside: u64) -> (atm: Atm)
        ensures
            atm@.cash_inside == cash_inside,
            atm@.phase == Auth::Waiting,
            atm@.register == Seq::<Key>::empty(),
            atm@.wf(),
    {
        Atm { cash_inside, expected_pin_hash: Auth::Waiting, keystroke_register: Vec::new() }
    }

    /// The state with `key` added at the end of the register.
    pub fn add_key_to_register(&self, key: &Key) -> (next: Atm)
        ensures
            next@ == self@.with_key(*key),
    {
        let mut new_state = self.clone();
        new_state.keystroke_register.push(*key);
        new_state
    }

    /// Empties the register.
    pub fn reset_keystroke_register(&mut self)
        ensures
            final(self)@ == old(self)@.with_register_reset(),
    {
        self.keystroke_register.clear();
    }

    /// Whether the keys in the register have the fingerprint `pin_hash`.
    pub fn is_correct_pin(&self, pin_hash: &u64) -> (correct: bool)
        ensures
            correct == (pin_fingerprint(self@.register) == *pin_hash),
    {
        hash(&self.keystroke_register) == *pin_hash
    }

    /// Ends the session: the machine waits for a card again.
    pub fn reset_expected_pin_hash(&mut self)
        ensures
            final(self)@ == old(self)@.with_phase(Auth::Waiting),
    {
        self.expected_pin_hash = Auth::Waiting;
    }

    /// The state once a PIN has been submitted against the fingerprint
    /// `expected`, where `entered` is the fingerprint of the keys in the
    /// register.
    pub fn after_pin_entry(&self, expected: u64, entered: u64) -> (next: Atm)
        ensures
            next@ == self@.after_pin_entry(expected, entered),
    {
        let mut new_state = self.clone();
        new_state.reset_keystroke_register();
        new_state.reset_expected_pin_hash();
        if entered == expected {
            new_state.expected_pin_hash = Auth::Authenticated;
        }
        new_state
    }

    /// The state once `requested` has been asked for.
    pub fn after_withdrawal(&self, requested: u64) -> (next: Atm)
        ensures
            next@ == self@.after_withdrawal(requested as nat),
    {
        let mut new_state = self.clone();
        new_state.cash_inside = if requested > self.cash_inside {
            0
        } else {
            self.cash_inside - requested
        };
        new_state.reset_keystroke_register();
        new_state.reset_expected_pin_hash();
        new_state
    }

    /// The state that follows `starting_state` on `t`. Every state and every
    /// event has one; `starting_state` itself is left as it was.
    ///
    /// While the machine waits for a card, a swipe opens a session for the
    /// card's fingerprint and keys are ignored. During a session a swipe is
    /// ignored and a digit key goes to the end of the register. `Enter`
    /// submits the register: as a PIN while one is awaited, as the amount to
    /// hand out once the PIN was right.
    pub fn next_state(starting_state: &Atm, t: &Action) -> (next: Atm)
        ensures
            next@ == starting_state@.next(*t),
            // waiting for a card
            starting_state@.phase is Waiting && *t is PressKey ==> next@ == starting_state@,
            starting_state@.phase is Waiting && *t is SwipeCard ==> next@
                == starting_state@.with_phase(Auth::Authenticating(t->SwipeCard_0)),
            // during a session
            starting_state@.phase !is Waiting && *t is SwipeCard ==> next@ == starting_state@,
            starting_state@.phase !is Waiting && *t is PressKey && t->PressKey_0.is_digit()
                ==> next@ == starting_state@.with_key(t->PressKey_0),
            // the PIN is submitted
            starting_state@.phase is Authenticating && *t == Action::PressKey(Key::Enter)
                ==> next@ == starting_state@.after_pin_entry(
                starting_state@.phase->Authenticating_0,
                pin_fingerprint(starting_state@.register),
            ),
            // the amount is submitted
            starting_state@.phase is Authenticated && *t == Action::PressKey(Key::Enter)
                ==> next@ == starting_state@.after_withdrawal(
                requested_amount(starting_state@.register),
            ),
            // no cash appears, and a well-formed state stays well-formed
            next@.cash_inside <= starting_state@.cash_inside,
            starting_state@.wf() ==> next@.wf(),
    {
        match starting_state.expected_pin_hash {
            Auth::Waiting => match t {
                Action::SwipeCard(code_hash) => {
                    let mut new_state = starting_state.clone();
                    new_state.expected_pin_hash = Auth::Authenticating(*code_hash);
                    new_state
                },
                Action::PressKey(_) => starting_state.clone(),
            },
            Auth::Authenticating(pin_hash) => match t {
                Action::PressKey(Key::Enter) => {
                    let entered: u64 = hash(&starting_state.keystroke_register);
                    starting_state.after_pin_entry(pin_hash, entered)
                },
                Action::PressKey(key) => starting_state.add_key_to_register(key),
                Action::SwipeCard(_) => starting_state.clone(),
            },
            Auth::Authenticated => match t {
                Action::PressKey(Key::Enter) => {
                    let amount_to_withdraw: u64 = parse_amount(&starting_state.keystroke_register);
                    starting_state.after_withdrawal(amount_to_withdraw)
                },
                Action::PressKey(key) => starting_state.add_key_to_register(key),
                Action::SwipeCard(_) => starting_state.clone(),
            },
        }
    }
}

} // verus!
