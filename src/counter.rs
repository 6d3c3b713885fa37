use vstd::prelude::*;

use crate::key::{is_quit_key, Key};

verus! {

/// The state of the counter, as seen by contracts.
pub struct CounterView {
    pub value: nat,
    pub exit: bool,
}

/// The simpler variant of the application: a single counter that Left and
/// Right move down and up, saturating at both ends of `u8`.
#[derive(Debug)]
pub struct Counter {
    value: u8,
    exit: bool,
}

/// The counter after a key press.
pub open spec fn counter_key_step(s: CounterView, key: Key) -> CounterView {
    if is_quit_key(key) {
        CounterView { exit: true, ..s }
    } else {
        match key {
            Key::Left => CounterView { value: if s.value > 0 { (s.value - 1) as nat } else { 0 }, ..s },
            Key::Right => CounterView { value: if s.value < 255 { s.value + 1 } else { 255 }, ..s },
            _ => s,
        }
    }
}

/// Right at 255 stays at 255 and Left at 0 stays at 0: the counter never
/// wraps around.
pub proof fn lemma_counter_saturates(s: CounterView)
    ensures
        s.value == 255 ==> counter_key_step(s, Key::Right).value == 255,
        s.value == 0 ==> counter_key_step(s, Key::Left).value == 0,
        s.value < 255 ==> counter_key_step(s, Key::Right).value == s.value + 1,
        s.value > 0 ==> counter_key_step(s, Key::Left).value == s.value - 1,
{
}

impl View for Counter {
    type V = CounterView;

    closed spec fn view(&self) -> CounterView {
        CounterView { value: self.value as nat, exit: self.exit }
    }
}

impl Default for Counter {
    fn default() -> (r: Self)
        ensures
            r@ == (CounterView { value: 0, exit: false }),
    {
        Counter { value: 0, exit: false }
    }
}

impl Counter {
    /// Adds one, staying at 255.
    pub fn increment(&mut self)
        ensures
            final(self)@ == counter_key_step(old(self)@, Key::Right),
    {
        if self.value < 255 {
            self.value += 1;
        }
    }

    /// Subtracts one, staying at 0.
    pub fn decrement(&mut self)
        ensures
            final(self)@ == counter_key_step(old(self)@, Key::Left),
    {
        if self.value > 0 {
            self.value -= 1;
        }
    }

    /// Applies a key press: quit keys set the exit flag, Right and Left move
    /// the counter; any other key changes nothing.
    pub fn handle_key(&mut self, key: Key)
        ensures
            final(self)@ == counter_key_step(old(self)@, key),
    {
        match key {
            Key::Char(c) => {
                if c == 'q' || c == 'b' {
                    self.exit = true;
                }
            },
            Key::Left => self.decrement(),
            Key::Right => self.increment(),
            _ => {},
        }
    }

    /// The counter's value.
    pub fn value(&self) -> (r: u8)
        ensures
            r as nat == self@.value,
    {
        self.value
    }

    /// Whether the counter has been asked to quit.
    pub fn exit(&self) -> (r: bool)
        ensures
            r == self@.exit,
    {
        self.exit
    }
}

} // verus!
