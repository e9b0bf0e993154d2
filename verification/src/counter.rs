//! The counter: a number that a button raises by one, shown in a field.
use vstd::prelude::*;
use crate::text::{nat_text, push_nat};

verus! {

/// The count shown by the counter.
pub struct Counter {
    value: u8,
}

impl View for Counter {
    type V = nat;

    closed spec fn view(&self) -> nat {
        self.value as nat
    }
}

impl Counter {
    /// A counter at zero.
    pub fn new() -> (c: Self)
        ensures
            c@ == 0,
    {
        Counter { value: 0 }
    }

    /// The count.
    pub fn value(&self) -> (v: u8)
        ensures
            v == self@,
    {
        self.value
    }

    /// Raises the count by one. The count is a byte: it stops at 255.
    pub fn increment(&mut self)
        requires
            old(self)@ < 255,
        ensures
            final(self)@ == old(self)@ + 1,
    {
        self.value = self.value + 1;
    }

    /// The text of the count's field: its decimal numeral.
    pub fn text(&self) -> (s: String)
        ensures
            s@ == nat_text(self@),
    {
        let mut s = String::new();
        push_nat(&mut s, self.value as u64);
        s
    }
}

} // verus!
