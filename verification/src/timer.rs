//! The timer: elapsed time grows by a tenth of a second on each tick until
//! it reaches the chosen duration; a button sets it back to zero.
//!
//! Times are whole microseconds. The elapsed time only ever moves in steps
//! of one tenth of a second, so it is kept as a count of tenths.
use vstd::prelude::*;
use crate::text::{digit_char, nat_text, push_char, push_nat};

verus! {

/// One tick of the timer, in microseconds.
pub const TICK_MICROS: u64 = 100_000;

/// How close below the duration the elapsed time stops, in microseconds.
pub const STOP_MARGIN_MICROS: u64 = 10_000;

/// The duration a new timer runs for, in microseconds.
pub const DEFAULT_DURATION_MICROS: u64 = 15_000_000;

/// The longest duration the slider offers, in microseconds.
pub const MAXIMUM_DURATION_MICROS: u64 = 30_000_000;

/// The elapsed time and the duration of a timer.
pub struct Timer {
    elapsed_tenths: u64,
    duration_micros: u64,
}

/// A tick advances the timer while the duration exceeds the elapsed time by
/// at least the stop margin.
pub open spec fn tick_advances(elapsed_tenths: nat, duration_micros: nat) -> bool {
    elapsed_tenths * TICK_MICROS + STOP_MARGIN_MICROS <= duration_micros
}

/// The text of the elapsed time: seconds with one decimal, then `s`.
pub open spec fn elapsed_text(elapsed_tenths: nat) -> Seq<char> {
    nat_text(elapsed_tenths / 10) + seq!['.', digit_char((elapsed_tenths % 10) as int), 's']
}

impl Timer {
    /// Elapsed time in tenths of a second.
    pub closed spec fn tenths(&self) -> nat {
        self.elapsed_tenths as nat
    }

    /// Duration in microseconds.
    pub closed spec fn duration(&self) -> nat {
        self.duration_micros as nat
    }

    /// A timer at zero, set to run for the default duration.
    pub fn new() -> (t: Self)
        ensures
            t.tenths() == 0,
            t.duration() == DEFAULT_DURATION_MICROS,
    {
        Timer { elapsed_tenths: 0, duration_micros: DEFAULT_DURATION_MICROS }
    }

    /// The elapsed time in tenths of a second.
    pub fn elapsed_tenths(&self) -> (t: u64)
        ensures
            t == self.tenths(),
    {
        self.elapsed_tenths
    }

    /// The duration in microseconds.
    pub fn duration_micros(&self) -> (us: u64)
        ensures
            us == self.duration(),
    {
        self.duration_micros
    }

    /// Sets the elapsed time back to zero.
    pub fn reset(&mut self)
        ensures
            final(self).tenths() == 0,
            final(self).duration() == old(self).duration(),
    {
        self.elapsed_tenths = 0;
    }

    /// Sets the duration.
    pub fn change_duration(&mut self, micros: u64)
        ensures
            final(self).tenths() == old(self).tenths(),
            final(self).duration() == micros,
    {
        self.duration_micros = micros;
    }

    /// One tick of the clock: while the duration exceeds the elapsed time by
    /// the stop margin or more, the elapsed time grows by a tenth of a second
    /// and the new text of the elapsed time is returned; otherwise nothing
    /// changes and nothing is returned.
    pub fn tick(&mut self) -> (label: Option<String>)
        ensures
            final(self).duration() == old(self).duration(),
            tick_advances(old(self).tenths(), old(self).duration()) ==> {
                &&& final(self).tenths() == old(self).tenths() + 1
                &&& label matches Some(t) && t@ == elapsed_text(final(self).tenths())
            },
            !tick_advances(old(self).tenths(), old(self).duration()) ==> {
                &&& final(self).tenths() == old(self).tenths()
                &&& label is None
            },
            old(self).tenths() * TICK_MICROS + STOP_MARGIN_MICROS <= old(self).duration()
                ==> final(self).tenths() == old(self).tenths() + 1 && label is Some,
            old(self).tenths() * TICK_MICROS + STOP_MARGIN_MICROS > old(self).duration()
                ==> final(self).tenths() == old(self).tenths() && label is None,
    {
        if self.elapsed_tenths <= self.duration_micros / TICK_MICROS
            && self.elapsed_tenths * TICK_MICROS + STOP_MARGIN_MICROS <= self.duration_micros
        {
            self.elapsed_tenths = self.elapsed_tenths + 1;
            Some(self.label())
        } else {
            None
        }
    }

    /// The text of the elapsed time, as `12.3s`.
    pub fn label(&self) -> (t: String)
        ensures
            t@ == elapsed_text(self.tenths()),
    {
        let mut t = String::new();
        push_nat(&mut t, self.elapsed_tenths / 10);
        push_char(&mut t, '.');
        push_nat(&mut t, self.elapsed_tenths % 10);
        push_char(&mut t, 's');
        assert(t@ =~= elapsed_text(self.tenths()));
        t
    }
}

/// A timer that starts within its duration never runs past it by more than
/// one tick: after any tick, the elapsed time is at most the duration plus
/// a tenth of a second less the stop margin.
pub proof fn lemma_tick_bound(elapsed_tenths: nat, duration_micros: nat)
    requires
        tick_advances(elapsed_tenths, duration_micros),
    ensures
        (elapsed_tenths + 1) * TICK_MICROS <= duration_micros + TICK_MICROS - STOP_MARGIN_MICROS,
{
}

/// A tick advances exactly when the elapsed time lies at least the stop
/// margin (a hundredth of a second) below the duration, whatever the
/// duration: a timer set to run longer runs on, and one set shorter stops.
pub proof fn lemma_tick_advances_exactly(elapsed_tenths: nat, duration_micros: nat)
    ensures
        tick_advances(elapsed_tenths, duration_micros) <==> elapsed_tenths * 100_000 + 10_000 <= duration_micros,
        tick_advances(elapsed_tenths, duration_micros) ==> tick_advances(elapsed_tenths, duration_micros + 1),
        elapsed_tenths > 0 && tick_advances(elapsed_tenths, duration_micros)
            ==> tick_advances((elapsed_tenths - 1) as nat, duration_micros),
{
}

} // verus!
