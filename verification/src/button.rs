//! Debouncing of a push button that is sampled in a busy loop.

use vstd::prelude::*;

verus! {

/// The number of consecutive samples with the button down that make a press.
pub const PRESS_SAMPLES: u32 = 1250;

/// A push button, by the number of consecutive samples that found it down
/// since it was last up or last reported as pressed.
pub struct Button {
    debouncer: u32,
}

impl Button {
    /// The number of consecutive samples counted towards the next press.
    pub closed spec fn count(&self) -> nat {
        self.debouncer as nat
    }

    /// A press is reported, and the count starts over, as soon as the count
    /// would reach `PRESS_SAMPLES`: it stays below.
    #[verifier::type_invariant]
    pub closed spec fn inv(&self) -> bool {
        self.debouncer < PRESS_SAMPLES
    }

    /// The count of every button that upholds its invariant is below
    /// `PRESS_SAMPLES`.
    pub proof fn lemma_count_bounded(self)
        requires
            self.inv(),
        ensures
            self.count() < PRESS_SAMPLES,
    {
    }

    /// A button that has not been sampled yet.
    pub fn new() -> (button: Button)
        ensures
            button.count() == 0,
    {
        Button { debouncer: 0 }
    }

    /// Takes one sample: `low` says that the pin reads low, which is the
    /// button held down. Returns `true` on every `PRESS_SAMPLES`-th
    /// consecutive such sample and starts counting anew; a sample with the
    /// button up starts counting anew as well.
    pub fn is_pressed(&mut self, low: bool) -> (pressed: bool)
        ensures
            pressed <==> low && old(self).count() + 1 == PRESS_SAMPLES,
            final(self).count() == if low && !pressed {
                old(self).count() + 1
            } else {
                0
            },
    {
        proof {
            use_type_invariant(&*self);
        }
        if low {
            let count: u32 = self.debouncer + 1;
            if count >= PRESS_SAMPLES {
                self.debouncer = 0;
                return true;
            }
            self.debouncer = count;
        } else {
            self.debouncer = 0;
        }
        false
    }
}

} // verus!
