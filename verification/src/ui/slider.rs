//! An integer slider: a value kept within its bounds.
use vstd::prelude::*;

verus! {

/// A value between `min` and `max` that moves in whole steps.
#[derive(Debug, Clone, Copy, PartialEq, Eq, Structural)]
pub struct Slider {
    value: u32,
    min: u32,
    max: u32,
}

pub open spec fn clamp_to(v: int, min: u32, max: u32) -> u32 {
    if v < min {
        min
    } else if v > max {
        max
    } else {
        v as u32
    }
}

impl Slider {
    #[verifier::type_invariant]
    spec fn wf(self) -> bool {
        self.min <= self.value <= self.max
    }

    pub closed spec fn spec_value(self) -> u32 {
        self.value
    }

    pub closed spec fn spec_min(self) -> u32 {
        self.min
    }

    pub closed spec fn spec_max(self) -> u32 {
        self.max
    }

    /// A slider at `value`, clamped to `min..=max`.
    pub fn new(value: u32, min: u32, max: u32) -> (s: Slider)
        requires
            min <= max,
        ensures
            s.spec_value() == clamp_to(value as int, min, max),
            s.spec_min() == min,
            s.spec_max() == max,
    {
        let v = if value < min {
            min
        } else if value > max {
            max
        } else {
            value
        };
        Slider { value: v, min, max }
    }

    pub fn value(&self) -> (v: u32)
        ensures
            v == self.spec_value(),
            self.spec_min() <= v <= self.spec_max(),
    {
        proof {
            use_type_invariant(self);
        }
        self.value
    }

    /// Moves to `value`, clamped to the bounds.
    pub fn set_value(&mut self, value: u32)
        ensures
            final(self).spec_value() == clamp_to(value as int, old(self).spec_min(), old(self).spec_max()),
            final(self).spec_min() == old(self).spec_min(),
            final(self).spec_max() == old(self).spec_max(),
    {
        proof {
            use_type_invariant(&*self);
        }
        let v = if value < self.min {
            self.min
        } else if value > self.max {
            self.max
        } else {
            value
        };
        self.value = v;
    }

    /// Moves up by `step`, stopping at the maximum.
    pub fn increase(&mut self, step: u32)
        ensures
            final(self).spec_value() == clamp_to(
                old(self).spec_value() + step,
                old(self).spec_min(),
                old(self).spec_max(),
            ),
            final(self).spec_min() == old(self).spec_min(),
            final(self).spec_max() == old(self).spec_max(),
    {
        proof {
            use_type_invariant(&*self);
        }
        let v = if step > self.max - self.value {
            self.max
        } else {
            self.value + step
        };
        self.value = v;
    }

    /// Moves down by `step`, stopping at the minimum.
    pub fn decrease(&mut self, step: u32)
        ensures
            final(self).spec_value() == clamp_to(
                old(self).spec_value() - step,
                old(self).spec_min(),
                old(self).spec_max(),
            ),
            final(self).spec_min() == old(self).spec_min(),
            final(self).spec_max() == old(self).spec_max(),
    {
        proof {
            use_type_invariant(&*self);
        }
        let v = if step > self.value - self.min {
            self.min
        } else {
            self.value - step
        };
        self.value = v;
    }
}

} // verus!
