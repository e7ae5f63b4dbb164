//! The series that an analysis returns.

use vstd::prelude::*;

verus! {

/// Result of a response analysis: four series over the time steps.
///
/// `x`, `v` and `a` start with the state at time zero and then hold one entry
/// for each step taken. `abs_acc` holds one entry for each step taken, so it
/// is one shorter: `abs_acc[i]` belongs to the step from entry `i` to entry
/// `i + 1` of the other three.
#[derive(Debug)]
pub struct Result<T> {
    /// Response displacement
    pub x: Vec<T>,
    /// Response velocity
    pub v: Vec<T>,
    /// Response acceleration, relative to the ground
    pub a: Vec<T>,
    /// Absolute response acceleration
    pub abs_acc: Vec<T>,
}

/// The mathematical content of a [`Result`]: its four series as sequences.
pub struct Series<T> {
    pub x: Seq<T>,
    pub v: Seq<T>,
    pub a: Seq<T>,
    pub abs_acc: Seq<T>,
}

impl<T> View for Result<T> {
    type V = Series<T>;

    open spec fn view(&self) -> Series<T> {
        Series { x: self.x@, v: self.v@, a: self.a@, abs_acc: self.abs_acc@ }
    }
}

impl<T> Series<T> {
    /// The number of steps that the series record.
    pub open spec fn steps(self) -> nat {
        self.abs_acc.len()
    }

    /// The three state series have one entry more than there are steps, the
    /// absolute acceleration has one entry per step.
    pub open spec fn aligned(self) -> bool {
        &&& self.x.len() == self.steps() + 1
        &&& self.v.len() == self.steps() + 1
        &&& self.a.len() == self.steps() + 1
    }
}

} // verus!
