//! Condition flags and the predicates that instructions carry.

use vstd::prelude::*;

verus! {

/// The condition flags that comparisons and arithmetic leave behind.
#[derive(Clone, Copy, Debug, PartialEq, Eq, Structural)]
pub struct Flags {
    /// Less than, or an overflow.
    pub lt_of: bool,
    /// Equal.
    pub eq: bool,
    /// Greater than.
    pub gt: bool,
}

impl Flags {
    pub fn new(lt_of: bool, eq: bool, gt: bool) -> (flags: Flags)
        ensures
            flags == (Flags { lt_of, eq, gt }),
    {
        Flags { lt_of, eq, gt }
    }
}

/// The condition under which an instruction runs.
#[derive(Clone, Copy, Debug, PartialEq, Eq, Structural, Hash)]
pub enum Predicate {
    Always,
    IfGT,
    IfEQ,
    IfLT,
    IfGE,
    IfLE,
    IfNotEQ,
    IfGTOrLT,
}

impl Predicate {
    /// Whether the predicate holds of the flags.
    pub open spec fn holds(self, flags: Flags) -> bool {
        match self {
            Predicate::Always => true,
            Predicate::IfGT => flags.gt,
            Predicate::IfEQ => flags.eq,
            Predicate::IfLT => flags.lt_of,
            Predicate::IfGE => flags.gt || flags.eq,
            Predicate::IfLE => flags.lt_of || flags.eq,
            Predicate::IfNotEQ => !flags.eq,
            Predicate::IfGTOrLT => flags.gt || flags.lt_of,
        }
    }

    /// Whether the predicate holds of the flags.
    pub fn satisfied(&self, flags: &Flags) -> (r: bool)
        ensures
            r == self.holds(*flags),
    {
        match self {
            Predicate::Always => true,
            Predicate::IfGT => flags.gt,
            Predicate::IfEQ => flags.eq,
            Predicate::IfLT => flags.lt_of,
            Predicate::IfGE => flags.gt || flags.eq,
            Predicate::IfLE => flags.lt_of || flags.eq,
            Predicate::IfNotEQ => !flags.eq,
            Predicate::IfGTOrLT => flags.gt || flags.lt_of,
        }
    }
}

impl Default for Predicate {
    fn default() -> (p: Predicate)
        ensures
            p == Predicate::Always,
    {
        Predicate::Always
    }
}

} // verus!
