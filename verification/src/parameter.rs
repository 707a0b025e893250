//! The automatable parameters of the instrument and their host numbering.
use vstd::prelude::*;

verus! {

/// The number of parameters the instrument exposes to the host.
pub const PARAMETER_COUNT: usize = 1;

/// The parameters of the instrument.
#[derive(PartialEq, Eq, Structural, Clone, Copy, Debug)]
pub enum Index {
    /// The attack time of a note.
    Attack,
}

impl Index {
    /// The number under which the host knows this parameter.
    pub open spec fn number(self) -> int {
        match self {
            Index::Attack => 0,
        }
    }

    /// The host's number for this parameter.
    pub fn as_i32(&self) -> (n: i32)
        ensures
            n == self.number(),
    {
        match self {
            Index::Attack => 0,
        }
    }
}

/// Every parameter's number is a valid slot of a parameter store made for
/// `PARAMETER_COUNT` parameters.
pub proof fn lemma_index_in_range(index: Index)
    ensures
        0 <= index.number() < PARAMETER_COUNT,
{
}

} // verus!
