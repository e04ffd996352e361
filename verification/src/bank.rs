//! The coil bank: one read transaction on the target board returns a row of
//! eight boolean coil states, indexed 0..=7, even when only one relay's state
//! is of interest. Callers extract the bit at their relay's position.

use vstd::prelude::*;

verus! {

/// Number of coils in one bank: a single read returns this many states,
/// starting at coil address 0.
pub const BANK_SIZE: usize = 8;

/// A row of exactly eight coil states as returned by one read transaction.
#[derive(Clone, Debug)]
pub struct CoilBank {
    coils: Vec<bool>,
}

impl View for CoilBank {
    type V = Seq<bool>;

    closed spec fn view(&self) -> Seq<bool> {
        self.coils@
    }
}

impl CoilBank {
    /// A bank is well formed when it holds exactly one coil state per
    /// position of the eight-coil row.
    pub open spec fn wf(&self) -> bool {
        self@.len() == BANK_SIZE
    }

    /// Packages the raw coil states of one read transaction into a bank.
    /// A response with any other number of coils is malformed (short or
    /// overlong) and is rejected before any bit is extracted.
    pub fn from_coils(coils: Vec<bool>) -> (r: Result<CoilBank, crate::errors::TransactionError>)
        ensures
            coils@.len() == BANK_SIZE ==> (r matches Ok(b) && b@ == coils@ && b.wf()),
            coils@.len() != BANK_SIZE ==> r is Err,
    {
        if coils.len() == BANK_SIZE {
            Ok(CoilBank { coils })
        } else {
            Err(crate::errors::TransactionError::MalformedResponse { coil_count: coils.len() })
        }
    }

    /// The state of the coil at `index` within the bank.
    pub fn bit(&self, index: u8) -> (r: bool)
        requires
            self.wf(),
            index < BANK_SIZE,
        ensures
            r == self@[index as int],
    {
        self.coils[index as usize]
    }
}

} // verus!
