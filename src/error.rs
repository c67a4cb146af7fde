use vstd::prelude::*;

verus! {

/// Failure of a PDU decode or encode.
#[derive(Debug, Clone, Copy, PartialEq, Eq)]
pub enum PduError {
    /// The input ended before the field named `field` could be read in full.
    NotEnoughBytes { field: &'static str, received: usize, expected: usize },
    /// The field named `field` held a value outside its closed code table.
    InvalidField { field: &'static str, reason: &'static str },
}

} // verus!
