//! The errors that the library reports.

use vstd::prelude::*;

verus! {

/// Why an operation of the library failed.
#[derive(Clone, Copy, Debug, PartialEq, Eq, Hash, Structural)]
pub enum LorError {
    /// The text does not denote a card.
    InvalidCardCode,
}

} // verus!
