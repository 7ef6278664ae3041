//! Error kinds surfaced by the core: failed enum parses and refused charges.

use vstd::prelude::*;

verus! {

/// Returned when a wire string does not name any variant of the enum
/// being parsed.
#[derive(Clone, Copy, Debug, PartialEq, Eq, Structural)]
pub enum EnumParseError {
    UnknownVariant,
}

/// Returned by the credit ledger when a charge would exceed the remaining
/// balance; the balance is left untouched.
#[derive(Clone, Copy, Debug, PartialEq, Eq, Structural)]
pub enum CreditError {
    InsufficientCredits,
}

} // verus!
