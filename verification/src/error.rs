//! Every failure of a command or callback, each a distinct, named condition.

use vstd::prelude::*;

verus! {

/// Errors surfaced synchronously by the command and callback handlers.
/// Any failure aborts the whole invocation with no partial mutation.
#[derive(Debug, PartialEq)]
pub enum ContractError {
    /// Caller is not the owner of the position, or not a configured router.
    Unauthorized {},
    /// A message variant reached a router that never handles it.
    Never {},
    /// `Bond` needs exactly this many fund entries attached.
    MismatchAmountDenoms { req_amount_denoms: u32 },
    /// The two attached fund amounts must be equal.
    FundsAmountNotEqual {},
    /// The two attached fund denominations must be different.
    FundsDenomAreSame {},
    /// An attached denomination is not one of the two configured ones.
    InvalidDenom { denom: String },
    /// `StartUnbond` requested more than the bonded amount of some leg.
    StartUnbondAmountTooHigh {},
    /// `Unbond` requested more than the matured, available amount of some leg.
    UnbondAmountTooHigh {},
    /// The identifier is already bound to another principal.
    IdAlreadyAllocated {},
    /// The identifier was never bonded.
    IdNotAllocated {},
    /// No ledger record exists for the identifier.
    NoPreviousBondData {},
    /// A `StartUnbond` is still awaiting its confirmations.
    NoStartUnbondingIfExistingUnconfirmed {},
    /// A router confirmed more than the ledger holds as pending for its leg;
    /// a protocol-invariant violation that must fail loudly, never wrap.
    ConfirmedAmountTooHigh {},
}

} // verus!
