//! Errors of the marketplace contracts.  Every fallible operation
//! returns one of these; any failure aborts the whole call and rolls
//! every storage write back.

use vstd::prelude::*;

verus! {

#[derive(Clone, Debug, PartialEq, Eq)]
pub enum ContractError {
    /// A storage entry that must exist is absent.
    NotFound {},
    /// The caller is not allowed to perform the operation.
    Unauthorized {},
    /// The funds attached to the call do not cover the price.
    InsufficientFunds {},
    /// The fungible-token allowance granted to the contract is too small.
    InsufficientAllowance {},
    /// The fungible-token address of the marketplace is still unset.
    VauraAddressNotSet {},
    /// The end time of an offer lies in the past.
    InvalidEndTime {},
    /// A business rule was violated; the value names it.
    CustomError { val: String },
}

} // verus!
