use vstd::prelude::*;

verus! {

/// Why an operation on the ledger was refused.
#[derive(Clone, Copy, Debug, PartialEq, Eq, Structural)]
pub enum ContractError {
    /// The caller lacks the identity or the funds that the operation asks for.
    Unauthorized,
    /// The host did not accept an address string as an identity.
    InvalidAddress,
    /// No pot or project is stored under the given id.
    NotFound,
    /// A project is already stored under the given id.
    AlreadyRegistered,
    /// The project that a contribution names does not exist.
    NotRegistered,
    /// A sum would leave the range of `u128`.
    Overflow,
    /// A payload could not be decoded, or an instruction could not be encoded.
    Serialization,
}

} // verus!
