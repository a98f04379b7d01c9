use vstd::prelude::*;

verus! {

/// Why a request was rejected. Every rejection leaves all accounts unchanged.
#[derive(PartialEq, Eq, Structural, Clone, Copy, Debug)]
pub enum DataAccountError {
    /// The instruction payload matches no known shape.
    InvalidInstructionData,
    /// A metadata account's bytes are not a metadata record.
    InvalidAccountData,
    /// The metadata address is not the one derived from the data account.
    InvalidPDA,
    NotSigner,
    NotWriteable,
    /// An account that must hold content is empty.
    NoAccountLength,
    NotInitialized,
    InvalidAuthority,
    /// A write past the end of a data account that cannot grow.
    InsufficientSpace,
    /// Checked arithmetic on a length or a balance failed.
    Overflow,
    /// The paying account holds fewer lamports than a transfer needs.
    InsufficientFunds,
    /// An account to be allocated already holds lamports or bytes.
    AccountAlreadyInUse,
}

} // verus!
