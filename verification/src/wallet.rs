//! The address of a wallet. The core carries addresses and never derives
//! or checks one.

use vstd::prelude::*;
use crate::error::ClientError;

verus! {

/// The address that a wallet has before one is assigned: `0x` and forty
/// zeros.
pub open spec fn zero_address() -> Seq<char> {
    "0x0000000000000000000000000000000000000000"@
}

/// A wallet, known by its address.
#[derive(Clone, Debug, PartialEq, Eq)]
pub struct Wallet {
    pub address: String,
}

impl Wallet {
    /// A wallet at the zero address.
    pub fn new() -> (wallet: Result<Self, ClientError>)
        ensures
            wallet matches Ok(w) && w.address@ == zero_address(),
    {
        Ok(Self { address: "0x0000000000000000000000000000000000000000".to_owned() })
    }
}

} // verus!
