use vstd::prelude::*;

verus! {

/// Errors reported by the library.
#[derive(Debug)]
pub enum Error {
    /// A network name that is neither `mainnet` nor `testnet-10`.
    InvalidNetwork(String),
    /// Any other failure, described by its message.
    Custom(String),
}

} // verus!
