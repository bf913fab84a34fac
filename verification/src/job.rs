//! The unit of work that travels on the job bus.

use vstd::prelude::*;

verus! {

/// One minted token whose metadata is to be ingested.
#[derive(Debug, Clone)]
pub struct NftMintJob {
    /// The emitting contract: `0x` and forty lowercase hexadecimal digits.
    pub contract_address: String,
    /// The token id in decimal.
    pub token_id: String,
    /// A short tag naming the chain.
    pub chain: String,
    /// Where the token's metadata lives, where the contract said so.
    pub metadata_uri: Option<String>,
}

impl NftMintJob {
    /// The key under which the job is published: the contract's address, so
    /// that all jobs of one contract share a partition and keep their order.
    pub fn partition_key(&self) -> (key: &str)
        ensures
            key@ == self.contract_address@,
    {
        self.contract_address.as_str()
    }
}

/// The sum of two counters.
pub fn add(left: u64, right: u64) -> (sum: u64)
    requires
        left + right <= u64::MAX,
    ensures
        sum == left + right,
{
    left + right
}

} // verus!
