use vstd::prelude::*;

use crate::errors::Error;

verus! {

/// Which rate-query convention the deployed vault follows.  Fixed at
/// construction of the clearinghouse.
#[derive(Clone, Copy, Debug, PartialEq, Eq, Structural)]
pub enum VaultType {
    /// The vault answers `AssetsPerShare`: the asset value of one share.
    Vault4626,
    /// The vault answers `AssetAmountsPerShare`: per-asset amounts for one
    /// share, of which the first entry is the rate.
    VaultDefindex,
}

/// What the vault answered when asked for the value of exactly one share.
pub enum VaultReply {
    AssetsPerShare(i128),
    AssetAmountsPerShare(Vec<i128>),
}

/// Normalizes a vault's reply to the single scaled rate the clearinghouse
/// stores.  A reply of the wrong shape for the vault's kind, or an empty
/// amount list, counts as a failed query, which the caller must treat as a
/// fatal abort — never as a silent default.
pub fn rate_from_reply(vault_kind: VaultType, reply: &VaultReply) -> (r: Result<i128, Error>)
    ensures
        (match (vault_kind, *reply) {
            (VaultType::Vault4626, VaultReply::AssetsPerShare(q)) => r == Ok::<i128, Error>(q),
            (VaultType::VaultDefindex, VaultReply::AssetAmountsPerShare(v)) => if v@.len() > 0 {
                r == Ok::<i128, Error>(v@[0])
            } else {
                r == Err::<i128, Error>(Error::UpstreamQueryFailure)
            },
            _ => r == Err::<i128, Error>(Error::UpstreamQueryFailure),
        }),
{
    match (vault_kind, reply) {
        (VaultType::Vault4626, VaultReply::AssetsPerShare(q)) => Ok(*q),
        (VaultType::VaultDefindex, VaultReply::AssetAmountsPerShare(v)) => {
            if v.len() > 0 {
                Ok(v[0])
            } else {
                Err(Error::UpstreamQueryFailure)
            }
        },
        _ => Err(Error::UpstreamQueryFailure),
    }
}

} // verus!
