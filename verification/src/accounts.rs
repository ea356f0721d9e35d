use vstd::prelude::*;

verus! {

/// A 256-bit account address, held as two plain integer halves.
///
/// The relay never interprets an address; it only compares addresses
/// supplied by a caller against addresses read from authoritative state.
/// Equality of two identifiers is equality of both halves.
#[derive(Clone, Copy, Debug, PartialEq, Eq, Hash, Structural)]
pub struct AccountId {
    pub hi: u128,
    pub lo: u128,
}

/// The fields the relay reads from the target pool's own record.
///
/// These are the authoritative values every caller-supplied reference is
/// checked against: a caller's reference is trusted only if it equals the
/// address the pool itself points to.
#[derive(Clone, Copy, Debug, PartialEq, Eq, Structural)]
pub struct PoolView {
    /// The pool's own address.
    pub key: AccountId,
    /// Address of the pool-configuration record the pool points to.
    pub amm_config: AccountId,
    /// Address of the oracle/observation record the pool points to.
    pub observation_key: AccountId,
    /// Address of the pool's recorded vault for the first token.
    pub token_vault_0: AccountId,
    /// Address of the pool's recorded vault for the second token.
    pub token_vault_1: AccountId,
}

/// What the relay reads from a token account: its address and the asset
/// (mint) it is denominated in.
#[derive(Clone, Copy, Debug, PartialEq, Eq, Structural)]
pub struct TokenAccountView {
    pub key: AccountId,
    pub mint: AccountId,
}

} // verus!
