//! Hashing through the contract host.
use vstd::prelude::*;
use soroban_sdk::Env;

verus! {

/// The contract host environment, passed through opaquely.
#[verifier::external_type_specification]
#[verifier::external_body]
pub struct ExEnv(soroban_sdk::Env);

/// The SHA-256 digest of a byte string.
pub uninterp spec fn sha256_of(data: Seq<u8>) -> Seq<u8>;

/// SHA-256 of `data`, computed by the host through
/// `soroban_sdk::crypto::Crypto::sha256` (reached by `Env::crypto`).
/// Trusted: the digest is `sha256_of(data)` and is 32 bytes long (the host
/// returns a `Hash<32>`).  Not stated: the host meters its work and traps
/// when the invocation's budget is exhausted; a trap never returns.
#[verifier::external_body]
pub fn sha256_digest(env: &Env, data: &Vec<u8>) -> (d: Vec<u8>)
    requires
        data@.len() <= u32::MAX,
    ensures
        d@ == sha256_of(data@),
        d@.len() == 32,
{
    let bytes = soroban_sdk::Bytes::from_slice(env, data.as_slice());
    env.crypto().sha256(&bytes).to_array().to_vec()
}

} // verus!
