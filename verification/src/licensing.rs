//! Licences granted on content tokens.
use vstd::prelude::*;
use crate::types::AccountId;

verus! {

/// The kind of licence.
#[derive(Copy, Clone, Debug, PartialEq, Eq, Structural)]
pub enum LicenseType {
    Personal,
    Commercial,
    Exclusive,
    Subscription,
}

/// A licence on token `token_id`; `None` never expires.
#[derive(Copy, Clone, Debug, PartialEq, Eq, Structural)]
pub struct LicenseAgreement {
    pub token_id: u64,
    pub licensee: AccountId,
    pub license_type: LicenseType,
    pub expires_at: Option<u64>,
}

} // verus!
