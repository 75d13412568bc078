//! Plain data shared by several modules.
//!
//! Account and contract addresses are held as `u64` ids: the rules only ever
//! compare addresses for equality, so an id assigned to each address carries
//! everything they read.  Byte strings are `Vec<u8>`.
use vstd::prelude::*;

verus! {

/// An account or contract address, as an id.
pub type AccountId = u64;

/// A copy of a byte string.
pub fn copy_bytes(b: &Vec<u8>) -> (r: Vec<u8>)
    ensures
        r@ == b@,
{
    let mut r: Vec<u8> = Vec::new();
    let mut i: usize = 0;
    while i < b.len()
        invariant
            i <= b@.len(),
            r@ == b@.subrange(0, i as int),
        decreases b@.len() - i,
    {
        r.push(b[i]);
        i = i + 1;
        assert(r@ =~= b@.subrange(0, i as int));
    }
    assert(r@ =~= b@);
    r
}

/// Byte-wise equality of two byte strings.
pub fn bytes_equal(a: &Vec<u8>, b: &Vec<u8>) -> (r: bool)
    ensures
        r == (a@ == b@),
{
    if a.len() != b.len() {
        return false;
    }
    let mut i: usize = 0;
    while i < a.len()
        invariant
            a@.len() == b@.len(),
            i <= a@.len(),
            forall|j: int| 0 <= j < i ==> a@[j] == b@[j],
        decreases a@.len() - i,
    {
        if a[i] != b[i] {
            return false;
        }
        i = i + 1;
    }
    assert(a@ =~= b@);
    true
}

/// Who holds tokens on either side of a transfer.
#[derive(Copy, Clone, Debug, PartialEq, Eq, Structural)]
pub enum Holder {
    /// The contract itself.
    Contract,
    /// An account.
    Account(AccountId),
}

/// A token movement that a state transition asks its caller to perform.
#[derive(Copy, Clone, Debug, PartialEq, Eq, Structural)]
pub struct Transfer {
    pub token: AccountId,
    pub from: Holder,
    pub to: Holder,
    pub amount: i128,
}

/// A record of tokens locked on this chain for delivery to another chain.
#[derive(Clone, Debug)]
pub struct BridgeTransaction {
    pub nonce: u64,
    pub token: AccountId,
    pub amount: i128,
    pub recipient: AccountId,
    pub destination_chain: u32,
    pub destination_address: Vec<u8>,
    pub timestamp: u64,
}

/// A message from another chain asking for tokens to be released here.
#[derive(Clone, Debug)]
pub struct CrossChainMessage {
    pub source_chain: u32,
    pub source_tx_hash: Vec<u8>,
    pub nonce: u64,
    pub token: AccountId,
    pub amount: i128,
    pub recipient: AccountId,
    pub destination_chain: u32,
}

impl CrossChainMessage {
    /// A field-by-field copy.
    pub fn duplicate(&self) -> (r: Self)
        ensures
            r.source_chain == self.source_chain,
            r.source_tx_hash@ == self.source_tx_hash@,
            r.nonce == self.nonce,
            r.token == self.token,
            r.amount == self.amount,
            r.recipient == self.recipient,
            r.destination_chain == self.destination_chain,
    {
        CrossChainMessage {
            source_chain: self.source_chain,
            source_tx_hash: copy_bytes(&self.source_tx_hash),
            nonce: self.nonce,
            token: self.token,
            amount: self.amount,
            recipient: self.recipient,
            destination_chain: self.destination_chain,
        }
    }
}

} // verus!
