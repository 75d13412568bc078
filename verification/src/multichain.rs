//! Supported chains with their parameters, and assets mapped across chains.
use vstd::prelude::*;
use crate::errors::BridgeError;
use crate::id_map::{IdMap, keys_where, lemma_keys_where_step};
use crate::types::AccountId;

verus! {

/// Most chains that can be registered.
pub const MAX_SUPPORTED_CHAINS: u32 = 100;
/// Most multi-chain assets that can be registered.
pub const MAX_MULTI_CHAIN_ASSETS: u32 = 1000;
/// Longest chain name, contract address, asset id or token address, in bytes.
pub const MAX_NAME_LEN: usize = 64;

/// The parameters of a chain.
#[derive(Clone, Debug)]
pub struct ChainConfig {
    pub chain_id: u32,
    pub chain_name: Vec<u8>,
    pub is_active: bool,
    pub bridge_contract_address: Vec<u8>,
    pub confirmation_blocks: u32,
    pub gas_price: u64,
    pub last_updated: u64,
}

/// Where an asset lives on one chain.
#[derive(Clone, Debug)]
pub struct ChainAssetInfo {
    pub token_address: Vec<u8>,
}

/// An asset known on several chains.
#[derive(Clone)]
pub struct MultiChainAsset {
    pub asset_id: Vec<u8>,
    pub stellar_token: AccountId,
    /// Per chain id.
    pub chain_configs: IdMap<ChainAssetInfo>,
    pub total_bridged: i128,
    pub is_active: bool,
}

/// A chain's configuration changed.
#[derive(Copy, Clone, Debug, PartialEq, Eq, Structural)]
pub struct ChainUpdatedEvent {
    pub chain_id: u32,
    pub is_active: bool,
    pub updated_at: u64,
}

/// Whether a name or address has 1 to 64 bytes.
pub open spec fn valid_name(s: Seq<u8>) -> bool {
    0 < s.len() <= MAX_NAME_LEN
}

/// The first problem, in chain order, with an asset's per-chain entries:
/// an unsupported chain, or a bad token address.
pub open spec fn asset_config_error(s: Seq<(u64, ChainAssetInfo)>, supported: Map<u64, bool>) -> Option<BridgeError>
    decreases s.len(),
{
    if s.len() == 0 {
        None
    } else {
        let e = asset_config_error(s.drop_last(), supported);
        if e is Some {
            e
        } else if !(supported.contains_key(s.last().0) && supported[s.last().0]) {
            Some(BridgeError::DestinationChainNotSupported)
        } else if !valid_name(s.last().1.token_address@) {
            Some(BridgeError::InvalidInput)
        } else {
            None
        }
    }
}

/// Chains, their configurations and the multi-chain assets.
#[derive(Clone)]
pub struct MultiChainManager {
    /// Chain id to whether it is supported.
    pub supported_chains: IdMap<bool>,
    pub chain_configs: IdMap<ChainConfig>,
    pub assets: IdMap<MultiChainAsset>,
    /// Number of assets ever registered; the id of the last one.
    pub asset_counter: u64,
}

impl MultiChainManager {
    /// Tables are well formed.
    pub open spec fn wf(&self) -> bool {
        &&& self.supported_chains.wf()
        &&& self.chain_configs.wf()
        &&& self.assets.wf()
        &&& forall|a: u64| #[trigger] self.assets@.contains_key(a) ==> self.assets@[a].chain_configs.wf()
    }

    /// Whether `chain_id` is marked supported and its configuration active.
    pub open spec fn chain_active(&self, chain_id: u32) -> bool {
        &&& self.supported_chains@.contains_key(chain_id as u64)
        &&& self.supported_chains@[chain_id as u64]
        &&& self.chain_configs@.contains_key(chain_id as u64)
        &&& self.chain_configs@[chain_id as u64].is_active
    }

    /// Why `add_chain` refuses, if it does.
    pub open spec fn add_chain_error(&self, chain_id: u32, chain_name: Seq<u8>, address: Seq<u8>) -> Option<BridgeError> {
        if self.supported_chains.entries().len() >= MAX_SUPPORTED_CHAINS
            || chain_id == 0 || !valid_name(chain_name) || !valid_name(address) {
            Some(BridgeError::InvalidChainConfiguration)
        } else {
            None
        }
    }

    /// Why a transfer of `asset_id` from `source_chain` to
    /// `destination_chain` is refused, if it is.
    pub open spec fn transfer_error(&self, source_chain: u32, destination_chain: u32, asset_id: u64) -> Option<BridgeError> {
        if !self.chain_active(source_chain) {
            Some(BridgeError::ChainNotActive)
        } else if !self.chain_active(destination_chain) {
            Some(BridgeError::DestinationChainNotSupported)
        } else if !self.assets@.contains_key(asset_id) || !self.assets@[asset_id].is_active
            || !self.assets@[asset_id].chain_configs@.contains_key(source_chain as u64)
            || !self.assets@[asset_id].chain_configs@.contains_key(destination_chain as u64) {
            Some(BridgeError::AssetNotSupported)
        } else {
            None
        }
    }

    /// No chains and no assets.
    pub fn new() -> (m: Self)
        ensures
            m.wf(),
            m.supported_chains@ == Map::<u64, bool>::empty(),
            m.chain_configs@ == Map::<u64, ChainConfig>::empty(),
            m.assets@ == Map::<u64, MultiChainAsset>::empty(),
            m.asset_counter == 0,
    {
        MultiChainManager {
            supported_chains: IdMap::new(),
            chain_configs: IdMap::new(),
            assets: IdMap::new(),
            asset_counter: 0,
        }
    }

    /// Register (or overwrite) chain `chain_id` at `now`, active and
    /// supported.
    pub fn add_chain(
        &mut self,
        chain_id: u32,
        chain_name: Vec<u8>,
        bridge_contract_address: Vec<u8>,
        confirmation_blocks: u32,
        gas_price: u64,
        now: u64,
    ) -> (r: Result<(), BridgeError>)
        requires
            old(self).wf(),
        ensures
            final(self).wf(),
            old(self).add_chain_error(chain_id, chain_name@, bridge_contract_address@) matches Some(e) ==>
                r == Err::<(), BridgeError>(e) && *final(self) == *old(self),
            old(self).add_chain_error(chain_id, chain_name@, bridge_contract_address@) is None ==> {
                let c = final(self).chain_configs@[chain_id as u64];
                &&& r is Ok
                &&& final(self).supported_chains@ == old(self).supported_chains@.insert(chain_id as u64, true)
                &&& final(self).chain_configs@.dom() == old(self).chain_configs@.dom().insert(chain_id as u64)
                &&& forall|k: u64| k != chain_id as u64 && #[trigger] old(self).chain_configs@.contains_key(k)
                    ==> final(self).chain_configs@[k] == old(self).chain_configs@[k]
                &&& c.chain_id == chain_id && c.chain_name@ == chain_name@ && c.is_active
                &&& c.bridge_contract_address@ == bridge_contract_address@
                &&& c.confirmation_blocks == confirmation_blocks && c.gas_price == gas_price && c.last_updated == now
                &&& final(self).assets == old(self).assets
                &&& final(self).asset_counter == old(self).asset_counter
            },
    {
        if self.supported_chains.len() >= MAX_SUPPORTED_CHAINS as usize {
            return Err(BridgeError::InvalidChainConfiguration);
        }
        if chain_id == 0 {
            return Err(BridgeError::InvalidChainConfiguration);
        }
        if chain_name.len() == 0 || chain_name.len() > MAX_NAME_LEN {
            return Err(BridgeError::InvalidChainConfiguration);
        }
        if bridge_contract_address.len() == 0 || bridge_contract_address.len() > MAX_NAME_LEN {
            return Err(BridgeError::InvalidChainConfiguration);
        }
        let config = ChainConfig {
            chain_id,
            chain_name,
            is_active: true,
            bridge_contract_address,
            confirmation_blocks,
            gas_price,
            last_updated: now,
        };
        self.chain_configs.insert(chain_id as u64, config);
        self.supported_chains.insert(chain_id as u64, true);
        Ok(())
    }

    /// Switch chain `chain_id` on or off at `now`, optionally changing its
    /// confirmation blocks and gas price.
    pub fn update_chain(
        &mut self,
        chain_id: u32,
        is_active: bool,
        confirmation_blocks: Option<u32>,
        gas_price: Option<u64>,
        now: u64,
    ) -> (r: Result<ChainUpdatedEvent, BridgeError>)
        requires
            old(self).wf(),
        ensures
            final(self).wf(),
            !old(self).chain_configs@.contains_key(chain_id as u64) ==>
                r == Err::<ChainUpdatedEvent, BridgeError>(BridgeError::DestinationChainNotSupported) && *final(self) == *old(self),
            old(self).chain_configs@.contains_key(chain_id as u64) ==> {
                let c = old(self).chain_configs@[chain_id as u64];
                &&& r == Ok::<ChainUpdatedEvent, BridgeError>(ChainUpdatedEvent { chain_id, is_active, updated_at: now })
                &&& final(self).chain_configs@ == old(self).chain_configs@.insert(chain_id as u64, ChainConfig {
                    is_active,
                    confirmation_blocks: match confirmation_blocks { Some(b) => b, None => c.confirmation_blocks },
                    gas_price: match gas_price { Some(p) => p, None => c.gas_price },
                    last_updated: now,
                    ..c
                })
                &&& final(self).supported_chains@ == old(self).supported_chains@.insert(chain_id as u64, is_active)
                &&& final(self).assets == old(self).assets
                &&& final(self).asset_counter == old(self).asset_counter
            },
    {
        if !self.chain_configs.contains_key(chain_id as u64) {
            return Err(BridgeError::DestinationChainNotSupported);
        }
        let mut config = self.chain_configs.remove(chain_id as u64).unwrap();
        config.is_active = is_active;
        if let Some(blocks) = confirmation_blocks {
            config.confirmation_blocks = blocks;
        }
        if let Some(price) = gas_price {
            config.gas_price = price;
        }
        config.last_updated = now;
        self.chain_configs.insert(chain_id as u64, config);
        self.supported_chains.insert(chain_id as u64, is_active);
        proof {
            let c = old(self).chain_configs@[chain_id as u64];
            assert(self.chain_configs@ =~= old(self).chain_configs@.insert(chain_id as u64, ChainConfig {
                is_active,
                confirmation_blocks: match confirmation_blocks { Some(b) => b, None => c.confirmation_blocks },
                gas_price: match gas_price { Some(p) => p, None => c.gas_price },
                last_updated: now,
                ..c
            }));
        }
        Ok(ChainUpdatedEvent { chain_id, is_active, updated_at: now })
    }

    /// The first problem with the per-chain entries of an asset, in chain
    /// order.
    fn check_asset_configs(&self, chain_configs: &IdMap<ChainAssetInfo>) -> (e: Option<BridgeError>)
        requires
            self.wf(),
        ensures
            e == asset_config_error(chain_configs.entries(), self.supported_chains@),
    {
        let n = chain_configs.len();
        let mut i: usize = 0;
        while i < n
            invariant
                self.wf(),
                n == chain_configs.entries().len(),
                i <= n,
                asset_config_error(chain_configs.entries().take(i as int), self.supported_chains@) is None,
            decreases n - i,
        {
            let ghost s = chain_configs.entries();
            proof {
                assert(s.take(i as int + 1).drop_last() =~= s.take(i as int));
                assert(s.take(i as int + 1).last() == s[i as int]);
            }
            let chain_id = chain_configs.key_at(i);
            let supported = match self.supported_chains.get(chain_id) {
                Some(b) => *b,
                None => false,
            };
            if !supported {
                proof { lemma_first_error_stays(s, self.supported_chains@, i as int + 1); }
                return Some(BridgeError::DestinationChainNotSupported);
            }
            let len = chain_configs.value_at(i).token_address.len();
            if len == 0 || len > MAX_NAME_LEN {
                proof { lemma_first_error_stays(s, self.supported_chains@, i as int + 1); }
                return Some(BridgeError::InvalidInput);
            }
            i = i + 1;
        }
        proof { assert(chain_configs.entries().take(n as int) =~= chain_configs.entries()); }
        None
    }

    /// Register an asset known by `asset_id`, held here as `stellar_token`,
    /// on the chains of `chain_configs`.  It gets the next asset id and
    /// starts active with nothing bridged.
    pub fn register_asset(&mut self, asset_id: Vec<u8>, stellar_token: AccountId, chain_configs: IdMap<ChainAssetInfo>)
        -> (r: Result<u64, BridgeError>)
        requires
            old(self).wf(),
            chain_configs.wf(),
        ensures
            final(self).wf(),
            !valid_name(asset_id@) ==> r == Err::<u64, BridgeError>(BridgeError::InvalidInput) && *final(self) == *old(self),
            valid_name(asset_id@) && old(self).asset_counter >= MAX_MULTI_CHAIN_ASSETS ==>
                r == Err::<u64, BridgeError>(BridgeError::InvalidInput) && *final(self) == *old(self),
            valid_name(asset_id@) && old(self).asset_counter < MAX_MULTI_CHAIN_ASSETS ==>
                match asset_config_error(chain_configs.entries(), old(self).supported_chains@) {
                    Some(e) => r == Err::<u64, BridgeError>(e) && *final(self) == *old(self),
                    None => {
                        let id = (old(self).asset_counter + 1) as u64;
                        let a = final(self).assets@[id];
                        &&& r == Ok::<u64, BridgeError>(id)
                        &&& final(self).asset_counter == id
                        &&& final(self).assets@.dom() == old(self).assets@.dom().insert(id)
                        &&& forall|k: u64| k != id && #[trigger] old(self).assets@.contains_key(k) ==> final(self).assets@[k] == old(self).assets@[k]
                        &&& a.asset_id@ == asset_id@ && a.stellar_token == stellar_token
                        &&& a.chain_configs == chain_configs
                        &&& a.total_bridged == 0 && a.is_active
                        &&& final(self).supported_chains == old(self).supported_chains
                        &&& final(self).chain_configs == old(self).chain_configs
                    },
                },
    {
        if asset_id.len() == 0 || asset_id.len() > MAX_NAME_LEN {
            return Err(BridgeError::InvalidInput);
        }
        if self.asset_counter >= MAX_MULTI_CHAIN_ASSETS as u64 {
            return Err(BridgeError::InvalidInput);
        }
        if let Some(e) = self.check_asset_configs(&chain_configs) {
            return Err(e);
        }
        let id = self.asset_counter + 1;
        let asset = MultiChainAsset { asset_id, stellar_token, chain_configs, total_bridged: 0, is_active: true };
        self.assets.insert(id, asset);
        self.asset_counter = id;
        Ok(id)
    }

    /// Switch asset `asset_id` on or off.
    pub fn update_asset_status(&mut self, asset_id: u64, is_active: bool) -> (r: Result<(), BridgeError>)
        requires
            old(self).wf(),
        ensures
            final(self).wf(),
            !old(self).assets@.contains_key(asset_id) ==>
                r == Err::<(), BridgeError>(BridgeError::AssetNotSupported) && *final(self) == *old(self),
            old(self).assets@.contains_key(asset_id) ==> {
                &&& r is Ok
                &&& final(self).assets@ == old(self).assets@.insert(asset_id, MultiChainAsset { is_active, ..old(self).assets@[asset_id] })
                &&& final(self).supported_chains == old(self).supported_chains
                &&& final(self).chain_configs == old(self).chain_configs
                &&& final(self).asset_counter == old(self).asset_counter
            },
    {
        if !self.assets.contains_key(asset_id) {
            return Err(BridgeError::AssetNotSupported);
        }
        let mut asset = self.assets.remove(asset_id).unwrap();
        asset.is_active = is_active;
        self.assets.insert(asset_id, asset);
        proof {
            assert(self.assets@ =~= old(self).assets@.insert(asset_id, MultiChainAsset { is_active, ..old(self).assets@[asset_id] }));
        }
        Ok(())
    }

    /// Add `amount` to the bridged total of `asset_id` for an outgoing
    /// transfer, or take it off for an incoming one.
    pub fn update_bridged_amount(&mut self, asset_id: u64, amount: i128, is_outgoing: bool) -> (r: Result<(), BridgeError>)
        requires
            old(self).wf(),
            old(self).assets@.contains_key(asset_id) ==> {
                let t = old(self).assets@[asset_id].total_bridged;
                if is_outgoing { i128::MIN <= t + amount <= i128::MAX } else { i128::MIN <= t - amount <= i128::MAX }
            },
        ensures
            final(self).wf(),
            !old(self).assets@.contains_key(asset_id) ==>
                r == Err::<(), BridgeError>(BridgeError::AssetNotSupported) && *final(self) == *old(self),
            old(self).assets@.contains_key(asset_id) ==> {
                let a = old(self).assets@[asset_id];
                let t = if is_outgoing { a.total_bridged + amount } else { a.total_bridged - amount };
                &&& r is Ok
                &&& final(self).assets@ == old(self).assets@.insert(asset_id, MultiChainAsset { total_bridged: t as i128, ..a })
                &&& final(self).supported_chains == old(self).supported_chains
                &&& final(self).chain_configs == old(self).chain_configs
                &&& final(self).asset_counter == old(self).asset_counter
            },
    {
        if !self.assets.contains_key(asset_id) {
            return Err(BridgeError::AssetNotSupported);
        }
        let mut asset = self.assets.remove(asset_id).unwrap();
        if is_outgoing {
            asset.total_bridged = asset.total_bridged + amount;
        } else {
            asset.total_bridged = asset.total_bridged - amount;
        }
        self.assets.insert(asset_id, asset);
        proof {
            let a = old(self).assets@[asset_id];
            let t = if is_outgoing { a.total_bridged + amount } else { a.total_bridged - amount };
            assert(self.assets@ =~= old(self).assets@.insert(asset_id, MultiChainAsset { total_bridged: t as i128, ..a }));
        }
        Ok(())
    }

    /// Whether `chain_id` is supported and its configuration active.
    pub fn is_chain_active(&self, chain_id: u32) -> (b: bool)
        requires
            self.wf(),
        ensures
            b == self.chain_active(chain_id),
    {
        let supported = match self.supported_chains.get(chain_id as u64) {
            Some(s) => *s,
            None => false,
        };
        if !supported {
            return false;
        }
        match self.chain_configs.get(chain_id as u64) {
            Some(c) => c.is_active,
            None => false,
        }
    }

    /// The configuration of `chain_id`, if any.
    pub fn get_chain_config(&self, chain_id: u32) -> (r: Option<&ChainConfig>)
        requires
            self.wf(),
        ensures
            match r {
                Some(c) => self.chain_configs@.contains_key(chain_id as u64) && *c == self.chain_configs@[chain_id as u64],
                None => !self.chain_configs@.contains_key(chain_id as u64),
            },
    {
        self.chain_configs.get(chain_id as u64)
    }

    /// The asset `asset_id`, if any.
    pub fn get_asset(&self, asset_id: u64) -> (r: Option<&MultiChainAsset>)
        requires
            self.wf(),
        ensures
            match r {
                Some(a) => self.assets@.contains_key(asset_id) && *a == self.assets@[asset_id],
                None => !self.assets@.contains_key(asset_id),
            },
    {
        self.assets.get(asset_id)
    }

    /// Where asset `asset_id` lives on `chain_id`, if known.
    pub fn get_chain_asset_info(&self, asset_id: u64, chain_id: u32) -> (r: Option<&ChainAssetInfo>)
        requires
            self.wf(),
        ensures
            match r {
                Some(i) => self.assets@.contains_key(asset_id)
                    && self.assets@[asset_id].chain_configs@.contains_key(chain_id as u64)
                    && *i == self.assets@[asset_id].chain_configs@[chain_id as u64],
                None => !(self.assets@.contains_key(asset_id)
                    && self.assets@[asset_id].chain_configs@.contains_key(chain_id as u64)),
            },
    {
        match self.assets.get(asset_id) {
            Some(a) => a.chain_configs.get(chain_id as u64),
            None => None,
        }
    }

    /// Ids of the chains marked supported, in increasing order.
    pub fn get_supported_chains(&self) -> (ids: Vec<u64>)
        ensures
            ids@ == keys_where(self.supported_chains.entries(), |b: bool| b),
    {
        let ghost p = |b: bool| b;
        let mut result: Vec<u64> = Vec::new();
        let mut i: usize = 0;
        while i < self.supported_chains.len()
            invariant
                i <= self.supported_chains.entries().len(),
                p == |b: bool| b,
                result@ == keys_where(self.supported_chains.entries().take(i as int), p),
            decreases self.supported_chains.entries().len() - i,
        {
            proof { lemma_keys_where_step(self.supported_chains.entries(), i as int, p); }
            if *self.supported_chains.value_at(i) {
                result.push(self.supported_chains.key_at(i));
            }
            i = i + 1;
        }
        proof { assert(self.supported_chains.entries().take(i as int) =~= self.supported_chains.entries()); }
        result
    }

    /// Ids of the active assets, in increasing order.
    pub fn get_active_assets(&self) -> (ids: Vec<u64>)
        ensures
            ids@ == keys_where(self.assets.entries(), |a: MultiChainAsset| a.is_active),
    {
        let ghost p = |a: MultiChainAsset| a.is_active;
        let mut result: Vec<u64> = Vec::new();
        let mut i: usize = 0;
        while i < self.assets.len()
            invariant
                i <= self.assets.entries().len(),
                p == |a: MultiChainAsset| a.is_active,
                result@ == keys_where(self.assets.entries().take(i as int), p),
            decreases self.assets.entries().len() - i,
        {
            proof { lemma_keys_where_step(self.assets.entries(), i as int, p); }
            if self.assets.value_at(i).is_active {
                result.push(self.assets.key_at(i));
            }
            i = i + 1;
        }
        proof { assert(self.assets.entries().take(i as int) =~= self.assets.entries()); }
        result
    }

    /// Whether `asset_id` may move from `source_chain` to
    /// `destination_chain`: both chains active, the asset active and known
    /// on both.
    pub fn validate_cross_chain_transfer(&self, source_chain: u32, destination_chain: u32, asset_id: u64)
        -> (r: Result<(), BridgeError>)
        requires
            self.wf(),
        ensures
            match self.transfer_error(source_chain, destination_chain, asset_id) {
                Some(e) => r == Err::<(), BridgeError>(e),
                None => r is Ok,
            },
    {
        if !self.is_chain_active(source_chain) {
            return Err(BridgeError::ChainNotActive);
        }
        if !self.is_chain_active(destination_chain) {
            return Err(BridgeError::DestinationChainNotSupported);
        }
        let asset = match self.assets.get(asset_id) {
            Some(a) => a,
            None => { return Err(BridgeError::AssetNotSupported); },
        };
        if !asset.is_active {
            return Err(BridgeError::AssetNotSupported);
        }
        if !asset.chain_configs.contains_key(source_chain as u64) {
            return Err(BridgeError::AssetNotSupported);
        }
        if !asset.chain_configs.contains_key(destination_chain as u64) {
            return Err(BridgeError::AssetNotSupported);
        }
        Ok(())
    }
}

/// Once a prefix has an error, every longer prefix has the same one.
pub proof fn lemma_first_error_stays(s: Seq<(u64, ChainAssetInfo)>, supported: Map<u64, bool>, i: int)
    requires
        0 <= i <= s.len(),
        asset_config_error(s.take(i), supported) is Some,
    ensures
        asset_config_error(s, supported) == asset_config_error(s.take(i), supported),
    decreases s.len() - i,
{
    if i < s.len() {
        assert(s.take(i + 1).drop_last() =~= s.take(i));
        lemma_first_error_stays(s, supported, i + 1);
    } else {
        assert(s.take(i) =~= s);
    }
}

/// A transfer the manager accepts runs between two active chains, with an
/// active asset known on both.
pub proof fn law_accepted_transfer_uses_active_chains_and_asset(m: MultiChainManager, source: u32, destination: u32, asset_id: u64)
    requires
        m.transfer_error(source, destination, asset_id) is None,
    ensures
        m.chain_active(source),
        m.chain_active(destination),
        m.assets@.contains_key(asset_id),
        m.assets@[asset_id].is_active,
        m.assets@[asset_id].chain_configs@.contains_key(source as u64),
        m.assets@[asset_id].chain_configs@.contains_key(destination as u64),
{
}

} // verus!
