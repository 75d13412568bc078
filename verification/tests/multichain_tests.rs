use teachlink::errors::BridgeError;
use teachlink::id_map::IdMap;
use teachlink::multichain::{ChainAssetInfo, MultiChainManager};

fn info(addr: &[u8]) -> ChainAssetInfo {
    ChainAssetInfo { token_address: addr.to_vec() }
}

#[test]
fn add_chain_validates_inputs() {
    let mut m = MultiChainManager::new();
    assert_eq!(m.add_chain(0, b"eth".to_vec(), vec![1], 12, 5, 0), Err(BridgeError::InvalidChainConfiguration));
    assert_eq!(m.add_chain(1, vec![], vec![1], 12, 5, 0), Err(BridgeError::InvalidChainConfiguration));
    assert_eq!(m.add_chain(1, vec![1; 65], vec![1], 12, 5, 0), Err(BridgeError::InvalidChainConfiguration));
    assert_eq!(m.add_chain(1, b"eth".to_vec(), vec![], 12, 5, 0), Err(BridgeError::InvalidChainConfiguration));
    assert_eq!(m.add_chain(1, b"eth".to_vec(), vec![1; 64], 12, 5, 7), Ok(()));
    assert!(m.is_chain_active(1));
    let c = m.get_chain_config(1).unwrap();
    assert_eq!(c.chain_name, b"eth".to_vec());
    assert_eq!(c.last_updated, 7);
    assert_eq!(m.get_supported_chains(), vec![1]);
}

#[test]
fn chain_count_is_capped() {
    let mut m = MultiChainManager::new();
    for id in 1..=100u32 {
        m.add_chain(id, vec![1], vec![1], 1, 1, 0).unwrap();
    }
    assert_eq!(m.add_chain(101, vec![1], vec![1], 1, 1, 0), Err(BridgeError::InvalidChainConfiguration));
}

#[test]
fn update_chain_switches_activity() {
    let mut m = MultiChainManager::new();
    assert_eq!(m.update_chain(3, false, None, None, 1).map(|_| ()), Err(BridgeError::DestinationChainNotSupported));
    m.add_chain(3, vec![1], vec![1], 10, 20, 0).unwrap();
    let ev = m.update_chain(3, false, Some(30), None, 9).unwrap();
    assert_eq!((ev.chain_id, ev.is_active, ev.updated_at), (3, false, 9));
    assert!(!m.is_chain_active(3));
    let c = m.get_chain_config(3).unwrap();
    assert_eq!((c.confirmation_blocks, c.gas_price, c.last_updated), (30, 20, 9));
    assert_eq!(m.get_supported_chains(), Vec::<u64>::new());
}

#[test]
fn register_asset_checks_chains_in_order() {
    let mut m = MultiChainManager::new();
    m.add_chain(1, vec![1], vec![1], 1, 1, 0).unwrap();
    m.add_chain(2, vec![1], vec![1], 1, 1, 0).unwrap();
    assert_eq!(m.register_asset(vec![], 5, IdMap::new()), Err(BridgeError::InvalidInput));
    let mut bad = IdMap::new();
    bad.insert(1, info(&[]));
    bad.insert(9, info(&[1]));
    assert_eq!(m.register_asset(vec![7], 5, bad), Err(BridgeError::InvalidInput));
    let mut unsupported = IdMap::new();
    unsupported.insert(1, info(&[1]));
    unsupported.insert(9, info(&[1]));
    assert_eq!(m.register_asset(vec![7], 5, unsupported), Err(BridgeError::DestinationChainNotSupported));
    let mut good = IdMap::new();
    good.insert(1, info(&[1]));
    good.insert(2, info(&[2]));
    assert_eq!(m.register_asset(vec![7], 5, good), Ok(1));
    assert_eq!(m.get_active_assets(), vec![1]);
    assert_eq!(m.get_chain_asset_info(1, 2).unwrap().token_address, vec![2]);
    assert!(m.get_chain_asset_info(1, 3).is_none());
    assert_eq!(m.validate_cross_chain_transfer(1, 2, 1), Ok(()));
    assert_eq!(m.validate_cross_chain_transfer(1, 2, 2), Err(BridgeError::AssetNotSupported));
    assert_eq!(m.validate_cross_chain_transfer(4, 2, 1), Err(BridgeError::ChainNotActive));
    assert_eq!(m.validate_cross_chain_transfer(1, 4, 1), Err(BridgeError::DestinationChainNotSupported));
    m.update_asset_status(1, false).unwrap();
    assert_eq!(m.validate_cross_chain_transfer(1, 2, 1), Err(BridgeError::AssetNotSupported));
    assert_eq!(m.update_asset_status(8, false), Err(BridgeError::AssetNotSupported));
}

#[test]
fn bridged_amount_moves_both_ways() {
    let mut m = MultiChainManager::new();
    assert_eq!(m.update_bridged_amount(1, 5, true), Err(BridgeError::AssetNotSupported));
    let id = m.register_asset(vec![7], 5, IdMap::new()).unwrap();
    m.update_bridged_amount(id, 100, true).unwrap();
    m.update_bridged_amount(id, 30, false).unwrap();
    assert_eq!(m.get_asset(id).unwrap().total_bridged, 70);
}
