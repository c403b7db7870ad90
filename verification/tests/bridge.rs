use nodara::frame::{DispatchError, DispatchResult, Origin};
use nodara::pallets::bridge::{
    asset_call, AssetCall, AssetMetadata, BridgeAssetManager, Config, Error, Event, GenesisConfig, Pallet,
};

struct DummyAssetManager;
impl BridgeAssetManager for DummyAssetManager {
    fn mint(_asset: Vec<u8>, _to: &u64, _amount: u128) -> DispatchResult<Error> {
        Ok(())
    }
    fn burn(_asset: Vec<u8>, _from: &u64, _amount: u128) -> DispatchResult<Error> {
        Ok(())
    }
}

struct RefusingAssetManager;
impl BridgeAssetManager for RefusingAssetManager {
    fn mint(_asset: Vec<u8>, _to: &u64, _amount: u128) -> DispatchResult<Error> {
        Err(DispatchError::Module(Error::InvalidAmount))
    }
    fn burn(_asset: Vec<u8>, _from: &u64, _amount: u128) -> DispatchResult<Error> {
        Err(DispatchError::Module(Error::InvalidAmount))
    }
}

fn btc() -> AssetMetadata {
    AssetMetadata { name: b"Bitcoin".to_vec(), symbol: b"BTC".to_vec(), decimals: 8, source_chain: b"BTC".to_vec() }
}

fn module() -> Pallet {
    Pallet::new(Config { required_confirmations: 2 })
}

#[test]
fn test_bridge_flow() {
    let mut m = module();
    let asset_id = b"BTC".to_vec();
    assert_eq!(m.register_asset(Origin::Signed(1), asset_id.clone(), btc()), Ok(()));
    let amount = 1_000_000u128;
    assert_eq!(m.initiate_transfer(Origin::Signed(1), asset_id.clone(), amount, 2, true), Ok(()));
    let transfer_id = m.next_transfer_id - 1;
    assert_eq!(m.confirm_transfer(Origin::Signed(1), transfer_id), Ok(()));
    assert_eq!(m.confirm_transfer(Origin::Signed(3), transfer_id), Ok(()));
    assert_eq!(m.finalize_transfer::<DummyAssetManager>(Origin::Signed(1), transfer_id), Ok(()));
}

#[test]
fn a_validator_confirms_once() {
    let mut m = module();
    assert_eq!(m.register_asset(Origin::Signed(1), b"BTC".to_vec(), btc()), Ok(()));
    assert_eq!(m.initiate_transfer(Origin::Signed(1), b"BTC".to_vec(), 5, 2, false), Ok(()));
    assert_eq!(m.confirm_transfer(Origin::Signed(7), 0), Ok(()));
    assert_eq!(m.confirm_transfer(Origin::Signed(7), 0), Err(DispatchError::Module(Error::AlreadyConfirmed)));
    assert_eq!(
        m.finalize_transfer::<DummyAssetManager>(Origin::Signed(1), 0),
        Err(DispatchError::Module(Error::InsufficientConfirmations))
    );
    assert!(m.pending_transfers.contains_key(&0));
}

#[test]
fn refused_mint_keeps_the_request() {
    let mut m = module();
    assert_eq!(m.register_asset(Origin::Signed(1), b"BTC".to_vec(), btc()), Ok(()));
    assert_eq!(m.initiate_transfer(Origin::Signed(1), b"BTC".to_vec(), 5, 2, true), Ok(()));
    assert_eq!(m.confirm_transfer(Origin::Signed(1), 0), Ok(()));
    assert_eq!(m.confirm_transfer(Origin::Signed(2), 0), Ok(()));
    let events = m.events.len();
    assert_eq!(
        m.finalize_transfer::<RefusingAssetManager>(Origin::Signed(1), 0),
        Err(DispatchError::Module(Error::InvalidAmount))
    );
    assert!(m.pending_transfers.contains_key(&0));
    assert_eq!(m.events.len(), events);
    assert_eq!(m.finalize_transfer::<DummyAssetManager>(Origin::Signed(1), 0), Ok(()));
    assert!(!m.pending_transfers.contains_key(&0));
    assert_eq!(m.events.last(), Some(&Event::TransferFinalized(0)));
}

#[test]
fn transfer_errors() {
    let mut m = module();
    assert_eq!(m.initiate_transfer(Origin::Signed(1), b"ETH".to_vec(), 0, 2, true), Err(DispatchError::Module(Error::InvalidAmount)));
    assert_eq!(m.initiate_transfer(Origin::Signed(1), b"ETH".to_vec(), 9, 2, true), Err(DispatchError::Module(Error::AssetNotSupported)));
    assert_eq!(m.confirm_transfer(Origin::Signed(1), 4), Err(DispatchError::Module(Error::TransferNotFound)));
    assert_eq!(m.finalize_transfer::<DummyAssetManager>(Origin::Signed(1), 4), Err(DispatchError::Module(Error::TransferNotFound)));
    assert_eq!(m.initiate_transfer(Origin::Root, b"ETH".to_vec(), 9, 2, true), Err(DispatchError::BadOrigin));
    assert_eq!(m.next_transfer_id, 0);
}

#[test]
fn asset_registration_rules() {
    let mut m = module();
    assert_eq!(m.register_asset(Origin::Signed(1), vec![], btc()), Err(DispatchError::Module(Error::InvalidAssetDefinition)));
    let nameless = AssetMetadata { name: vec![], ..btc() };
    assert_eq!(m.register_asset(Origin::Signed(1), b"X".to_vec(), nameless), Err(DispatchError::Module(Error::InvalidAssetDefinition)));
    assert_eq!(m.register_asset(Origin::Signed(1), b"BTC".to_vec(), btc()), Ok(()));
    assert_eq!(m.register_asset(Origin::Signed(1), b"BTC".to_vec(), btc()), Err(DispatchError::Module(Error::AssetAlreadyExists)));
    assert_eq!(m.events, vec![Event::AssetRegistered(b"BTC".to_vec())]);
}

#[test]
fn default_genesis_lists_sixteen_assets() {
    let g = GenesisConfig::default();
    assert_eq!(g.initial_assets.len(), 16);
    assert_eq!(g.initial_assets[0].0, b"BTC".to_vec());
    assert_eq!(g.initial_assets[3].1.source_chain, b"Polkadot".to_vec());
    assert_eq!(g.initial_assets[7].1.source_chain, b"ETH".to_vec());
    assert_eq!(g.initial_assets[15].1.name, b"Toncoin".to_vec());
    let m = g.build(Config { required_confirmations: 2 });
    assert!(m.supported_assets.contains_key(&b"USDC".to_vec()));
    assert_eq!(m.supported_assets.get(&b"XLM".to_vec()).map(|a| a.decimals), Some(7));
    assert!(!m.supported_assets.contains_key(&b"NOPE".to_vec()));
}

#[test]
fn later_genesis_entry_wins() {
    let g = GenesisConfig {
        initial_assets: vec![
            (b"A".to_vec(), AssetMetadata { decimals: 1, ..btc() }),
            (b"A".to_vec(), AssetMetadata { decimals: 2, ..btc() }),
        ],
    };
    let m = g.build(Config { required_confirmations: 1 });
    assert_eq!(m.supported_assets.get(&b"A".to_vec()).map(|a| a.decimals), Some(2));
}

/// Accepts only the two calls the scenario below expects.
struct ExpectingAssetManager;
impl BridgeAssetManager for ExpectingAssetManager {
    fn mint(asset: Vec<u8>, to: &u64, amount: u128) -> DispatchResult<Error> {
        if asset == b"BTC".to_vec() && *to == 2 && amount == 1_000_000 {
            Ok(())
        } else {
            Err(DispatchError::Module(Error::InvalidAssetDefinition))
        }
    }
    fn burn(asset: Vec<u8>, from: &u64, amount: u128) -> DispatchResult<Error> {
        if asset == b"BTC".to_vec() && *from == 5 && amount == 7 {
            Ok(())
        } else {
            Err(DispatchError::Module(Error::InvalidAssetDefinition))
        }
    }
}

#[test]
fn finalisation_mints_towards_nodara_and_burns_otherwise() {
    let mut m = module();
    assert_eq!(m.register_asset(Origin::Signed(1), b"BTC".to_vec(), btc()), Ok(()));
    assert_eq!(m.initiate_transfer(Origin::Signed(1), b"BTC".to_vec(), 1_000_000, 2, true), Ok(()));
    assert_eq!(m.initiate_transfer(Origin::Signed(5), b"BTC".to_vec(), 7, 9, false), Ok(()));
    for id in 0..2 {
        assert_eq!(m.confirm_transfer(Origin::Signed(1), id), Ok(()));
        assert_eq!(m.confirm_transfer(Origin::Signed(3), id), Ok(()));
    }
    assert_eq!(asset_call(m.pending_transfers.get(&0).unwrap()), AssetCall::Mint { asset: b"BTC".to_vec(), to: 2, amount: 1_000_000 });
    assert_eq!(asset_call(m.pending_transfers.get(&1).unwrap()), AssetCall::Burn { asset: b"BTC".to_vec(), from: 5, amount: 7 });
    assert_eq!(m.finalize_transfer::<ExpectingAssetManager>(Origin::Signed(1), 0), Ok(()));
    assert_eq!(m.finalize_transfer::<ExpectingAssetManager>(Origin::Signed(1), 1), Ok(()));
    assert!(m.pending_transfers.is_empty());
}
