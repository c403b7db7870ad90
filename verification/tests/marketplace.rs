use nodara::frame::{DispatchError, Origin};
use nodara::pallets::marketplace::{current_timestamp, Config, Error, Event, Order, OrderType, Pallet, Trade};

fn module() -> Pallet {
    Pallet::new(Config { max_asset_metadata_length: 256, base_trade_fee: 10 })
}

#[test]
fn register_asset_should_work() {
    let mut m = module();
    let asset_id = 42;
    let metadata = b"{\"name\": \"Asset42\"}".to_vec();
    assert_eq!(m.register_asset(Origin::Signed(1), asset_id, metadata.clone()), Ok(()));
    let asset = m.assets.get(&asset_id).expect("Asset should be registered");
    assert_eq!(asset.metadata, metadata);
}

#[test]
fn register_asset_should_fail_if_metadata_too_long() {
    let mut m = module();
    let asset_id = 43;
    let metadata = vec![0u8; (256 + 1) as usize];
    assert_eq!(
        m.register_asset(Origin::Signed(1), asset_id, metadata),
        Err(DispatchError::Module(Error::AssetMetadataTooLong))
    );
}

#[test]
fn register_asset_should_fail_if_already_registered() {
    let mut m = module();
    let asset_id = 44;
    let metadata = b"{\"name\": \"Asset44\"}".to_vec();
    assert_eq!(m.register_asset(Origin::Signed(1), asset_id, metadata.clone()), Ok(()));
    assert_eq!(
        m.register_asset(Origin::Signed(1), asset_id, metadata),
        Err(DispatchError::Module(Error::AssetAlreadyRegistered))
    );
}

#[test]
fn place_and_cancel_order_should_work() {
    let mut m = module();
    let order = Order {
        id: 1,
        asset_id: 100,
        order_type: OrderType::Buy,
        price: 50,
        quantity: 10,
        account: 1,
        timestamp: current_timestamp(),
    };
    assert_eq!(m.place_order(Origin::Signed(1), order), Ok(()));
    let book = m.order_book.get(&order.asset_id).cloned().unwrap_or_default();
    assert!(book.contains(&order.id));
    assert_eq!(m.cancel_order(Origin::Signed(1), order.id, OrderType::Buy), Ok(()));
    assert!(!m.buy_orders.get(&order.id).is_some());
}

#[test]
fn execute_trade_should_work() {
    let mut m = module();
    let buy_order = Order {
        id: 2,
        asset_id: 200,
        order_type: OrderType::Buy,
        price: 100,
        quantity: 5,
        account: 1,
        timestamp: current_timestamp(),
    };
    let sell_order = Order {
        id: 3,
        asset_id: 200,
        order_type: OrderType::Sell,
        price: 100,
        quantity: 5,
        account: 2,
        timestamp: current_timestamp(),
    };
    assert_eq!(m.place_order(Origin::Signed(1), buy_order), Ok(()));
    assert_eq!(m.place_order(Origin::Signed(1), sell_order), Ok(()));
    let trade = Trade {
        id: 1,
        buy_order_id: buy_order.id,
        sell_order_id: sell_order.id,
        asset_id: 200,
        price: 100,
        quantity: 5,
        timestamp: current_timestamp(),
    };
    assert_eq!(m.execute_trade(Origin::Signed(1), trade), Ok(()));
    assert!(!m.buy_orders.get(&buy_order.id).is_some());
    assert!(!m.sell_orders.get(&sell_order.id).is_some());
    assert!(m.trades_history.iter().any(|t| t.id == trade.id));
}

#[test]
fn test_register_asset() {
    let mut m = module();
    let metadata = b"Asset Metadata".to_vec();
    assert_eq!(m.register_asset(Origin::Signed(1), 100, metadata.clone()), Ok(()));
    let asset = m.assets.get(&100).unwrap();
    assert_eq!(asset.metadata, metadata);
    assert_eq!(asset.owner, 1);
}

#[test]
fn test_place_and_cancel_order() {
    let mut m = module();
    let order = Order { id: 1, asset_id: 100, order_type: OrderType::Buy, price: 50, quantity: 10, account: 1, timestamp: 1000 };
    assert_eq!(m.place_order(Origin::Signed(1), order), Ok(()));
    assert_eq!(m.cancel_order(Origin::Signed(1), 1, OrderType::Buy), Ok(()));
}

#[test]
fn test_execute_trade() {
    let mut m = module();
    let metadata = b"Asset Metadata".to_vec();
    assert_eq!(m.register_asset(Origin::Signed(1), 100, metadata), Ok(()));
    let buy_order = Order { id: 1, asset_id: 100, order_type: OrderType::Buy, price: 50, quantity: 10, account: 1, timestamp: 1000 };
    let sell_order = Order { id: 2, asset_id: 100, order_type: OrderType::Sell, price: 50, quantity: 10, account: 2, timestamp: 1000 };
    assert_eq!(m.place_order(Origin::Signed(1), buy_order), Ok(()));
    assert_eq!(m.place_order(Origin::Signed(2), sell_order), Ok(()));
    let trade = Trade { id: 1, buy_order_id: 1, sell_order_id: 2, asset_id: 100, price: 50, quantity: 10, timestamp: 2000 };
    assert_eq!(m.execute_trade(Origin::Signed(1), trade), Ok(()));
}

#[test]
fn missing_orders_and_bad_origins() {
    let mut m = module();
    assert_eq!(m.cancel_order(Origin::Signed(1), 9, OrderType::Sell), Err(DispatchError::Module(Error::OrderNotFound)));
    let trade = Trade { id: 1, buy_order_id: 1, sell_order_id: 2, asset_id: 100, price: 50, quantity: 10, timestamp: 2000 };
    assert_eq!(m.execute_trade(Origin::Signed(1), trade), Err(DispatchError::Module(Error::OrderNotFound)));
    assert_eq!(m.execute_trade(Origin::Root, trade), Err(DispatchError::BadOrigin));
    assert_eq!(m.register_asset(Origin::Unsigned, 1, vec![]), Err(DispatchError::BadOrigin));
    assert!(m.trades_history.is_empty());
}

#[test]
fn order_book_keeps_ids_per_asset_in_order() {
    let mut m = module();
    let a = Order { id: 5, asset_id: 7, order_type: OrderType::Sell, price: 1, quantity: 1, account: 1, timestamp: 0 };
    let b = Order { id: 6, asset_id: 7, order_type: OrderType::Buy, price: 1, quantity: 1, account: 1, timestamp: 0 };
    assert_eq!(m.place_order(Origin::Signed(1), a), Ok(()));
    assert_eq!(m.place_order(Origin::Signed(1), b), Ok(()));
    assert_eq!(m.order_book.get(&7), Some(&vec![5, 6]));
    assert_eq!(m.events.last(), Some(&Event::OrderPlaced(6, OrderType::Buy, 7)));
    assert_eq!(current_timestamp(), 1_640_000_000);
}
