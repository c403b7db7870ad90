//! Marketplace: asset registration, buy and sell orders kept per asset in an
//! order book, and trades that consume a buy and a sell order.

use vstd::prelude::*;
use std::collections::HashMap;
use crate::frame::{ensure_signed, DispatchError, DispatchResult, Origin};

verus! {

broadcast use vstd::std_specs::hash::group_hash_axioms;

/// An asset registered on the marketplace.
#[derive(Clone, Debug, PartialEq, Eq)]
pub struct Asset {
    pub id: u64,
    pub metadata: Vec<u8>,
    pub owner: u64,
}

#[derive(Clone, Copy, Debug, PartialEq, Eq)]
pub enum OrderType {
    Buy,
    Sell,
}

/// An order to buy or sell `quantity` units of an asset at `price`.
#[derive(Clone, Copy, Debug, PartialEq, Eq)]
pub struct Order {
    pub id: u64,
    pub asset_id: u64,
    pub order_type: OrderType,
    pub price: u32,
    pub quantity: u32,
    pub account: u64,
    pub timestamp: u64,
}

/// A trade that matched a buy order with a sell order.
#[derive(Clone, Copy, Debug, PartialEq, Eq)]
pub struct Trade {
    pub id: u64,
    pub buy_order_id: u64,
    pub sell_order_id: u64,
    pub asset_id: u64,
    pub price: u32,
    pub quantity: u32,
    pub timestamp: u64,
}

#[derive(Clone, Copy, Debug, PartialEq, Eq)]
pub enum Event {
    /// (asset id, owner)
    AssetRegistered(u64, u64),
    /// (order id, order type, asset id)
    OrderPlaced(u64, OrderType, u64),
    OrderCancelled(u64),
    /// (trade id, asset id, quantity, price)
    TradeExecuted(u64, u64, u32, u32),
}

#[derive(Clone, Copy, Debug, PartialEq, Eq)]
pub enum Error {
    AssetMetadataTooLong,
    AssetAlreadyRegistered,
    AssetNotFound,
    OrderNotFound,
    InsufficientOrderQuantity,
    InvalidOrder,
}

/// The pallet's constants.
#[derive(Clone, Copy, Debug, PartialEq, Eq)]
pub struct Config {
    pub max_asset_metadata_length: u32,
    pub base_trade_fee: u32,
}

/// The pallet's storage and the events it has deposited.
#[derive(Clone, Debug)]
pub struct Pallet {
    pub config: Config,
    pub assets: HashMap<u64, Asset>,
    pub buy_orders: HashMap<u64, Order>,
    pub sell_orders: HashMap<u64, Order>,
    /// Order ids placed for each asset, in placement order.
    pub order_book: HashMap<u64, Vec<u64>>,
    pub trades_history: Vec<Trade>,
    pub events: Vec<Event>,
}

/// The order ids placed for `asset_id` (none where the book has no entry).
pub open spec fn book_entry(book: Map<u64, Vec<u64>>, asset_id: u64) -> Seq<u64> {
    if book.contains_key(asset_id) { book[asset_id]@ } else { Seq::empty() }
}

/// The timestamp the marketplace stamps orders with.
pub fn current_timestamp() -> (t: u64)
    ensures
        t == 1_640_000_000,
{
    1_640_000_000
}

impl Pallet {
    /// A pallet with empty storage.
    pub fn new(config: Config) -> (p: Self)
        ensures
            p.config == config,
            p.assets@ == Map::<u64, Asset>::empty(),
            p.buy_orders@ == Map::<u64, Order>::empty(),
            p.sell_orders@ == Map::<u64, Order>::empty(),
            p.order_book@ == Map::<u64, Vec<u64>>::empty(),
            p.trades_history@.len() == 0,
            p.events@.len() == 0,
    {
        Pallet {
            config,
            assets: HashMap::new(),
            buy_orders: HashMap::new(),
            sell_orders: HashMap::new(),
            order_book: HashMap::new(),
            trades_history: Vec::new(),
            events: Vec::new(),
        }
    }

    /// Signed: registers `asset_id` with `metadata`, owned by the caller. The
    /// metadata must not exceed the maximal length and the id must be new.
    pub fn register_asset(&mut self, origin: Origin, asset_id: u64, metadata: Vec<u8>) -> (r: DispatchResult<Error>)
        ensures
            !(origin is Signed) ==> r == Err::<(), DispatchError<Error>>(DispatchError::BadOrigin)
                && final(self).assets@ == old(self).assets@ && final(self).events@ == old(self).events@,
            origin is Signed && (metadata@.len() as u32) > old(self).config.max_asset_metadata_length ==>
                r == Err::<(), DispatchError<Error>>(DispatchError::Module(Error::AssetMetadataTooLong))
                && final(self).assets@ == old(self).assets@ && final(self).events@ == old(self).events@,
            origin is Signed && (metadata@.len() as u32) <= old(self).config.max_asset_metadata_length
                && old(self).assets@.contains_key(asset_id) ==>
                r == Err::<(), DispatchError<Error>>(DispatchError::Module(Error::AssetAlreadyRegistered))
                && final(self).assets@ == old(self).assets@ && final(self).events@ == old(self).events@,
            origin is Signed && (metadata@.len() as u32) <= old(self).config.max_asset_metadata_length
                && !old(self).assets@.contains_key(asset_id) ==> {
                let who = origin->Signed_0;
                &&& r is Ok
                &&& final(self).assets@ == old(self).assets@.insert(asset_id, Asset { id: asset_id, metadata, owner: who })
                &&& final(self).events@ == old(self).events@.push(Event::AssetRegistered(asset_id, who))
            },
            final(self).config == old(self).config,
            final(self).buy_orders@ == old(self).buy_orders@,
            final(self).sell_orders@ == old(self).sell_orders@,
            final(self).order_book@ == old(self).order_book@,
            final(self).trades_history@ == old(self).trades_history@,
    {
        let who = ensure_signed::<Error>(origin)?;
        if metadata.len() as u32 > self.config.max_asset_metadata_length {
            return Err(DispatchError::Module(Error::AssetMetadataTooLong));
        }
        if self.assets.contains_key(&asset_id) {
            return Err(DispatchError::Module(Error::AssetAlreadyRegistered));
        }
        self.assets.insert(asset_id, Asset { id: asset_id, metadata, owner: who });
        self.events.push(Event::AssetRegistered(asset_id, who));
        Ok(())
    }

    /// Signed: stores `order` among the buy or sell orders (replacing one with
    /// the same id) and appends its id to the asset's order book.
    pub fn place_order(&mut self, origin: Origin, order: Order) -> (r: DispatchResult<Error>)
        ensures
            !(origin is Signed) ==> r == Err::<(), DispatchError<Error>>(DispatchError::BadOrigin)
                && final(self).buy_orders@ == old(self).buy_orders@
                && final(self).sell_orders@ == old(self).sell_orders@
                && final(self).order_book@ == old(self).order_book@
                && final(self).events@ == old(self).events@,
            origin is Signed ==> {
                &&& r is Ok
                &&& order.order_type == OrderType::Buy ==> final(self).buy_orders@ == old(self).buy_orders@.insert(order.id, order)
                    && final(self).sell_orders@ == old(self).sell_orders@
                &&& order.order_type == OrderType::Sell ==> final(self).sell_orders@ == old(self).sell_orders@.insert(order.id, order)
                    && final(self).buy_orders@ == old(self).buy_orders@
                &&& final(self).order_book@.dom() == old(self).order_book@.dom().insert(order.asset_id)
                &&& book_entry(final(self).order_book@, order.asset_id)
                    == book_entry(old(self).order_book@, order.asset_id).push(order.id)
                &&& forall|a: u64| a != order.asset_id && old(self).order_book@.contains_key(a)
                    ==> #[trigger] final(self).order_book@[a] == old(self).order_book@[a]
                &&& final(self).events@ == old(self).events@.push(Event::OrderPlaced(order.id, order.order_type, order.asset_id))
            },
            final(self).config == old(self).config,
            final(self).assets@ == old(self).assets@,
            final(self).trades_history@ == old(self).trades_history@,
    {
        let _sender = ensure_signed::<Error>(origin)?;
        match order.order_type {
            OrderType::Buy => {
                self.buy_orders.insert(order.id, order);
            },
            OrderType::Sell => {
                self.sell_orders.insert(order.id, order);
            },
        }
        let mut ids: Vec<u64> = match self.order_book.remove(&order.asset_id) {
            Some(v) => v,
            None => Vec::new(),
        };
        ids.push(order.id);
        self.order_book.insert(order.asset_id, ids);
        self.events.push(Event::OrderPlaced(order.id, order.order_type, order.asset_id));
        Ok(())
    }

    /// Signed: removes the buy or sell order `order_id`, which must exist. The
    /// order book keeps its entry.
    pub fn cancel_order(&mut self, origin: Origin, order_id: u64, order_type: OrderType) -> (r: DispatchResult<Error>)
        ensures
            !(origin is Signed) ==> r == Err::<(), DispatchError<Error>>(DispatchError::BadOrigin)
                && final(self).buy_orders@ == old(self).buy_orders@
                && final(self).sell_orders@ == old(self).sell_orders@
                && final(self).events@ == old(self).events@,
            origin is Signed && order_type == OrderType::Buy && !old(self).buy_orders@.contains_key(order_id) ==>
                r == Err::<(), DispatchError<Error>>(DispatchError::Module(Error::OrderNotFound))
                && final(self).buy_orders@ == old(self).buy_orders@
                && final(self).sell_orders@ == old(self).sell_orders@
                && final(self).events@ == old(self).events@,
            origin is Signed && order_type == OrderType::Sell && !old(self).sell_orders@.contains_key(order_id) ==>
                r == Err::<(), DispatchError<Error>>(DispatchError::Module(Error::OrderNotFound))
                && final(self).buy_orders@ == old(self).buy_orders@
                && final(self).sell_orders@ == old(self).sell_orders@
                && final(self).events@ == old(self).events@,
            origin is Signed && order_type == OrderType::Buy && old(self).buy_orders@.contains_key(order_id) ==>
                r is Ok
                && final(self).buy_orders@ == old(self).buy_orders@.remove(order_id)
                && final(self).sell_orders@ == old(self).sell_orders@
                && final(self).events@ == old(self).events@.push(Event::OrderCancelled(order_id)),
            origin is Signed && order_type == OrderType::Sell && old(self).sell_orders@.contains_key(order_id) ==>
                r is Ok
                && final(self).sell_orders@ == old(self).sell_orders@.remove(order_id)
                && final(self).buy_orders@ == old(self).buy_orders@
                && final(self).events@ == old(self).events@.push(Event::OrderCancelled(order_id)),
            final(self).config == old(self).config,
            final(self).assets@ == old(self).assets@,
            final(self).order_book@ == old(self).order_book@,
            final(self).trades_history@ == old(self).trades_history@,
    {
        let _sender = ensure_signed::<Error>(origin)?;
        match order_type {
            OrderType::Buy => {
                if !self.buy_orders.contains_key(&order_id) {
                    return Err(DispatchError::Module(Error::OrderNotFound));
                }
                self.buy_orders.remove(&order_id);
            },
            OrderType::Sell => {
                if !self.sell_orders.contains_key(&order_id) {
                    return Err(DispatchError::Module(Error::OrderNotFound));
                }
                self.sell_orders.remove(&order_id);
            },
        }
        self.events.push(Event::OrderCancelled(order_id));
        Ok(())
    }

    /// Signed: executes `trade`, whose buy and sell orders must both exist:
    /// removes them and appends the trade to the history.
    pub fn execute_trade(&mut self, origin: Origin, trade: Trade) -> (r: DispatchResult<Error>)
        ensures
            !(origin is Signed && old(self).buy_orders@.contains_key(trade.buy_order_id)
                && old(self).sell_orders@.contains_key(trade.sell_order_id)) ==> {
                &&& !(origin is Signed) ==> r == Err::<(), DispatchError<Error>>(DispatchError::BadOrigin)
                &&& origin is Signed ==> r == Err::<(), DispatchError<Error>>(DispatchError::Module(Error::OrderNotFound))
                &&& final(self).buy_orders@ == old(self).buy_orders@
                &&& final(self).sell_orders@ == old(self).sell_orders@
                &&& final(self).trades_history@ == old(self).trades_history@
                &&& final(self).events@ == old(self).events@
            },
            origin is Signed && old(self).buy_orders@.contains_key(trade.buy_order_id)
                && old(self).sell_orders@.contains_key(trade.sell_order_id) ==> {
                &&& r is Ok
                &&& final(self).buy_orders@ == old(self).buy_orders@.remove(trade.buy_order_id)
                &&& final(self).sell_orders@ == old(self).sell_orders@.remove(trade.sell_order_id)
                &&& final(self).trades_history@ == old(self).trades_history@.push(trade)
                &&& final(self).events@ == old(self).events@.push(
                    Event::TradeExecuted(trade.id, trade.asset_id, trade.quantity, trade.price))
            },
            final(self).config == old(self).config,
            final(self).assets@ == old(self).assets@,
            final(self).order_book@ == old(self).order_book@,
    {
        let _sender = ensure_signed::<Error>(origin)?;
        if !self.buy_orders.contains_key(&trade.buy_order_id) {
            return Err(DispatchError::Module(Error::OrderNotFound));
        }
        if !self.sell_orders.contains_key(&trade.sell_order_id) {
            return Err(DispatchError::Module(Error::OrderNotFound));
        }
        self.buy_orders.remove(&trade.buy_order_id);
        self.sell_orders.remove(&trade.sell_order_id);
        self.trades_history.push(trade);
        self.events.push(Event::TradeExecuted(trade.id, trade.asset_id, trade.quantity, trade.price));
        Ok(())
    }
}

} // verus!
