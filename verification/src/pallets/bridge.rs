//! Cross-chain bridge: supported assets, transfer requests confirmed by
//! validators, and finalisation (mint towards Nodara, burn away from it) once
//! enough validators have confirmed.

use vstd::prelude::*;
use std::collections::HashMap;
use std::collections::BTreeSet;
use crate::bytemap::ByteMap;
use crate::frame::{copy_bytes, ensure_signed, str_bytes, DispatchError, DispatchResult, Origin};
use vstd::string::StringSliceAdditionalSpecFns;

verus! {

broadcast use {vstd::std_specs::hash::group_hash_axioms, vstd::std_specs::btree::group_btree_axioms};

/// Metadata of a supported asset.
#[derive(Clone, Debug, PartialEq, Eq, Default)]
pub struct AssetMetadata {
    pub name: Vec<u8>,
    pub symbol: Vec<u8>,
    pub decimals: u8,
    pub source_chain: Vec<u8>,
}

/// A pending cross-chain transfer.
#[derive(Debug, PartialEq, Eq)]
pub struct TransferRequest {
    pub id: u64,
    pub from: u64,
    pub asset: Vec<u8>,
    pub amount: u128,
    pub destination: u64,
    /// Validators that have confirmed the transfer.
    pub confirmations: BTreeSet<u64>,
    /// true: towards Nodara (mint on finalisation); false: away from it (burn).
    pub to_nodara: bool,
}

#[derive(Clone, Debug, PartialEq, Eq)]
pub enum Event {
    AssetRegistered(Vec<u8>),
    /// (transfer id, from, asset, amount, destination, towards Nodara)
    TransferInitiated(u64, u64, Vec<u8>, u128, u64, bool),
    /// (transfer id, validator)
    TransferConfirmed(u64, u64),
    TransferFinalized(u64),
}

#[derive(Clone, Copy, Debug, PartialEq, Eq)]
pub enum Error {
    AssetNotSupported,
    TransferNotFound,
    InsufficientConfirmations,
    AlreadyConfirmed,
    InvalidAssetDefinition,
    InvalidAmount,
    AssetAlreadyExists,
}

/// Mints and burns the tokens that represent bridged assets on Nodara. The
/// runtime supplies the implementation.
pub trait BridgeAssetManager {
    /// Mints `amount` of `asset` to `to`.
    fn mint(asset: Vec<u8>, to: &u64, amount: u128) -> DispatchResult<Error>;
    /// Burns `amount` of `asset` from `from`.
    fn burn(asset: Vec<u8>, from: &u64, amount: u128) -> DispatchResult<Error>;
}

/// The asset-manager call that finalises a transfer.
#[derive(Clone, Debug, PartialEq, Eq)]
pub enum AssetCall {
    /// Mint `amount` of `asset` to `to`.
    Mint { asset: Vec<u8>, to: u64, amount: u128 },
    /// Burn `amount` of `asset` from `from`.
    Burn { asset: Vec<u8>, from: u64, amount: u128 },
}

/// `c` is the call that finalises `request`: towards Nodara, minting the
/// amount to the destination; otherwise, burning it from the sender.
pub open spec fn is_call_for(c: AssetCall, request: TransferRequest) -> bool {
    if request.to_nodara {
        c matches AssetCall::Mint { asset, to, amount } && asset@ == request.asset@ && to == request.destination
            && amount == request.amount
    } else {
        c matches AssetCall::Burn { asset, from, amount } && asset@ == request.asset@ && from == request.from
            && amount == request.amount
    }
}

/// `out` is what the asset manager `M` returned when given the call `c`.
pub open spec fn call_returned<M: BridgeAssetManager>(c: AssetCall, out: DispatchResult<Error>) -> bool {
    match c {
        AssetCall::Mint { asset, to, amount } => call_ensures(M::mint, (asset, &to, amount), out),
        AssetCall::Burn { asset, from, amount } => call_ensures(M::burn, (asset, &from, amount), out),
    }
}

/// The call that finalises `request`.
pub fn asset_call(request: &TransferRequest) -> (c: AssetCall)
    ensures
        is_call_for(c, *request),
{
    if request.to_nodara {
        AssetCall::Mint { asset: copy_bytes(&request.asset), to: request.destination, amount: request.amount }
    } else {
        AssetCall::Burn { asset: copy_bytes(&request.asset), from: request.from, amount: request.amount }
    }
}

/// Makes the call `c` on the asset manager `M` and returns what it returned.
fn perform_asset_call<M: BridgeAssetManager>(c: AssetCall) -> (out: DispatchResult<Error>)
    ensures
        call_returned::<M>(c, out),
{
    match c {
        AssetCall::Mint { asset, to, amount } => M::mint(asset, &to, amount),
        AssetCall::Burn { asset, from, amount } => M::burn(asset, &from, amount),
    }
}

/// The pallet's constants.
#[derive(Clone, Copy, Debug, PartialEq, Eq)]
pub struct Config {
    /// Confirmations a transfer needs before it can be finalised.
    pub required_confirmations: u32,
}

/// The pallet's storage and the events it has deposited.
#[derive(Debug)]
pub struct Pallet {
    pub config: Config,
    pub supported_assets: ByteMap<AssetMetadata>,
    pub pending_transfers: HashMap<u64, TransferRequest>,
    pub next_transfer_id: u64,
    pub events: Vec<Event>,
}

/// Whether `r` is the fresh request that `initiate_transfer` creates.
pub open spec fn is_new_request(r: TransferRequest, id: u64, from: u64, asset: Seq<u8>, amount: u128,
    destination: u64, to_nodara: bool) -> bool {
    &&& r.id == id
    &&& r.from == from
    &&& r.asset@ == asset
    &&& r.amount == amount
    &&& r.destination == destination
    &&& r.confirmations@ == Set::<u64>::empty()
    &&& r.to_nodara == to_nodara
}

/// Whether the asset id and metadata are acceptable for registration.
pub open spec fn valid_definition(asset: Seq<u8>, metadata: AssetMetadata) -> bool {
    asset.len() > 0 && metadata.name@.len() > 0 && metadata.symbol@.len() > 0
}

/// `b` is `a` with one more validator among the confirmations of `id`.
pub open spec fn confirmed_by(a: TransferRequest, b: TransferRequest, validator: u64) -> bool {
    &&& b.confirmations@ == a.confirmations@.insert(validator)
    &&& b.id == a.id && b.from == a.from && b.asset == a.asset && b.amount == a.amount
    &&& b.destination == a.destination && b.to_nodara == a.to_nodara
}

/// Assets registered when the chain starts.
#[derive(Debug)]
pub struct GenesisConfig {
    pub initial_assets: Vec<(Vec<u8>, AssetMetadata)>,
}

/// The supported-assets map after registering `entries` in order: a later
/// entry for the same id replaces an earlier one.
pub open spec fn assets_map(entries: Seq<(Vec<u8>, AssetMetadata)>) -> Map<Seq<u8>, AssetMetadata>
    decreases entries.len(),
{
    if entries.len() == 0 {
        Map::empty()
    } else {
        assets_map(entries.drop_last()).insert(entries.last().0@, entries.last().1)
    }
}

/// An entry of the asset list by its byte strings: (id, name, symbol,
/// decimals, source chain).
pub open spec fn entry_view(e: (Vec<u8>, AssetMetadata)) -> (Seq<u8>, Seq<u8>, Seq<u8>, u8, Seq<u8>) {
    (e.0@, e.1.name@, e.1.symbol@, e.1.decimals, e.1.source_chain@)
}

/// One entry of the default asset list, by its strings.
pub open spec fn listed(id: &str, name: &str, symbol: &str, decimals: u8, chain: &str) -> (Seq<u8>, Seq<u8>, Seq<u8>, u8, Seq<u8>) {
    (id.spec_bytes(), name.spec_bytes(), symbol.spec_bytes(), decimals, chain.spec_bytes())
}

/// The sixteen assets the bridge supports by default.
pub open spec fn default_asset_list() -> Seq<(Seq<u8>, Seq<u8>, Seq<u8>, u8, Seq<u8>)> {
    seq![
        listed("BTC", "Bitcoin", "BTC", 8, "BTC"),
        listed("ETH", "Ethereum", "ETH", 18, "ETH"),
        listed("BNB", "Binance Coin", "BNB", 18, "BNB"),
        listed("DOT", "Polkadot", "DOT", 10, "Polkadot"),
        listed("XRP", "XRP", "XRP", 6, "XRP"),
        listed("DOGE", "Dogecoin", "DOGE", 8, "DOGE"),
        listed("SOL", "Solana", "SOL", 9, "SOL"),
        listed("LINK", "Chainlink", "LINK", 18, "ETH"),
        listed("SUI", "Sui", "SUI", 9, "SUI"),
        listed("AVAX", "Avalanche", "AVAX", 18, "AVAX"),
        listed("USDT", "Tether USD", "USDT", 6, "ERC20"),
        listed("USDC", "USD Coin", "USDC", 6, "ERC20"),
        listed("ADA", "Cardano", "ADA", 6, "Cardano"),
        listed("TRX", "Tron", "TRX", 6, "TRX"),
        listed("XLM", "Stellar", "XLM", 7, "XLM"),
        listed("TON", "Toncoin", "TON", 9, "TON"),
    ]
}

/// Appends one entry, built from its strings, to the asset list.
fn push_listed(list: &mut Vec<(Vec<u8>, AssetMetadata)>, id: &str, name: &str, symbol: &str, decimals: u8, chain: &str)
    ensures
        final(list)@.len() == old(list)@.len() + 1,
        final(list)@.drop_last() == old(list)@,
        entry_view(final(list)@.last()) == listed(id, name, symbol, decimals, chain),
{
    let meta = AssetMetadata {
        name: str_bytes(name),
        symbol: str_bytes(symbol),
        decimals,
        source_chain: str_bytes(chain),
    };
    list.push((str_bytes(id), meta));
    assert(list@.drop_last() =~= old(list)@);
}

impl Default for GenesisConfig {
    /// The default asset list.
    fn default() -> (g: Self)
        ensures
            g.initial_assets@.map_values(|e: (Vec<u8>, AssetMetadata)| entry_view(e)) == default_asset_list(),
    {
        let mut l: Vec<(Vec<u8>, AssetMetadata)> = Vec::new();
        push_listed(&mut l, "BTC", "Bitcoin", "BTC", 8, "BTC");
        push_listed(&mut l, "ETH", "Ethereum", "ETH", 18, "ETH");
        push_listed(&mut l, "BNB", "Binance Coin", "BNB", 18, "BNB");
        push_listed(&mut l, "DOT", "Polkadot", "DOT", 10, "Polkadot");
        push_listed(&mut l, "XRP", "XRP", "XRP", 6, "XRP");
        push_listed(&mut l, "DOGE", "Dogecoin", "DOGE", 8, "DOGE");
        push_listed(&mut l, "SOL", "Solana", "SOL", 9, "SOL");
        push_listed(&mut l, "LINK", "Chainlink", "LINK", 18, "ETH");
        push_listed(&mut l, "SUI", "Sui", "SUI", 9, "SUI");
        push_listed(&mut l, "AVAX", "Avalanche", "AVAX", 18, "AVAX");
        push_listed(&mut l, "USDT", "Tether USD", "USDT", 6, "ERC20");
        push_listed(&mut l, "USDC", "USD Coin", "USDC", 6, "ERC20");
        push_listed(&mut l, "ADA", "Cardano", "ADA", 6, "Cardano");
        push_listed(&mut l, "TRX", "Tron", "TRX", 6, "TRX");
        push_listed(&mut l, "XLM", "Stellar", "XLM", 7, "XLM");
        push_listed(&mut l, "TON", "Toncoin", "TON", 9, "TON");
        let ghost v = l@.map_values(|e: (Vec<u8>, AssetMetadata)| entry_view(e));
        assert forall|i: int| 0 <= i < 16 implies v[i] == default_asset_list()[i] by {
            assert(v[i] == entry_view(l@[i]));
        }
        assert(v =~= default_asset_list());
        GenesisConfig { initial_assets: l }
    }
}

impl GenesisConfig {
    /// The pallet at genesis: the listed assets registered in order, no
    /// transfers and no events.
    pub fn build(self, config: Config) -> (p: Pallet)
        ensures
            p.config == config,
            p.supported_assets.view() == assets_map(self.initial_assets@),
            p.pending_transfers@ == Map::<u64, TransferRequest>::empty(),
            p.next_transfer_id == 0,
            p.events@.len() == 0,
    {
        let mut p = Pallet::new(config);
        let ghost all = self.initial_assets@;
        let mut entries = self.initial_assets;
        let mut rest: Vec<(Vec<u8>, AssetMetadata)> = Vec::new();
        // Reverse, so that popping yields the entries in their order.
        while entries.len() > 0
            invariant
                all == entries@ + rest@.reverse(),
            decreases entries.len(),
        {
            let ghost before_e = entries@;
            let ghost before_r = rest@;
            let e = entries.pop().unwrap();
            rest.push(e);
            assert(rest@.reverse() =~= seq![e] + before_r.reverse());
            assert(before_e =~= entries@.push(e));
            assert(all =~= entries@ + rest@.reverse());
        }
        assert(all =~= rest@.reverse());
        assert(all.take(0) =~= Seq::<(Vec<u8>, AssetMetadata)>::empty());
        let ghost n = all.len();
        while rest.len() > 0
            invariant
                all == all.take(n - rest@.len()) + rest@.reverse(),
                rest@.len() <= n,
                n == all.len(),
                p.config == config,
                p.supported_assets.view() == assets_map(all.take(n - rest@.len())),
                p.pending_transfers@ == Map::<u64, TransferRequest>::empty(),
                p.next_transfer_id == 0,
                p.events@.len() == 0,
            decreases rest.len(),
        {
            let ghost before_r = rest@;
            let ghost done = n - rest@.len();
            let e = rest.pop().unwrap();
            proof {
                assert(before_r.reverse() =~= seq![e] + rest@.reverse());
                assert(all[done] == e);
                assert(all.take(done + 1) =~= all.take(done).push(e));
                assert(all.take(done + 1).drop_last() =~= all.take(done));
                assert(all =~= all.take(done + 1) + rest@.reverse());
            }
            let (k, m) = e;
            p.supported_assets.insert(k, m);
        }
        assert(all.take(n as int) =~= all);
        p
    }
}

impl Pallet {
    /// A pallet with empty storage.
    pub fn new(config: Config) -> (p: Self)
        ensures
            p.config == config,
            p.supported_assets.view() == Map::<Seq<u8>, AssetMetadata>::empty(),
            p.pending_transfers@ == Map::<u64, TransferRequest>::empty(),
            p.next_transfer_id == 0,
            p.events@.len() == 0,
    {
        Pallet {
            config,
            supported_assets: ByteMap::new(),
            pending_transfers: HashMap::new(),
            next_transfer_id: 0,
            events: Vec::new(),
        }
    }

    /// Signed: registers `asset` with `metadata`. The asset id, name and symbol
    /// must not be empty and the asset must not be registered already.
    pub fn register_asset(&mut self, origin: Origin, asset: Vec<u8>, metadata: AssetMetadata) -> (r: DispatchResult<Error>)
        ensures
            !(origin is Signed) ==> r == Err::<(), DispatchError<Error>>(DispatchError::BadOrigin),
            origin is Signed && !valid_definition(asset@, metadata) ==>
                r == Err::<(), DispatchError<Error>>(DispatchError::Module(Error::InvalidAssetDefinition)),
            origin is Signed && (asset@.len() == 0 || metadata.name@.len() == 0 || metadata.symbol@.len() == 0) ==>
                r == Err::<(), DispatchError<Error>>(DispatchError::Module(Error::InvalidAssetDefinition)),
            r is Ok ==> asset@.len() > 0 && metadata.name@.len() > 0 && metadata.symbol@.len() > 0,
            origin is Signed && valid_definition(asset@, metadata) && old(self).supported_assets.view().contains_key(asset@) ==>
                r == Err::<(), DispatchError<Error>>(DispatchError::Module(Error::AssetAlreadyExists)),
            r is Err ==> final(self).supported_assets.view() == old(self).supported_assets.view()
                && final(self).events@ == old(self).events@,
            origin is Signed && valid_definition(asset@, metadata) && !old(self).supported_assets.view().contains_key(asset@) ==> {
                &&& r is Ok
                &&& final(self).supported_assets.view() == old(self).supported_assets.view().insert(asset@, metadata)
                &&& final(self).events@ == old(self).events@.push(Event::AssetRegistered(asset))
            },
            final(self).config == old(self).config,
            final(self).pending_transfers@ == old(self).pending_transfers@,
            final(self).next_transfer_id == old(self).next_transfer_id,
    {
        let _ = ensure_signed::<Error>(origin)?;
        if asset.len() == 0 || metadata.name.len() == 0 || metadata.symbol.len() == 0 {
            return Err(DispatchError::Module(Error::InvalidAssetDefinition));
        }
        if self.supported_assets.contains_key(&asset) {
            return Err(DispatchError::Module(Error::AssetAlreadyExists));
        }
        let key = copy_bytes(&asset);
        self.supported_assets.insert(key, metadata);
        self.events.push(Event::AssetRegistered(asset));
        Ok(())
    }

    /// Signed: opens a transfer of a positive `amount` of a supported asset,
    /// under the next transfer id, with no confirmations yet.
    pub fn initiate_transfer(
        &mut self,
        origin: Origin,
        asset: Vec<u8>,
        amount: u128,
        destination: u64,
        to_nodara: bool,
    ) -> (r: DispatchResult<Error>)
        ensures
            !(origin is Signed) ==> r == Err::<(), DispatchError<Error>>(DispatchError::BadOrigin),
            origin is Signed && amount == 0 ==>
                r == Err::<(), DispatchError<Error>>(DispatchError::Module(Error::InvalidAmount)),
            origin is Signed && amount > 0 && !old(self).supported_assets.view().contains_key(asset@) ==>
                r == Err::<(), DispatchError<Error>>(DispatchError::Module(Error::AssetNotSupported)),
            r is Err ==> final(self).pending_transfers@ == old(self).pending_transfers@
                && final(self).next_transfer_id == old(self).next_transfer_id
                && final(self).events@ == old(self).events@,
            origin is Signed && amount > 0 && old(self).supported_assets.view().contains_key(asset@) ==> {
                let id = old(self).next_transfer_id;
                let from = origin->Signed_0;
                &&& r is Ok
                &&& final(self).next_transfer_id == id.saturating_add(1)
                &&& final(self).pending_transfers@.dom() == old(self).pending_transfers@.dom().insert(id)
                &&& is_new_request(final(self).pending_transfers@[id], id, from, asset@, amount, destination, to_nodara)
                &&& forall|t: u64| t != id && #[trigger] old(self).pending_transfers@.contains_key(t)
                    ==> final(self).pending_transfers@[t] == old(self).pending_transfers@[t]
                &&& final(self).events@ == old(self).events@.push(
                    Event::TransferInitiated(id, from, asset, amount, destination, to_nodara))
            },
            final(self).config == old(self).config,
            final(self).supported_assets.view() == old(self).supported_assets.view(),
    {
        let sender = ensure_signed::<Error>(origin)?;
        if amount == 0 {
            return Err(DispatchError::Module(Error::InvalidAmount));
        }
        if !self.supported_assets.contains_key(&asset) {
            return Err(DispatchError::Module(Error::AssetNotSupported));
        }
        let transfer_id = self.next_transfer_id;
        self.next_transfer_id = transfer_id.saturating_add(1);
        let request = TransferRequest {
            id: transfer_id,
            from: sender,
            asset: copy_bytes(&asset),
            amount,
            destination,
            confirmations: BTreeSet::new(),
            to_nodara,
        };
        self.pending_transfers.insert(transfer_id, request);
        self.events.push(Event::TransferInitiated(transfer_id, sender, asset, amount, destination, to_nodara));
        Ok(())
    }

    /// Signed: records the caller's confirmation of a pending transfer; a
    /// validator confirms a transfer at most once.
    pub fn confirm_transfer(&mut self, origin: Origin, transfer_id: u64) -> (r: DispatchResult<Error>)
        ensures
            !(origin is Signed) ==> r == Err::<(), DispatchError<Error>>(DispatchError::BadOrigin),
            origin is Signed && !old(self).pending_transfers@.contains_key(transfer_id) ==>
                r == Err::<(), DispatchError<Error>>(DispatchError::Module(Error::TransferNotFound)),
            origin is Signed && old(self).pending_transfers@.contains_key(transfer_id)
                && old(self).pending_transfers@[transfer_id].confirmations@.contains(origin->Signed_0) ==>
                r == Err::<(), DispatchError<Error>>(DispatchError::Module(Error::AlreadyConfirmed)),
            r is Err ==> final(self).pending_transfers@ == old(self).pending_transfers@
                && final(self).events@ == old(self).events@,
            origin is Signed && old(self).pending_transfers@.contains_key(transfer_id)
                && !old(self).pending_transfers@[transfer_id].confirmations@.contains(origin->Signed_0) ==> {
                let v = origin->Signed_0;
                &&& r is Ok
                &&& final(self).pending_transfers@.dom() == old(self).pending_transfers@.dom()
                &&& confirmed_by(old(self).pending_transfers@[transfer_id], final(self).pending_transfers@[transfer_id], v)
                &&& forall|t: u64| t != transfer_id && #[trigger] old(self).pending_transfers@.contains_key(t)
                    ==> final(self).pending_transfers@[t] == old(self).pending_transfers@[t]
                &&& final(self).events@ == old(self).events@.push(Event::TransferConfirmed(transfer_id, v))
            },
            final(self).config == old(self).config,
            final(self).supported_assets.view() == old(self).supported_assets.view(),
            final(self).next_transfer_id == old(self).next_transfer_id,
    {
        let validator = ensure_signed::<Error>(origin)?;
        let ghost before = self.pending_transfers@;
        match self.pending_transfers.remove(&transfer_id) {
            None => Err(DispatchError::Module(Error::TransferNotFound)),
            Some(mut request) => {
                if request.confirmations.contains(&validator) {
                    self.pending_transfers.insert(transfer_id, request);
                    assert(self.pending_transfers@ =~= before);
                    return Err(DispatchError::Module(Error::AlreadyConfirmed));
                }
                request.confirmations.insert(validator);
                self.pending_transfers.insert(transfer_id, request);
                self.events.push(Event::TransferConfirmed(transfer_id, validator));
                Ok(())
            },
        }
    }

    /// Signed: finalises a pending transfer that has at least the required
    /// number of confirmations by making its call (`asset_call`) on the asset
    /// manager: minting the amount to the destination for a transfer towards
    /// Nodara, burning it from the sender otherwise. The result is what the
    /// asset manager returned: on success the request is removed and
    /// `TransferFinalized` deposited; on its error nothing changes.
    pub fn finalize_transfer<M: BridgeAssetManager>(&mut self, origin: Origin, transfer_id: u64) -> (r: DispatchResult<Error>)
        ensures
            !(origin is Signed) ==> r == Err::<(), DispatchError<Error>>(DispatchError::BadOrigin),
            origin is Signed && !old(self).pending_transfers@.contains_key(transfer_id) ==>
                r == Err::<(), DispatchError<Error>>(DispatchError::Module(Error::TransferNotFound)),
            origin is Signed && old(self).pending_transfers@.contains_key(transfer_id)
                && (old(self).pending_transfers@[transfer_id].confirmations@.len() as u32)
                    < old(self).config.required_confirmations ==>
                r == Err::<(), DispatchError<Error>>(DispatchError::Module(Error::InsufficientConfirmations)),
            origin is Signed && old(self).pending_transfers@.contains_key(transfer_id)
                && (old(self).pending_transfers@[transfer_id].confirmations@.len() as u32)
                    >= old(self).config.required_confirmations ==>
                exists|c: AssetCall| #[trigger] call_returned::<M>(c, r)
                    && is_call_for(c, old(self).pending_transfers@[transfer_id]),
            r is Err ==> final(self).pending_transfers@ == old(self).pending_transfers@
                && final(self).events@ == old(self).events@,
            r is Ok ==> {
                &&& origin is Signed
                &&& old(self).pending_transfers@.contains_key(transfer_id)
                &&& (old(self).pending_transfers@[transfer_id].confirmations@.len() as u32)
                    >= old(self).config.required_confirmations
                &&& final(self).pending_transfers@ == old(self).pending_transfers@.remove(transfer_id)
                &&& final(self).events@ == old(self).events@.push(Event::TransferFinalized(transfer_id))
            },
            final(self).config == old(self).config,
            final(self).supported_assets.view() == old(self).supported_assets.view(),
            final(self).next_transfer_id == old(self).next_transfer_id,
    {
        let _ = ensure_signed::<Error>(origin)?;
        let ghost before = self.pending_transfers@;
        match self.pending_transfers.remove(&transfer_id) {
            None => Err(DispatchError::Module(Error::TransferNotFound)),
            Some(request) => {
                if (request.confirmations.len() as u32) < self.config.required_confirmations {
                    self.pending_transfers.insert(transfer_id, request);
                    assert(self.pending_transfers@ =~= before);
                    return Err(DispatchError::Module(Error::InsufficientConfirmations));
                }
                assert(request == before[transfer_id]);
                let call = asset_call(&request);
                let ghost made = call;
                let outcome = perform_asset_call::<M>(call);
                assert(call_returned::<M>(made, outcome));
                match outcome {
                    Err(e) => {
                        self.pending_transfers.insert(transfer_id, request);
                        assert(self.pending_transfers@ =~= before);
                        assert(call_returned::<M>(made, Err(e)));
                        Err(e)
                    },
                    Ok(v) => {
                        assert(call_returned::<M>(made, Ok(v)));
                        self.events.push(Event::TransferFinalized(transfer_id));
                        Ok(v)
                    },
                }
            },
        }
    }
}

/// A confirmation adds its validator once: afterwards the validator is among
/// the confirmations (so a second confirmation by it is refused), and the
/// count that finalisation compares with the requirement grows by one.
pub proof fn law_confirmation_counts_once(a: TransferRequest, b: TransferRequest, validator: u64)
    requires
        a.confirmations@.finite(),
        !a.confirmations@.contains(validator),
        confirmed_by(a, b, validator),
    ensures
        b.confirmations@.contains(validator),
        b.confirmations@.len() == a.confirmations@.len() + 1,
{
}

/// An asset definition is accepted exactly when the asset id, the name and
/// the symbol are all non-empty.
pub proof fn law_asset_definition(asset: Seq<u8>, metadata: AssetMetadata)
    ensures
        valid_definition(asset, metadata) <==> (asset.len() > 0 && metadata.name@.len() > 0 && metadata.symbol@.len() > 0),
        asset.len() == 0 ==> !valid_definition(asset, metadata),
        metadata.name@.len() == 0 ==> !valid_definition(asset, metadata),
        metadata.symbol@.len() == 0 ==> !valid_definition(asset, metadata),
{
}

} // verus!
