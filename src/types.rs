//! Option structures with their defaults, and the records that on-chain
//! resources and table items decode into.

use vstd::prelude::*;
use crate::address::Address;

verus! {

/// Gas and expiry settings of a transaction, and the coin that swap listings
/// are priced in.
#[derive(Clone, Debug)]
pub struct TransactionOptions {
    pub max_gas_amount: u64,
    pub gas_unit_price: u64,
    /// This is the number of seconds from now you're willing to wait for the
    /// transaction to be committed.
    pub timeout_sec: u64,
    pub coin_type: String,
}

/// Default gas limit of a transaction.
pub const DEFAULT_MAX_GAS_AMOUNT: u64 = 5000;

/// Default price of a unit of gas.
pub const DEFAULT_GAS_UNIT_PRICE: u64 = 100;

/// Default number of seconds before a transaction expires.
pub const DEFAULT_TIMEOUT_SEC: u64 = 10;

/// The native coin's type, the default coin of swap listings.
pub open spec fn native_coin_type() -> Seq<char> {
    "0x1::aptos_coin::AptosCoin"@
}

/// `o` holds every default setting.
pub open spec fn is_default_options(o: TransactionOptions) -> bool {
    &&& o.max_gas_amount == DEFAULT_MAX_GAS_AMOUNT
    &&& o.gas_unit_price == DEFAULT_GAS_UNIT_PRICE
    &&& o.timeout_sec == DEFAULT_TIMEOUT_SEC
    &&& o.coin_type@ == native_coin_type()
}

impl Default for TransactionOptions {
    fn default() -> (r: Self)
        ensures
            is_default_options(r),
    {
        TransactionOptions {
            max_gas_amount: DEFAULT_MAX_GAS_AMOUNT,
            gas_unit_price: DEFAULT_GAS_UNIT_PRICE,
            timeout_sec: DEFAULT_TIMEOUT_SEC,
            coin_type: String::from_str("0x1::aptos_coin::AptosCoin"),
        }
    }
}

/// The options in force: those given, or the defaults when none are.
pub open spec fn options_in_force(options: Option<TransactionOptions>, r: TransactionOptions) -> bool {
    match options {
        Some(o) => r == o,
        None => is_default_options(r),
    }
}

/// The gas limit, gas unit price and timeout that `o` sets.
pub open spec fn settings_of(o: TransactionOptions) -> (u64, u64, u64) {
    (o.max_gas_amount, o.gas_unit_price, o.timeout_sec)
}

/// The gas limit, gas unit price and timeout in force under `options`.
pub open spec fn settings_in_force(options: Option<TransactionOptions>) -> (u64, u64, u64) {
    match options {
        Some(o) => settings_of(o),
        None => (DEFAULT_MAX_GAS_AMOUNT, DEFAULT_GAS_UNIT_PRICE, DEFAULT_TIMEOUT_SEC),
    }
}

/// The coin type in force under `options`.
pub open spec fn coin_type_in_force(options: Option<TransactionOptions>) -> Seq<char> {
    match options {
        Some(o) => o.coin_type@,
        None => native_coin_type(),
    }
}

/// A transaction built at `now_secs` under `options` expires at an instant
/// that a `u64` holds.
pub open spec fn expiry_fits(now_secs: u64, options: Option<TransactionOptions>) -> bool {
    now_secs + settings_in_force(options).2 <= u64::MAX
}

/// The options given, or the defaults.
pub fn resolve_options(options: Option<TransactionOptions>) -> (r: TransactionOptions)
    ensures
        options_in_force(options, r),
        settings_of(r) == settings_in_force(options),
        r.coin_type@ == coin_type_in_force(options),
{
    match options {
        Some(o) => o,
        None => TransactionOptions::default(),
    }
}

/// Which parts of a new collection may be changed later.
#[derive(Clone, Copy, Debug, PartialEq, Eq, Structural)]
pub struct CollectionOptions {
    pub description_mutable: bool,
    pub uri_mutable: bool,
    pub supply_mutable: bool,
}

impl Default for CollectionOptions {
    fn default() -> (r: Self)
        ensures
            !r.description_mutable && !r.uri_mutable && !r.supply_mutable,
    {
        CollectionOptions { description_mutable: false, uri_mutable: false, supply_mutable: false }
    }
}

/// Property map of a new token, as three parallel lists.
#[derive(Clone, Debug)]
pub struct TokenProperty {
    pub keys: Vec<String>,
    pub values: Vec<String>,
    pub types: Vec<String>,
}

impl Default for TokenProperty {
    fn default() -> (r: Self)
        ensures
            r.keys@.len() == 0 && r.values@.len() == 0 && r.types@.len() == 0,
    {
        TokenProperty { keys: Vec::new(), values: Vec::new(), types: Vec::new() }
    }
}

/// Royalty of a token, as the fraction `numerator / denominator`.
#[derive(Clone, Copy, Debug, PartialEq, Eq, Structural)]
pub struct RoyaltyPoints {
    pub denominator: u64,
    pub numerator: u64,
}

impl Default for RoyaltyPoints {
    fn default() -> (r: Self)
        ensures
            r.denominator == 0 && r.numerator == 0,
    {
        RoyaltyPoints { denominator: 0, numerator: 0 }
    }
}

/// An on-chain event stream: how many events it holds, and its identity.
#[derive(Clone, Copy, Debug)]
pub struct EventHandle {
    pub counter: u64,
    pub guid: Guid,
}

#[derive(Clone, Copy, Debug)]
pub struct Guid {
    pub id: ID,
}

#[derive(Clone, Copy, Debug)]
pub struct ID {
    pub addr: Address,
    pub creation_num: u64,
}

/// The handle of an on-chain table.
#[derive(Clone, Copy, Debug)]
pub struct Handle {
    pub handle: Address,
}

/// A creator's collection registry.
#[derive(Clone, Copy, Debug)]
pub struct CollectionsResources {
    pub collection_data: Handle,
    pub create_collection_events: EventHandle,
    pub create_token_data_events: EventHandle,
    pub mint_token_events: EventHandle,
    pub token_data: Handle,
}

/// An account's store of held tokens.
#[derive(Clone, Copy, Debug)]
pub struct TokenStoreResources {
    pub burn_events: EventHandle,
    pub deposit_events: EventHandle,
    pub direct_transfer: bool,
    pub mutate_token_property_events: EventHandle,
    pub tokens: Handle,
    pub withdraw_events: EventHandle,
}

/// An account's pending offers, with the counters of offers, claims and
/// cancelled offers.
#[derive(Clone, Copy, Debug)]
pub struct PendingClaimsResources {
    pub cancel_offer_events: EventHandle,
    pub claim_events: EventHandle,
    pub offer_events: EventHandle,
    pub pending_claims: Handle,
}

/// The part of a collection registry that locates token data.
#[derive(Clone, Copy, Debug)]
pub struct TokenDataStoreResources {
    pub token_data: Handle,
}

#[derive(Clone, Copy, Debug, PartialEq, Eq, Structural)]
pub struct CollectionMutabilityConfig {
    pub description: bool,
    pub maximum: bool,
    pub uri: bool,
}

/// Metadata of a collection.
#[derive(Clone, Debug)]
pub struct CollectionData {
    pub name: String,
    pub description: String,
    pub uri: String,
    pub supply: u64,
    pub maximum: u64,
    pub mutability_config: CollectionMutabilityConfig,
}

/// Metadata of a token type.
#[derive(Clone, Debug)]
pub struct TokenData {
    pub maximum: Option<u64>,
    pub largest_property_version: u64,
    pub supply: u64,
    pub uri: String,
    pub name: String,
    pub description: String,
}

/// Identifies a token type: creator, collection and name.
#[derive(Clone, Debug)]
pub struct TokenDataId {
    pub creator: Address,
    pub collection: String,
    pub name: String,
}

/// Identifies a token instance: its type and property version.
#[derive(Clone, Debug)]
pub struct TokenId {
    pub token_data_id: TokenDataId,
    pub property_version: u64,
}

/// A holder's balance of one token instance.
#[derive(Clone, Debug)]
pub struct Token {
    pub id: TokenId,
    pub amount: u64,
}

} // verus!
