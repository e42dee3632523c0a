//! The token client: one operation for each step of a token's life, each
//! turning its domain arguments into the envelope of one module call.

use vstd::prelude::*;
use crate::address::{Address, get_hex_address_three, address_three_bytes};
use crate::encoding::{
    bcs_address, bcs_bool_seq, bcs_string, bcs_string_seq, bcs_u64, decode_bool_seq, decode_string,
    decode_u64, encode_address, encode_bools, encode_str, encode_strings, encode_u64,
    lemma_bool_seq_round_trip, lemma_string_round_trip, lemma_u64_round_trip, string_encodable,
    strings_encodable,
};
use crate::error::{Absence, Operation, QueryKind, TokenError};
use crate::lookup::{counter_result, Lookup, LookupStage, TableKey};
use crate::module_client::{
    is_envelope, is_move_identifier, ModuleClient, ModuleId, SignerInfo, TransactionEnvelope,
    arg_bytes, ty_arg_text,
};
use crate::types::{
    coin_type_in_force, expiry_fits, native_coin_type, DEFAULT_GAS_UNIT_PRICE,
    DEFAULT_MAX_GAS_AMOUNT, DEFAULT_TIMEOUT_SEC, resolve_options, settings_in_force, CollectionOptions,
    PendingClaimsResources, RoyaltyPoints, TokenDataId, TokenId, TokenProperty,
    TransactionOptions,
};

verus! {

/// Whether `s` is the text of a type tag, as the SDK's strict type-tag
/// parser decides it.
pub uninterp spec fn is_type_tag(s: Seq<char>) -> bool;

/// Relies on `aptos_sdk::types::TypeTag::from_str_strict`: whether it parses
/// `s`, which depends on the text alone.
#[verifier::external_body]
fn type_tag_accepts(s: &str) -> (r: bool)
    ensures
        r == is_type_tag(s@),
{
    aptos_sdk::types::TypeTag::from_str_strict(s).is_ok()
}

/// The property version in force: the one given, or zero.
pub open spec fn version_in_force(property_version: Option<u64>) -> u64 {
    match property_version {
        Some(v) => v,
        None => 0,
    }
}

/// The collection options in force: those given, or all immutable.
pub open spec fn collection_options_in_force(o: Option<CollectionOptions>) -> CollectionOptions {
    match o {
        Some(c) => c,
        None => CollectionOptions {
            description_mutable: false,
            uri_mutable: false,
            supply_mutable: false,
        },
    }
}

/// The royalty in force: the one given, or zero over zero.
pub open spec fn royalty_in_force(o: Option<RoyaltyPoints>) -> RoyaltyPoints {
    match o {
        Some(p) => p,
        None => RoyaltyPoints { denominator: 0, numerator: 0 },
    }
}

/// The property keys, values and types in force: those given, or none.
pub open spec fn property_in_force(o: Option<TokenProperty>) -> (
    Seq<Seq<char>>,
    Seq<Seq<char>>,
    Seq<Seq<char>>,
) {
    match o {
        Some(p) => (p.keys.deep_view(), p.values.deep_view(), p.types.deep_view()),
        None => (seq![], seq![], seq![]),
    }
}

/// Encoded arguments of `create_collection_script`.
pub open spec fn create_collection_args(
    name: Seq<char>,
    description: Seq<char>,
    uri: Seq<char>,
    max_supply: u64,
    c: CollectionOptions,
) -> Seq<Seq<u8>> {
    seq![
        bcs_string(name),
        bcs_string(description),
        bcs_string(uri),
        bcs_u64(max_supply),
        bcs_bool_seq(seq![c.description_mutable, c.uri_mutable, c.supply_mutable]),
    ]
}

/// Reads the arguments of `create_collection_script` back: name,
/// description, uri, maximum supply and the mutability flags.
pub open spec fn decode_create_collection_args(args: Seq<Seq<u8>>) -> Option<
    (Seq<char>, Seq<char>, Seq<char>, u64, Seq<bool>),
> {
    if args.len() != 5 {
        None
    } else {
        match (
            decode_string(args[0]),
            decode_string(args[1]),
            decode_string(args[2]),
            decode_u64(args[3]),
            decode_bool_seq(args[4]),
        ) {
            (Some(name), Some(description), Some(uri), Some(max_supply), Some(flags)) => Some(
                (name, description, uri, max_supply, flags),
            ),
            _ => None,
        }
    }
}

/// The encoded arguments of a new collection decode, by the same encoding,
/// to the name, description, uri, maximum supply and mutability flags they
/// were made from.
pub proof fn lemma_create_collection_args_round_trip(
    name: Seq<char>,
    description: Seq<char>,
    uri: Seq<char>,
    max_supply: u64,
    c: CollectionOptions,
)
    ensures
        decode_create_collection_args(
            create_collection_args(name, description, uri, max_supply, c),
        ) == Some(
            (
                name,
                description,
                uri,
                max_supply,
                seq![c.description_mutable, c.uri_mutable, c.supply_mutable],
            ),
        ),
{
    lemma_string_round_trip(name);
    lemma_string_round_trip(description);
    lemma_string_round_trip(uri);
    lemma_u64_round_trip(max_supply);
    lemma_bool_seq_round_trip(seq![c.description_mutable, c.uri_mutable, c.supply_mutable]);
}

/// Options left unset take their defaults, and options set reach the
/// envelope as they were given: in an envelope built at `now_secs` under
/// `options`, the gas limit, gas unit price and expiry are those of the
/// options given, or 5000, 100 and ten seconds on; and a coin type passed as
/// the type argument is the one given, or the native coin.
pub proof fn lemma_options_reach_envelope(
    e: TransactionEnvelope,
    chain_id: u8,
    module: ModuleId,
    sender: SignerInfo,
    now_secs: u64,
    function: Seq<char>,
    ty_args: Seq<Seq<char>>,
    args: Seq<Seq<u8>>,
    options: Option<TransactionOptions>,
    others: Seq<Address>,
)
    requires
        is_envelope(
            e,
            chain_id,
            module,
            sender,
            now_secs,
            function,
            ty_args,
            args,
            settings_in_force(options),
            others,
        ),
    ensures
        options matches Some(o) ==> e.max_gas_amount == o.max_gas_amount && e.gas_unit_price
            == o.gas_unit_price && e.expiration_timestamp_secs == now_secs + o.timeout_sec,
        options is None ==> e.max_gas_amount == DEFAULT_MAX_GAS_AMOUNT && e.gas_unit_price
            == DEFAULT_GAS_UNIT_PRICE && e.expiration_timestamp_secs == now_secs
            + DEFAULT_TIMEOUT_SEC,
        ty_args == seq![coin_type_in_force(options)] ==> ty_arg_text(e.payload.ty_args@)
            == seq![
            match options {
                Some(o) => o.coin_type@,
                None => native_coin_type(),
            },
        ],
{
}

/// Encoded arguments of `create_token_script`.
pub open spec fn create_token_args(
    collection_name: Seq<char>,
    name: Seq<char>,
    description: Seq<char>,
    supply: u64,
    max_mint: u64,
    uri: Seq<char>,
    royalty_payee: Address,
    royalty: RoyaltyPoints,
    property: (Seq<Seq<char>>, Seq<Seq<char>>, Seq<Seq<char>>),
) -> Seq<Seq<u8>> {
    seq![
        bcs_string(collection_name),
        bcs_string(name),
        bcs_string(description),
        bcs_u64(supply),
        bcs_u64(max_mint),
        bcs_string(uri),
        bcs_address(royalty_payee),
        bcs_u64(royalty.denominator),
        bcs_u64(royalty.numerator),
        bcs_bool_seq(seq![false, false, false, false, false]),
        bcs_string_seq(property.0),
        bcs_string_seq(property.1),
        bcs_string_seq(property.2),
    ]
}

/// Encoded arguments of `burn`.
pub open spec fn burn_args(
    creator: Address,
    collection_name: Seq<char>,
    name: Seq<char>,
    property_version: u64,
    amount: u64,
) -> Seq<Seq<u8>> {
    seq![
        bcs_address(creator),
        bcs_string(collection_name),
        bcs_string(name),
        bcs_u64(property_version),
        bcs_u64(amount),
    ]
}

/// Encoded arguments of `offer_script`.
pub open spec fn offer_args(
    to_account: Address,
    creator: Address,
    collection_name: Seq<char>,
    name: Seq<char>,
    property_version: u64,
    amount: u64,
) -> Seq<Seq<u8>> {
    seq![
        bcs_address(to_account),
        bcs_address(creator),
        bcs_string(collection_name),
        bcs_string(name),
        bcs_u64(property_version),
        bcs_u64(amount),
    ]
}

/// Encoded arguments of `claim_script` and `cancel_offer_script`: the other
/// party of the offer, then the token.
pub open spec fn offer_party_args(
    party: Address,
    creator: Address,
    collection_name: Seq<char>,
    name: Seq<char>,
    property_version: u64,
) -> Seq<Seq<u8>> {
    seq![
        bcs_address(party),
        bcs_address(creator),
        bcs_string(collection_name),
        bcs_string(name),
        bcs_u64(property_version),
    ]
}

/// Encoded arguments of `direct_transfer_script`.
pub open spec fn direct_transfer_args(
    creator: Address,
    collection_name: Seq<char>,
    name: Seq<char>,
    property_version: u64,
    amount: u64,
) -> Seq<Seq<u8>> {
    seq![
        bcs_address(creator),
        bcs_string(collection_name),
        bcs_string(name),
        bcs_u64(property_version),
        bcs_u64(amount),
    ]
}

/// Encoded arguments of `list_token_for_swap`.
pub open spec fn list_for_swap_args(
    creator: Address,
    collection: Seq<char>,
    name: Seq<char>,
    property_version: u64,
    amount: u64,
    min_coin_per_token: u64,
    locked_until_secs: u64,
) -> Seq<Seq<u8>> {
    seq![
        bcs_address(creator),
        bcs_string(collection),
        bcs_string(name),
        bcs_u64(property_version),
        bcs_u64(amount),
        bcs_u64(min_coin_per_token),
        bcs_u64(locked_until_secs),
    ]
}

/// The text arguments of `create_token_script` are all encodable.
pub open spec fn create_token_encodable(
    collection_name: Seq<char>,
    name: Seq<char>,
    description: Seq<char>,
    uri: Seq<char>,
    property: (Seq<Seq<char>>, Seq<Seq<char>>, Seq<Seq<char>>),
) -> bool {
    &&& string_encodable(collection_name)
    &&& string_encodable(name)
    &&& string_encodable(description)
    &&& string_encodable(uri)
    &&& strings_encodable(property.0)
    &&& strings_encodable(property.1)
    &&& strings_encodable(property.2)
}

/// The error of an operation whose arguments are encodable exactly when
/// `encodable`: an encoding error if they are not, else an expiry overflow.
pub open spec fn build_error(op: Operation, encodable: bool) -> TokenError {
    if !encodable {
        TokenError::Encoding(op)
    } else {
        TokenError::ExpirationOverflow(op)
    }
}

fn enc_str(s: &str, op: Operation) -> (r: Result<Vec<u8>, TokenError>)
    ensures
        r is Ok <==> string_encodable(s@),
        r matches Ok(b) ==> b@ == bcs_string(s@),
        r matches Err(e) ==> e == TokenError::Encoding(op),
{
    match encode_str(s) {
        Some(b) => Ok(b),
        None => Err(TokenError::Encoding(op)),
    }
}

fn enc_strings(v: &Vec<String>, op: Operation) -> (r: Result<Vec<u8>, TokenError>)
    ensures
        r is Ok <==> strings_encodable(v.deep_view()),
        r matches Ok(b) ==> b@ == bcs_string_seq(v.deep_view()),
        r matches Err(e) ==> e == TokenError::Encoding(op),
{
    match encode_strings(v) {
        Some(b) => Ok(b),
        None => Err(TokenError::Encoding(op)),
    }
}

fn bools_of(a: bool, b: bool, c: bool) -> (r: Vec<u8>)
    ensures
        r@ == bcs_bool_seq(seq![a, b, c]),
{
    let mut v: Vec<bool> = Vec::new();
    v.push(a);
    v.push(b);
    v.push(c);
    assert(v@ =~= seq![a, b, c]);
    match encode_bools(&v) {
        Some(bytes) => bytes,
        None => {
            proof {
                assert(false);
            }
            Vec::new()
        },
    }
}

fn five_false() -> (r: Vec<u8>)
    ensures
        r@ == bcs_bool_seq(seq![false, false, false, false, false]),
{
    let mut v: Vec<bool> = Vec::new();
    let mut i: usize = 0;
    while i < 5
        invariant
            i <= 5,
            v@.len() == i,
            forall|j: int| 0 <= j < i ==> !#[trigger] v@[j],
        decreases 5 - i,
    {
        v.push(false);
        i = i + 1;
    }
    assert(v@ =~= seq![false, false, false, false, false]);
    match encode_bools(&v) {
        Some(bytes) => bytes,
        None => {
            proof {
                assert(false);
            }
            Vec::new()
        },
    }
}

/// The client of the token modules published at `0x3`: `token` for the
/// lifecycle of collections and tokens, `token_transfers` for offers, claims,
/// transfers and swap listings.
#[derive(Clone, Debug)]
pub struct TokenClient {
    pub module_client: ModuleClient,
    pub token_transfer_module_client: ModuleClient,
}

impl TokenClient {
    /// A client for the chain `chain_id`.
    pub fn new(chain_id: u8) -> (r: TokenClient)
        ensures
            r.module_client.chain_id == chain_id,
            r.module_client.module.address@ == address_three_bytes(),
            r.module_client.module.name@ == "token"@,
            r.token_transfer_module_client.chain_id == chain_id,
            r.token_transfer_module_client.module.address@ == address_three_bytes(),
            r.token_transfer_module_client.module.name@ == "token_transfers"@,
    {
        TokenClient {
            module_client: ModuleClient {
                chain_id,
                module: ModuleId {
                    address: get_hex_address_three(),
                    name: String::from_str("token"),
                },
            },
            token_transfer_module_client: ModuleClient {
                chain_id,
                module: ModuleId {
                    address: get_hex_address_three(),
                    name: String::from_str("token_transfers"),
                },
            },
        }
    }

    /// The envelope that creates collection `name` of `from_account`.
    pub fn create_collection_script(
        &self,
        from_account: &SignerInfo,
        now_secs: u64,
        name: &str,
        description: &str,
        uri: &str,
        max_supply: u64,
        options: Option<TransactionOptions>,
        collection_options: Option<CollectionOptions>,
    ) -> (r: Result<TransactionEnvelope, TokenError>)
        ensures
            r is Ok <==> (string_encodable(name@) && string_encodable(description@)
                && string_encodable(uri@) && expiry_fits(now_secs, options)),
            r matches Ok(e) ==> is_envelope(
                e,
                self.module_client.chain_id,
                self.module_client.module,
                *from_account,
                now_secs,
                "create_collection_script"@,
                seq![],
                create_collection_args(
                    name@,
                    description@,
                    uri@,
                    max_supply,
                    collection_options_in_force(collection_options),
                ),
                settings_in_force(options),
                seq![],
            ),
            r matches Err(err) ==> err == build_error(
                Operation::CreateCollection,
                string_encodable(name@) && string_encodable(description@) && string_encodable(
                    uri@,
                ),
            ),
    {
        let op = Operation::CreateCollection;
        let options = resolve_options(options);
        let collection_options = match collection_options {
            Some(c) => c,
            None => CollectionOptions::default(),
        };
        let a0 = match enc_str(name, op) {
            Ok(b) => b,
            Err(e) => return Err(e),
        };
        let a1 = match enc_str(description, op) {
            Ok(b) => b,
            Err(e) => return Err(e),
        };
        let a2 = match enc_str(uri, op) {
            Ok(b) => b,
            Err(e) => return Err(e),
        };
        let a3 = encode_u64(max_supply);
        let a4 = bools_of(
            collection_options.description_mutable,
            collection_options.uri_mutable,
            collection_options.supply_mutable,
        );
        let mut args: Vec<Vec<u8>> = Vec::new();
        args.push(a0);
        args.push(a1);
        args.push(a2);
        args.push(a3);
        args.push(a4);
        proof {
            reveal_strlit("create_collection_script");
        }
        assert(is_move_identifier("create_collection_script"@));
        let ty_args: Vec<String> = Vec::new();
        assert(ty_arg_text(ty_args@) =~= seq![]);
        assert(arg_bytes(args@) =~= create_collection_args(
            name@,
            description@,
            uri@,
            max_supply,
            collection_options,
        ));
        match self.module_client.build_signed_transaction(
            from_account,
            now_secs,
            "create_collection_script",
            ty_args,
            args,
            options,
        ) {
            Some(e) => Ok(e),
            None => Err(TokenError::ExpirationOverflow(op)),
        }
    }
    /// The envelope that creates token `name` in collection `collection_name`
    /// of `account`. Royalties go to `royalty_payee`, or to `account` when none
    /// is given; the token-level mutability flags are all off.
    pub fn create_token(
        &self,
        account: &SignerInfo,
        now_secs: u64,
        collection_name: &str,
        name: &str,
        description: &str,
        supply: u64,
        uri: &str,
        max_mint: u64,
        royalty_payee: Option<Address>,
        royalty_points: Option<RoyaltyPoints>,
        property: Option<TokenProperty>,
        options: Option<TransactionOptions>,
    ) -> (r: Result<TransactionEnvelope, TokenError>)
        ensures
            r is Ok <==> (create_token_encodable(
                collection_name@,
                name@,
                description@,
                uri@,
                property_in_force(property),
            ) && expiry_fits(now_secs, options)),
            r matches Ok(e) ==> is_envelope(
                e,
                self.module_client.chain_id,
                self.module_client.module,
                *account,
                now_secs,
                "create_token_script"@,
                seq![],
                create_token_args(
                    collection_name@,
                    name@,
                    description@,
                    supply,
                    max_mint,
                    uri@,
                    match royalty_payee {
                        Some(p) => p,
                        None => account.address,
                    },
                    royalty_in_force(royalty_points),
                    property_in_force(property),
                ),
                settings_in_force(options),
                seq![],
            ),
            r matches Err(err) ==> err == build_error(
                Operation::CreateToken,
                create_token_encodable(
                    collection_name@,
                    name@,
                    description@,
                    uri@,
                    property_in_force(property),
                ),
            ),
    {
        let op = Operation::CreateToken;
        let ghost prop_spec = property_in_force(property);
        let options = resolve_options(options);
        let property = match property {
            Some(p) => p,
            None => TokenProperty::default(),
        };
        assert(property.keys.deep_view() =~= prop_spec.0);
        assert(property.values.deep_view() =~= prop_spec.1);
        assert(property.types.deep_view() =~= prop_spec.2);
        let royalty_points = match royalty_points {
            Some(p) => p,
            None => RoyaltyPoints::default(),
        };
        let royalty_payee = match royalty_payee {
            Some(p) => p,
            None => account.address,
        };
        let a0 = match enc_str(collection_name, op) {
            Ok(b) => b,
            Err(e) => return Err(e),
        };
        let a1 = match enc_str(name, op) {
            Ok(b) => b,
            Err(e) => return Err(e),
        };
        let a2 = match enc_str(description, op) {
            Ok(b) => b,
            Err(e) => return Err(e),
        };
        let a5 = match enc_str(uri, op) {
            Ok(b) => b,
            Err(e) => return Err(e),
        };
        let a10 = match enc_strings(&property.keys, op) {
            Ok(b) => b,
            Err(e) => return Err(e),
        };
        let a11 = match enc_strings(&property.values, op) {
            Ok(b) => b,
            Err(e) => return Err(e),
        };
        let a12 = match enc_strings(&property.types, op) {
            Ok(b) => b,
            Err(e) => return Err(e),
        };
        let mut args: Vec<Vec<u8>> = Vec::new();
        args.push(a0);
        args.push(a1);
        args.push(a2);
        args.push(encode_u64(supply));
        args.push(encode_u64(max_mint));
        args.push(a5);
        args.push(encode_address(&royalty_payee));
        args.push(encode_u64(royalty_points.denominator));
        args.push(encode_u64(royalty_points.numerator));
        args.push(five_false());
        args.push(a10);
        args.push(a11);
        args.push(a12);
        proof {
            reveal_strlit("create_token_script");
        }
        assert(is_move_identifier("create_token_script"@));
        let ty_args: Vec<String> = Vec::new();
        assert(ty_arg_text(ty_args@) =~= seq![]);
        assert(arg_bytes(args@) =~= create_token_args(
            collection_name@,
            name@,
            description@,
            supply,
            max_mint,
            uri@,
            royalty_payee,
            royalty_points,
            prop_spec,
        ));
        match self.module_client.build_signed_transaction(
            account,
            now_secs,
            "create_token_script",
            ty_args,
            args,
            options,
        ) {
            Some(e) => Ok(e),
            None => Err(TokenError::ExpirationOverflow(op)),
        }
    }

    /// The envelope that burns `amount` of token `name` of `creator`'s
    /// collection `collection_name`, at `property_version` or zero.
    pub fn burn_token(
        &self,
        account: &SignerInfo,
        now_secs: u64,
        creator: Address,
        collection_name: &str,
        name: &str,
        amount: u64,
        property_version: Option<u64>,
        options: Option<TransactionOptions>,
    ) -> (r: Result<TransactionEnvelope, TokenError>)
        ensures
            r is Ok <==> (string_encodable(collection_name@) && string_encodable(name@)
                && expiry_fits(now_secs, options)),
            r matches Ok(e) ==> is_envelope(
                e,
                self.module_client.chain_id,
                self.module_client.module,
                *account,
                now_secs,
                "burn"@,
                seq![],
                burn_args(
                    creator,
                    collection_name@,
                    name@,
                    version_in_force(property_version),
                    amount,
                ),
                settings_in_force(options),
                seq![],
            ),
            r matches Err(err) ==> err == build_error(
                Operation::BurnToken,
                string_encodable(collection_name@) && string_encodable(name@),
            ),
    {
        let op = Operation::BurnToken;
        let options = resolve_options(options);
        let property_version = match property_version {
            Some(v) => v,
            None => 0,
        };
        let a1 = match enc_str(collection_name, op) {
            Ok(b) => b,
            Err(e) => return Err(e),
        };
        let a2 = match enc_str(name, op) {
            Ok(b) => b,
            Err(e) => return Err(e),
        };
        let mut args: Vec<Vec<u8>> = Vec::new();
        args.push(encode_address(&creator));
        args.push(a1);
        args.push(a2);
        args.push(encode_u64(property_version));
        args.push(encode_u64(amount));
        proof {
            reveal_strlit("burn");
        }
        assert(is_move_identifier("burn"@));
        let ty_args: Vec<String> = Vec::new();
        assert(ty_arg_text(ty_args@) =~= seq![]);
        assert(arg_bytes(args@) =~= burn_args(
            creator,
            collection_name@,
            name@,
            property_version,
            amount,
        ));
        match self.module_client.build_signed_transaction(
            account,
            now_secs,
            "burn",
            ty_args,
            args,
            options,
        ) {
            Some(e) => Ok(e),
            None => Err(TokenError::ExpirationOverflow(op)),
        }
    }

    /// The envelope in which `from_account` offers `amount` of a token to
    /// `to_account`.
    pub fn offer_token(
        &self,
        from_account: &SignerInfo,
        now_secs: u64,
        to_account: Address,
        creator: Address,
        collection_name: String,
        name: String,
        amount: u64,
        property_version: Option<u64>,
        options: Option<TransactionOptions>,
    ) -> (r: Result<TransactionEnvelope, TokenError>)
        ensures
            r is Ok <==> (string_encodable(collection_name@) && string_encodable(name@)
                && expiry_fits(now_secs, options)),
            r matches Ok(e) ==> is_envelope(
                e,
                self.token_transfer_module_client.chain_id,
                self.token_transfer_module_client.module,
                *from_account,
                now_secs,
                "offer_script"@,
                seq![],
                offer_args(
                    to_account,
                    creator,
                    collection_name@,
                    name@,
                    version_in_force(property_version),
                    amount,
                ),
                settings_in_force(options),
                seq![],
            ),
            r matches Err(err) ==> err == build_error(
                Operation::OfferToken,
                string_encodable(collection_name@) && string_encodable(name@),
            ),
    {
        let op = Operation::OfferToken;
        let options = resolve_options(options);
        let property_version = match property_version {
            Some(v) => v,
            None => 0,
        };
        let a2 = match enc_str(collection_name.as_str(), op) {
            Ok(b) => b,
            Err(e) => return Err(e),
        };
        let a3 = match enc_str(name.as_str(), op) {
            Ok(b) => b,
            Err(e) => return Err(e),
        };
        let mut args: Vec<Vec<u8>> = Vec::new();
        args.push(encode_address(&to_account));
        args.push(encode_address(&creator));
        args.push(a2);
        args.push(a3);
        args.push(encode_u64(property_version));
        args.push(encode_u64(amount));
        proof {
            reveal_strlit("offer_script");
        }
        assert(is_move_identifier("offer_script"@));
        let ty_args: Vec<String> = Vec::new();
        assert(ty_arg_text(ty_args@) =~= seq![]);
        assert(arg_bytes(args@) =~= offer_args(
            to_account,
            creator,
            collection_name@,
            name@,
            property_version,
            amount,
        ));
        match self.token_transfer_module_client.build_signed_transaction(
            from_account,
            now_secs,
            "offer_script",
            ty_args,
            args,
            options,
        ) {
            Some(e) => Ok(e),
            None => Err(TokenError::ExpirationOverflow(op)),
        }
    }

    /// The envelope in which `account` claims the token that `sender` offered
    /// it.
    pub fn claim_token(
        &self,
        account: &SignerInfo,
        now_secs: u64,
        sender: Address,
        creator: Address,
        collection_name: String,
        name: String,
        property_version: Option<u64>,
        options: Option<TransactionOptions>,
    ) -> (r: Result<TransactionEnvelope, TokenError>)
        ensures
            r is Ok <==> (string_encodable(collection_name@) && string_encodable(name@)
                && expiry_fits(now_secs, options)),
            r matches Ok(e) ==> is_envelope(
                e,
                self.token_transfer_module_client.chain_id,
                self.token_transfer_module_client.module,
                *account,
                now_secs,
                "claim_script"@,
                seq![],
                offer_party_args(
                    sender,
                    creator,
                    collection_name@,
                    name@,
                    version_in_force(property_version),
                ),
                settings_in_force(options),
                seq![],
            ),
            r matches Err(err) ==> err == build_error(
                Operation::ClaimToken,
                string_encodable(collection_name@) && string_encodable(name@),
            ),
    {
        let op = Operation::ClaimToken;
        let options = resolve_options(options);
        let property_version = match property_version {
            Some(v) => v,
            None => 0,
        };
        let a2 = match enc_str(collection_name.as_str(), op) {
            Ok(b) => b,
            Err(e) => return Err(e),
        };
        let a3 = match enc_str(name.as_str(), op) {
            Ok(b) => b,
            Err(e) => return Err(e),
        };
        let mut args: Vec<Vec<u8>> = Vec::new();
        args.push(encode_address(&sender));
        args.push(encode_address(&creator));
        args.push(a2);
        args.push(a3);
        args.push(encode_u64(property_version));
        proof {
            reveal_strlit("claim_script");
        }
        assert(is_move_identifier("claim_script"@));
        let ty_args: Vec<String> = Vec::new();
        assert(ty_arg_text(ty_args@) =~= seq![]);
        assert(arg_bytes(args@) =~= offer_party_args(
            sender,
            creator,
            collection_name@,
            name@,
            property_version,
        ));
        match self.token_transfer_module_client.build_signed_transaction(
            account,
            now_secs,
            "claim_script",
            ty_args,
            args,
            options,
        ) {
            Some(e) => Ok(e),
            None => Err(TokenError::ExpirationOverflow(op)),
        }
    }

    /// The envelope in which `account` withdraws its offer of a token to
    /// `receiver`.
    pub fn cancel_token_offer(
        &self,
        account: &SignerInfo,
        now_secs: u64,
        receiver: Address,
        creator: Address,
        collection_name: String,
        name: String,
        property_version: Option<u64>,
        options: Option<TransactionOptions>,
    ) -> (r: Result<TransactionEnvelope, TokenError>)
        ensures
            r is Ok <==> (string_encodable(collection_name@) && string_encodable(name@)
                && expiry_fits(now_secs, options)),
            r matches Ok(e) ==> is_envelope(
                e,
                self.token_transfer_module_client.chain_id,
                self.token_transfer_module_client.module,
                *account,
                now_secs,
                "cancel_offer_script"@,
                seq![],
                offer_party_args(
                    receiver,
                    creator,
                    collection_name@,
                    name@,
                    version_in_force(property_version),
                ),
                settings_in_force(options),
                seq![],
            ),
            r matches Err(err) ==> err == build_error(
                Operation::CancelTokenOffer,
                string_encodable(collection_name@) && string_encodable(name@),
            ),
    {
        let op = Operation::CancelTokenOffer;
        let options = resolve_options(options);
        let property_version = match property_version {
            Some(v) => v,
            None => 0,
        };
        let a2 = match enc_str(collection_name.as_str(), op) {
            Ok(b) => b,
            Err(e) => return Err(e),
        };
        let a3 = match enc_str(name.as_str(), op) {
            Ok(b) => b,
            Err(e) => return Err(e),
        };
        let mut args: Vec<Vec<u8>> = Vec::new();
        args.push(encode_address(&receiver));
        args.push(encode_address(&creator));
        args.push(a2);
        args.push(a3);
        args.push(encode_u64(property_version));
        proof {
            reveal_strlit("cancel_offer_script");
        }
        assert(is_move_identifier("cancel_offer_script"@));
        let ty_args: Vec<String> = Vec::new();
        assert(ty_arg_text(ty_args@) =~= seq![]);
        assert(arg_bytes(args@) =~= offer_party_args(
            receiver,
            creator,
            collection_name@,
            name@,
            property_version,
        ));
        match self.token_transfer_module_client.build_signed_transaction(
            account,
            now_secs,
            "cancel_offer_script",
            ty_args,
            args,
            options,
        ) {
            Some(e) => Ok(e),
            None => Err(TokenError::ExpirationOverflow(op)),
        }
    }

    /// The envelope that moves `amount` of a token from `account` to
    /// `receiver` at once; both accounts sign it.
    pub fn direct_transfer_token(
        &self,
        account: &SignerInfo,
        receiver: Address,
        now_secs: u64,
        creator: Address,
        collection_name: String,
        name: String,
        amount: u64,
        property_version: Option<u64>,
        options: Option<TransactionOptions>,
    ) -> (r: Result<TransactionEnvelope, TokenError>)
        ensures
            r is Ok <==> (string_encodable(collection_name@) && string_encodable(name@)
                && expiry_fits(now_secs, options)),
            r matches Ok(e) ==> is_envelope(
                e,
                self.token_transfer_module_client.chain_id,
                self.token_transfer_module_client.module,
                *account,
                now_secs,
                "direct_transfer_script"@,
                seq![],
                direct_transfer_args(
                    creator,
                    collection_name@,
                    name@,
                    version_in_force(property_version),
                    amount,
                ),
                settings_in_force(options),
                seq![receiver],
            ),
            r matches Err(err) ==> err == build_error(
                Operation::DirectTransferToken,
                string_encodable(collection_name@) && string_encodable(name@),
            ),
    {
        let op = Operation::DirectTransferToken;
        let options = resolve_options(options);
        let property_version = match property_version {
            Some(v) => v,
            None => 0,
        };
        let a1 = match enc_str(collection_name.as_str(), op) {
            Ok(b) => b,
            Err(e) => return Err(e),
        };
        let a2 = match enc_str(name.as_str(), op) {
            Ok(b) => b,
            Err(e) => return Err(e),
        };
        let mut signers: Vec<Address> = Vec::new();
        signers.push(receiver);
        let mut args: Vec<Vec<u8>> = Vec::new();
        args.push(encode_address(&creator));
        args.push(a1);
        args.push(a2);
        args.push(encode_u64(property_version));
        args.push(encode_u64(amount));
        proof {
            reveal_strlit("direct_transfer_script");
        }
        assert(is_move_identifier("direct_transfer_script"@));
        let ty_args: Vec<String> = Vec::new();
        assert(ty_arg_text(ty_args@) =~= seq![]);
        assert(signers@ =~= seq![receiver]);
        assert(arg_bytes(args@) =~= direct_transfer_args(
            creator,
            collection_name@,
            name@,
            property_version,
            amount,
        ));
        match self.token_transfer_module_client.build_multisigned_transaction(
            account,
            signers,
            now_secs,
            "direct_transfer_script",
            ty_args,
            args,
            options,
        ) {
            Some(e) => Ok(e),
            None => Err(TokenError::ExpirationOverflow(op)),
        }
    }

    /// The envelope that lists `amount` of a token for sale at
    /// `min_coin_per_token` each, priced in the coin type of `options` (the
    /// native coin by default), locked until `locked_until_secs`.
    pub fn list_token_for_swap(
        &self,
        account: &SignerInfo,
        now_secs: u64,
        creator: Address,
        collection: String,
        name: String,
        amount: u64,
        min_coin_per_token: u64,
        locked_until_secs: u64,
        property_version: Option<u64>,
        options: Option<TransactionOptions>,
    ) -> (r: Result<TransactionEnvelope, TokenError>)
        ensures
            r is Ok <==> (is_type_tag(coin_type_in_force(options)) && string_encodable(
                collection@,
            ) && string_encodable(name@) && expiry_fits(now_secs, options)),
            r matches Ok(e) ==> is_envelope(
                e,
                self.token_transfer_module_client.chain_id,
                self.token_transfer_module_client.module,
                *account,
                now_secs,
                "list_token_for_swap"@,
                seq![coin_type_in_force(options)],
                list_for_swap_args(
                    creator,
                    collection@,
                    name@,
                    version_in_force(property_version),
                    amount,
                    min_coin_per_token,
                    locked_until_secs,
                ),
                settings_in_force(options),
                seq![],
            ),
            r matches Err(err) ==> err == if !is_type_tag(coin_type_in_force(options)) {
                TokenError::InvalidCoinType
            } else {
                build_error(
                    Operation::ListTokenForSwap,
                    string_encodable(collection@) && string_encodable(name@),
                )
            },
    {
        let valid = match &options {
            Some(o) => type_tag_accepts(o.coin_type.as_str()),
            None => type_tag_accepts("0x1::aptos_coin::AptosCoin"),
        };
        self.build_swap_listing(
            account,
            now_secs,
            creator,
            collection,
            name,
            amount,
            min_coin_per_token,
            locked_until_secs,
            property_version,
            options,
            valid,
        )
    }

    /// As `list_token_for_swap`, once the coin type in force has been put to
    /// the type-tag parser: `coin_type_is_tag` is its verdict.
    pub fn build_swap_listing(
        &self,
        account: &SignerInfo,
        now_secs: u64,
        creator: Address,
        collection: String,
        name: String,
        amount: u64,
        min_coin_per_token: u64,
        locked_until_secs: u64,
        property_version: Option<u64>,
        options: Option<TransactionOptions>,
        coin_type_is_tag: bool,
    ) -> (r: Result<TransactionEnvelope, TokenError>)
        ensures
            r is Ok <==> (coin_type_is_tag && string_encodable(
                collection@,
            ) && string_encodable(name@) && expiry_fits(now_secs, options)),
            r matches Ok(e) ==> is_envelope(
                e,
                self.token_transfer_module_client.chain_id,
                self.token_transfer_module_client.module,
                *account,
                now_secs,
                "list_token_for_swap"@,
                seq![coin_type_in_force(options)],
                list_for_swap_args(
                    creator,
                    collection@,
                    name@,
                    version_in_force(property_version),
                    amount,
                    min_coin_per_token,
                    locked_until_secs,
                ),
                settings_in_force(options),
                seq![],
            ),
            r matches Err(err) ==> err == if !coin_type_is_tag {
                TokenError::InvalidCoinType
            } else {
                build_error(
                    Operation::ListTokenForSwap,
                    string_encodable(collection@) && string_encodable(name@),
                )
            },
    {
        let op = Operation::ListTokenForSwap;
        let options = resolve_options(options);
        let property_version = match property_version {
            Some(v) => v,
            None => 0,
        };
        if !coin_type_is_tag {
            return Err(TokenError::InvalidCoinType);
        }
        let a1 = match enc_str(collection.as_str(), op) {
            Ok(b) => b,
            Err(e) => return Err(e),
        };
        let a2 = match enc_str(name.as_str(), op) {
            Ok(b) => b,
            Err(e) => return Err(e),
        };
        let mut ty_args: Vec<String> = Vec::new();
        ty_args.push(options.coin_type.clone());
        let mut args: Vec<Vec<u8>> = Vec::new();
        args.push(encode_address(&creator));
        args.push(a1);
        args.push(a2);
        args.push(encode_u64(property_version));
        args.push(encode_u64(amount));
        args.push(encode_u64(min_coin_per_token));
        args.push(encode_u64(locked_until_secs));
        proof {
            reveal_strlit("list_token_for_swap");
        }
        assert(is_move_identifier("list_token_for_swap"@));
        assert(ty_arg_text(ty_args@) =~= seq![options.coin_type@]);
        assert(arg_bytes(args@) =~= list_for_swap_args(
            creator,
            collection@,
            name@,
            property_version,
            amount,
            min_coin_per_token,
            locked_until_secs,
        ));
        match self.token_transfer_module_client.build_signed_transaction(
            account,
            now_secs,
            "list_token_for_swap",
            ty_args,
            args,
            options,
        ) {
            Some(e) => Ok(e),
            None => Err(TokenError::ExpirationOverflow(op)),
        }
    }
    /// The lookup of collection `collection_name` of `account`: its registry
    /// among all of the account's resources, then the registry's entry under
    /// that name.
    pub fn get_collection_data(&self, account: Address, collection_name: String) -> (r: Lookup)
        ensures
            r.wf(),
            r.kind == QueryKind::CollectionData && r.account == account,
            r.key == Some(TableKey::CollectionName(collection_name)),
            r.stage == LookupStage::Resource,
    {
        Lookup::new(QueryKind::CollectionData, account, Some(TableKey::CollectionName(collection_name)))
    }

    /// The lookup of token `token_name` of `creator`'s collection
    /// `collection_name`, at `property_version` or zero, in `creator`'s own
    /// token store.
    pub fn get_token(
        &self,
        creator: Address,
        collection_name: String,
        token_name: String,
        property_version: Option<u64>,
    ) -> (r: Lookup)
        ensures
            r.wf(),
            r.kind == QueryKind::TokenForAccount && r.account == creator,
            r.key == Some(
                TableKey::Token(
                    (TokenId {
                        token_data_id: (TokenDataId {
                            creator,
                            collection: collection_name,
                            name: token_name,
                        }),
                        property_version: version_in_force(property_version),
                    }),
                ),
            ),
            r.stage == LookupStage::Resource,
    {
        let property_version = match property_version {
            Some(v) => v,
            None => 0,
        };
        let token_data_id = TokenDataId { creator, collection: collection_name, name: token_name };
        self.get_token_for_account(creator, TokenId { token_data_id, property_version })
    }

    /// The lookup of token instance `token_id` in `account`'s token store.
    pub fn get_token_for_account(&self, account: Address, token_id: TokenId) -> (r: Lookup)
        ensures
            r.wf(),
            r.kind == QueryKind::TokenForAccount && r.account == account,
            r.key == Some(TableKey::Token(token_id)),
            r.stage == LookupStage::Resource,
    {
        Lookup::new(QueryKind::TokenForAccount, account, Some(TableKey::Token(token_id)))
    }

    /// The lookup of the metadata of token type `token_name` of `creator`'s
    /// collection `collection_name`.
    pub fn get_token_data(&self, creator: Address, collection_name: String, token_name: String) -> (r:
        Lookup)
        ensures
            r.wf(),
            r.kind == QueryKind::TokenData && r.account == creator,
            r.key == Some(
                TableKey::TokenData(
                    (TokenDataId { creator, collection: collection_name, name: token_name }),
                ),
            ),
            r.stage == LookupStage::Resource,
    {
        let id = TokenDataId { creator, collection: collection_name, name: token_name };
        Lookup::new(QueryKind::TokenData, creator, Some(TableKey::TokenData(id)))
    }

    /// The lookup of `account`'s pending-claims resource.
    pub fn get_pending_claims_resources_for_account(&self, account: Address) -> (r: Lookup)
        ensures
            r.wf(),
            r.kind == QueryKind::PendingClaims && r.account == account,
            r.key is None,
            r.stage == LookupStage::Resource,
    {
        Lookup::new(QueryKind::PendingClaims, account, None)
    }

    /// The number of offers made by the account whose pending-claims lookup
    /// gave `claims`.
    pub fn get_token_offer_count(&self, claims: Result<PendingClaimsResources, TokenError>) -> (r:
        Result<u64, TokenError>)
        ensures
            r == counter_result(claims, |p: PendingClaimsResources| p.offer_events.counter),
    {
        match claims {
            Ok(p) => Ok(p.offer_events.counter),
            Err(TokenError::NotFound(Absence::NoPendingClaims)) => Ok(0),
            Err(e) => Err(e),
        }
    }

    /// The number of offers claimed from the account whose pending-claims
    /// lookup gave `claims`.
    pub fn get_token_claim_count(&self, claims: Result<PendingClaimsResources, TokenError>) -> (r:
        Result<u64, TokenError>)
        ensures
            r == counter_result(claims, |p: PendingClaimsResources| p.claim_events.counter),
    {
        match claims {
            Ok(p) => Ok(p.claim_events.counter),
            Err(TokenError::NotFound(Absence::NoPendingClaims)) => Ok(0),
            Err(e) => Err(e),
        }
    }

    /// The number of offers cancelled by the account whose pending-claims
    /// lookup gave `claims`.
    pub fn get_cancel_offer_count(&self, claims: Result<PendingClaimsResources, TokenError>) -> (r:
        Result<u64, TokenError>)
        ensures
            r == counter_result(claims, |p: PendingClaimsResources| p.cancel_offer_events.counter),
    {
        match claims {
            Ok(p) => Ok(p.cancel_offer_events.counter),
            Err(TokenError::NotFound(Absence::NoPendingClaims)) => Ok(0),
            Err(e) => Err(e),
        }
    }
}

} // verus!
