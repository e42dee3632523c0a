use aptos_sdk::aptos_bcs;
use aptos_token_client::types::{
    CollectionOptions, RoyaltyPoints, TokenProperty, TransactionOptions,
};
use aptos_token_client::{
    get_hex_address_three, Address, Operation, SignerInfo, TokenClient, TokenError,
};

fn addr(last: u8) -> Address {
    let mut b = [0u8; 32];
    b[31] = last;
    Address::new(b)
}

fn alice() -> SignerInfo {
    SignerInfo { address: addr(0xa1), sequence_number: 7 }
}

#[test]
fn client_binds_both_modules_at_address_three() {
    let c = TokenClient::new(2);
    assert_eq!(c.module_client.chain_id, 2);
    assert_eq!(c.module_client.module.address, get_hex_address_three());
    assert_eq!(c.module_client.module.name, "token");
    assert_eq!(c.token_transfer_module_client.module.name, "token_transfers");
    assert_eq!(c.token_transfer_module_client.module.address, get_hex_address_three());
}

#[test]
fn collection_arguments_decode_back() {
    let c = TokenClient::new(2);
    let opts = CollectionOptions { description_mutable: true, uri_mutable: false, supply_mutable: true };
    let e = c
        .create_collection_script(&alice(), 1000, "Example Collection", "Desc", "https://x", 42, None, Some(opts))
        .unwrap();
    assert_eq!(e.payload.function, "create_collection_script");
    assert!(e.payload.ty_args.is_empty());
    let a = &e.payload.args;
    assert_eq!(a.len(), 5);
    assert_eq!(aptos_bcs::from_bytes::<String>(&a[0]).unwrap(), "Example Collection");
    assert_eq!(aptos_bcs::from_bytes::<String>(&a[1]).unwrap(), "Desc");
    assert_eq!(aptos_bcs::from_bytes::<String>(&a[2]).unwrap(), "https://x");
    assert_eq!(aptos_bcs::from_bytes::<u64>(&a[3]).unwrap(), 42);
    assert_eq!(aptos_bcs::from_bytes::<Vec<bool>>(&a[4]).unwrap(), vec![true, false, true]);
}

#[test]
fn collection_flags_default_to_immutable() {
    let c = TokenClient::new(2);
    let e = c.create_collection_script(&alice(), 0, "", "", "", 0, None, None).unwrap();
    assert_eq!(e.payload.args[4], vec![3, 0, 0, 0]);
    assert_eq!(e.payload.args[0], vec![0]);
}

#[test]
fn unset_options_take_defaults() {
    let c = TokenClient::new(2);
    let e = c.create_collection_script(&alice(), 1000, "n", "d", "u", 1, None, None).unwrap();
    assert_eq!(e.max_gas_amount, 5000);
    assert_eq!(e.gas_unit_price, 100);
    assert_eq!(e.expiration_timestamp_secs, 1010);
    assert_eq!(e.sender, alice().address);
    assert_eq!(e.sequence_number, 7);
    assert_eq!(e.chain_id, 2);
    assert!(e.secondary_signers.is_empty());
    let d = TransactionOptions::default();
    assert_eq!(d.coin_type, "0x1::aptos_coin::AptosCoin");
    assert_eq!(d.timeout_sec, 10);
}

#[test]
fn set_options_reach_the_envelope() {
    let c = TokenClient::new(2);
    let o = TransactionOptions {
        max_gas_amount: 123,
        gas_unit_price: 7,
        timeout_sec: 60,
        coin_type: "0x1::aptos_coin::AptosCoin".to_string(),
    };
    let e = c.burn_token(&alice(), 500, addr(1), "c", "t", 2, None, Some(o)).unwrap();
    assert_eq!(e.max_gas_amount, 123);
    assert_eq!(e.gas_unit_price, 7);
    assert_eq!(e.expiration_timestamp_secs, 560);
}

#[test]
fn expiry_overflow_is_an_error() {
    let c = TokenClient::new(2);
    let r = c.create_collection_script(&alice(), u64::MAX, "n", "d", "u", 1, None, None);
    assert_eq!(r.unwrap_err(), TokenError::ExpirationOverflow(Operation::CreateCollection));
}

#[test]
fn create_token_defaults_payee_royalty_and_properties() {
    let c = TokenClient::new(2);
    let e = c
        .create_token(&alice(), 0, "coll", "tok", "desc", 1, "uri", 10, None, None, None, None)
        .unwrap();
    let a = &e.payload.args;
    assert_eq!(e.payload.function, "create_token_script");
    assert_eq!(a.len(), 13);
    assert_eq!(aptos_bcs::from_bytes::<String>(&a[0]).unwrap(), "coll");
    assert_eq!(aptos_bcs::from_bytes::<String>(&a[1]).unwrap(), "tok");
    assert_eq!(aptos_bcs::from_bytes::<String>(&a[2]).unwrap(), "desc");
    assert_eq!(aptos_bcs::from_bytes::<u64>(&a[3]).unwrap(), 1);
    assert_eq!(aptos_bcs::from_bytes::<u64>(&a[4]).unwrap(), 10);
    assert_eq!(aptos_bcs::from_bytes::<String>(&a[5]).unwrap(), "uri");
    assert_eq!(a[6], alice().address.bytes.to_vec());
    assert_eq!(a[7], vec![0; 8]);
    assert_eq!(a[8], vec![0; 8]);
    assert_eq!(a[9], vec![5, 0, 0, 0, 0, 0]);
    assert_eq!(a[10], vec![0]);
    assert_eq!(a[11], vec![0]);
    assert_eq!(a[12], vec![0]);
}

#[test]
fn create_token_uses_given_payee_royalty_and_properties() {
    let c = TokenClient::new(2);
    let prop = TokenProperty {
        keys: vec!["k".to_string()],
        values: vec!["v".to_string()],
        types: vec!["string".to_string()],
    };
    let e = c
        .create_token(
            &alice(), 0, "coll", "tok", "desc", 1, "uri", 10,
            Some(addr(9)), Some(RoyaltyPoints { denominator: 100, numerator: 5 }), Some(prop), None,
        )
        .unwrap();
    let a = &e.payload.args;
    assert_eq!(a[6], addr(9).bytes.to_vec());
    assert_eq!(aptos_bcs::from_bytes::<u64>(&a[7]).unwrap(), 100);
    assert_eq!(aptos_bcs::from_bytes::<u64>(&a[8]).unwrap(), 5);
    assert_eq!(aptos_bcs::from_bytes::<Vec<String>>(&a[10]).unwrap(), vec!["k".to_string()]);
    assert_eq!(aptos_bcs::from_bytes::<Vec<String>>(&a[12]).unwrap(), vec!["string".to_string()]);
}

#[test]
fn burn_encodes_version_before_amount() {
    let c = TokenClient::new(2);
    let e = c.burn_token(&alice(), 0, addr(1), "c", "t", 9, None, None).unwrap();
    assert_eq!(e.payload.function, "burn");
    assert_eq!(e.payload.module.name, "token");
    let a = &e.payload.args;
    assert_eq!(a[0], addr(1).bytes.to_vec());
    assert_eq!(aptos_bcs::from_bytes::<u64>(&a[3]).unwrap(), 0);
    assert_eq!(aptos_bcs::from_bytes::<u64>(&a[4]).unwrap(), 9);
    let e = c.burn_token(&alice(), 0, addr(1), "c", "t", 9, Some(4), None).unwrap();
    assert_eq!(aptos_bcs::from_bytes::<u64>(&e.payload.args[3]).unwrap(), 4);
}

#[test]
fn offer_goes_to_transfer_module() {
    let c = TokenClient::new(2);
    let e = c
        .offer_token(&alice(), 0, addr(0xb0), addr(1), "c".to_string(), "t".to_string(), 3, Some(1), None)
        .unwrap();
    assert_eq!(e.payload.module.name, "token_transfers");
    assert_eq!(e.payload.function, "offer_script");
    let a = &e.payload.args;
    assert_eq!(a.len(), 6);
    assert_eq!(a[0], addr(0xb0).bytes.to_vec());
    assert_eq!(a[1], addr(1).bytes.to_vec());
    assert_eq!(aptos_bcs::from_bytes::<String>(&a[2]).unwrap(), "c");
    assert_eq!(aptos_bcs::from_bytes::<String>(&a[3]).unwrap(), "t");
    assert_eq!(aptos_bcs::from_bytes::<u64>(&a[4]).unwrap(), 1);
    assert_eq!(aptos_bcs::from_bytes::<u64>(&a[5]).unwrap(), 3);
}

#[test]
fn claim_and_cancel_name_the_other_party() {
    let c = TokenClient::new(2);
    let e = c
        .claim_token(&alice(), 0, addr(0xb0), addr(1), "c".to_string(), "t".to_string(), None, None)
        .unwrap();
    assert_eq!(e.payload.function, "claim_script");
    assert_eq!(e.payload.args.len(), 5);
    assert_eq!(e.payload.args[0], addr(0xb0).bytes.to_vec());
    let e = c
        .cancel_token_offer(&alice(), 0, addr(0xc0), addr(1), "c".to_string(), "t".to_string(), None, None)
        .unwrap();
    assert_eq!(e.payload.function, "cancel_offer_script");
    assert_eq!(e.payload.args[0], addr(0xc0).bytes.to_vec());
    assert_eq!(aptos_bcs::from_bytes::<u64>(&e.payload.args[4]).unwrap(), 0);
}

#[test]
fn direct_transfer_is_cosigned_by_receiver() {
    let c = TokenClient::new(2);
    let bob = addr(0xb0);
    let e = c
        .direct_transfer_token(&alice(), bob, 0, addr(1), "c".to_string(), "t".to_string(), 2, None, None)
        .unwrap();
    assert_eq!(e.payload.function, "direct_transfer_script");
    assert_eq!(e.secondary_signers, vec![bob]);
    assert_eq!(e.sender, alice().address);
    assert_eq!(aptos_bcs::from_bytes::<u64>(&e.payload.args[4]).unwrap(), 2);
}

#[test]
fn swap_listing_takes_coin_type_argument() {
    let c = TokenClient::new(2);
    let e = c
        .list_token_for_swap(&alice(), 0, addr(1), "c".to_string(), "t".to_string(), 1, 50, 99, None, None)
        .unwrap();
    assert_eq!(e.payload.function, "list_token_for_swap");
    assert_eq!(e.payload.ty_args, vec!["0x1::aptos_coin::AptosCoin".to_string()]);
    let a = &e.payload.args;
    assert_eq!(a.len(), 7);
    assert_eq!(aptos_bcs::from_bytes::<u64>(&a[5]).unwrap(), 50);
    assert_eq!(aptos_bcs::from_bytes::<u64>(&a[6]).unwrap(), 99);
}

#[test]
fn swap_listing_rejects_bad_coin_type() {
    let c = TokenClient::new(2);
    let mut o = TransactionOptions::default();
    o.coin_type = "not a type".to_string();
    let r = c.list_token_for_swap(&alice(), 0, addr(1), "c".to_string(), "t".to_string(), 1, 50, 99, None, Some(o));
    assert_eq!(r.unwrap_err(), TokenError::InvalidCoinType);
}

#[test]
fn submit_context_names_operation() {
    assert_eq!(
        Operation::CreateCollection.submit_context(),
        "Failed to submit create collection transaction"
    );
    assert_eq!(Operation::ClaimToken.submit_context(), "Failed to submit claim token transaction");
}

#[test]
fn swap_listing_follows_coin_type_verdict() {
    let c = TokenClient::new(2);
    let mut o = TransactionOptions::default();
    o.coin_type = "0x1::other_coin::Other".to_string();
    let r = c.build_swap_listing(
        &alice(), 0, addr(1), "c".to_string(), "t".to_string(), 1, 50, 99, Some(2), Some(o.clone()), false,
    );
    assert_eq!(r.unwrap_err(), TokenError::InvalidCoinType);
    let e = c
        .build_swap_listing(&alice(), 0, addr(1), "c".to_string(), "t".to_string(), 1, 50, 99, Some(2), Some(o), true)
        .unwrap();
    assert_eq!(e.payload.ty_args, vec!["0x1::other_coin::Other".to_string()]);
    assert_eq!(aptos_bcs::from_bytes::<u64>(&e.payload.args[3]).unwrap(), 2);
    let r = c.build_swap_listing(
        &alice(), u64::MAX, addr(1), "c".to_string(), "t".to_string(), 1, 50, 99, None, None, true,
    );
    assert_eq!(r.unwrap_err(), TokenError::ExpirationOverflow(Operation::ListTokenForSwap));
}
