use aptos_token_client::types::{EventHandle, Guid, Handle, PendingClaimsResources, ID};
use aptos_token_client::{
    find_resource, Absence, Address, LookupAction, LookupEvent, LookupStage, QueryKind,
    TableKey, TokenClient, TokenError,
};

fn addr(last: u8) -> Address {
    let mut b = [0u8; 32];
    b[31] = last;
    Address::new(b)
}

fn events(counter: u64) -> EventHandle {
    EventHandle { counter, guid: Guid { id: ID { addr: addr(1), creation_num: 0 } } }
}

fn claims(offers: u64, claimed: u64, cancelled: u64) -> PendingClaimsResources {
    PendingClaimsResources {
        cancel_offer_events: events(cancelled),
        claim_events: events(claimed),
        offer_events: events(offers),
        pending_claims: Handle { handle: addr(2) },
    }
}

#[test]
fn no_registry_differs_from_missing_collection() {
    let c = TokenClient::new(2);
    let l = c.get_collection_data(addr(5), "Nope".to_string());
    match l.first_action() {
        LookupAction::ListResources { account, resource_type } => {
            assert_eq!(account, addr(5));
            assert_eq!(resource_type, "0x3::token::Collections");
        }
        other => panic!("unexpected {:?}", other),
    }
    let (_, a) = l.advance(LookupEvent::Absent);
    match a {
        LookupAction::Fail(e) => assert_eq!(e, TokenError::NotFound(Absence::NoCollectionRegistry)),
        other => panic!("unexpected {:?}", other),
    }
    let (l2, a) = l.advance(LookupEvent::Found { handle: addr(9) });
    assert_eq!(l2.stage, LookupStage::TableItem);
    match a {
        LookupAction::FetchTableItem { handle, key_type, value_type, key } => {
            assert_eq!(handle, addr(9));
            assert_eq!(key_type, "0x1::string::String");
            assert_eq!(value_type, "0x3::token::CollectionData");
            match key {
                TableKey::CollectionName(n) => assert_eq!(n, "Nope"),
                other => panic!("unexpected {:?}", other),
            }
        }
        other => panic!("unexpected {:?}", other),
    }
    let (l3, a) = l2.advance(LookupEvent::Absent);
    assert_eq!(l3.stage, LookupStage::Done);
    match a {
        LookupAction::Fail(e) => assert_eq!(e, TokenError::NotFound(Absence::CollectionNotFound)),
        other => panic!("unexpected {:?}", other),
    }
    let (_, a) = l2.advance(LookupEvent::Found { handle: addr(0) });
    assert!(matches!(a, LookupAction::Complete));
}

#[test]
fn token_not_held_after_transfer() {
    let c = TokenClient::new(2);
    let l = c.get_token(addr(5), "c".to_string(), "t".to_string(), None);
    assert_eq!(l.kind, QueryKind::TokenForAccount);
    match &l.key {
        Some(TableKey::Token(id)) => {
            assert_eq!(id.property_version, 0);
            assert_eq!(id.token_data_id.creator, addr(5));
            assert_eq!(id.token_data_id.collection, "c");
            assert_eq!(id.token_data_id.name, "t");
        }
        other => panic!("unexpected {:?}", other),
    }
    match l.first_action() {
        LookupAction::FetchResource { account, resource_type } => {
            assert_eq!(account, addr(5));
            assert_eq!(resource_type, "0x3::token::TokenStore");
        }
        other => panic!("unexpected {:?}", other),
    }
    let (_, a) = l.advance(LookupEvent::Absent);
    assert!(matches!(a, LookupAction::Fail(TokenError::NotFound(Absence::NoTokenStore))));
    let (l2, a) = l.advance(LookupEvent::Found { handle: addr(3) });
    match a {
        LookupAction::FetchTableItem { key_type, value_type, .. } => {
            assert_eq!(key_type, "0x3::token::TokenId");
            assert_eq!(value_type, "0x3::token::Token");
        }
        other => panic!("unexpected {:?}", other),
    }
    let (_, a) = l2.advance(LookupEvent::Absent);
    assert!(matches!(a, LookupAction::Fail(TokenError::NotFound(Absence::TokenNotHeld))));
}

#[test]
fn token_data_lookup_reads_registry_table() {
    let c = TokenClient::new(2);
    let l = c.get_token_data(addr(5), "c".to_string(), "t".to_string());
    match l.first_action() {
        LookupAction::FetchResource { resource_type, .. } => {
            assert_eq!(resource_type, "0x3::token::Collections")
        }
        other => panic!("unexpected {:?}", other),
    }
    let (l2, a) = l.advance(LookupEvent::Found { handle: addr(3) });
    match a {
        LookupAction::FetchTableItem { key_type, value_type, key, .. } => {
            assert_eq!(key_type, "0x3::token::TokenDataId");
            assert_eq!(value_type, "0x3::token::TokenData");
            assert!(matches!(key, TableKey::TokenData(_)));
        }
        other => panic!("unexpected {:?}", other),
    }
    let (_, a) = l2.advance(LookupEvent::Absent);
    assert!(matches!(a, LookupAction::Fail(TokenError::NotFound(Absence::TokenDataNotFound))));
}

#[test]
fn transport_and_decode_failures_stay_distinct() {
    let c = TokenClient::new(2);
    let l = c.get_token_data(addr(5), "c".to_string(), "t".to_string());
    let (_, a) = l.advance(LookupEvent::TransportFailed);
    assert!(matches!(a, LookupAction::Fail(TokenError::Transport(QueryKind::TokenData))));
    let (_, a) = l.advance(LookupEvent::Malformed);
    assert!(matches!(a, LookupAction::Fail(TokenError::Decode(QueryKind::TokenData))));
}

#[test]
fn pending_claims_is_a_single_fetch() {
    let c = TokenClient::new(2);
    let l = c.get_pending_claims_resources_for_account(addr(5));
    assert!(l.key.is_none());
    match l.first_action() {
        LookupAction::FetchResource { resource_type, .. } => {
            assert_eq!(resource_type, "0x3::token_transfers::PendingClaims")
        }
        other => panic!("unexpected {:?}", other),
    }
    let (l2, a) = l.advance(LookupEvent::Found { handle: addr(0) });
    assert_eq!(l2.stage, LookupStage::Done);
    assert!(matches!(a, LookupAction::Complete));
}

#[test]
fn counters_read_their_own_field() {
    let c = TokenClient::new(2);
    assert_eq!(c.get_token_offer_count(Ok(claims(3, 2, 1))), Ok(3));
    assert_eq!(c.get_token_claim_count(Ok(claims(3, 2, 1))), Ok(2));
    assert_eq!(c.get_cancel_offer_count(Ok(claims(3, 2, 1))), Ok(1));
}

#[test]
fn offer_count_increases_across_snapshots() {
    let c = TokenClient::new(2);
    let before = c
        .get_token_offer_count(Err(TokenError::NotFound(Absence::NoPendingClaims)))
        .unwrap();
    let after = c.get_token_offer_count(Ok(claims(1, 0, 0))).unwrap();
    assert_eq!(before, 0);
    assert!(after > before);
}

#[test]
fn counters_propagate_real_failures() {
    let c = TokenClient::new(2);
    let e = TokenError::Transport(QueryKind::PendingClaims);
    assert_eq!(c.get_cancel_offer_count(Err(e)), Err(e));
    let e = TokenError::Decode(QueryKind::PendingClaims);
    assert_eq!(c.get_token_claim_count(Err(e)), Err(e));
}

#[test]
fn find_resource_takes_first_match() {
    let types = vec![
        "0x1::account::Account".to_string(),
        "0x3::token::Collections".to_string(),
        "0x3::token::Collections".to_string(),
    ];
    assert_eq!(find_resource(&types, "0x3::token::Collections"), Some(1));
    assert_eq!(find_resource(&types, "0x3::token::TokenStore"), None);
    assert_eq!(find_resource(&vec![], "x"), None);
}
