//! The two-stage lookups of on-chain state: first the resource of an account
//! (which, for table-backed records, names a table), then the entry of that
//! table under the record's key. The transport performs each fetch; the
//! decisions between fetches are made here, one event at a time.

use vstd::prelude::*;
use crate::address::Address;
use crate::error::{Absence, QueryKind, TokenError};
use crate::types::{PendingClaimsResources, TokenDataId, TokenId};

verus! {

/// Type of the resource that a lookup of `kind` starts from.
pub open spec fn resource_type_of(kind: QueryKind) -> Seq<char> {
    match kind {
        QueryKind::CollectionData => "0x3::token::Collections"@,
        QueryKind::TokenForAccount => "0x3::token::TokenStore"@,
        QueryKind::TokenData => "0x3::token::Collections"@,
        QueryKind::PendingClaims => "0x3::token_transfers::PendingClaims"@,
    }
}

/// Key and value types of the table that a lookup of `kind` reads, if any.
pub open spec fn table_types_of(kind: QueryKind) -> Option<(Seq<char>, Seq<char>)> {
    match kind {
        QueryKind::CollectionData => Some(("0x1::string::String"@, "0x3::token::CollectionData"@)),
        QueryKind::TokenForAccount => Some(("0x3::token::TokenId"@, "0x3::token::Token"@)),
        QueryKind::TokenData => Some(("0x3::token::TokenDataId"@, "0x3::token::TokenData"@)),
        QueryKind::PendingClaims => None,
    }
}

/// What the absence of the starting resource means for a lookup of `kind`.
pub open spec fn resource_absence(kind: QueryKind) -> Absence {
    match kind {
        QueryKind::CollectionData => Absence::NoCollectionRegistry,
        QueryKind::TokenForAccount => Absence::NoTokenStore,
        QueryKind::TokenData => Absence::NoCollectionRegistry,
        QueryKind::PendingClaims => Absence::NoPendingClaims,
    }
}

/// What the absence of the table entry means for a lookup of `kind`.
pub open spec fn entry_absence(kind: QueryKind) -> Absence {
    match kind {
        QueryKind::CollectionData => Absence::CollectionNotFound,
        QueryKind::TokenForAccount => Absence::TokenNotHeld,
        QueryKind::TokenData => Absence::TokenDataNotFound,
        QueryKind::PendingClaims => Absence::NoPendingClaims,
    }
}

/// The key of a table entry.
#[derive(Clone, Debug)]
pub enum TableKey {
    /// A collection's name.
    CollectionName(String),
    /// A held token instance.
    Token(TokenId),
    /// A token type.
    TokenData(TokenDataId),
}

impl TokenDataId {
    /// A copy of this identity.
    pub fn duplicate(&self) -> (r: TokenDataId)
        ensures
            r == *self,
    {
        TokenDataId {
            creator: self.creator,
            collection: self.collection.clone(),
            name: self.name.clone(),
        }
    }
}

impl TokenId {
    /// A copy of this identity.
    pub fn duplicate(&self) -> (r: TokenId)
        ensures
            r == *self,
    {
        TokenId {
            token_data_id: self.token_data_id.duplicate(),
            property_version: self.property_version,
        }
    }
}

impl TableKey {
    /// A copy of this key.
    pub fn duplicate(&self) -> (r: TableKey)
        ensures
            r == *self,
    {
        match self {
            TableKey::CollectionName(s) => TableKey::CollectionName(s.clone()),
            TableKey::Token(t) => TableKey::Token(t.duplicate()),
            TableKey::TokenData(d) => TableKey::TokenData(d.duplicate()),
        }
    }
}

/// Where a lookup stands.
#[derive(Clone, Copy, Debug, PartialEq, Eq, Structural)]
pub enum LookupStage {
    /// Waiting for the starting resource.
    Resource,
    /// Waiting for the table entry.
    TableItem,
    /// Finished, by success or failure.
    Done,
}

/// What a fetch gave.
#[derive(Clone, Copy, Debug)]
pub enum LookupEvent {
    /// The transport failed.
    TransportFailed,
    /// The resource or entry is not there.
    Absent,
    /// It is there but does not have the expected shape.
    Malformed,
    /// It is there and decoded; `handle` is the table that a resource names
    /// (an entry, or a resource that names no table, leaves it unread).
    Found { handle: Address },
}

/// What to do next.
#[derive(Clone, Debug)]
pub enum LookupAction {
    /// Fetch every resource of `account`, and take the one of type
    /// `resource_type` among them.
    ListResources { account: Address, resource_type: String },
    /// Fetch the resource of type `resource_type` of `account`.
    FetchResource { account: Address, resource_type: String },
    /// Fetch the entry of table `handle` under `key`.
    FetchTableItem { handle: Address, key_type: String, value_type: String, key: TableKey },
    /// The record fetched last is the answer.
    Complete,
    /// The lookup failed.
    Fail(TokenError),
}

/// A lookup of one record of on-chain state.
#[derive(Clone, Debug)]
pub struct Lookup {
    pub kind: QueryKind,
    pub account: Address,
    /// The entry's key; `None` for records that are resources themselves.
    pub key: Option<TableKey>,
    pub stage: LookupStage,
}

/// A lookup of `kind` carries a key exactly when it reads a table.
pub open spec fn key_fits(kind: QueryKind, key: Option<TableKey>) -> bool {
    match kind {
        QueryKind::CollectionData => key matches Some(TableKey::CollectionName(_)),
        QueryKind::TokenForAccount => key matches Some(TableKey::Token(_)),
        QueryKind::TokenData => key matches Some(TableKey::TokenData(_)),
        QueryKind::PendingClaims => key is None,
    }
}

/// The failure that `event` brings to a lookup of `kind` at `stage`, if any.
pub open spec fn failure_of(kind: QueryKind, stage: LookupStage, event: LookupEvent) -> Option<
    TokenError,
> {
    match event {
        LookupEvent::TransportFailed => Some(TokenError::Transport(kind)),
        LookupEvent::Malformed => Some(TokenError::Decode(kind)),
        LookupEvent::Absent => if stage == LookupStage::Resource {
            Some(TokenError::NotFound(resource_absence(kind)))
        } else {
            Some(TokenError::NotFound(entry_absence(kind)))
        },
        LookupEvent::Found { .. } => None,
    }
}

fn resource_type_text(kind: QueryKind) -> (r: String)
    ensures
        r@ == resource_type_of(kind),
{
    match kind {
        QueryKind::CollectionData => String::from_str("0x3::token::Collections"),
        QueryKind::TokenForAccount => String::from_str("0x3::token::TokenStore"),
        QueryKind::TokenData => String::from_str("0x3::token::Collections"),
        QueryKind::PendingClaims => String::from_str("0x3::token_transfers::PendingClaims"),
    }
}

impl Lookup {
    pub open spec fn wf(&self) -> bool {
        key_fits(self.kind, self.key)
    }

    /// A lookup of `kind` for `account`, not yet started.
    pub fn new(kind: QueryKind, account: Address, key: Option<TableKey>) -> (r: Lookup)
        requires
            key_fits(kind, key),
        ensures
            r.wf(),
            r.kind == kind && r.account == account && r.key == key,
            r.stage == LookupStage::Resource,
    {
        Lookup { kind, account, key, stage: LookupStage::Resource }
    }

    /// The first fetch: the account's whole resource list for a collection
    /// lookup, the one resource for the others.
    pub fn first_action(&self) -> (r: LookupAction)
        ensures
            self.kind == QueryKind::CollectionData ==> (r matches LookupAction::ListResources {
                account,
                resource_type,
            } && account == self.account && resource_type@ == resource_type_of(self.kind)),
            self.kind != QueryKind::CollectionData ==> (r matches LookupAction::FetchResource {
                account,
                resource_type,
            } && account == self.account && resource_type@ == resource_type_of(self.kind)),
    {
        let resource_type = resource_type_text(self.kind);
        match self.kind {
            QueryKind::CollectionData => LookupAction::ListResources {
                account: self.account,
                resource_type,
            },
            _ => LookupAction::FetchResource { account: self.account, resource_type },
        }
    }

    /// The lookup after `event`, and what to do next.
    pub fn advance(&self, event: LookupEvent) -> (r: (Lookup, LookupAction))
        requires
            self.wf(),
            self.stage != LookupStage::Done,
        ensures
            r.0.wf(),
            r.0.kind == self.kind && r.0.account == self.account && r.0.key == self.key,
            failure_of(self.kind, self.stage, event) matches Some(err) ==> (r.0.stage
                == LookupStage::Done && r.1 == LookupAction::Fail(err)),
            failure_of(self.kind, self.stage, event) is None ==> {
                let handle = event->handle;
                if self.stage == LookupStage::Resource && table_types_of(self.kind) is Some {
                    &&& r.0.stage == LookupStage::TableItem
                    &&& r.1 matches LookupAction::FetchTableItem {
                        handle: h,
                        key_type,
                        value_type,
                        key,
                    }
                    &&& h == handle
                    &&& key_type@ == table_types_of(self.kind)->Some_0.0
                    &&& value_type@ == table_types_of(self.kind)->Some_0.1
                    &&& self.key == Some(key)
                } else {
                    r.0.stage == LookupStage::Done && r.1 == LookupAction::Complete
                }
            },
    {
        let kind = self.kind;
        let key = match &self.key {
            Some(k) => Some(k.duplicate()),
            None => None,
        };
        let stay = Lookup { kind, account: self.account, key, stage: LookupStage::Done };
        match event {
            LookupEvent::TransportFailed => (stay, LookupAction::Fail(TokenError::Transport(kind))),
            LookupEvent::Malformed => (stay, LookupAction::Fail(TokenError::Decode(kind))),
            LookupEvent::Absent => {
                let absence = if self.stage == LookupStage::Resource {
                    match kind {
                        QueryKind::CollectionData => Absence::NoCollectionRegistry,
                        QueryKind::TokenForAccount => Absence::NoTokenStore,
                        QueryKind::TokenData => Absence::NoCollectionRegistry,
                        QueryKind::PendingClaims => Absence::NoPendingClaims,
                    }
                } else {
                    match kind {
                        QueryKind::CollectionData => Absence::CollectionNotFound,
                        QueryKind::TokenForAccount => Absence::TokenNotHeld,
                        QueryKind::TokenData => Absence::TokenDataNotFound,
                        QueryKind::PendingClaims => Absence::NoPendingClaims,
                    }
                };
                (stay, LookupAction::Fail(TokenError::NotFound(absence)))
            },
            LookupEvent::Found { handle } => {
                if self.stage == LookupStage::Resource {
                    let (key_type, value_type) = match kind {
                        QueryKind::CollectionData => (
                            String::from_str("0x1::string::String"),
                            String::from_str("0x3::token::CollectionData"),
                        ),
                        QueryKind::TokenForAccount => (
                            String::from_str("0x3::token::TokenId"),
                            String::from_str("0x3::token::Token"),
                        ),
                        QueryKind::TokenData => (
                            String::from_str("0x3::token::TokenDataId"),
                            String::from_str("0x3::token::TokenData"),
                        ),
                        QueryKind::PendingClaims => {
                            return (stay, LookupAction::Complete);
                        },
                    };
                    let entry_key = match &self.key {
                        Some(k) => k.duplicate(),
                        None => {
                            proof {
                                assert(false);
                            }
                            return (stay, LookupAction::Complete);
                        },
                    };
                    let next = Lookup {
                        kind,
                        account: self.account,
                        key: stay.key,
                        stage: LookupStage::TableItem,
                    };
                    (next, LookupAction::FetchTableItem { handle, key_type, value_type, key: entry_key })
                } else {
                    (stay, LookupAction::Complete)
                }
            },
        }
    }
}

/// Index of the first of `types` that equals `wanted`, if any.
pub fn find_resource(types: &Vec<String>, wanted: &str) -> (r: Option<usize>)
    ensures
        r matches Some(i) ==> i < types@.len() && types@[i as int]@ == wanted@ && forall|j: int|
            0 <= j < i ==> (#[trigger] types@[j])@ != wanted@,
        r is None ==> forall|j: int| 0 <= j < types@.len() ==> (#[trigger] types@[j])@ != wanted@,
{
    let target = String::from_str(wanted);
    let mut i: usize = 0;
    while i < types.len()
        invariant
            i <= types@.len(),
            target@ == wanted@,
            forall|j: int| 0 <= j < i ==> (#[trigger] types@[j])@ != wanted@,
        decreases types@.len() - i,
    {
        if types[i] == target {
            return Some(i);
        }
        i = i + 1;
    }
    None
}

/// Reads one event counter off a pending-claims lookup's result. An account
/// with no pending-claims resource has had no such event: its count is zero.
pub open spec fn counter_result(
    claims: Result<PendingClaimsResources, TokenError>,
    counter: spec_fn(PendingClaimsResources) -> u64,
) -> Result<u64, TokenError> {
    match claims {
        Ok(p) => Ok(counter(p)),
        Err(TokenError::NotFound(Absence::NoPendingClaims)) => Ok(0),
        Err(e) => Err(e),
    }
}

/// A collection lookup on an account that holds no collection registry fails
/// with "no collection registry"; one whose registry lacks the collection
/// fails with "collection not found"; and the two failures differ.
pub proof fn lemma_registry_absence_distinct()
    ensures
        failure_of(QueryKind::CollectionData, LookupStage::Resource, LookupEvent::Absent)
            == Some(TokenError::NotFound(Absence::NoCollectionRegistry)),
        failure_of(QueryKind::CollectionData, LookupStage::TableItem, LookupEvent::Absent)
            == Some(TokenError::NotFound(Absence::CollectionNotFound)),
        TokenError::NotFound(Absence::NoCollectionRegistry) != TokenError::NotFound(
            Absence::CollectionNotFound,
        ),
{
}

} // verus!
