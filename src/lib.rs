//! A client of the on-chain token modules: it encodes the arguments of each
//! token operation, builds the envelope of the module call that carries them,
//! fills in option defaults, and makes the decisions of the two-stage lookups
//! of collection, token and pending-claims state. Signing, submission and the
//! fetches themselves are left to the caller's transport.

use vstd::prelude::*;

pub mod address;
pub mod encoding;
pub mod error;
pub mod lookup;
pub mod module_client;
pub mod token_client;
pub mod types;

pub use address::{get_hex_address_three, Address};
pub use error::{Absence, Operation, QueryKind, TokenError};
pub use lookup::{find_resource, Lookup, LookupAction, LookupEvent, LookupStage, TableKey};
pub use module_client::{ModuleClient, ModuleId, SignerInfo, TransactionEnvelope};
pub use token_client::TokenClient;

verus! {

} // verus!
