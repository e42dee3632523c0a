//! Calls into one on-chain module, and the transaction envelopes that carry
//! them.

use vstd::prelude::*;
use crate::address::Address;
use crate::types::{TransactionOptions, settings_of};

verus! {

/// A character that may stand in a Move identifier.
pub open spec fn is_identifier_char(c: char) -> bool {
    ||| ('a' as u32) <= (c as u32) <= ('z' as u32)
    ||| ('A' as u32) <= (c as u32) <= ('Z' as u32)
    ||| ('0' as u32) <= (c as u32) <= ('9' as u32)
    ||| c == '_'
}

/// A character that may begin a Move identifier.
pub open spec fn is_identifier_start(c: char) -> bool {
    ||| ('a' as u32) <= (c as u32) <= ('z' as u32)
    ||| ('A' as u32) <= (c as u32) <= ('Z' as u32)
    ||| c == '_'
}

/// A Move identifier: one to 128 characters, a letter or `_` first, then
/// letters, digits and `_`.
pub open spec fn is_move_identifier(s: Seq<char>) -> bool {
    &&& 0 < s.len() <= 128
    &&& is_identifier_start(s[0])
    &&& forall|i: int| 0 <= i < s.len() ==> is_identifier_char(#[trigger] s[i])
}

/// Relies on `aptos_sdk::types::Identifier::new`: it accepts exactly the
/// non-empty names of at most 128 bytes that begin with an ASCII letter or `_`
/// and hold only ASCII letters, digits and `_`.
#[verifier::external_body]
fn identifier_accepts(s: &str) -> (r: bool)
    ensures
        r == is_move_identifier(s@),
{
    aptos_sdk::types::Identifier::new(s).is_ok()
}

/// A deployed module: the address that published it and its name.
#[derive(Clone, Debug)]
pub struct ModuleId {
    pub address: Address,
    pub name: String,
}

impl ModuleId {
    /// A copy of this module reference.
    pub fn duplicate(&self) -> (r: ModuleId)
        ensures
            r == *self,
    {
        ModuleId { address: self.address, name: self.name.clone() }
    }
}

/// A call of one entry function: module, function, type arguments (as type
/// tag text) and encoded arguments.
#[derive(Clone, Debug)]
pub struct EntryFunction {
    pub module: ModuleId,
    pub function: String,
    pub ty_args: Vec<String>,
    pub args: Vec<Vec<u8>>,
}

/// A transaction ready to be signed: who sends it, with which sequence
/// number, until when it may run, at what gas, on which chain, and which
/// accounts sign it beside the sender.
#[derive(Clone, Debug)]
pub struct TransactionEnvelope {
    pub sender: Address,
    pub sequence_number: u64,
    pub payload: EntryFunction,
    pub max_gas_amount: u64,
    pub gas_unit_price: u64,
    pub expiration_timestamp_secs: u64,
    pub chain_id: u8,
    pub secondary_signers: Vec<Address>,
}

/// What a transaction needs of the account that sends it.
#[derive(Clone, Copy, Debug)]
pub struct SignerInfo {
    pub address: Address,
    pub sequence_number: u64,
}

/// The bytes of each encoded argument.
pub open spec fn arg_bytes(args: Seq<Vec<u8>>) -> Seq<Seq<u8>> {
    args.map_values(|a: Vec<u8>| a@)
}

/// The text of each type argument.
pub open spec fn ty_arg_text(ty_args: Seq<String>) -> Seq<Seq<char>> {
    ty_args.map_values(|t: String| t@)
}

/// `e` calls `function` of `module` on chain `chain_id` with `ty_args` and
/// `args`, is sent by `sender` at its sequence number, expires `timeout_sec`
/// seconds after `now_secs` where `settings` is the triple (gas limit, gas
/// unit price, timeout in seconds), and is co-signed by `others`, in that
/// order.
pub open spec fn is_envelope(
    e: TransactionEnvelope,
    chain_id: u8,
    module: ModuleId,
    sender: SignerInfo,
    now_secs: u64,
    function: Seq<char>,
    ty_args: Seq<Seq<char>>,
    args: Seq<Seq<u8>>,
    settings: (u64, u64, u64),
    others: Seq<Address>,
) -> bool {
    &&& e.sender == sender.address
    &&& e.sequence_number == sender.sequence_number
    &&& e.chain_id == chain_id
    &&& e.max_gas_amount == settings.0
    &&& e.gas_unit_price == settings.1
    &&& e.expiration_timestamp_secs == now_secs + settings.2
    &&& e.payload.module == module
    &&& e.payload.function@ == function
    &&& ty_arg_text(e.payload.ty_args@) == ty_args
    &&& arg_bytes(e.payload.args@) == args
    &&& e.secondary_signers@ == others
}

/// Builds calls of one module on one chain.
#[derive(Clone, Debug)]
pub struct ModuleClient {
    pub chain_id: u8,
    pub module: ModuleId,
}

impl ModuleClient {
    /// A client of module `module_name` at `module_address`; `None` when the
    /// name is no Move identifier.
    pub fn new(chain_id: u8, module_address: Address, module_name: &str) -> (r: Option<
        ModuleClient,
    >)
        ensures
            r is Some <==> is_move_identifier(module_name@),
            r matches Some(c) ==> c.chain_id == chain_id && c.module.address == module_address
                && c.module.name@ == module_name@,
    {
        if identifier_accepts(module_name) {
            Some(
                ModuleClient {
                    chain_id,
                    module: ModuleId {
                        address: module_address,
                        name: String::from_str(module_name),
                    },
                },
            )
        } else {
            None
        }
    }

    fn build(
        &self,
        account: &SignerInfo,
        others: Vec<Address>,
        now_secs: u64,
        function_name: &str,
        ty_args: Vec<String>,
        args: Vec<Vec<u8>>,
        tx_opts: TransactionOptions,
    ) -> (r: Option<TransactionEnvelope>)
        ensures
            r is Some <==> now_secs + tx_opts.timeout_sec <= u64::MAX,
            r matches Some(e) ==> is_envelope(
                e,
                self.chain_id,
                self.module,
                *account,
                now_secs,
                function_name@,
                ty_arg_text(ty_args@),
                arg_bytes(args@),
                settings_of(tx_opts),
                others@,
            ),
    {
        let expiration = match now_secs.checked_add(tx_opts.timeout_sec) {
            Some(t) => t,
            None => return None,
        };
        Some(
            TransactionEnvelope {
                sender: account.address,
                sequence_number: account.sequence_number,
                payload: EntryFunction {
                    module: self.module.duplicate(),
                    function: String::from_str(function_name),
                    ty_args,
                    args,
                },
                max_gas_amount: tx_opts.max_gas_amount,
                gas_unit_price: tx_opts.gas_unit_price,
                expiration_timestamp_secs: expiration,
                chain_id: self.chain_id,
                secondary_signers: others,
            },
        )
    }

    /// The envelope of a call of `function_name` that `account` alone signs,
    /// expiring `tx_opts.timeout_sec` seconds after `now_secs`; `None` when
    /// that instant does not fit in a `u64`.
    pub fn build_signed_transaction(
        &self,
        account: &SignerInfo,
        now_secs: u64,
        function_name: &str,
        ty_args: Vec<String>,
        args: Vec<Vec<u8>>,
        tx_opts: TransactionOptions,
    ) -> (r: Option<TransactionEnvelope>)
        requires
            is_move_identifier(function_name@),
        ensures
            r is Some <==> now_secs + tx_opts.timeout_sec <= u64::MAX,
            r matches Some(e) ==> is_envelope(
                e,
                self.chain_id,
                self.module,
                *account,
                now_secs,
                function_name@,
                ty_arg_text(ty_args@),
                arg_bytes(args@),
                settings_of(tx_opts),
                seq![],
            ),
    {
        self.build(account, Vec::new(), now_secs, function_name, ty_args, args, tx_opts)
    }

    /// As `build_signed_transaction`, for a call that `other_accounts` sign
    /// too, in the order given.
    pub fn build_multisigned_transaction(
        &self,
        account: &SignerInfo,
        other_accounts: Vec<Address>,
        now_secs: u64,
        function_name: &str,
        ty_args: Vec<String>,
        args: Vec<Vec<u8>>,
        tx_opts: TransactionOptions,
    ) -> (r: Option<TransactionEnvelope>)
        requires
            is_move_identifier(function_name@),
        ensures
            r is Some <==> now_secs + tx_opts.timeout_sec <= u64::MAX,
            r matches Some(e) ==> is_envelope(
                e,
                self.chain_id,
                self.module,
                *account,
                now_secs,
                function_name@,
                ty_arg_text(ty_args@),
                arg_bytes(args@),
                settings_of(tx_opts),
                other_accounts@,
            ),
    {
        self.build(account, other_accounts, now_secs, function_name, ty_args, args, tx_opts)
    }
}

} // verus!
