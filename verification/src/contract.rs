//! Contract identities and the plans of their two execution modes.
//!
//! A contract identity holds an address, an interface description and
//! optional signing keys; it is immutable once constructed, and its address
//! is never recomputed. Invoking a contract starts from a plan: a validated
//! call message that the network client then encodes and either runs locally
//! against a fetched state snapshot (a read) or submits as a transaction (a
//! write).

use vstd::prelude::*;

use crate::abi::ContractInterface;
use crate::abi::NamedArg;
use crate::abi::args_conform;
use crate::abi::dec_value;
use crate::abi::is_dec_numeral_within;
use crate::abi::u32_from_str;
use crate::errors::ContractError;
use crate::keys::KeyPair;
use crate::keys::Signer;
use crate::keys::choose_signer;
use crate::keys::signer_matches_keys;
use crate::message::CallMessage;
use crate::message::build_call_message;

verus! {

/// The outcome of a network-submitted call: the identifier of the
/// transaction once it is confirmed included.
pub struct CallResult {
    pub trx_id: String,
}

/// The decoded output of the timestamp query of the deployed contract; the
/// value travels as a decimal string.
pub struct TimestampResult {
    pub timestamp: u32,
}

impl TimestampResult {
    /// Decodes the output field, rejecting anything but a decimal numeral
    /// within the 32-bit range.
    pub fn from_text(s: &str) -> (r: Result<TimestampResult, ContractError>)
        ensures
            r matches Ok(t) ==> t.timestamp == dec_value(s@),
            r is Ok <==> is_dec_numeral_within(s@, u32::MAX as int),
            r matches Err(e) ==> e is Decode,
    {
        match u32_from_str(s) {
            Ok(v) => Ok(TimestampResult { timestamp: v }),
            Err(e) => Err(e),
        }
    }
}

/// A contract's identity: its address, its interface description, and the
/// signing keys it was constructed with, if any. Immutable once constructed;
/// the address never changes.
pub struct GoshContract {
    pub address: String,
    pub pretty_name: String,
    pub abi: ContractInterface,
    pub keys: Option<KeyPair>,
}

/// A plan for a local, read-only run: the message targets the contract's
/// address, names the requested function with the given arguments, and is
/// unsigned — a local run submits nothing to the network.
pub open spec fn is_local_run_plan(
    c: GoshContract,
    function_name: Seq<char>,
    args: Seq<NamedArg>,
    m: CallMessage,
) -> bool {
    &&& m.address@ == c.address@
    &&& m.function_name@ == function_name
    &&& m.args@ == args
    &&& m.signer == Signer::Unsigned
}

/// A plan for a network-submitted call: the message targets the contract's
/// address, names the requested function with the given arguments, and is
/// signed with the contract's keys exactly when it carries any.
pub open spec fn is_call_plan(
    c: GoshContract,
    function_name: Seq<char>,
    args: Seq<NamedArg>,
    m: CallMessage,
) -> bool {
    &&& m.address@ == c.address@
    &&& m.function_name@ == function_name
    &&& m.args@ == args
    &&& signer_matches_keys(c.keys, m.signer)
}

impl GoshContract {
    /// The identity is well formed: its interface description is.
    pub open spec fn wf(self) -> bool {
        self.abi.wf()
    }

    /// Builds a contract identity from an address, a display name, an
    /// interface description and optional signing keys.
    pub fn new(address: &str, pretty_name: &str, abi: ContractInterface, keys: Option<
        KeyPair,
    >) -> (c: GoshContract)
        ensures
            c.address@ == address@,
            c.pretty_name@ == pretty_name@,
            c.abi == abi,
            c.keys == keys,
    {
        GoshContract { address: address.to_owned(), pretty_name: pretty_name.to_owned(), abi, keys }
    }

    /// The signing keys this identity was constructed with, if any.
    pub fn get_keys(&self) -> (r: &Option<KeyPair>)
        ensures
            *r == self.keys,
    {
        &self.keys
    }

    /// Plans a local, read-only run of a function: validates the function
    /// and arguments against the interface description and yields the
    /// unsigned message the client executes against a fetched state
    /// snapshot. Nothing is submitted to the network on this path.
    pub fn run_local_plan(&self, function_name: &str, args: Vec<NamedArg>) -> (r: Result<
        CallMessage,
        ContractError,
    >)
        requires
            self.wf(),
        ensures
            r is Ok <==> self.abi.declares(function_name@) && args_conform(
                self.abi.decl_of(function_name@).inputs@,
                args@,
            ),
            r matches Ok(m) ==> is_local_run_plan(*self, function_name@, args@, m),
            r matches Err(e) ==> e is Encoding,
    {
        build_call_message(self.address.as_str(), &self.abi, function_name, args, Signer::Unsigned)
    }

    /// Plans a network-submitted call of a function: validates the function
    /// and arguments against the interface description and yields the
    /// message to submit, signed with the full keypair when this identity
    /// carries keys and unsigned when it does not.
    pub fn call_plan(&self, function_name: &str, args: Vec<NamedArg>) -> (r: Result<
        CallMessage,
        ContractError,
    >)
        requires
            self.wf(),
        ensures
            r is Ok <==> self.abi.declares(function_name@) && args_conform(
                self.abi.decl_of(function_name@).inputs@,
                args@,
            ),
            r matches Ok(m) ==> is_call_plan(*self, function_name@, args@, m),
            r matches Ok(m) ==> (m.signer is Keys <==> self.keys is Some),
            r matches Ok(m) ==> (m.signer is Unsigned <==> self.keys is None),
            r matches Err(e) ==> e is Encoding,
    {
        let signer = choose_signer(&self.keys);
        build_call_message(self.address.as_str(), &self.abi, function_name, args, signer)
    }
}

/// Law: a local run is free of side effects at the library's boundary. The
/// plan is a pure function of the contract identity, the function name and
/// the arguments — two plans built from the same inputs in succession are
/// the same message — and that message is always unsigned: the local path
/// never submits a transaction.
pub proof fn lemma_local_run_deterministic(
    c: GoshContract,
    function_name: Seq<char>,
    args: Seq<NamedArg>,
    m1: CallMessage,
    m2: CallMessage,
)
    requires
        is_local_run_plan(c, function_name, args, m1),
        is_local_run_plan(c, function_name, args, m2),
    ensures
        m1.address@ == m2.address@,
        m1.function_name@ == m2.function_name@,
        m1.args@ == m2.args@,
        m1.signer == m2.signer,
        m1.signer == Signer::Unsigned,
{
}

} // verus!
