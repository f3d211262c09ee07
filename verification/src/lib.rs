//! Deployment and invocation of smart contracts on a TVM-style ledger.
//!
//! The library models the decisions of the workflow: deriving and holding a
//! contract's identity, selecting a signer, building and validating call and
//! deploy messages against a contract's interface description, parsing
//! account snapshots, and driving the bounded funding poll that precedes
//! deployment. The asynchronous network client that encodes, queries and
//! submits messages is an outside capability; an application drives it with
//! the plans and state machines defined here.

use vstd::prelude::*;

use std::time::SystemTime;

mod abi;
mod account;
mod contract;
mod deploy;
mod errors;
mod keys;
mod message;

pub use abi::ArgValue;
pub use abi::ContractInterface;
pub use abi::FunctionDecl;
pub use abi::NamedArg;
pub use abi::Param;
pub use abi::ParamKind;
pub use abi::args_conform;
pub use abi::args_conform_exec;
pub use abi::all_dec_digits;
pub use abi::dec_value;
pub use abi::is_dec_numeral_within;
pub use abi::u32_from_str;
pub use abi::u64_from_dec_str;
pub use account::AccountData;
pub use account::AccountType;
pub use account::account_type_code;
pub use account::snapshot_ready;
pub use contract::CallResult;
pub use contract::GoshContract;
pub use contract::TimestampResult;
pub use contract::is_call_plan;
pub use contract::is_local_run_plan;
pub use contract::lemma_local_run_deterministic;
pub use deploy::DeployPhase;
pub use deploy::Deployer;
pub use deploy::MAX_FUNDING_POLLS;
pub use deploy::POLL_INTERVAL_UNITS;
pub use deploy::PollDecision;
pub use deploy::PollRun;
pub use deploy::none_ready_prefix;
pub use deploy::poll_step;
pub use deploy::run_funding_poll;
pub use deploy::same_identity;
pub use errors::ContractError;
pub use errors::EncodingFault;
pub use keys::KeyPair;
pub use keys::Signer;
pub use keys::choose_signer;
pub use keys::is_hex_key;
pub use keys::signer_matches_keys;
pub use message::CallMessage;
pub use message::DeployMessage;
pub use message::DeployParams;
pub use message::FUNDING_AMOUNT_NANOTOKENS;
pub use message::base64_of;
pub use message::build_call_message;
pub use message::build_deploy_message;
pub use message::derive_address_params;
pub use message::fits_base64;
pub use message::fits_base64_exec;
pub use message::funding_call_args;
pub use message::funding_params_shape;
pub use message::is_funding_args;
pub use message::lemma_derive_address_params_deterministic;
pub use message::lemma_funding_args_conform;

verus! {

/// Relies on std's `SystemTime::now` and `duration_since`: the milliseconds
/// the system clock stands past the epoch, truncated to 64 bits. The clock
/// is outside the library, so nothing is promised of the value.
#[verifier::external_body]
fn system_time_millis() -> u64 {
    SystemTime::now().duration_since(SystemTime::UNIX_EPOCH).expect(
        "failed to obtain system time",
    ).as_millis() as u64
}

/// The current time in milliseconds since the epoch, read from the system
/// clock; stamped into the header of each deploy message.
pub fn now() -> u64 {
    system_time_millis()
}

} // verus!
