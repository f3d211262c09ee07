//! Message construction: the validated parameter sets that the network
//! client's encoding capability turns into wire messages.
//!
//! Building a message validates the requested function and its arguments
//! against the contract's interface description before anything touches the
//! network; an unknown function or malformed arguments are rejected here.

use vstd::prelude::*;
use vstd::string::StringExecFns;

use base64::Engine;

use crate::abi::ArgValue;
use crate::abi::ContractInterface;
use crate::abi::NamedArg;
use crate::abi::Param;
use crate::abi::ParamKind;
use crate::abi::arg_matches;
use crate::abi::args_conform;
use crate::abi::args_conform_exec;
use crate::errors::ContractError;
use crate::errors::EncodingFault;
use crate::keys::KeyPair;
use crate::keys::Signer;

verus! {

/// What the standard base64 encoding of a byte sequence is. The encoding is
/// a function of the input bytes alone.
pub uninterp spec fn base64_of(bytes: Seq<u8>) -> Seq<char>;

/// Relies on base64's `Engine::encode` with the standard alphabet and
/// padding: the result depends on the input bytes alone, and is four output
/// characters for every three input bytes, rounded up. The engine panics if
/// that output length overflows `usize`, so such inputs are excluded.
#[verifier::external_body]
fn base64_encode(bytes: &Vec<u8>) -> (r: String)
    requires
        4 * ((bytes@.len() + 2) / 3) <= usize::MAX as int,
    ensures
        r@ == base64_of(bytes@),
        r@.len() == 4 * ((bytes@.len() + 2) as int / 3),
{
    base64::engine::general_purpose::STANDARD.encode(bytes)
}

/// The input fits the base64 engine: its padded output length stays within
/// `usize`.
pub open spec fn fits_base64(bytes: Seq<u8>) -> bool {
    4 * ((bytes.len() + 2) / 3) <= usize::MAX as int
}

/// Decides whether a code image fits the base64 engine.
pub fn fits_base64_exec(bytes: &Vec<u8>) -> (r: bool)
    ensures
        r == fits_base64(bytes@),
{
    bytes.len() <= (usize::MAX - 2) && (bytes.len() + 2) / 3 <= usize::MAX / 4
}

/// The deploy-parameter set from which the future address is derived: built
/// only from the code image and the initial public key (with the workchain
/// partition id), before the contract exists on-chain.
pub struct DeployParams {
    pub code_b64: String,
    pub initial_public_key: String,
    pub workchain_id: i32,
}

/// Builds the address-derivation parameter set. A pure function of the code
/// image, the initial public key and the workchain id: equal inputs yield
/// equal parameter sets.
pub fn derive_address_params(code_image: &Vec<u8>, initial_public_key: &str, workchain_id: i32) -> (p:
    DeployParams)
    requires
        fits_base64(code_image@),
    ensures
        p.code_b64@ == base64_of(code_image@),
        p.initial_public_key@ == initial_public_key@,
        p.workchain_id == workchain_id,
{
    DeployParams {
        code_b64: base64_encode(code_image),
        initial_public_key: initial_public_key.to_owned(),
        workchain_id,
    }
}

/// Law: address derivation is deterministic as far as this library reaches.
/// The derivation parameter set is a pure function of the code image, the
/// initial public key and the workchain id: two parameter sets built from
/// the same inputs are identical, so the client's derivation — a function
/// of the parameter set — is repeatable.
pub proof fn lemma_derive_address_params_deterministic(
    code_image: Seq<u8>,
    initial_public_key: Seq<char>,
    workchain_id: i32,
    p1: DeployParams,
    p2: DeployParams,
)
    requires
        p1.code_b64@ == base64_of(code_image) && p1.initial_public_key@ == initial_public_key
            && p1.workchain_id == workchain_id,
        p2.code_b64@ == base64_of(code_image) && p2.initial_public_key@ == initial_public_key
            && p2.workchain_id == workchain_id,
    ensures
        p1.code_b64@ == p2.code_b64@,
        p1.initial_public_key@ == p2.initial_public_key@,
        p1.workchain_id == p2.workchain_id,
{
}

/// A validated call message, ready for the network client to encode: the
/// target address, the function, its arguments, and the signer.
pub struct CallMessage {
    pub address: String,
    pub function_name: String,
    pub args: Vec<NamedArg>,
    pub signer: Signer,
}

/// A validated deploy message, ready for the network client to encode: the
/// derived address, the embedded code image, and the constructor call with
/// its header timestamp, signed with the full keypair.
pub struct DeployMessage {
    pub address: String,
    pub code_b64: String,
    pub workchain_id: i32,
    pub function_name: String,
    pub header_time_ms: u64,
    pub signer: Signer,
}

/// The name of the function a deploy message calls.
pub open spec fn constructor_name() -> Seq<char> {
    "constructor"@
}

/// Builds a call message: rejects, without attempting any network I/O, a
/// function name the interface description does not declare and arguments
/// that do not satisfy the declared parameter shape; otherwise carries the
/// inputs through unchanged.
pub fn build_call_message(
    address: &str,
    interface: &ContractInterface,
    function_name: &str,
    args: Vec<NamedArg>,
    signer: Signer,
) -> (r: Result<CallMessage, ContractError>)
    requires
        interface.wf(),
    ensures
        r is Ok <==> interface.declares(function_name@) && args_conform(
            interface.decl_of(function_name@).inputs@,
            args@,
        ),
        r matches Ok(m) ==> m.address@ == address@ && m.function_name@ == function_name@ && m.args@
            == args@ && m.signer == signer,
        r matches Err(e) ==> (e matches ContractError::Encoding { function_name: f, fault } && f@
            == function_name@ && (fault == EncodingFault::UnknownFunction <==> !interface.declares(
            function_name@,
        ))),
{
    match interface.find_function(function_name) {
        None => Err(
            ContractError::Encoding {
                function_name: function_name.to_owned(),
                fault: EncodingFault::UnknownFunction,
            },
        ),
        Some(i) => {
            proof {
                let j = choose|j: int|
                    0 <= j < interface.functions@.len() && #[trigger] interface.functions@[j].name@
                        == function_name@;
                assert(interface.functions@[i as int].name@ == function_name@);
                assert(j == i as int);
            }
            if args_conform_exec(&interface.functions[i].inputs, &args) {
                Ok(
                    CallMessage {
                        address: address.to_owned(),
                        function_name: function_name.to_owned(),
                        args,
                        signer,
                    },
                )
            } else {
                Err(
                    ContractError::Encoding {
                        function_name: function_name.to_owned(),
                        fault: EncodingFault::MalformedArguments,
                    },
                )
            }
        },
    }
}

/// Builds the deploy message: embeds the base64-encoded code image and a
/// constructor call carrying the given header timestamp, signed with the
/// full keypair. Rejects, without attempting any network I/O, an interface
/// description that does not declare a parameterless constructor.
pub fn build_deploy_message(
    address: &str,
    code_image: &Vec<u8>,
    interface: &ContractInterface,
    keys: &KeyPair,
    header_time_ms: u64,
) -> (r: Result<DeployMessage, ContractError>)
    requires
        interface.wf(),
        fits_base64(code_image@),
    ensures
        r is Ok <==> interface.declares(constructor_name()) && interface.decl_of(
            constructor_name(),
        ).inputs@.len() == 0,
        r matches Ok(m) ==> m.address@ == address@ && m.code_b64@ == base64_of(code_image@)
            && m.workchain_id == 0 && m.function_name@ == constructor_name() && m.header_time_ms
            == header_time_ms && (m.signer matches Signer::Keys { keys: k } && k.public@
            == keys.public@ && k.secret@ == keys.secret@),
        r matches Err(e) ==> (e matches ContractError::Encoding { function_name: f, fault } && f@
            == constructor_name() && (fault == EncodingFault::UnknownFunction
            <==> !interface.declares(constructor_name()))),
{
    match interface.find_function("constructor") {
        None => Err(
            ContractError::Encoding {
                function_name: String::from_str("constructor"),
                fault: EncodingFault::UnknownFunction,
            },
        ),
        Some(i) => {
            proof {
                let j = choose|j: int|
                    0 <= j < interface.functions@.len() && #[trigger] interface.functions@[j].name@
                        == constructor_name();
                assert(interface.functions@[i as int].name@ == constructor_name());
                assert(j == i as int);
            }
            if interface.functions[i].inputs.len() == 0 {
                Ok(
                    DeployMessage {
                        address: address.to_owned(),
                        code_b64: base64_encode(code_image),
                        workchain_id: 0,
                        function_name: String::from_str("constructor"),
                        header_time_ms,
                        signer: Signer::Keys { keys: keys.duplicate() },
                    },
                )
            } else {
                Err(
                    ContractError::Encoding {
                        function_name: String::from_str("constructor"),
                        fault: EncodingFault::MalformedArguments,
                    },
                )
            }
        },
    }
}

/// The amount, in nanotokens, requested from the funding source for a fresh
/// deployment.
pub const FUNDING_AMOUNT_NANOTOKENS: u64 = 1_000_000_000;

/// The arguments of a funding transfer: the destination address, the amount,
/// and a bounce flag that is off so that funds settle on the not-yet-deployed
/// account.
pub open spec fn is_funding_args(args: Seq<NamedArg>, dest: Seq<char>, value: u64) -> bool {
    &&& args.len() == 3
    &&& args[0].name@ == "dest"@
    &&& args[0].value matches ArgValue::Text(t) && t@ == dest
    &&& args[1].name@ == "value"@
    &&& args[1].value matches ArgValue::Unsigned(v) && v == value
    &&& args[2].name@ == "bounce"@
    &&& args[2].value matches ArgValue::Flag(b) && b == false
}

/// The parameter shape a funding source's transfer function must declare for
/// the funding arguments to conform.
pub open spec fn funding_params_shape(inputs: Seq<Param>) -> bool {
    &&& inputs.len() == 3
    &&& inputs[0].name@ == "dest"@ && inputs[0].kind == ParamKind::Text
    &&& inputs[1].name@ == "value"@ && inputs[1].kind == ParamKind::Unsigned
    &&& inputs[2].name@ == "bounce"@ && inputs[2].kind == ParamKind::Flag
}

/// Builds the arguments of a funding transfer to `dest` over `value`
/// nanotokens, with bouncing off.
pub fn funding_call_args(dest: &str, value: u64) -> (args: Vec<NamedArg>)
    ensures
        is_funding_args(args@, dest@, value),
{
    let mut args: Vec<NamedArg> = Vec::new();
    args.push(NamedArg { name: String::from_str("dest"), value: ArgValue::Text(dest.to_owned()) });
    args.push(NamedArg { name: String::from_str("value"), value: ArgValue::Unsigned(value) });
    args.push(NamedArg { name: String::from_str("bounce"), value: ArgValue::Flag(false) });
    args
}

/// Funding arguments conform to a declared parameter list exactly when the
/// list has the funding shape.
pub proof fn lemma_funding_args_conform(
    inputs: Seq<Param>,
    args: Seq<NamedArg>,
    dest: Seq<char>,
    value: u64,
)
    requires
        is_funding_args(args, dest, value),
    ensures
        args_conform(inputs, args) <==> funding_params_shape(inputs),
{
    if funding_params_shape(inputs) {
        assert forall|i: int| 0 <= i < inputs.len() implies #[trigger] arg_matches(
            inputs[i],
            args[i],
        ) by {
            assert(i == 0 || i == 1 || i == 2);
        }
    }
    if args_conform(inputs, args) {
        assert(arg_matches(inputs[0], args[0]));
        assert(arg_matches(inputs[1], args[1]));
        assert(arg_matches(inputs[2], args[2]));
    }
}

} // verus!
