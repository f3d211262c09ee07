use base64::Engine;

use hello_world::ArgValue;
use hello_world::ContractError;
use hello_world::ContractInterface;
use hello_world::EncodingFault;
use hello_world::FunctionDecl;
use hello_world::GoshContract;
use hello_world::KeyPair;
use hello_world::NamedArg;
use hello_world::Param;
use hello_world::ParamKind;
use hello_world::Signer;
use hello_world::build_call_message;
use hello_world::build_deploy_message;
use hello_world::derive_address_params;
use hello_world::funding_call_args;

fn keypair() -> KeyPair {
    KeyPair::from_parts(&"0123456789abcdef".repeat(4), &"fedcba9876543210".repeat(4)).unwrap()
}

fn target_interface() -> ContractInterface {
    ContractInterface::new(vec![
        FunctionDecl { name: "constructor".to_string(), inputs: vec![] },
        FunctionDecl { name: "timestamp".to_string(), inputs: vec![] },
        FunctionDecl { name: "touch".to_string(), inputs: vec![] },
        FunctionDecl {
            name: "sendTransaction".to_string(),
            inputs: vec![
                Param { name: "dest".to_string(), kind: ParamKind::Text },
                Param { name: "value".to_string(), kind: ParamKind::Unsigned },
                Param { name: "bounce".to_string(), kind: ParamKind::Flag },
            ],
        },
    ])
    .unwrap()
}

#[test]
fn interface_rejects_a_doubly_declared_function() {
    let dup = ContractInterface::new(vec![
        FunctionDecl { name: "touch".to_string(), inputs: vec![] },
        FunctionDecl { name: "touch".to_string(), inputs: vec![] },
    ]);
    assert!(matches!(dup, Err(ContractError::Config { .. })));
}

#[test]
fn unknown_function_is_rejected_before_any_network_io() {
    let iface = target_interface();
    let r = build_call_message("0:abc", &iface, "absent", vec![], Signer::Unsigned);
    match r {
        Err(ContractError::Encoding { function_name, fault }) => {
            assert_eq!(function_name, "absent");
            assert_eq!(fault, EncodingFault::UnknownFunction);
        },
        _ => panic!("an unknown function must be rejected with an encoding error"),
    }
}

#[test]
fn malformed_arguments_are_rejected_before_any_network_io() {
    let iface = target_interface();
    // Wrong arity.
    let r = build_call_message("0:abc", &iface, "sendTransaction", vec![], Signer::Unsigned);
    assert!(matches!(
        r,
        Err(ContractError::Encoding { fault: EncodingFault::MalformedArguments, .. })
    ));
    // Right arity and names, wrong kind for `value`.
    let args = vec![
        NamedArg { name: "dest".to_string(), value: ArgValue::Text("0:def".to_string()) },
        NamedArg { name: "value".to_string(), value: ArgValue::Text("10".to_string()) },
        NamedArg { name: "bounce".to_string(), value: ArgValue::Flag(false) },
    ];
    let r = build_call_message("0:abc", &iface, "sendTransaction", args, Signer::Unsigned);
    assert!(matches!(
        r,
        Err(ContractError::Encoding { fault: EncodingFault::MalformedArguments, .. })
    ));
    // Right kinds, wrong name.
    let args = vec![
        NamedArg { name: "to".to_string(), value: ArgValue::Text("0:def".to_string()) },
        NamedArg { name: "value".to_string(), value: ArgValue::Unsigned(10) },
        NamedArg { name: "bounce".to_string(), value: ArgValue::Flag(false) },
    ];
    let r = build_call_message("0:abc", &iface, "sendTransaction", args, Signer::Unsigned);
    assert!(matches!(
        r,
        Err(ContractError::Encoding { fault: EncodingFault::MalformedArguments, .. })
    ));
}

#[test]
fn a_conformant_call_carries_its_inputs_through() {
    let iface = target_interface();
    let args = funding_call_args("0:def", 10);
    let m = build_call_message("0:abc", &iface, "sendTransaction", args, Signer::Unsigned).unwrap();
    assert_eq!(m.address, "0:abc");
    assert_eq!(m.function_name, "sendTransaction");
    assert_eq!(m.args.len(), 3);
    assert_eq!(m.args[0].name, "dest");
    assert!(matches!(&m.args[0].value, ArgValue::Text(t) if t == "0:def"));
    assert_eq!(m.args[1].name, "value");
    assert!(matches!(m.args[1].value, ArgValue::Unsigned(10)));
    assert_eq!(m.args[2].name, "bounce");
    assert!(matches!(m.args[2].value, ArgValue::Flag(false)));
    assert!(matches!(m.signer, Signer::Unsigned));
}

#[test]
fn call_with_keys_is_signed_with_the_full_keypair() {
    let keys = keypair();
    let c = GoshContract::new("0:abc", "target", target_interface(), Some(keys));
    let m = c.call_plan("touch", vec![]).unwrap();
    match &m.signer {
        Signer::Keys { keys: k } => {
            assert_eq!(k.public, "0123456789abcdef".repeat(4));
            assert_eq!(k.secret, "fedcba9876543210".repeat(4));
        },
        _ => panic!("a contract with keys must sign with the full keypair"),
    }
}

#[test]
fn call_without_keys_uses_the_unsigned_signer() {
    let c = GoshContract::new("0:abc", "target", target_interface(), None);
    let m = c.call_plan("touch", vec![]).unwrap();
    assert!(matches!(m.signer, Signer::Unsigned));
}

#[test]
fn local_run_is_always_unsigned_and_repeatable() {
    let keys = keypair();
    let c = GoshContract::new("0:abc", "target", target_interface(), Some(keys));
    let m1 = c.run_local_plan("timestamp", vec![]).unwrap();
    let m2 = c.run_local_plan("timestamp", vec![]).unwrap();
    // Even with keys present the local path never signs.
    assert!(matches!(m1.signer, Signer::Unsigned));
    assert!(matches!(m2.signer, Signer::Unsigned));
    // Two plans built in succession from the same inputs are identical.
    assert_eq!(m1.address, m2.address);
    assert_eq!(m1.function_name, m2.function_name);
    assert_eq!(m1.args.len(), m2.args.len());
}

#[test]
fn deploy_message_embeds_code_and_constructor_call() {
    let keys = keypair();
    let iface = target_interface();
    let code = b"hello".to_vec();
    let m = build_deploy_message("0:abc", &code, &iface, &keys, 1234).unwrap();
    assert_eq!(m.address, "0:abc");
    assert_eq!(m.code_b64, "aGVsbG8=");
    assert_eq!(m.workchain_id, 0);
    assert_eq!(m.function_name, "constructor");
    assert_eq!(m.header_time_ms, 1234);
    assert!(matches!(m.signer, Signer::Keys { .. }));
}

#[test]
fn deploy_message_requires_a_declared_constructor() {
    let keys = keypair();
    let iface = ContractInterface::new(vec![FunctionDecl {
        name: "touch".to_string(),
        inputs: vec![],
    }])
    .unwrap();
    let r = build_deploy_message("0:abc", &b"hello".to_vec(), &iface, &keys, 1234);
    assert!(matches!(
        r,
        Err(ContractError::Encoding { fault: EncodingFault::UnknownFunction, .. })
    ));
}

#[test]
fn address_derivation_params_are_a_pure_function_of_their_inputs() {
    let code = b"some contract code image".to_vec();
    let public = "0123456789abcdef".repeat(4);
    let p1 = derive_address_params(&code, &public, 0);
    let p2 = derive_address_params(&code, &public, 0);
    assert_eq!(p1.code_b64, p2.code_b64);
    assert_eq!(p1.initial_public_key, p2.initial_public_key);
    assert_eq!(p1.workchain_id, p2.workchain_id);
    // The embedded image agrees with the engine the library relies on.
    assert_eq!(p1.code_b64, base64::engine::general_purpose::STANDARD.encode(&code));
    assert_eq!(p1.initial_public_key, public);
}

#[test]
fn empty_code_image_encodes_to_an_empty_string() {
    let p = derive_address_params(&Vec::new(), "ab", 0);
    assert_eq!(p.code_b64, "");
}
