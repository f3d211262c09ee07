use hello_world::AccountData;
use hello_world::AccountType;
use hello_world::ArgValue;
use hello_world::CallResult;
use hello_world::ContractError;
use hello_world::ContractInterface;
use hello_world::DeployPhase;
use hello_world::Deployer;
use hello_world::FUNDING_AMOUNT_NANOTOKENS;
use hello_world::FunctionDecl;
use hello_world::GoshContract;
use hello_world::KeyPair;
use hello_world::Param;
use hello_world::ParamKind;
use hello_world::Signer;

fn giver_interface() -> ContractInterface {
    ContractInterface::new(vec![FunctionDecl {
        name: "sendTransaction".to_string(),
        inputs: vec![
            Param { name: "dest".to_string(), kind: ParamKind::Text },
            Param { name: "value".to_string(), kind: ParamKind::Unsigned },
            Param { name: "bounce".to_string(), kind: ParamKind::Flag },
        ],
    }])
    .unwrap()
}

fn target_interface() -> ContractInterface {
    ContractInterface::new(vec![
        FunctionDecl { name: "constructor".to_string(), inputs: vec![] },
        FunctionDecl { name: "timestamp".to_string(), inputs: vec![] },
        FunctionDecl { name: "touch".to_string(), inputs: vec![] },
    ])
    .unwrap()
}

fn giver_keys() -> KeyPair {
    KeyPair::from_parts(&"00aa11bb22cc33dd".repeat(4), &"44ee55ff66778899".repeat(4)).unwrap()
}

fn target_keys() -> KeyPair {
    KeyPair::from_parts(&"0123456789abcdef".repeat(4), &"fedcba9876543210".repeat(4)).unwrap()
}

fn giver() -> GoshContract {
    GoshContract::new("0:giver", "giver", giver_interface(), Some(giver_keys()))
}

fn ready() -> AccountData {
    AccountData { acc_type: AccountType::Uninitialized, balance: 1_000_000_000 }
}

fn not_ready() -> AccountData {
    AccountData { acc_type: AccountType::Nonexistent, balance: 0 }
}

#[test]
fn deployment_binds_the_derived_address_end_to_end() {
    // The derived future address, as the network client's encoding
    // capability would report it for the deploy-parameter set.
    let derived = "0:d00dfeed".to_string();
    let giver = giver();

    let (mut deployer, funding) = Deployer::start(
        derived.clone(),
        "helloWorld",
        target_interface(),
        target_keys(),
        b"code image".to_vec(),
        &giver,
    )
    .unwrap();

    // The funding call targets the giver, moving the fixed amount to the
    // derived address with bouncing off, signed with the giver's keys.
    assert_eq!(funding.address, "0:giver");
    assert_eq!(funding.function_name, "sendTransaction");
    assert!(matches!(&funding.args[0].value, ArgValue::Text(t) if t == &derived));
    assert!(matches!(funding.args[1].value, ArgValue::Unsigned(FUNDING_AMOUNT_NANOTOKENS)));
    assert!(matches!(funding.args[2].value, ArgValue::Flag(false)));
    assert!(matches!(&funding.signer, Signer::Keys { .. }));
    assert_eq!(deployer.phase, DeployPhase::Funding);

    // Funding accepted; first poll is due after one interval.
    let wait = deployer
        .on_funding_result(Ok(CallResult { trx_id: "trx-1".to_string() }))
        .unwrap();
    assert_eq!(wait, 2);

    // One not-yet-funded snapshot, then a ready one: no further polls.
    assert_eq!(deployer.on_snapshot(&not_ready()).unwrap(), Some(2));
    assert_eq!(deployer.on_snapshot(&ready()).unwrap(), None);
    assert_eq!(deployer.phase, DeployPhase::Ready);

    // The deploy message embeds the code image and the constructor call.
    let m = deployer.deploy_message(777).unwrap();
    assert_eq!(m.address, derived);
    assert_eq!(m.function_name, "constructor");
    assert_eq!(m.header_time_ms, 777);
    assert_eq!(deployer.phase, DeployPhase::Submitting);

    // Submission confirmed: the contract identity is bound to the derived
    // address and to the deployment keys.
    let contract = deployer
        .finish(Ok(CallResult { trx_id: "trx-2".to_string() }))
        .unwrap();
    assert_eq!(contract.address, derived);
    assert_eq!(contract.pretty_name, "helloWorld");
    assert!(contract.keys.is_some());

    // The deployed contract answers a local read (unsigned) and a signed
    // network call.
    let local = contract.run_local_plan("timestamp", vec![]).unwrap();
    assert!(matches!(local.signer, Signer::Unsigned));
    let call = contract.call_plan("touch", vec![]).unwrap();
    assert!(matches!(call.signer, Signer::Keys { .. }));
}

#[test]
fn funds_never_arriving_time_out_after_thirty_observations() {
    let (mut deployer, _funding) = Deployer::start(
        "0:d00dfeed".to_string(),
        "helloWorld",
        target_interface(),
        target_keys(),
        b"code image".to_vec(),
        &giver(),
    )
    .unwrap();
    deployer
        .on_funding_result(Ok(CallResult { trx_id: "trx-1".to_string() }))
        .unwrap();

    // 29 fruitless observations reschedule; the 30th is fatal.
    for _ in 0..29 {
        assert_eq!(deployer.on_snapshot(&not_ready()).unwrap(), Some(2));
    }
    let err = deployer.on_snapshot(&not_ready()).unwrap_err();
    match err {
        ContractError::Timeout { observations, waited_units } => {
            assert_eq!(observations, 30);
            assert_eq!(waited_units, 60);
        },
        _ => panic!("exhausting the poll budget must fail with a timeout"),
    }
    assert_eq!(deployer.phase, DeployPhase::Failed);
}

#[test]
fn a_failed_funding_call_is_fatal_and_propagates() {
    let (mut deployer, _funding) = Deployer::start(
        "0:d00dfeed".to_string(),
        "helloWorld",
        target_interface(),
        target_keys(),
        b"code image".to_vec(),
        &giver(),
    )
    .unwrap();
    let err = deployer
        .on_funding_result(Err(ContractError::Network { detail: "no route".to_string() }))
        .unwrap_err();
    assert!(matches!(err, ContractError::Network { .. }));
    assert_eq!(deployer.phase, DeployPhase::Failed);
}

#[test]
fn a_giver_without_send_transaction_is_rejected_up_front() {
    let poor_giver = GoshContract::new(
        "0:giver",
        "giver",
        ContractInterface::new(vec![FunctionDecl {
            name: "timestamp".to_string(),
            inputs: vec![],
        }])
        .unwrap(),
        Some(giver_keys()),
    );
    let r = Deployer::start(
        "0:d00dfeed".to_string(),
        "helloWorld",
        target_interface(),
        target_keys(),
        b"code image".to_vec(),
        &poor_giver,
    );
    assert!(matches!(r, Err(ContractError::Encoding { .. })));
}

#[test]
fn a_failed_submission_leaves_the_address_funded_but_undeployed() {
    let (mut deployer, _funding) = Deployer::start(
        "0:d00dfeed".to_string(),
        "helloWorld",
        target_interface(),
        target_keys(),
        b"code image".to_vec(),
        &giver(),
    )
    .unwrap();
    deployer
        .on_funding_result(Ok(CallResult { trx_id: "trx-1".to_string() }))
        .unwrap();
    deployer.on_snapshot(&ready()).unwrap();
    deployer.deploy_message(777).unwrap();
    let r = deployer.finish(Err(ContractError::Network { detail: "dropped".to_string() }));
    assert!(matches!(r, Err(ContractError::Network { .. })));
}
