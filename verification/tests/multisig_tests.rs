use escrow_core::errors::MultisigError;
use escrow_core::multisig::{
    all_distinct, count_valid, is_endorsed, same_digest, Approval, MultiSigContract,
    MultisigConfigUpdatedData, MultisigTransactionExecutedData, MultisigTransactionProposedData,
    MULTISIG_TOPIC,
};
use escrow_core::principal::Principal;

fn digest(first: u8) -> [u8; 32] {
    let mut d = [0u8; 32];
    d[0] = first;
    d[1] = 2;
    d[2] = 3;
    d
}

fn sign(signer: &Principal, operation: &[u8; 32], nonce: u32) -> Approval {
    Approval {
        signer: signer.clone(),
        operation: *operation,
        nonce,
    }
}

fn proposer() -> Principal {
    Principal::new("GP")
}

fn three_signers() -> (Principal, Principal, Principal) {
    (
        Principal::new("GA"),
        Principal::new("GB"),
        Principal::new("GC"),
    )
}

#[test]
fn test_initialize() {
    let (signer1, signer2, signer3) = three_signers();
    let mut contract = MultiSigContract::new();

    let config = contract
        .initialize(vec![signer1, signer2, signer3], 2)
        .unwrap();

    assert_eq!(config.threshold, 2);
    assert_eq!(config.signers.len(), 3);
    assert_eq!(config.nonce, 0);
}

#[test]
fn test_initialize_invalid_threshold() {
    let mut contract = MultiSigContract::new();
    let res = contract.initialize(vec![Principal::new("GA")], 2);
    assert_eq!(res, Err(MultisigError::InvalidThreshold));
    assert_eq!(contract.get_config(), Err(MultisigError::NotInitialized));
}

#[test]
fn test_initialize_zero_threshold() {
    let (a, b, c) = three_signers();
    let mut contract = MultiSigContract::new();
    assert_eq!(
        contract.initialize(vec![a, b, c], 0),
        Err(MultisigError::InvalidThreshold)
    );
    assert_eq!(
        contract.initialize(Vec::new(), 0),
        Err(MultisigError::InvalidThreshold)
    );
}

#[test]
fn test_initialize_threshold_equal_to_signer_count() {
    let (a, b, c) = three_signers();
    let mut contract = MultiSigContract::new();
    let config = contract.initialize(vec![a, b, c], 3).unwrap();
    assert_eq!(config.threshold, 3);
}

#[test]
fn test_initialize_duplicate_signer() {
    let (a, b, _c) = three_signers();
    let mut contract = MultiSigContract::new();
    assert_eq!(
        contract.initialize(vec![a.clone(), b, a], 2),
        Err(MultisigError::DuplicateSigner)
    );
}

#[test]
fn test_initialize_twice() {
    let (a, b, c) = three_signers();
    let mut contract = MultiSigContract::new();
    contract.initialize(vec![a.clone(), b, c], 2).unwrap();
    assert_eq!(
        contract.initialize(vec![a], 1),
        Err(MultisigError::AlreadyInitialized)
    );
    assert_eq!(contract.get_config().unwrap().signers.len(), 3);
}

#[test]
fn test_propose_transaction() {
    let (signer1, signer2, signer3) = three_signers();
    let mut contract = MultiSigContract::new();
    contract
        .initialize(vec![signer1.clone(), signer2.clone(), signer3], 2)
        .unwrap();

    let operation = digest(1);
    let signatures = vec![sign(&signer1, &operation, 0), sign(&signer2, &operation, 0)];

    let result = contract.propose_transaction(&operation, &signatures, &proposer(), 77).unwrap();
    assert!(result.executed);
    assert_eq!(result.proposed.nonce, 0);
    assert_eq!(result.proposed.threshold, 2);
    assert_eq!(result.proposed.current_signatures, 2);

    let config = contract.get_config().unwrap();
    assert_eq!(config.nonce, 1);
}

#[test]
fn test_propose_transaction_insufficient_signatures() {
    let (signer1, signer2, signer3) = three_signers();
    let mut contract = MultiSigContract::new();
    contract
        .initialize(vec![signer1.clone(), signer2, signer3], 2)
        .unwrap();

    let operation = digest(1);
    let signatures = vec![sign(&signer1, &operation, 0)];

    let result = contract.propose_transaction(&operation, &signatures, &proposer(), 77).unwrap();
    assert!(!result.executed);
    assert_eq!(result.proposed.current_signatures, 1);

    let config = contract.get_config().unwrap();
    assert_eq!(config.nonce, 0);
}

#[test]
fn test_replay_protection() {
    let signer1 = Principal::new("GA");
    let signer2 = Principal::new("GB");
    let mut contract = MultiSigContract::new();
    contract
        .initialize(vec![signer1.clone(), signer2.clone()], 2)
        .unwrap();

    let operation = digest(1);
    let signatures = vec![sign(&signer1, &operation, 0), sign(&signer2, &operation, 0)];

    let result = contract.propose_transaction(&operation, &signatures, &proposer(), 77).unwrap();
    assert!(result.executed);

    let result = contract.propose_transaction(&operation, &signatures, &proposer(), 77).unwrap();
    assert!(!result.executed);
    assert_eq!(result.proposed.nonce, 1);
    assert_eq!(result.proposed.current_signatures, 0);
    assert_eq!(contract.get_config().unwrap().nonce, 1);
}

#[test]
fn test_same_signer_counts_once() {
    let (a, b, c) = three_signers();
    let mut contract = MultiSigContract::new();
    contract.initialize(vec![a.clone(), b, c], 2).unwrap();
    let operation = digest(1);
    let signatures = vec![
        sign(&a, &operation, 0),
        sign(&a, &operation, 0),
        sign(&a, &operation, 0),
    ];
    let result = contract.propose_transaction(&operation, &signatures, &proposer(), 77).unwrap();
    assert!(!result.executed);
    assert_eq!(result.proposed.current_signatures, 1);
}

#[test]
fn test_outsider_does_not_count() {
    let (a, b, c) = three_signers();
    let outsider = Principal::new("GX");
    let mut contract = MultiSigContract::new();
    contract.initialize(vec![a.clone(), b, c], 2).unwrap();
    let operation = digest(1);
    let signatures = vec![sign(&a, &operation, 0), sign(&outsider, &operation, 0)];
    let result = contract.propose_transaction(&operation, &signatures, &proposer(), 77).unwrap();
    assert!(!result.executed);
    assert_eq!(result.proposed.current_signatures, 1);
    assert_eq!(contract.get_config().unwrap().nonce, 0);
}

#[test]
fn test_signature_over_another_operation_does_not_count() {
    let (a, b, c) = three_signers();
    let mut contract = MultiSigContract::new();
    contract.initialize(vec![a.clone(), b.clone(), c], 2).unwrap();
    let operation = digest(1);
    let other = digest(9);
    let signatures = vec![sign(&a, &operation, 0), sign(&b, &other, 0)];
    let result = contract.propose_transaction(&operation, &signatures, &proposer(), 77).unwrap();
    assert!(!result.executed);
    assert_eq!(result.proposed.current_signatures, 1);
}

#[test]
fn test_more_than_threshold_executes() {
    let (a, b, c) = three_signers();
    let mut contract = MultiSigContract::new();
    contract
        .initialize(vec![a.clone(), b.clone(), c.clone()], 2)
        .unwrap();
    let operation = digest(1);
    let signatures = vec![
        sign(&c, &operation, 0),
        sign(&b, &operation, 0),
        sign(&a, &operation, 0),
    ];
    let result = contract.propose_transaction(&operation, &signatures, &proposer(), 77).unwrap();
    assert!(result.executed);
    assert_eq!(result.proposed.current_signatures, 3);
    assert_eq!(contract.get_config().unwrap().nonce, 1);
}

#[test]
fn test_fresh_signatures_execute_after_replay_was_refused() {
    let (a, b, c) = three_signers();
    let mut contract = MultiSigContract::new();
    contract.initialize(vec![a.clone(), b.clone(), c], 2).unwrap();
    let operation = digest(1);
    let stale = vec![sign(&a, &operation, 0), sign(&b, &operation, 0)];
    assert!(contract.propose_transaction(&operation, &stale, &proposer(), 77).unwrap().executed);
    assert!(!contract.propose_transaction(&operation, &stale, &proposer(), 77).unwrap().executed);
    let fresh = vec![sign(&a, &operation, 1), sign(&b, &operation, 1)];
    assert!(contract.propose_transaction(&operation, &fresh, &proposer(), 77).unwrap().executed);
    assert_eq!(contract.get_config().unwrap().nonce, 2);
}

#[test]
fn test_propose_without_configuration() {
    let mut contract = MultiSigContract::new();
    let operation = digest(1);
    assert_eq!(
        contract.propose_transaction(&operation, &Vec::new(), &proposer(), 77),
        Err(MultisigError::NotInitialized)
    );
}

#[test]
fn test_nonce_does_not_wrap() {
    let (a, _b, _c) = three_signers();
    let mut contract = MultiSigContract::new();
    contract.initialize(vec![a.clone()], 1).unwrap();
    if let Some(config) = contract.config.as_mut() {
        config.nonce = u32::MAX;
    }
    let operation = digest(1);
    let signatures = vec![sign(&a, &operation, u32::MAX)];
    assert_eq!(
        contract.propose_transaction(&operation, &signatures, &proposer(), 77),
        Err(MultisigError::NonceExhausted)
    );
    assert_eq!(contract.get_config().unwrap().nonce, u32::MAX);
}

#[test]
fn test_update_config_keeps_nonce() {
    let (a, b, c) = three_signers();
    let mut contract = MultiSigContract::new();
    contract.initialize(vec![a.clone(), b.clone(), c], 2).unwrap();
    let operation = digest(1);
    let signatures = vec![sign(&a, &operation, 0), sign(&b, &operation, 0)];
    assert!(contract.propose_transaction(&operation, &signatures, &proposer(), 77).unwrap().executed);

    let d = Principal::new("GD");
    let update = contract
        .update_config(vec![a.clone(), d.clone()], 1, 900)
        .unwrap();
    let updated = update.config;
    assert_eq!(updated.nonce, 1);
    assert_eq!(updated.threshold, 1);
    assert_eq!(updated.signers, vec![a.clone(), d.clone()]);
    assert_eq!(contract.get_config().unwrap(), updated);
    assert_eq!(
        update.event,
        MultisigConfigUpdatedData {
            old_signers: vec![a.clone(), b.clone(), Principal::new("GC")],
            new_signers: vec![a.clone(), d],
            old_threshold: 2,
            new_threshold: 1,
            updated_at: 900,
        }
    );

    assert_eq!(
        contract.update_config(vec![a.clone()], 2, 901),
        Err(MultisigError::InvalidThreshold)
    );
    assert_eq!(
        contract.update_config(vec![a.clone()], 0, 901),
        Err(MultisigError::InvalidThreshold)
    );
    assert_eq!(
        contract.update_config(vec![a.clone(), a.clone()], 1, 901),
        Err(MultisigError::DuplicateSigner)
    );
    assert_eq!(contract.get_config().unwrap(), updated);
}

#[test]
fn test_update_config_without_configuration() {
    let mut contract = MultiSigContract::new();
    assert_eq!(
        contract.update_config(vec![Principal::new("GA")], 1, 5),
        Err(MultisigError::NotInitialized)
    );
}

#[test]
fn test_counting_helpers() {
    let (a, b, c) = three_signers();
    let op = digest(1);
    let other = digest(2);
    assert!(same_digest(&op, &op));
    assert!(!same_digest(&op, &other));
    let mut last = op;
    last[31] = 7;
    assert!(!same_digest(&op, &last));

    let approvals = vec![sign(&a, &op, 4), sign(&b, &other, 4), sign(&c, &op, 5)];
    assert!(is_endorsed(&approvals, &a, &op, 4));
    assert!(!is_endorsed(&approvals, &b, &op, 4));
    assert!(!is_endorsed(&approvals, &c, &op, 4));
    assert!(is_endorsed(&approvals, &c, &op, 5));
    let signers = vec![a.clone(), b.clone(), c.clone()];
    assert_eq!(count_valid(&signers, &approvals, &op, 4), 1);
    assert_eq!(count_valid(&signers, &approvals, &op, 5), 1);
    assert_eq!(count_valid(&signers, &approvals, &other, 4), 1);
    assert_eq!(count_valid(&signers, &approvals, &other, 5), 0);

    assert!(all_distinct(&signers));
    assert!(all_distinct(&Vec::new()));
    assert!(!all_distinct(&vec![a.clone(), b, c, a]));
}

#[test]
fn test_restored_configuration_is_tested() {
    let (a, b, c) = three_signers();
    let mut contract = MultiSigContract::new();
    assert!(contract.is_well_formed());
    contract.initialize(vec![a.clone(), b, c], 2).unwrap();
    assert!(contract.is_well_formed());
    if let Some(config) = contract.config.as_mut() {
        config.threshold = 4;
    }
    assert!(!contract.is_well_formed());
    if let Some(config) = contract.config.as_mut() {
        config.threshold = 0;
    }
    assert!(!contract.is_well_formed());
    if let Some(config) = contract.config.as_mut() {
        config.threshold = 1;
        config.signers.push(a);
    }
    assert!(!contract.is_well_formed());
}

#[test]
fn scenario_two_of_three_then_replay() {
    let (a, b, c) = three_signers();
    let mut contract = MultiSigContract::new();
    contract
        .initialize(vec![a.clone(), b.clone(), c], 2)
        .unwrap();
    assert_eq!(contract.get_config().unwrap().nonce, 0);

    let operation = digest(1);
    let signatures = vec![sign(&a, &operation, 0), sign(&b, &operation, 0)];
    let first = contract.propose_transaction(&operation, &signatures, &proposer(), 77).unwrap();
    assert!(first.executed);
    assert_eq!(first.proposed.nonce, 0);
    assert_eq!(contract.get_config().unwrap().nonce, 1);

    let again = contract.propose_transaction(&operation, &signatures, &proposer(), 77).unwrap();
    assert!(!again.executed);
    assert_eq!(again.proposed.nonce, 1);
    assert_eq!(again.proposed.current_signatures, 0);
    assert_eq!(contract.get_config().unwrap().nonce, 1);
}

#[test]
fn test_every_proposal_is_recorded() {
    let (a, b, c) = three_signers();
    let mut contract = MultiSigContract::new();
    contract
        .initialize(vec![a.clone(), b.clone(), c.clone()], 2)
        .unwrap();
    let operation = digest(1);
    assert_eq!(MULTISIG_TOPIC, "MULTISIG");

    let weak = vec![sign(&a, &operation, 0)];
    let out = contract
        .propose_transaction(&operation, &weak, &proposer(), 500)
        .unwrap();
    assert!(!out.executed);
    assert_eq!(
        out.proposed,
        MultisigTransactionProposedData {
            nonce: 0,
            proposer: proposer(),
            operation_hash: operation,
            threshold: 2,
            current_signatures: 1,
            proposed_at: 500,
        }
    );
    assert_eq!(out.execution, None);

    let strong = vec![sign(&a, &operation, 0), sign(&c, &operation, 0)];
    let out = contract
        .propose_transaction(&operation, &strong, &proposer(), 600)
        .unwrap();
    assert!(out.executed);
    assert_eq!(
        out.proposed,
        MultisigTransactionProposedData {
            nonce: 0,
            proposer: proposer(),
            operation_hash: operation,
            threshold: 2,
            current_signatures: 2,
            proposed_at: 600,
        }
    );
    assert_eq!(
        out.execution,
        Some(MultisigTransactionExecutedData {
            nonce: 0,
            signers: vec![a, b, c],
            operation_hash: operation,
            executed_at: 600,
        })
    );
}
