use ledger_runtime::balances;
use ledger_runtime::proof_of_existence;
use ledger_runtime::runtime::{Runtime, RuntimeCall};
use ledger_runtime::support::{Block, BlockError, DispatchError, Extrinsic, Header};

fn transfer_call(to: &str, amount: u128) -> RuntimeCall {
    RuntimeCall::Balances(balances::Call::Transfer { to: to.to_string(), amount })
}

fn create_claim_call(claim: &str) -> RuntimeCall {
    RuntimeCall::ProofOfExistence(proof_of_existence::Call::CreateClaim {
        claim: claim.to_string(),
    })
}

fn revoke_claim_call(claim: &str) -> RuntimeCall {
    RuntimeCall::ProofOfExistence(proof_of_existence::Call::RevokeClaim {
        claim: claim.to_string(),
    })
}

#[test]
fn end_to_end_transfers() {
    let alice: String = "alice".to_string();
    let bob: String = "bob".to_string();
    let charlie: String = "charlie".to_string();

    let mut runtime = Runtime::new();
    runtime.balances.set_balance(alice.clone(), 100);

    let block_1 = Block {
        header: Header { block_number: 1 },
        extrinsics: vec![
            Extrinsic { caller: alice.clone(), call: transfer_call("bob", 30) },
            Extrinsic { caller: alice.clone(), call: transfer_call("charlie", 20) },
        ],
    };

    let outcomes = runtime.execute_block(block_1).expect("block should execute");
    assert_eq!(outcomes, vec![Ok(()), Ok(())]);

    assert_eq!(runtime.balances.balance(&alice), 50);
    assert_eq!(runtime.balances.balance(&bob), 30);
    assert_eq!(runtime.balances.balance(&charlie), 20);
    assert_eq!(runtime.system.block_number(), 1);
    assert_eq!(runtime.system.get_nonce(&alice), 2);
}

#[test]
fn end_to_end_claims() {
    let alice: String = "alice".to_string();

    let mut runtime = Runtime::new();
    runtime.balances.set_balance(alice.clone(), 100);

    let block_1 = Block {
        header: Header { block_number: 1 },
        extrinsics: vec![
            Extrinsic { caller: alice.clone(), call: transfer_call("bob", 30) },
            Extrinsic { caller: alice.clone(), call: transfer_call("charlie", 20) },
        ],
    };
    runtime.execute_block(block_1).expect("block should execute");

    let block_2 = Block {
        header: Header { block_number: 2 },
        extrinsics: vec![
            Extrinsic { caller: alice.clone(), call: create_claim_call("doc1") },
            Extrinsic { caller: alice.clone(), call: create_claim_call("doc2") },
        ],
    };
    let outcomes = runtime.execute_block(block_2).expect("block should execute");
    assert_eq!(outcomes, vec![Ok(()), Ok(())]);

    assert_eq!(runtime.proof_of_existence.get_claim(&"doc1".to_string()), Some(&alice));
    assert_eq!(runtime.proof_of_existence.get_claim(&"doc2".to_string()), Some(&alice));
    assert_eq!(runtime.system.block_number(), 2);
    assert_eq!(runtime.system.get_nonce(&alice), 4);
}

#[test]
fn empty_block_advances_block_number() {
    let mut runtime = Runtime::new();

    let block_1 = Block { header: Header { block_number: 1 }, extrinsics: vec![] };
    let outcomes = runtime.execute_block(block_1).expect("block should execute");
    assert_eq!(outcomes, vec![]);
    assert_eq!(runtime.system.block_number(), 1);

    let block_2 = Block { header: Header { block_number: 2 }, extrinsics: vec![] };
    runtime.execute_block(block_2).expect("block should execute");
    assert_eq!(runtime.system.block_number(), 2);
}

#[test]
fn mismatched_header_rejects_block() {
    let alice: String = "alice".to_string();

    let mut runtime = Runtime::new();
    runtime.balances.set_balance(alice.clone(), 100);

    let block = Block {
        header: Header { block_number: 5 },
        extrinsics: vec![Extrinsic { caller: alice.clone(), call: transfer_call("bob", 30) }],
    };
    let result = runtime.execute_block(block);
    assert_eq!(result, Err(BlockError::BlockNumberMismatch));

    // The block number still advanced once, but no extrinsic ran.
    assert_eq!(runtime.system.block_number(), 1);
    assert_eq!(runtime.system.get_nonce(&alice), 0);
    assert_eq!(runtime.balances.balance(&alice), 100);
    assert_eq!(runtime.balances.balance(&"bob".to_string()), 0);
}

#[test]
fn nonce_counts_failed_calls() {
    let alice: String = "alice".to_string();

    let mut runtime = Runtime::new();

    let block = Block {
        header: Header { block_number: 1 },
        extrinsics: vec![Extrinsic { caller: alice.clone(), call: transfer_call("bob", 10) }],
    };
    let outcomes = runtime.execute_block(block).expect("block should execute");
    assert_eq!(outcomes, vec![Err(DispatchError::InsufficientBalance)]);

    assert_eq!(runtime.system.get_nonce(&alice), 1);
    assert_eq!(runtime.balances.balance(&alice), 0);
    assert_eq!(runtime.balances.balance(&"bob".to_string()), 0);
}

#[test]
fn failures_stay_local_to_their_extrinsic() {
    let alice: String = "alice".to_string();
    let bob: String = "bob".to_string();

    let mut runtime = Runtime::new();
    runtime.balances.set_balance(alice.clone(), 10);

    let block = Block {
        header: Header { block_number: 1 },
        extrinsics: vec![
            Extrinsic { caller: alice.clone(), call: create_claim_call("doc") },
            Extrinsic { caller: bob.clone(), call: create_claim_call("doc") },
            Extrinsic { caller: bob.clone(), call: revoke_claim_call("doc") },
            Extrinsic { caller: alice.clone(), call: transfer_call("bob", 7) },
        ],
    };
    let outcomes = runtime.execute_block(block).expect("block should execute");
    assert_eq!(
        outcomes,
        vec![
            Ok(()),
            Err(DispatchError::ClaimAlreadyExists),
            Err(DispatchError::NotClaimOwner),
            Ok(()),
        ]
    );

    // The failures in the middle neither stopped the block nor rolled
    // anything back: the claim stands, the last transfer went through,
    // and every extrinsic counted against its caller's nonce.
    assert_eq!(runtime.proof_of_existence.get_claim(&"doc".to_string()), Some(&alice));
    assert_eq!(runtime.balances.balance(&alice), 3);
    assert_eq!(runtime.balances.balance(&bob), 7);
    assert_eq!(runtime.system.get_nonce(&alice), 2);
    assert_eq!(runtime.system.get_nonce(&bob), 2);
}
