use pallet_runtime::balances;
use pallet_runtime::proof_of_existence;
use pallet_runtime::support::{Block, Extrinsic, Header};
use pallet_runtime::{Runtime, RuntimeCall};

fn transfer(caller: &str, to: &str, amount: u128) -> Extrinsic {
    Extrinsic {
        caller: caller.to_string(),
        call: RuntimeCall::Balances(balances::Call::Transfer {
            to: to.to_string(),
            amount,
        }),
    }
}

#[test]
fn execute_block_applies_transfers_in_order() {
    let alice = "alice".to_string();
    let bob = "bob".to_string();
    let charlie = "charlie".to_string();
    let mut runtime = Runtime::new();

    runtime.balances.set_balance(&alice, 100);
    runtime.balances.set_balance(&bob, 0);

    let block = Block {
        header: Header { block_number: 1 },
        extrinsics: vec![
            transfer("alice", "bob", 40),
            transfer("alice", "charlie", 20),
            transfer("alice", "charlie", 20),
        ],
    };

    assert_eq!(runtime.execute_block(block), Ok(()));
    assert_eq!(runtime.balances.balance(&alice), 20);
    assert_eq!(runtime.balances.balance(&bob), 40);
    assert_eq!(runtime.balances.balance(&charlie), 40);
    assert_eq!(runtime.system.get_nonce(&alice), 3);
    assert_eq!(runtime.system.block_number(), 1);
}

#[test]
fn failed_extrinsic_does_not_abort_block() {
    let alice = "alice".to_string();
    let bob = "bob".to_string();
    let mut runtime = Runtime::new();

    runtime.balances.set_balance(&alice, 100);

    let block = Block {
        header: Header { block_number: 1 },
        extrinsics: vec![
            transfer("alice", "bob", 200),
            transfer("alice", "bob", 10),
        ],
    };

    assert_eq!(runtime.execute_block(block), Ok(()));
    assert_eq!(runtime.balances.balance(&alice), 90);
    assert_eq!(runtime.balances.balance(&bob), 10);
    assert_eq!(runtime.system.get_nonce(&alice), 2);
}

#[test]
fn block_number_mismatch_applies_nothing() {
    let alice = "alice".to_string();
    let bob = "bob".to_string();
    let mut runtime = Runtime::new();

    runtime.balances.set_balance(&alice, 100);

    let block = Block {
        header: Header { block_number: 5 },
        extrinsics: vec![transfer("alice", "bob", 40)],
    };

    let result = runtime.execute_block(block);
    assert_eq!(result.map_err(|e| e.as_str()), Err("Block number mismatch"));
    assert_eq!(runtime.balances.balance(&alice), 100);
    assert_eq!(runtime.balances.balance(&bob), 0);
    assert_eq!(runtime.system.block_number(), 1);
}

#[test]
fn claim_lifecycle_through_dispatch() {
    let alice = "alice".to_string();
    let doc = "doc".to_string();
    let mut runtime = Runtime::new();

    let create = runtime.dispatch(
        alice.clone(),
        RuntimeCall::ProofOfExistence(proof_of_existence::Call::CreateClaim {
            claim: doc.clone(),
        }),
    );
    assert_eq!(create, Ok(()));
    assert_eq!(runtime.proof_of_existence.get_claim(&doc), Some(&alice));

    let revoke = runtime.dispatch(
        alice.clone(),
        RuntimeCall::ProofOfExistence(proof_of_existence::Call::RevokeClaim {
            claim: doc.clone(),
        }),
    );
    assert_eq!(revoke, Ok(()));
    assert_eq!(runtime.proof_of_existence.get_claim(&doc), None);
}

#[test]
fn dispatch_routes_balances_call() {
    let alice = "alice".to_string();
    let bob = "bob".to_string();
    let mut runtime = Runtime::new();

    runtime.balances.set_balance(&alice, 100);

    let result = runtime.dispatch(
        alice.clone(),
        RuntimeCall::Balances(balances::Call::Transfer {
            to: bob.clone(),
            amount: 30,
        }),
    );
    assert_eq!(result, Ok(()));
    assert_eq!(runtime.balances.balance(&alice), 70);
    assert_eq!(runtime.balances.balance(&bob), 30);
}

#[test]
fn consecutive_blocks_number_in_order() {
    let alice = "alice".to_string();
    let bob = "bob".to_string();
    let doc = "Generic Claim".to_string();
    let mut runtime = Runtime::new();

    runtime.balances.set_balance(&alice, 100);

    let block_1 = Block {
        header: Header { block_number: 1 },
        extrinsics: vec![transfer("alice", "bob", 40)],
    };
    let block_2 = Block {
        header: Header { block_number: 2 },
        extrinsics: vec![Extrinsic {
            caller: alice.clone(),
            call: RuntimeCall::ProofOfExistence(proof_of_existence::Call::CreateClaim {
                claim: doc.clone(),
            }),
        }],
    };

    assert_eq!(runtime.execute_block(block_1), Ok(()));
    assert_eq!(runtime.execute_block(block_2), Ok(()));
    assert_eq!(runtime.system.block_number(), 2);
    assert_eq!(runtime.balances.balance(&alice), 60);
    assert_eq!(runtime.balances.balance(&bob), 40);
    assert_eq!(runtime.proof_of_existence.get_claim(&doc), Some(&alice));
    assert_eq!(runtime.system.get_nonce(&alice), 2);
}

#[test]
fn block_nonces_ok_accepts_fresh_runtime() {
    let runtime = Runtime::new();

    let block = Block {
        header: Header { block_number: 1 },
        extrinsics: vec![
            transfer("alice", "bob", 1),
            transfer("alice", "bob", 2),
            transfer("bob", "alice", 3),
        ],
    };

    assert!(runtime.block_nonces_ok(&block));
}

#[test]
fn claims_block_executes() {
    let alice = "alice".to_string();
    let doc = "my_document".to_string();
    let mut runtime = Runtime::new();

    let block = Block {
        header: Header { block_number: 1 },
        extrinsics: vec![Extrinsic {
            caller: alice.clone(),
            call: RuntimeCall::ProofOfExistence(proof_of_existence::Call::CreateClaim {
                claim: doc.clone(),
            }),
        }],
    };

    assert_eq!(runtime.execute_block(block), Ok(()));
    assert_eq!(runtime.proof_of_existence.get_claim(&doc), Some(&alice));
    assert_eq!(runtime.system.get_nonce(&alice), 1);
}
