use pallet_runtime::balances;
use pallet_runtime::proof_of_existence;
use pallet_runtime::runtime::{Block, Extrinsic, Header, Runtime, RuntimeCall};
use pallet_runtime::support::{Dispatch, DispatchError};

fn transfer(caller: &str, to: &str, amount: u128) -> Extrinsic {
    Extrinsic {
        caller: caller.to_string(),
        call: RuntimeCall::Balances(balances::Call::Transfer { to: to.to_string(), amount }),
    }
}

fn create_claim(caller: &str, claim: &str) -> Extrinsic {
    Extrinsic {
        caller: caller.to_string(),
        call: RuntimeCall::ProofOfExistence(proof_of_existence::Call::CreateClaim {
            claim: claim.to_string(),
        }),
    }
}

fn revoke_claim(caller: &str, claim: &str) -> Extrinsic {
    Extrinsic {
        caller: caller.to_string(),
        call: RuntimeCall::ProofOfExistence(proof_of_existence::Call::RevokeClaim {
            claim: claim.to_string(),
        }),
    }
}

fn block(number: u32, extrinsics: Vec<Extrinsic>) -> Block {
    Block { header: Header { block_number: number }, extrinsics }
}

#[test]
fn new_runtime_is_empty() {
    let r = Runtime::new();
    assert_eq!(r.sys.block_number(), 0);
    assert_eq!(r.sys.nonce(&"alice".to_string()), 0);
    assert_eq!(r.bal.balance(&"alice".to_string()), 0);
    assert_eq!(r.poe.claim_count(), 0);
}

#[test]
fn two_transfers_in_one_block() {
    let mut r = Runtime::new();
    r.bal.set_balance(&"alice".to_string(), 100);
    let b = block(1, vec![transfer("alice", "bob", 69), transfer("alice", "charlie", 31)]);
    assert_eq!(r.execute_block(b), Ok(vec![Ok(()), Ok(())]));
    assert_eq!(r.bal.balance(&"alice".to_string()), 0);
    assert_eq!(r.bal.balance(&"bob".to_string()), 69);
    assert_eq!(r.bal.balance(&"charlie".to_string()), 31);
    assert_eq!(r.sys.block_number(), 1);
    assert_eq!(r.sys.nonce(&"alice".to_string()), 2);
}

#[test]
fn failed_transfer_does_not_fail_block() {
    let mut r = Runtime::new();
    let b = block(1, vec![transfer("alice", "bob", 1000)]);
    assert_eq!(r.execute_block(b), Ok(vec![Err(DispatchError::InsufficientFunds)]));
    assert_eq!(r.sys.block_number(), 1);
    assert_eq!(r.sys.nonce(&"alice".to_string()), 1);
    assert_eq!(r.bal.balance(&"alice".to_string()), 0);
    assert_eq!(r.bal.balance(&"bob".to_string()), 0);
}

#[test]
fn claim_kept_against_other_account() {
    let mut r = Runtime::new();
    assert_eq!(r.execute_block(block(1, vec![create_claim("alice", "hi")])), Ok(vec![Ok(())]));
    assert_eq!(
        r.execute_block(block(2, vec![revoke_claim("bob", "hi")])),
        Ok(vec![Err(DispatchError::ClaimOwnerMismatch)])
    );
    assert_eq!(r.poe.get_claim(&"hi".to_string()), Some(&"alice".to_string()));
    assert_eq!(r.execute_block(block(3, vec![revoke_claim("alice", "hi")])), Ok(vec![Ok(())]));
    assert!(r.poe.get_claim(&"hi".to_string()).is_none());
}

#[test]
fn block_number_advances_by_one() {
    let mut r = Runtime::new();
    assert_eq!(r.execute_block(block(1, vec![])), Ok(vec![]));
    assert_eq!(r.sys.block_number(), 1);
    let b = block(2, vec![transfer("a", "b", 1), create_claim("a", "x"), revoke_claim("b", "y")]);
    assert_eq!(
        r.execute_block(b),
        Ok(vec![
            Err(DispatchError::InsufficientFunds),
            Ok(()),
            Err(DispatchError::ClaimNotFound)
        ])
    );
    assert_eq!(r.sys.block_number(), 2);
}

#[test]
fn wrong_block_number_is_rejected() {
    let mut r = Runtime::new();
    r.bal.set_balance(&"alice".to_string(), 10);
    let b = block(5, vec![transfer("alice", "bob", 3)]);
    assert_eq!(r.execute_block(b), Err(DispatchError::BlockNumberMismatch));
    assert_eq!(r.sys.block_number(), 1);
    assert_eq!(r.sys.nonce(&"alice".to_string()), 0);
    assert_eq!(r.bal.balance(&"alice".to_string()), 10);
    assert_eq!(r.bal.balance(&"bob".to_string()), 0);
    assert_eq!(
        DispatchError::BlockNumberMismatch.message(),
        "incoming block number doesn't match with system block number"
    );
    // The counter already moved on, so the next block must carry 2.
    assert_eq!(r.execute_block(block(1, vec![])), Err(DispatchError::BlockNumberMismatch));
    assert_eq!(r.execute_block(block(3, vec![])), Ok(vec![]));
}

#[test]
fn nonce_counts_calls_across_blocks() {
    let mut r = Runtime::new();
    r.bal.set_balance(&"alice".to_string(), 5);
    let b1 = block(1, vec![transfer("alice", "bob", 1), transfer("bob", "alice", 1)]);
    let b2 = block(2, vec![create_claim("alice", "c"), transfer("alice", "bob", 100)]);
    let b3 = block(3, vec![revoke_claim("alice", "c")]);
    assert!(r.execute_block(b1).is_ok());
    assert!(r.execute_block(b2).is_ok());
    assert!(r.execute_block(b3).is_ok());
    assert_eq!(r.sys.nonce(&"alice".to_string()), 4);
    assert_eq!(r.sys.nonce(&"bob".to_string()), 1);
    assert_eq!(r.sys.nonce(&"charlie".to_string()), 0);
}

#[test]
fn later_calls_see_earlier_effects() {
    let mut r = Runtime::new();
    r.bal.set_balance(&"alice".to_string(), 10);
    let b = block(1, vec![transfer("alice", "bob", 10), transfer("bob", "carol", 7)]);
    assert_eq!(r.execute_block(b), Ok(vec![Ok(()), Ok(())]));
    assert_eq!(r.bal.balance(&"bob".to_string()), 3);
    assert_eq!(r.bal.balance(&"carol".to_string()), 7);
}

#[test]
fn runtime_dispatch_routes_to_modules() {
    let mut r = Runtime::new();
    let call = RuntimeCall::ProofOfExistence(proof_of_existence::Call::CreateClaim {
        claim: "k".to_string(),
    });
    assert_eq!(r.dispatch("alice".to_string(), call), Ok(()));
    assert_eq!(r.poe.get_claim(&"k".to_string()), Some(&"alice".to_string()));
    let call = RuntimeCall::Balances(balances::Call::Transfer { to: "bob".to_string(), amount: 1 });
    assert_eq!(r.dispatch("alice".to_string(), call), Err(DispatchError::InsufficientFunds));
    assert_eq!(r.sys.nonce(&"alice".to_string()), 0);
}
