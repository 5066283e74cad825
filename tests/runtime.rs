use ledger_runtime::runtime::{Block, Extrinsic, Header, Runtime, RuntimeCall};
use ledger_runtime::support::{Dispatch, DispatchError};
use ledger_runtime::{balances, pow_pos, proof_of_existence};

fn transfer(from: &str, to: &str, amount: u128) -> Extrinsic {
    Extrinsic {
        caller: from.to_string(),
        call: RuntimeCall::Balances(balances::Call::Transfer { to: to.to_string(), amount }),
    }
}

fn block(number: u32, extrinsics: Vec<Extrinsic>) -> Block {
    Block { header: Header { block_number: number }, extrinsics }
}

#[test]
fn wrong_block_number_changes_nothing() {
    let mut rt = Runtime::new();
    rt.balances.set_balance(&"alice".to_string(), 100);
    let r = rt.execute_block(block(2, vec![transfer("alice", "bob", 30)]));
    assert_eq!(r, Err(DispatchError::BlockNumberMismatch));
    assert_eq!(rt.system.block_number(), 0);
    assert_eq!(rt.system.nonce(&"alice".to_string()), 0);
    assert_eq!(rt.balances.balance(&"alice".to_string()), 100);
    let r = rt.execute_block(block(0, vec![]));
    assert_eq!(r, Err(DispatchError::BlockNumberMismatch));
    assert_eq!(rt.system.block_number(), 0);
}

#[test]
fn blocks_run_in_sequence() {
    let mut rt = Runtime::new();
    rt.balances.set_balance(&"alice".to_string(), 100);
    let r = rt.execute_block(block(1, vec![transfer("alice", "bob", 30), transfer("alice", "charlie", 20)]));
    assert_eq!(r, Ok(vec![]));
    assert_eq!(rt.system.block_number(), 1);
    assert_eq!(rt.system.nonce(&"alice".to_string()), 2);
    assert_eq!(rt.balances.balance(&"alice".to_string()), 50);
    assert_eq!(rt.balances.balance(&"bob".to_string()), 30);
    assert_eq!(rt.balances.balance(&"charlie".to_string()), 20);
    assert_eq!(rt.execute_block(block(1, vec![])), Err(DispatchError::BlockNumberMismatch));
    assert_eq!(rt.execute_block(block(2, vec![])), Ok(vec![]));
    assert_eq!(rt.system.block_number(), 2);
}

#[test]
fn failed_extrinsics_do_not_stop_the_block() {
    let mut rt = Runtime::new();
    rt.balances.set_balance(&"alice".to_string(), 10);
    let r = rt.execute_block(block(
        1,
        vec![transfer("alice", "bob", 30), transfer("alice", "bob", 4), transfer("carol", "bob", 1)],
    ));
    assert_eq!(
        r,
        Ok(vec![(0, DispatchError::InsufficientFunds), (2, DispatchError::InsufficientFunds)])
    );
    assert_eq!(rt.balances.balance(&"alice".to_string()), 6);
    assert_eq!(rt.balances.balance(&"bob".to_string()), 4);
    assert_eq!(rt.system.nonce(&"alice".to_string()), 2);
    assert_eq!(rt.system.nonce(&"carol".to_string()), 1);
}

#[test]
fn claims_and_mining_through_blocks() {
    let mut rt = Runtime::new();
    let alice = "alice".to_string();
    let bob = "bob".to_string();
    let claim = |who: &str| Extrinsic {
        caller: who.to_string(),
        call: RuntimeCall::ProofOfExistence(proof_of_existence::Call::CreateClaim {
            claim: "Hello, world!".to_string(),
        }),
    };
    let r = rt.execute_block(block(1, vec![claim("alice"), claim("bob")]));
    assert_eq!(r, Ok(vec![(1, DispatchError::ClaimAlreadyExists)]));
    assert_eq!(rt.proof_of_existence.get_claim(&"Hello, world!".to_string()), Some(&alice));

    assert_eq!(rt.pow_pos.stake(alice.clone(), 100), Ok(()));
    let r = rt.execute_block(block(
        2,
        vec![
            Extrinsic {
                caller: alice.clone(),
                call: RuntimeCall::PowPos(pow_pos::Call::MineBlock { block_number: 3, proof_of_work: 5000 }),
            },
            Extrinsic {
                caller: bob.clone(),
                call: RuntimeCall::PowPos(pow_pos::Call::Stake { amount: 50 }),
            },
            Extrinsic {
                caller: bob.clone(),
                call: RuntimeCall::PowPos(pow_pos::Call::MineBlock { block_number: 3, proof_of_work: 10 }),
            },
        ],
    ));
    assert_eq!(r, Ok(vec![(2, DispatchError::AlreadyMined)]));
    assert_eq!(rt.pow_pos.miner_of(3), Some(&alice));
    assert_eq!(rt.pow_pos.stake_of(&bob), 50);
}

#[test]
fn revoke_claims() {
    let mut p = proof_of_existence::Pallet::new();
    let doc = "doc".to_string();
    assert_eq!(p.revoke_claim("alice".to_string(), doc.clone()), Err(DispatchError::ClaimNotFound));
    assert_eq!(p.create_claim("alice".to_string(), doc.clone()), Ok(()));
    assert_eq!(p.revoke_claim("bob".to_string(), doc.clone()), Err(DispatchError::NotClaimOwner));
    assert_eq!(p.get_claim(&doc), Some(&"alice".to_string()));
    assert_eq!(p.revoke_claim("alice".to_string(), doc.clone()), Ok(()));
    assert_eq!(p.get_claim(&doc), None);
}

#[test]
fn runtime_dispatch_routes_calls() {
    let mut rt = Runtime::new();
    rt.balances.set_balance(&"alice".to_string(), 5);
    let r = rt.dispatch(
        "alice".to_string(),
        RuntimeCall::Balances(balances::Call::Transfer { to: "bob".to_string(), amount: 5 }),
    );
    assert_eq!(r, Ok(()));
    assert_eq!(rt.balances.balance(&"bob".to_string()), 5);
    let r = rt.dispatch("bob".to_string(), RuntimeCall::PowPos(pow_pos::Call::Stake { amount: 0 }));
    assert_eq!(r, Err(DispatchError::InvalidStake));
    assert_eq!(rt.system.nonce(&"alice".to_string()), 0);
}
