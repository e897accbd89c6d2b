use std::collections::HashMap;

use byte_battle::auth::get_nonce;
use byte_battle::auth::set_nonce;
use byte_battle::auth::verify_and_consume_nonce;
use byte_battle::auth::AuthProof;
use byte_battle::auth::Error;
use byte_battle::auth::Message;
use byte_battle::auth::BATTLE_LABEL;
use byte_battle::get_token;
use byte_battle::identity::bytes_dup;
use byte_battle::identity::Identity;
use byte_battle::session::BattleSession;
use byte_battle::session::Phase;
use byte_battle::session::TransferAction;
use byte_battle::ByteBattle;
use byte_battle::ByteBattleTraits;
use byte_battle::CallContext;
use byte_battle::ContractState;

fn ed_key(fill: u8) -> Vec<u8> {
    vec![fill; 32]
}

fn key_with_second_byte(fill: u8, b1: u8) -> Vec<u8> {
    let mut k = vec![fill; 32];
    k[1] = b1;
    k
}

fn ed_id(key: &Vec<u8>) -> Identity {
    Identity::Ed25519(bytes_dup(key))
}

fn battle_sig(key: &Vec<u8>, nonce: u64, counterpart: &Identity, amount: u128) -> AuthProof {
    AuthProof::Ed25519 {
        public_key: bytes_dup(key),
        payload: Message {
            label: BATTLE_LABEL,
            signer: ed_id(key),
            nonce,
            counterpart: counterpart.duplicate(),
            amount,
        },
    }
}

fn call_ctx(timestamp: u64) -> CallContext {
    CallContext {
        invoker: Identity::Ed25519(ed_key(0)),
        contract_id: vec![0xCC; 32],
        timestamp,
    }
}

fn balance(balances: &HashMap<Vec<u8>, u128>, id: &Identity) -> u128 {
    *balances.get(&id.serialized_bytes()).unwrap_or(&0)
}

fn mint(balances: &mut HashMap<Vec<u8>, u128>, id: &Identity, amount: u128) {
    let key = id.serialized_bytes();
    let old = *balances.get(&key).unwrap_or(&0);
    balances.insert(key, old + amount);
}

/// Performs one transfer against the toy asset ledger; rejects it when the
/// source balance does not cover the amount.
fn perform(balances: &mut HashMap<Vec<u8>, u128>, action: &TransferAction) -> bool {
    let from = action.from.serialized_bytes();
    let to = action.to.serialized_bytes();
    let have = *balances.get(&from).unwrap_or(&0);
    if have < action.amount {
        return false;
    }
    balances.insert(from, have - action.amount);
    let to_have = *balances.get(&to).unwrap_or(&0);
    balances.insert(to, to_have + action.amount);
    true
}

/// Drives a settlement session to completion against the toy asset ledger.
fn settle(sess: &mut BattleSession, balances: &mut HashMap<Vec<u8>, u128>) -> Result<(), Error> {
    while let Some(action) = sess.next_action() {
        let accepted = perform(balances, &action);
        sess.record_result(accepted)?;
    }
    Ok(())
}

#[test]
fn test_initialize() {
    let mut state = ContractState::new();
    let token_contract_address = vec![0xA1; 32];
    ByteBattle::initialize(&mut state, bytes_dup(&token_contract_address)).unwrap();
    assert_eq!(ByteBattle::token(&state), Ok(token_contract_address));
}

#[test]
#[should_panic(expected = "Error: Already initialized")]
fn test_initialize_already_initialized_expect_panic() {
    let mut state = ContractState::new();
    let token_contract_address = vec![0xA1; 32];
    ByteBattle::initialize(&mut state, bytes_dup(&token_contract_address)).unwrap();
    if ByteBattle::initialize(&mut state, bytes_dup(&token_contract_address)).is_err() {
        panic!("Error: Already initialized");
    }
}

#[test]
fn test_initialize_first_value_kept() {
    let mut state = ContractState::new();
    ByteBattle::initialize(&mut state, vec![0xA1; 32]).unwrap();
    let second = ByteBattle::initialize(&mut state, vec![0xB2; 32]);
    assert_eq!(second, Err(Error::AlreadyInitialized));
    assert_eq!(get_token(&state), Ok(vec![0xA1; 32]));
}

#[test]
fn test_token_uninitialized() {
    let state = ContractState::new();
    assert_eq!(ByteBattle::token(&state), Err(Error::Uninitialized));
    assert_eq!(get_token(&state), Err(Error::Uninitialized));
}

#[test]
fn test_battle() {
    let mut state = ContractState::new();
    let mut balances: HashMap<Vec<u8>, u128> = HashMap::new();
    ByteBattle::initialize(&mut state, vec![0xA1; 32]).unwrap();

    let key1 = ed_key(3);
    let key2 = ed_key(5);
    let player1_id = ed_id(&key1);
    let player2_id = ed_id(&key2);
    let bet_amount: u128 = 100;
    mint(&mut balances, &player1_id, bet_amount);
    mint(&mut balances, &player2_id, bet_amount);

    let ctx = call_ctx(1);
    let player1_nonce = ByteBattle::nonce(&state, &player1_id);
    let player2_nonce = ByteBattle::nonce(&state, &player2_id);
    let player1_battle_sig = battle_sig(&key1, player1_nonce, &player2_id, bet_amount);
    let player2_battle_sig = battle_sig(&key2, player2_nonce, &player1_id, bet_amount);

    let mut sess =
        ByteBattle::battle(&state, &ctx, &player1_battle_sig, &player2_battle_sig, bet_amount)
            .unwrap();
    settle(&mut sess, &mut balances).unwrap();
    let (player1_key, player2_key, player1_byte_to_compare, player2_byte_to_compare) =
        sess.outcome();
    sess.commit(&mut state.nonces);

    // Both players are raw-key identities, so the compared byte is just the
    // ledger time modulo 32.
    assert_eq!(player1_byte_to_compare, (1u64 % 32) as u32);
    assert_eq!(player2_byte_to_compare, (1u64 % 32) as u32);
    if player1_key[player1_byte_to_compare as usize] > player2_key[player2_byte_to_compare as usize]
    {
        assert_eq!(balance(&balances, &player1_id), bet_amount * 2);
    } else {
        assert_eq!(balance(&balances, &player2_id), bet_amount * 2);
    }
}

#[test]
#[should_panic]
fn test_battle_different_bet_amount_expect_panic() {
    let mut state = ContractState::new();
    ByteBattle::initialize(&mut state, vec![0xA1; 32]).unwrap();
    let key1 = ed_key(3);
    let key2 = ed_key(5);
    let player1_id = ed_id(&key1);
    let player2_id = ed_id(&key2);
    let bet_amount: u128 = 100;
    let ctx = call_ctx(1);
    // Player 1 agreed to a bet amount of 90.
    let player1_battle_sig = battle_sig(&key1, 0, &player2_id, bet_amount - 10);
    let player2_battle_sig = battle_sig(&key2, 0, &player1_id, bet_amount);
    ByteBattle::battle(&state, &ctx, &player1_battle_sig, &player2_battle_sig, bet_amount)
        .unwrap();
}

#[test]
#[should_panic]
fn test_battle_different_user_expect_panic() {
    let mut state = ContractState::new();
    ByteBattle::initialize(&mut state, vec![0xA1; 32]).unwrap();
    let key1 = ed_key(3);
    let key2 = ed_key(5);
    let key3 = ed_key(7);
    let player1_id = ed_id(&key1);
    let player3_id = ed_id(&key3);
    let bet_amount: u128 = 100;
    let ctx = call_ctx(1);
    // Player 1 agreed to battle player 3.
    let player1_battle_sig = battle_sig(&key1, 0, &player3_id, bet_amount);
    let player2_battle_sig = battle_sig(&key2, 0, &player1_id, bet_amount);
    ByteBattle::battle(&state, &ctx, &player1_battle_sig, &player2_battle_sig, bet_amount)
        .unwrap();
}

#[test]
#[should_panic]
fn test_battle_reuse_sigs_expect_panic() {
    let mut state = ContractState::new();
    let mut balances: HashMap<Vec<u8>, u128> = HashMap::new();
    ByteBattle::initialize(&mut state, vec![0xA1; 32]).unwrap();
    let key1 = ed_key(3);
    let key2 = ed_key(5);
    let player1_id = ed_id(&key1);
    let player2_id = ed_id(&key2);
    let bet_amount: u128 = 100;
    mint(&mut balances, &player1_id, 2 * bet_amount);
    mint(&mut balances, &player2_id, 2 * bet_amount);
    let ctx = call_ctx(1);
    let player1_battle_sig = battle_sig(&key1, 0, &player2_id, bet_amount);
    let player2_battle_sig = battle_sig(&key2, 0, &player1_id, bet_amount);

    let mut sess =
        ByteBattle::battle(&state, &ctx, &player1_battle_sig, &player2_battle_sig, bet_amount)
            .unwrap();
    settle(&mut sess, &mut balances).unwrap();
    sess.commit(&mut state.nonces);

    // Both embedded nonces are now stale, so the same two proofs must fail.
    ByteBattle::battle(&state, &ctx, &player1_battle_sig, &player2_battle_sig, bet_amount)
        .unwrap();
}

#[test]
fn test_battle_replay_rejected_as_invalid() {
    let mut state = ContractState::new();
    let mut balances: HashMap<Vec<u8>, u128> = HashMap::new();
    ByteBattle::initialize(&mut state, vec![0xA1; 32]).unwrap();
    let key1 = ed_key(3);
    let key2 = ed_key(5);
    let player1_id = ed_id(&key1);
    let player2_id = ed_id(&key2);
    mint(&mut balances, &player1_id, 100);
    mint(&mut balances, &player2_id, 100);
    let ctx = call_ctx(1);
    let sig1 = battle_sig(&key1, 0, &player2_id, 100);
    let sig2 = battle_sig(&key2, 0, &player1_id, 100);

    let mut sess = ByteBattle::battle(&state, &ctx, &sig1, &sig2, 100).unwrap();
    settle(&mut sess, &mut balances).unwrap();
    sess.commit(&mut state.nonces);
    assert_eq!(ByteBattle::nonce(&state, &player1_id), 1);
    assert_eq!(ByteBattle::nonce(&state, &player2_id), 1);

    let replay = ByteBattle::battle(&state, &ctx, &sig1, &sig2, 100);
    assert!(matches!(replay, Err(Error::InvalidAuthorization)));
}

#[test]
fn test_battle_uninitialized() {
    let state = ContractState::new();
    let key1 = ed_key(3);
    let key2 = ed_key(5);
    let player1_id = ed_id(&key1);
    let player2_id = ed_id(&key2);
    let ctx = call_ctx(1);
    let sig1 = battle_sig(&key1, 0, &player2_id, 100);
    let sig2 = battle_sig(&key2, 0, &player1_id, 100);
    let r = ByteBattle::battle(&state, &ctx, &sig1, &sig2, 100);
    assert!(matches!(r, Err(Error::Uninitialized)));
}

#[test]
fn test_battle_implicit_nonzero_nonce_rejected() {
    let mut state = ContractState::new();
    ByteBattle::initialize(&mut state, vec![0xA1; 32]).unwrap();
    let ctx = call_ctx(1);
    let invoker_id = ctx.invoker.duplicate();
    set_nonce(&mut state.nonces, &invoker_id, 5);
    let key2 = ed_key(5);
    let player2_id = ed_id(&key2);
    let sig2 = battle_sig(&key2, 0, &invoker_id, 100);
    let r = ByteBattle::battle(&state, &ctx, &AuthProof::Invoker, &sig2, 100);
    assert!(matches!(r, Err(Error::IncorrectNonceForInvoker)));
}

#[test]
fn test_battle_same_signer_both_sides_rejected() {
    let mut state = ContractState::new();
    ByteBattle::initialize(&mut state, vec![0xA1; 32]).unwrap();
    let key1 = ed_key(3);
    let player1_id = ed_id(&key1);
    let ctx = call_ctx(1);
    let sig1 = battle_sig(&key1, 0, &player1_id, 100);
    let sig2 = battle_sig(&key1, 0, &player1_id, 100);
    let r = ByteBattle::battle(&state, &ctx, &sig1, &sig2, 100);
    assert!(matches!(r, Err(Error::IncorrectNonce)));
    // The rejection left no nonce consumed.
    assert_eq!(ByteBattle::nonce(&state, &player1_id), 0);
}

#[test]
fn test_battle_symmetry() {
    let mut state = ContractState::new();
    ByteBattle::initialize(&mut state, vec![0xA1; 32]).unwrap();
    let key1 = ed_key(3);
    let key2 = ed_key(5);
    let player1_id = ed_id(&key1);
    let player2_id = ed_id(&key2);
    let ctx = call_ctx(1);
    let sig1 = battle_sig(&key1, 0, &player2_id, 100);
    let sig2 = battle_sig(&key2, 0, &player1_id, 100);
    // Same proofs, both orders: both eligible.
    assert!(ByteBattle::battle(&state, &ctx, &sig1, &sig2, 100).is_ok());
    assert!(ByteBattle::battle(&state, &ctx, &sig2, &sig1, 100).is_ok());
    // A mismatched pair fails in both orders.
    let bad = battle_sig(&key1, 0, &player2_id, 90);
    assert!(ByteBattle::battle(&state, &ctx, &bad, &sig2, 100).is_err());
    assert!(ByteBattle::battle(&state, &ctx, &sig2, &bad, 100).is_err());
}

#[test]
fn test_battle_mismatched_amounts_no_funds_move() {
    let mut state = ContractState::new();
    let mut balances: HashMap<Vec<u8>, u128> = HashMap::new();
    ByteBattle::initialize(&mut state, vec![0xA1; 32]).unwrap();
    let key1 = ed_key(3);
    let key2 = ed_key(5);
    let player1_id = ed_id(&key1);
    let player2_id = ed_id(&key2);
    mint(&mut balances, &player1_id, 100);
    mint(&mut balances, &player2_id, 100);
    let ctx = call_ctx(1);
    let sig1 = battle_sig(&key1, 0, &player2_id, 100);
    let sig2 = battle_sig(&key2, 0, &player1_id, 90);
    let r = ByteBattle::battle(&state, &ctx, &sig1, &sig2, 100);
    assert!(matches!(r, Err(Error::InvalidAuthorization)));
    // No session, so no transfer was ever requested.
    assert_eq!(balance(&balances, &player1_id), 100);
    assert_eq!(balance(&balances, &player2_id), 100);
    assert_eq!(ByteBattle::nonce(&state, &player1_id), 0);
    assert_eq!(ByteBattle::nonce(&state, &player2_id), 0);
}

#[test]
fn test_battle_escrow_failure_aborts_before_payout() {
    let mut state = ContractState::new();
    let mut balances: HashMap<Vec<u8>, u128> = HashMap::new();
    ByteBattle::initialize(&mut state, vec![0xA1; 32]).unwrap();
    let key1 = ed_key(3);
    let key2 = ed_key(5);
    let player1_id = ed_id(&key1);
    let player2_id = ed_id(&key2);
    // Only player 1 can cover the stake; player 2's escrow will be rejected.
    mint(&mut balances, &player1_id, 100);
    let ctx = call_ctx(1);
    let sig1 = battle_sig(&key1, 0, &player2_id, 100);
    let sig2 = battle_sig(&key2, 0, &player1_id, 100);

    let mut sess = ByteBattle::battle(&state, &ctx, &sig1, &sig2, 100).unwrap();
    let first = sess.next_action().unwrap();
    assert_eq!(first.amount, 100);
    assert!(perform(&mut balances, &first));
    sess.record_result(true).unwrap();
    let second = sess.next_action().unwrap();
    assert!(!perform(&mut balances, &second));
    assert_eq!(sess.record_result(false), Err(Error::StakeTransferFailed));
    // The settlement is abandoned: no payout is ever requested, and the
    // session cannot commit, so the durable nonces stay untouched.
    assert!(sess.next_action().is_none());
    assert_eq!(sess.phase, Phase::Aborted);
    assert_eq!(ByteBattle::nonce(&state, &player1_id), 0);
    assert_eq!(ByteBattle::nonce(&state, &player2_id), 0);
}

#[test]
fn test_battle_payout_only_after_both_escrows() {
    let mut state = ContractState::new();
    let mut balances: HashMap<Vec<u8>, u128> = HashMap::new();
    ByteBattle::initialize(&mut state, vec![0xA1; 32]).unwrap();
    let key1 = ed_key(3);
    let key2 = ed_key(5);
    let player1_id = ed_id(&key1);
    let player2_id = ed_id(&key2);
    mint(&mut balances, &player1_id, 100);
    mint(&mut balances, &player2_id, 100);
    let ctx = call_ctx(1);
    let contract_id = Identity::Contract(vec![0xCC; 32]);
    let sig1 = battle_sig(&key1, 0, &player2_id, 100);
    let sig2 = battle_sig(&key2, 0, &player1_id, 100);

    let mut sess = ByteBattle::battle(&state, &ctx, &sig1, &sig2, 100).unwrap();
    // First escrow: player 1's stake into the contract's custody.
    let a1 = sess.next_action().unwrap();
    assert_eq!(a1.from, player1_id);
    assert_eq!(a1.to, contract_id);
    assert_eq!(a1.amount, 100);
    assert!(perform(&mut balances, &a1));
    sess.record_result(true).unwrap();
    // Second escrow: player 2's stake.
    let a2 = sess.next_action().unwrap();
    assert_eq!(a2.from, player2_id);
    assert_eq!(a2.to, contract_id);
    assert_eq!(a2.amount, 100);
    assert!(perform(&mut balances, &a2));
    sess.record_result(true).unwrap();
    assert_eq!(balance(&balances, &contract_id), 200);
    // Only now the payout: double the stake, out of the contract's custody.
    let a3 = sess.next_action().unwrap();
    assert_eq!(a3.from, contract_id);
    assert_eq!(a3.amount, 200);
    assert!(perform(&mut balances, &a3));
    sess.record_result(true).unwrap();
    assert_eq!(sess.phase, Phase::Done);
    assert_eq!(balance(&balances, &contract_id), 0);
}

#[test]
fn test_battle_concrete_outcome() {
    // Ledger time 1, so the compared byte sits at index 1 % 32 == 1 in each
    // raw 32-byte key; player 2's byte there is larger, so player 2 wins
    // double the stake and player 1 keeps nothing beyond the deducted stake.
    let mut state = ContractState::new();
    let mut balances: HashMap<Vec<u8>, u128> = HashMap::new();
    ByteBattle::initialize(&mut state, vec![0xA1; 32]).unwrap();
    let key1 = key_with_second_byte(3, 0x0F);
    let key2 = key_with_second_byte(5, 0xAA);
    let player1_id = ed_id(&key1);
    let player2_id = ed_id(&key2);
    mint(&mut balances, &player1_id, 100);
    mint(&mut balances, &player2_id, 100);
    let ctx = call_ctx(1);
    let sig1 = battle_sig(&key1, 0, &player2_id, 100);
    let sig2 = battle_sig(&key2, 0, &player1_id, 100);

    let mut sess = ByteBattle::battle(&state, &ctx, &sig1, &sig2, 100).unwrap();
    settle(&mut sess, &mut balances).unwrap();
    let (out_key1, out_key2, index1, index2) = sess.outcome();
    sess.commit(&mut state.nonces);

    assert_eq!((index1, index2), (1, 1));
    assert_eq!(out_key1, key1);
    assert_eq!(out_key2, key2);
    assert!(out_key2[index2 as usize] > out_key1[index1 as usize]);
    assert_eq!(balance(&balances, &player2_id), 200);
    assert_eq!(balance(&balances, &player1_id), 0);
}

#[test]
fn test_battle_account_bias_uses_first_identity() {
    // When the first participant is an account reference, both compare
    // indices carry the +16 bias, taken from the first identity's variant.
    let mut state = ContractState::new();
    let mut balances: HashMap<Vec<u8>, u128> = HashMap::new();
    ByteBattle::initialize(&mut state, vec![0xA1; 32]).unwrap();
    let account_repr = vec![0x42; 48];
    let account_id = Identity::Account(bytes_dup(&account_repr));
    let key2 = ed_key(5);
    let player2_id = ed_id(&key2);
    mint(&mut balances, &account_id, 100);
    mint(&mut balances, &player2_id, 100);
    let ctx = call_ctx(3);
    let sig1 = AuthProof::Account {
        account: bytes_dup(&account_repr),
        payload: Message {
            label: BATTLE_LABEL,
            signer: account_id.duplicate(),
            nonce: 0,
            counterpart: player2_id.duplicate(),
            amount: 100,
        },
    };
    let sig2 = battle_sig(&key2, 0, &account_id, 100);

    let mut sess = ByteBattle::battle(&state, &ctx, &sig1, &sig2, 100).unwrap();
    settle(&mut sess, &mut balances).unwrap();
    let (_, _, index1, index2) = sess.outcome();
    assert_eq!((index1, index2), (3 + 16, 3 + 16));
}

#[test]
fn test_nonce_monotonicity() {
    let mut state = ContractState::new();
    let key1 = ed_key(3);
    let player1_id = ed_id(&key1);
    let counterpart = ed_id(&ed_key(5));
    for expected in 0..4u64 {
        assert_eq!(ByteBattle::nonce(&state, &player1_id), expected);
        // A proof declaring anything other than the stored counter is
        // rejected and consumes nothing.
        let stale = battle_sig(&key1, 0, &counterpart, 100);
        if expected > 0 {
            assert_eq!(
                verify_and_consume_nonce(&mut state.nonces, &stale, expected - 1),
                Err(Error::IncorrectNonce)
            );
        }
        assert_eq!(
            verify_and_consume_nonce(&mut state.nonces, &stale, expected + 1),
            Err(Error::IncorrectNonce)
        );
        assert_eq!(ByteBattle::nonce(&state, &player1_id), expected);
        let sig = battle_sig(&key1, expected, &counterpart, 100);
        assert_eq!(verify_and_consume_nonce(&mut state.nonces, &sig, expected), Ok(()));
        assert_eq!(ByteBattle::nonce(&state, &player1_id), expected + 1);
    }
}

#[test]
fn test_implicit_proofs_never_advance_state() {
    let mut state = ContractState::new();
    let other = ed_id(&ed_key(9));
    set_nonce(&mut state.nonces, &other, 7);
    for _ in 0..3 {
        assert_eq!(verify_and_consume_nonce(&mut state.nonces, &AuthProof::Invoker, 0), Ok(()));
    }
    assert_eq!(verify_and_consume_nonce(&mut state.nonces, &AuthProof::Invoker, 1),
        Err(Error::IncorrectNonceForInvoker));
    // No identity's counter moved.
    assert_eq!(get_nonce(&state.nonces, &other), 7);
    assert_eq!(get_nonce(&state.nonces, &ed_id(&ed_key(3))), 0);
}

#[test]
fn test_get_set_nonce() {
    let mut state = ContractState::new();
    let id_a = ed_id(&ed_key(1));
    let id_b = Identity::Contract(ed_key(1));
    assert_eq!(get_nonce(&state.nonces, &id_a), 0);
    set_nonce(&mut state.nonces, &id_a, 4);
    // Same key bytes under a different variant are a different identity.
    assert_eq!(get_nonce(&state.nonces, &id_a), 4);
    assert_eq!(get_nonce(&state.nonces, &id_b), 0);
    set_nonce(&mut state.nonces, &id_a, 9);
    assert_eq!(get_nonce(&state.nonces, &id_a), 9);
    assert_eq!(ByteBattle::nonce(&state, &id_a), 9);
}
