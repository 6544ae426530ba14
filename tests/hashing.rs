use std::collections::BTreeMap;

use ic_ledger_types::{AccountIdentifier as LedgerAccountIdentifier, DEFAULT_SUBACCOUNT};
use ledger_utils::{calculate_transaction_hash, AccountIdentifier, Operation, Principal, Transaction, TransferArgs};
use serde_cbor::Value;
use sha2::{Digest, Sha256};

fn record(fields: Vec<Value>) -> Value {
    let mut m = BTreeMap::new();
    for (i, v) in fields.into_iter().enumerate() {
        m.insert(Value::Integer(i as i128), v);
    }
    Value::Map(m)
}

fn tokens(e8s: u64) -> Value {
    record(vec![Value::Integer(e8s as i128)])
}

fn variant(index: i128, fields: Vec<Value>) -> Value {
    let mut m = BTreeMap::new();
    m.insert(Value::Integer(index), record(fields));
    Value::Map(m)
}

fn reference_bytes(op: Value, memo: u64, created: u64) -> Vec<u8> {
    let tx = record(vec![op, Value::Integer(memo as i128), record(vec![Value::Integer(created as i128)])]);
    serde_cbor::ser::to_vec_packed(&tx).unwrap()
}

fn transfer(from: &str, to: &str, amount: u64, fee: u64, memo: u64, created: u64) -> Transaction {
    Transaction {
        operation: Operation::Transfer { from: from.to_string(), to: to.to_string(), amount, fee },
        memo,
        created_at_time: created,
    }
}

#[test]
fn encoding_matches_packed_cbor_for_transfer() {
    let tx = transfer("abc", "de", 100_000_000, 10_000, 7, 1_700_000_000_000_000_000);
    let op = variant(
        2,
        vec![Value::Text("abc".into()), Value::Text("de".into()), tokens(100_000_000), tokens(10_000)],
    );
    assert_eq!(tx.encode(), reference_bytes(op, 7, 1_700_000_000_000_000_000));
}

#[test]
fn encoding_matches_packed_cbor_for_every_head_size() {
    for v in [0u64, 23, 24, 255, 256, 65535, 65536, 4294967295, 4294967296, u64::MAX] {
        let long = "x".repeat(300);
        let tx = transfer(&long, "", v, v, v, v);
        let op = variant(2, vec![Value::Text(long.clone()), Value::Text(String::new()), tokens(v), tokens(v)]);
        assert_eq!(tx.encode(), reference_bytes(op, v, v));
    }
}

#[test]
fn encoding_matches_packed_cbor_for_burn_and_mint() {
    let burn = Transaction { operation: Operation::Burn { from: "f".into(), amount: 5 }, memo: 1, created_at_time: 2 };
    let op = variant(0, vec![Value::Text("f".into()), tokens(5)]);
    assert_eq!(burn.encode(), reference_bytes(op, 1, 2));
    let mint = Transaction { operation: Operation::Mint { to: "t".into(), amount: 6 }, memo: 3, created_at_time: 4 };
    let op = variant(1, vec![Value::Text("t".into()), tokens(6)]);
    assert_eq!(mint.encode(), reference_bytes(op, 3, 4));
}

#[test]
fn hash_is_sha256_of_encoding() {
    let tx = transfer("a", "b", 1, 2, 3, 4);
    let expected: [u8; 32] = Sha256::digest(tx.encode()).into();
    assert_eq!(tx.hash(), expected);
    assert_ne!(tx.hash().to_vec(), tx.encode());
}

#[test]
fn hash_is_deterministic() {
    let a = transfer("a", "b", 1, 2, 3, 4);
    let b = transfer("a", "b", 1, 2, 3, 4);
    assert_eq!(a.hash(), a.hash());
    assert_eq!(a.hash(), b.hash());
}

fn args(amount: u64, fee: u64, memo: u64, created: u64, to: [u8; 32]) -> TransferArgs {
    TransferArgs {
        memo,
        amount,
        fee,
        from_subaccount: None,
        to: AccountIdentifier { bytes: to },
        created_at_time: Some(created),
    }
}

#[test]
fn transaction_hash_matches_reference_record() {
    let sender_bytes = [0u8, 0, 0, 0, 2, 0, 0, 24, 1, 1];
    let sender = Principal::from_bytes(sender_bytes.to_vec()).unwrap();
    let to = [5u8; 32];
    let r = calculate_transaction_hash(sender.clone_principal(), &args(400_000_000, 10_000, 9, 1_000, to));
    let from = LedgerAccountIdentifier::new(&candid::Principal::from_slice(&sender_bytes), &DEFAULT_SUBACCOUNT);
    let op = variant(
        2,
        vec![Value::Text(from.to_string()), Value::Text(hex_of(&to)), tokens(400_000_000), tokens(10_000)],
    );
    let expected: [u8; 32] = Sha256::digest(reference_bytes(op, 9, 1_000)).into();
    assert_eq!(r, expected);
}

fn hex_of(b: &[u8]) -> String {
    b.iter().map(|x| format!("{x:02x}")).collect()
}

#[test]
fn transaction_hash_changes_with_each_field() {
    let sender = Principal::from_bytes(vec![1, 2, 3]).unwrap();
    let other_sender = Principal::from_bytes(vec![1, 2, 4]).unwrap();
    let base = calculate_transaction_hash(sender.clone_principal(), &args(10, 1, 2, 3, [0u8; 32]));
    assert_eq!(base, calculate_transaction_hash(sender.clone_principal(), &args(10, 1, 2, 3, [0u8; 32])));
    assert_ne!(base, calculate_transaction_hash(sender.clone_principal(), &args(11, 1, 2, 3, [0u8; 32])));
    assert_ne!(base, calculate_transaction_hash(sender.clone_principal(), &args(10, 2, 2, 3, [0u8; 32])));
    assert_ne!(base, calculate_transaction_hash(sender.clone_principal(), &args(10, 1, 3, 3, [0u8; 32])));
    assert_ne!(base, calculate_transaction_hash(sender.clone_principal(), &args(10, 1, 2, 4, [0u8; 32])));
    assert_ne!(base, calculate_transaction_hash(sender.clone_principal(), &args(10, 1, 2, 3, [1u8; 32])));
    assert_ne!(base, calculate_transaction_hash(other_sender.clone_principal(), &args(10, 1, 2, 3, [0u8; 32])));
    let mut from_sub = args(10, 1, 2, 3, [0u8; 32]);
    from_sub.from_subaccount = Some([0u8; 32]);
    assert_eq!(base, calculate_transaction_hash(sender.clone_principal(), &from_sub));
    from_sub.from_subaccount = Some([2u8; 32]);
    assert_ne!(base, calculate_transaction_hash(sender.clone_principal(), &from_sub));
}
