use ledger_utils::pending::{LedgerProtocol, UserOrAccount};
use ledger_utils::{create_pending_transaction, Cryptocurrency, PendingCryptoTransaction, Principal};

fn p(bytes: &[u8]) -> Principal {
    Principal::from_bytes(bytes.to_vec()).unwrap()
}

const ALL: [Cryptocurrency; 5] = [
    Cryptocurrency::InternetComputer,
    Cryptocurrency::SNS1,
    Cryptocurrency::CKBTC,
    Cryptocurrency::CHAT,
    Cryptocurrency::KINIC,
];

#[test]
fn legacy_token_builds_legacy_transfer() {
    let t = create_pending_transaction(Cryptocurrency::InternetComputer, p(&[1]), 123_456, 10_000, p(&[2, 3]), 99);
    match t {
        PendingCryptoTransaction::NNS(t) => {
            assert_eq!(t.ledger.bytes, vec![1]);
            assert_eq!(t.token, Cryptocurrency::InternetComputer);
            assert_eq!(t.amount, 123_456);
            assert!(matches!(t.to, UserOrAccount::User(ref u) if u.bytes == vec![2, 3]));
            assert!(t.fee.is_none());
            assert!(t.memo.is_none());
            assert_eq!(t.created, 99);
        }
        PendingCryptoTransaction::ICRC1(_) => panic!("expected the legacy shape"),
    }
}

#[test]
fn legacy_amount_at_64_bit_limit() {
    let t = create_pending_transaction(Cryptocurrency::InternetComputer, p(&[1]), u64::MAX as u128, 0, p(&[2]), 0);
    assert!(matches!(t, PendingCryptoTransaction::NNS(ref n) if n.amount == u64::MAX));
}

#[test]
fn token_standard_builds_generic_transfer() {
    let t = create_pending_transaction(Cryptocurrency::CHAT, p(&[1]), u128::MAX, 100_000, p(&[4]), 7);
    match t {
        PendingCryptoTransaction::ICRC1(t) => {
            assert_eq!(t.ledger.bytes, vec![1]);
            assert_eq!(t.token, Cryptocurrency::CHAT);
            assert_eq!(t.amount, u128::MAX);
            assert_eq!(t.fee, 100_000);
            assert_eq!(t.to.owner.bytes, vec![4]);
            assert!(t.to.subaccount.is_none());
            assert!(t.memo.is_none());
            assert_eq!(t.created, 7);
        }
        PendingCryptoTransaction::NNS(_) => panic!("expected the token-standard shape"),
    }
}

#[test]
fn shape_follows_protocol_for_every_token() {
    for token in ALL {
        let t = create_pending_transaction(token, p(&[1]), 5, 1, p(&[2]), 0);
        let legacy = token.protocol() == LedgerProtocol::Legacy;
        assert_eq!(matches!(t, PendingCryptoTransaction::NNS(_)), legacy);
        assert_eq!(legacy, token == Cryptocurrency::InternetComputer);
    }
}

#[test]
fn token_fees() {
    assert_eq!(Cryptocurrency::InternetComputer.fee(), 10_000);
    assert_eq!(Cryptocurrency::SNS1.fee(), 1_000);
    assert_eq!(Cryptocurrency::CKBTC.fee(), 10);
    assert_eq!(Cryptocurrency::CHAT.fee(), 100_000);
    assert_eq!(Cryptocurrency::KINIC.fee(), 100_000);
}
