use vstd::prelude::*;
use crate::account::{AccountIdentifier, CanisterId, Principal, UserId};

verus! {

/// The tokens that can be transferred.
#[derive(Clone, Copy, Debug, PartialEq, Eq, Structural)]
pub enum Cryptocurrency {
    InternetComputer,
    SNS1,
    CKBTC,
    CHAT,
    KINIC,
}

/// The ledger protocol a token natively uses.
#[derive(Clone, Copy, Debug, PartialEq, Eq, Structural)]
pub enum LedgerProtocol {
    /// The first ledger's protocol: amounts in e8s, accounts as identifiers.
    Legacy,
    /// The generic token-standard protocol: raw amounts, structured accounts.
    TokenStandard,
}

impl Cryptocurrency {
    pub open spec fn spec_protocol(self) -> LedgerProtocol {
        match self {
            Cryptocurrency::InternetComputer => LedgerProtocol::Legacy,
            _ => LedgerProtocol::TokenStandard,
        }
    }

    pub open spec fn spec_fee(self) -> u128 {
        match self {
            Cryptocurrency::InternetComputer => 10_000,
            Cryptocurrency::SNS1 => 1_000,
            Cryptocurrency::CKBTC => 10,
            Cryptocurrency::CHAT => 100_000,
            Cryptocurrency::KINIC => 100_000,
        }
    }

    /// The protocol of the token's own ledger.
    pub fn protocol(&self) -> (r: LedgerProtocol)
        ensures
            r == self.spec_protocol(),
    {
        match self {
            Cryptocurrency::InternetComputer => LedgerProtocol::Legacy,
            _ => LedgerProtocol::TokenStandard,
        }
    }

    /// The fee that the token's ledger charges for a transfer, in its units.
    pub fn fee(&self) -> (r: u128)
        ensures
            r == self.spec_fee(),
    {
        match self {
            Cryptocurrency::InternetComputer => 10_000,
            Cryptocurrency::SNS1 => 1_000,
            Cryptocurrency::CKBTC => 10,
            Cryptocurrency::CHAT => 100_000,
            Cryptocurrency::KINIC => 100_000,
        }
    }
}

/// A recipient on the legacy ledger.
pub enum UserOrAccount {
    User(UserId),
    Account(AccountIdentifier),
}

/// An account on a token-standard ledger: an owner and an optional subaccount.
pub struct Account {
    pub owner: Principal,
    pub subaccount: Option<[u8; 32]>,
}

impl Account {
    /// The owner's account under the default subaccount.
    pub fn from_principal(owner: Principal) -> (r: Account)
        ensures
            r.owner == owner,
            r.subaccount is None,
    {
        Account { owner, subaccount: None }
    }
}

/// A transfer to be made on the legacy ledger.
pub struct NnsPendingCryptoTransaction {
    pub ledger: CanisterId,
    pub token: Cryptocurrency,
    /// In e8s.
    pub amount: u64,
    pub to: UserOrAccount,
    /// None: the ledger charges its own fixed fee.
    pub fee: Option<u64>,
    pub memo: Option<u64>,
    /// Nanoseconds since the epoch.
    pub created: u64,
}

/// A transfer to be made on a token-standard ledger.
pub struct Icrc1PendingCryptoTransaction {
    pub ledger: CanisterId,
    pub token: Cryptocurrency,
    pub amount: u128,
    pub fee: u128,
    pub to: Account,
    pub memo: Option<Vec<u8>>,
    /// Nanoseconds since the epoch.
    pub created: u64,
}

/// A transfer to be made, in the shape of the protocol of its ledger.
pub enum PendingCryptoTransaction {
    NNS(NnsPendingCryptoTransaction),
    ICRC1(Icrc1PendingCryptoTransaction),
}

/// A transfer that the ledger accepted.
pub struct CompletedCryptoTransaction {
    pub block_index: u64,
}

/// A transfer that the ledger refused or that could not be made.
pub struct FailedCryptoTransaction {
    pub error_message: String,
}

/// Builds the transfer of `amount` (and `fee`) of `token` on `ledger` to
/// `user_id`, in the shape of the token's own protocol. On the legacy
/// protocol the amount must fit in 64 bits, and the ledger sets the fee.
pub fn create_pending_transaction(
    token: Cryptocurrency,
    ledger: CanisterId,
    amount: u128,
    fee: u128,
    user_id: UserId,
    now_nanos: u64,
) -> (r: PendingCryptoTransaction)
    requires
        token.spec_protocol() == LedgerProtocol::Legacy ==> amount <= u64::MAX,
    ensures
        (r is NNS) <==> token.spec_protocol() == LedgerProtocol::Legacy,
        r is NNS ==> ({
            let t = r->NNS_0;
            &&& t.ledger == ledger
            &&& t.token == token
            &&& t.amount == amount
            &&& t.to == UserOrAccount::User(user_id)
            &&& t.fee is None
            &&& t.memo is None
            &&& t.created == now_nanos
        }),
        r is ICRC1 ==> ({
            let t = r->ICRC1_0;
            &&& t.ledger == ledger
            &&& t.token == token
            &&& t.amount == amount
            &&& t.fee == fee
            &&& t.to.owner == user_id
            &&& t.to.subaccount is None
            &&& t.memo is None
            &&& t.created == now_nanos
        }),
{
    match token.protocol() {
        LedgerProtocol::Legacy => PendingCryptoTransaction::NNS(
            NnsPendingCryptoTransaction {
                ledger,
                token,
                amount: amount as u64,
                to: UserOrAccount::User(user_id),
                fee: None,
                memo: None,
                created: now_nanos,
            },
        ),
        LedgerProtocol::TokenStandard => PendingCryptoTransaction::ICRC1(
            Icrc1PendingCryptoTransaction {
                ledger,
                fee,
                token,
                amount,
                to: Account::from_principal(user_id),
                memo: None,
                created: now_nanos,
            },
        ),
    }
}

} // verus!
