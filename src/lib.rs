//! Payment for a remote action: the transfer of a fee on one of two ledger
//! protocols, the digest under which a ledger records a transfer, the text
//! of token amounts, and the decisions of the proposal-submission workflow.
use vstd::prelude::*;

pub mod account;
pub mod amount;
pub mod pending;
pub mod proposal;
mod text;
pub mod transaction;

pub use account::{
    convert_to_subaccount, default_ledger_account, AccountIdentifier, CanisterId, Principal, UserId,
};
pub use amount::{format_crypto_amount, format_crypto_amount_with_symbol};
pub use pending::{
    create_pending_transaction, CompletedCryptoTransaction, Cryptocurrency, FailedCryptoTransaction,
    PendingCryptoTransaction,
};
pub use transaction::{calculate_transaction_hash, Operation, Transaction, TransactionHash, TransferArgs};

verus! {

} // verus!
