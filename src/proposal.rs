use vstd::prelude::*;
use crate::account::{CanisterId, Principal, UserId};
use crate::pending::{
    Account, CompletedCryptoTransaction, Cryptocurrency, FailedCryptoTransaction,
    Icrc1PendingCryptoTransaction,
};

verus! {

/// The price of submitting a proposal: 4 CHAT, in its smallest units.
pub const PROPOSAL_FEE_UNITS: u128 = 4_0000_0000;

/// The method that the retry queue calls on the proposals service.
pub const RETRY_METHOD: &'static str = "c2c_submit_proposal_msgpack";

/// The bytes of the one governance canister whose proposals are supported.
pub open spec fn sns_governance_canister_bytes() -> Seq<u8> {
    seq![0u8, 0, 0, 0, 2, 0, 0, 24, 1, 1]
}

/// The bytes of the ledger of the token that the fee is paid in.
pub open spec fn sns_ledger_canister_bytes() -> Seq<u8> {
    seq![0u8, 0, 0, 0, 2, 0, 0, 25, 1, 1]
}

/// The one governance canister whose proposals are supported.
pub fn sns_governance_canister_id() -> (r: CanisterId)
    ensures
        r@ == sns_governance_canister_bytes(),
        r.wf(),
{
    let r = Principal { bytes: vec![0u8, 0, 0, 0, 2, 0, 0, 24, 1, 1] };
    assert(r@ =~= sns_governance_canister_bytes());
    r
}

/// The ledger of the token that the fee is paid in.
pub fn sns_ledger_canister_id() -> (r: CanisterId)
    ensures
        r@ == sns_ledger_canister_bytes(),
        r.wf(),
{
    let r = Principal { bytes: vec![0u8, 0, 0, 0, 2, 0, 0, 25, 1, 1] };
    assert(r@ =~= sns_ledger_canister_bytes());
    r
}

/// A request to submit `proposal` to a governance canister. The proposal is
/// carried unchanged to the proposals service.
pub struct Args<P> {
    pub governance_canister_id: CanisterId,
    pub proposal: P,
}

/// What the caller learns.
pub enum Response {
    Success,
    UserSuspended,
    GovernanceCanisterNotSupported,
    TransferFailed(String),
    Retrying(String),
    InternalError(String),
}

/// A typed answer of the proposals service.
pub enum C2cResponse {
    Success,
    GovernanceCanisterNotSupported,
    Retrying(String),
    InternalError(String),
}

/// What the workflow reads of the local state, once, when it starts.
pub struct StateSnapshot {
    pub suspended: bool,
    pub my_user_id: UserId,
    pub proposals_bot_canister_id: CanisterId,
    pub now_nanos: u64,
}

/// The call to make on the proposals service.
pub struct DownstreamCall<P> {
    pub target: CanisterId,
    pub args: Args<P>,
}

/// A message handed to the durable retry queue.
pub struct RetryMessage<P> {
    pub target: CanisterId,
    pub method: String,
    pub args: Args<P>,
}

/// What the workflow does first.
pub enum Start<P> {
    /// Make this transfer as `sender`, then call `after_transfer` with `next`.
    Transfer { transaction: Icrc1PendingCryptoTransaction, sender: CanisterId, next: DownstreamCall<P> },
    /// Stop here, with no remote call.
    Finish(Response),
}

/// What the workflow does once the transfer is settled.
pub enum AfterTransfer<P> {
    /// Make this call, then hand its outcome to `after_downstream`.
    Call(DownstreamCall<P>),
    /// Stop here.
    Finish(Response),
}

/// How the workflow ends: the caller's response, and at most one message
/// to put on the retry queue before answering.
pub struct Finish<P> {
    pub response: Response,
    pub retry: Option<RetryMessage<P>>,
}

/// The fee payment: 4 CHAT on its ledger to the proposals service, with the
/// token's fee, no memo, created now.
pub open spec fn is_fee_payment(t: Icrc1PendingCryptoTransaction, state: StateSnapshot) -> bool {
    &&& t.ledger@ == sns_ledger_canister_bytes()
    &&& t.token == Cryptocurrency::CHAT
    &&& t.amount == PROPOSAL_FEE_UNITS
    &&& t.fee == Cryptocurrency::CHAT.spec_fee()
    &&& t.to.owner@ == state.proposals_bot_canister_id@
    &&& t.to.subaccount is None
    &&& t.memo is None
    &&& t.created == state.now_nanos
}

/// Checks the request against the state and, where it may go on, builds the
/// fee payment. A suspended user is refused first, then any governance
/// canister but the supported one.
pub fn start<P>(args: Args<P>, state: &StateSnapshot) -> (r: Start<P>)
    ensures
        state.suspended ==> r == Start::<P>::Finish(Response::UserSuspended),
        !state.suspended && args.governance_canister_id@ != sns_governance_canister_bytes()
            ==> r == Start::<P>::Finish(Response::GovernanceCanisterNotSupported),
        !state.suspended && args.governance_canister_id@ == sns_governance_canister_bytes()
            ==> r is Transfer && is_fee_payment(r->transaction, *state)
                && r->sender@ == state.my_user_id@
                && r->next.target@ == state.proposals_bot_canister_id@
                && r->next.args == args,
{
    if state.suspended {
        Start::Finish(Response::UserSuspended)
    } else if !args.governance_canister_id.same_as(&sns_governance_canister_id()) {
        Start::Finish(Response::GovernanceCanisterNotSupported)
    } else {
        let token = Cryptocurrency::CHAT;
        let transaction = Icrc1PendingCryptoTransaction {
            ledger: sns_ledger_canister_id(),
            token,
            amount: PROPOSAL_FEE_UNITS,
            to: Account::from_principal(state.proposals_bot_canister_id.clone_principal()),
            fee: token.fee(),
            memo: None,
            created: state.now_nanos,
        };
        Start::Transfer {
            transaction,
            sender: state.my_user_id.clone_principal(),
            next: DownstreamCall { target: state.proposals_bot_canister_id.clone_principal(), args },
        }
    }
}

/// Goes on once the transfer is settled: a failed transfer ends the workflow
/// with the ledger's message; a completed one leads to the call.
pub fn after_transfer<P>(
    next: DownstreamCall<P>,
    outcome: Result<CompletedCryptoTransaction, FailedCryptoTransaction>,
) -> (r: AfterTransfer<P>)
    ensures
        outcome is Err ==> r == AfterTransfer::<P>::Finish(
            Response::TransferFailed(outcome->Err_0.error_message),
        ),
        outcome is Ok ==> r == AfterTransfer::<P>::Call(next),
{
    match outcome {
        Err(failed) => AfterTransfer::Finish(Response::TransferFailed(failed.error_message)),
        Ok(_) => AfterTransfer::Call(next),
    }
}

/// Ends the workflow from the call's outcome: a typed answer is passed on and
/// nothing is queued; a call that was not delivered (`Err`, with a
/// description of the failure) is queued once, unchanged, for the retry
/// queue to deliver, and the caller hears that it is being retried.
pub fn after_downstream<P>(call: DownstreamCall<P>, outcome: Result<C2cResponse, String>) -> (r: Finish<P>)
    ensures
        outcome is Ok ==> r.retry is None,
        outcome == Ok::<C2cResponse, String>(C2cResponse::Success) ==> r.response == Response::Success,
        outcome == Ok::<C2cResponse, String>(C2cResponse::GovernanceCanisterNotSupported)
            ==> r.response == Response::GovernanceCanisterNotSupported,
        outcome is Ok && outcome->Ok_0 is Retrying
            ==> r.response == Response::Retrying(outcome->Ok_0->Retrying_0),
        outcome is Ok && outcome->Ok_0 is InternalError
            ==> r.response == Response::InternalError(outcome->Ok_0->InternalError_0),
        outcome is Err ==> r.response == Response::Retrying(outcome->Err_0) && r.retry == Some(
            RetryMessage { target: call.target, method: r.retry->Some_0.method, args: call.args },
        ) && r.retry->Some_0.method@ == RETRY_METHOD@,
{
    match outcome {
        Ok(C2cResponse::Success) => Finish { response: Response::Success, retry: None },
        Ok(C2cResponse::GovernanceCanisterNotSupported) => Finish {
            response: Response::GovernanceCanisterNotSupported,
            retry: None,
        },
        Ok(C2cResponse::Retrying(error)) => Finish { response: Response::Retrying(error), retry: None },
        Ok(C2cResponse::InternalError(error)) => Finish {
            response: Response::InternalError(error),
            retry: None,
        },
        Err(error) => {
            let method = RETRY_METHOD.to_owned();
            Finish {
                response: Response::Retrying(error),
                retry: Some(RetryMessage { target: call.target, method, args: call.args }),
            }
        },
    }
}

} // verus!
