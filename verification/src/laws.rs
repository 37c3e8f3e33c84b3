//! What holds of the escrow state machine whatever is called on it: the
//! state stays well formed, settled escrows never change again, a dispute
//! is opened at most once, and the funds owed out of custody change by
//! exactly what each operation moves.

use crate::errors::EscrowError;
use crate::model::{held, lemma_held_push, lemma_held_update, stake, CreateRequest, EscrowState};
use crate::naming::escrow_name;
use crate::record::EscrowStatus;
use vstd::prelude::*;

verus! {

/// One call of an operation that can change the state, with its inputs.
pub enum EscrowCall {
    Create { req: CreateRequest, caller: Seq<char>, sender_balance: i128 },
    Release { id: Seq<char>, caller: Seq<char> },
    Refund { id: Seq<char>, caller: Seq<char> },
    CheckTimeout { id: Seq<char> },
    InitiateDispute { id: Seq<char>, reason: Seq<char>, caller: Seq<char>, caller_balance: i128 },
    ResolveDispute { id: Seq<char>, caller: Seq<char>, for_recipient: bool },
    CheckDisputeTimeout { id: Seq<char> },
    AdminResolveDispute { id: Seq<char>, for_recipient: bool, caller: Seq<char> },
    UpdateDisputePeriod { id: Seq<char>, new_period: u64, caller: Seq<char> },
    Initialize { admin: Seq<char>, caller: Seq<char> },
    SetDisputeFee { fee: i128, caller: Seq<char> },
    TransferAdmin { new_admin: Seq<char>, caller: Seq<char> },
    SetPaused { paused: bool, caller: Seq<char> },
}

impl EscrowCall {
    /// The escrow that the call names, if it names one.
    pub open spec fn target(self) -> Option<Seq<char>> {
        match self {
            EscrowCall::Release { id, .. } => Some(id),
            EscrowCall::Refund { id, .. } => Some(id),
            EscrowCall::CheckTimeout { id } => Some(id),
            EscrowCall::InitiateDispute { id, .. } => Some(id),
            EscrowCall::ResolveDispute { id, .. } => Some(id),
            EscrowCall::CheckDisputeTimeout { id } => Some(id),
            EscrowCall::AdminResolveDispute { id, .. } => Some(id),
            EscrowCall::UpdateDisputePeriod { id, .. } => Some(id),
            _ => None,
        }
    }
}

/// The state after `call` at clock reading `now`, or why it is refused.
pub open spec fn apply(s: EscrowState, call: EscrowCall, now: u64) -> Result<
    EscrowState,
    EscrowError,
> {
    match call {
        EscrowCall::Create { req, caller, sender_balance } => s.create_step(
            req,
            caller,
            sender_balance,
            now,
        ),
        EscrowCall::Release { id, caller } => s.release_step(id, caller),
        EscrowCall::Refund { id, caller } => s.refund_step(id, caller),
        EscrowCall::CheckTimeout { id } => s.check_timeout_step(id, now),
        EscrowCall::InitiateDispute { id, reason, caller, caller_balance } => s.initiate_dispute_step(
            id,
            reason,
            caller,
            caller_balance,
            now,
        ),
        EscrowCall::ResolveDispute { id, caller, for_recipient } => s.resolve_step(
            id,
            caller,
            now,
            for_recipient,
        ),
        EscrowCall::CheckDisputeTimeout { id } => s.check_dispute_timeout_step(id, now),
        EscrowCall::AdminResolveDispute { id, for_recipient, caller } => s.admin_resolve_step(
            id,
            for_recipient,
            caller,
        ),
        EscrowCall::UpdateDisputePeriod { id, new_period, caller } => s.update_dispute_period_step(
            id,
            new_period,
            caller,
        ),
        EscrowCall::Initialize { admin, caller } => s.initialize_step(admin, caller),
        EscrowCall::SetDisputeFee { fee, caller } => s.set_dispute_fee_step(fee, caller),
        EscrowCall::TransferAdmin { new_admin, caller } => s.transfer_admin_step(new_admin, caller),
        EscrowCall::SetPaused { paused, caller } => s.set_paused_step(paused, caller),
    }
}

/// What `call` moves into custody of `token` (negative: out of it), apart
/// from dispute fees: an escrow's amount in when it is created, out when
/// it is settled.
pub open spec fn custody_change(s: EscrowState, call: EscrowCall, token: Seq<char>) -> int {
    match call {
        EscrowCall::Create { req, .. } => if req.token == token {
            req.amount as int
        } else {
            0
        },
        EscrowCall::Release { id, .. } => -stake(s.record(id), token),
        EscrowCall::Refund { id, .. } => -stake(s.record(id), token),
        EscrowCall::CheckTimeout { id } => -stake(s.record(id), token),
        EscrowCall::ResolveDispute { id, .. } => -stake(s.record(id), token),
        EscrowCall::CheckDisputeTimeout { id } => -stake(s.record(id), token),
        EscrowCall::AdminResolveDispute { id, .. } => -stake(s.record(id), token),
        _ => 0,
    }
}

/// Every operation that succeeds leaves a well-formed state, keeps every
/// record that was there under its name, and adds at most one.
pub proof fn law_well_formed_forever(s: EscrowState, call: EscrowCall, now: u64)
    requires
        s.wf(),
    ensures
        apply(s, call, now) matches Ok(post) ==> post.wf() && post.escrows.len() >= s.escrows.len()
            && forall|i: int|
            0 <= i < s.escrows.len() ==> (#[trigger] post.escrows[i]).id == s.escrows[i].id,
{
    match call {
        EscrowCall::Create { .. } => {},
        EscrowCall::Initialize { .. } => {},
        EscrowCall::SetDisputeFee { .. } => {},
        EscrowCall::TransferAdmin { .. } => {},
        EscrowCall::SetPaused { .. } => {},
        _ => {
            let id = call.target()->0;
            if s.exists_id(id) {
                s.lemma_found(id);
            }
        },
    }
}

/// A new escrow is found under its name, active and undisputed, and the
/// funds in custody for its token grow by exactly its amount.
pub proof fn law_created_escrow_is_active(
    s: EscrowState,
    req: CreateRequest,
    caller: Seq<char>,
    sender_balance: i128,
    now: u64,
    token: Seq<char>,
)
    requires
        s.wf(),
        s.create_step(req, caller, sender_balance, now) is Ok,
    ensures
        ({
            let post = s.create_step(req, caller, sender_balance, now)->Ok_0;
            let name = escrow_name(s.escrows.len());
            &&& post.wf()
            &&& post.exists_id(name)
            &&& post.record(name) == s.created_record(req, now)
            &&& post.record(name).status == EscrowStatus::Active
            &&& !post.record(name).has_dispute()
            &&& post.record(name).amount == req.amount
            &&& held(post.escrows, req.token) == held(s.escrows, req.token) + req.amount
            &&& token != req.token ==> held(post.escrows, token) == held(s.escrows, token)
        }),
{
    let post = s.create_step(req, caller, sender_balance, now)->Ok_0;
    post.lemma_index_of(s.escrows.len() as int);
    lemma_held_push(s.escrows, s.created_record(req, now), req.token);
    lemma_held_push(s.escrows, s.created_record(req, now), token);
}

/// A settled escrow stays as it is: no operation changes its record, and
/// every operation that names it is refused.
pub proof fn law_settled_is_final(s: EscrowState, i: int, call: EscrowCall, now: u64)
    requires
        s.wf(),
        0 <= i < s.escrows.len(),
        s.escrows[i].status.terminal(),
    ensures
        apply(s, call, now) matches Ok(post) ==> post.escrows[i] == s.escrows[i],
        call.target() == Some(s.escrows[i].id) ==> apply(s, call, now) is Err,
{
    s.lemma_index_of(i);
    match call {
        EscrowCall::Create { .. } => {},
        EscrowCall::Initialize { .. } => {},
        EscrowCall::SetDisputeFee { .. } => {},
        EscrowCall::TransferAdmin { .. } => {},
        EscrowCall::SetPaused { .. } => {},
        _ => {
            let id = call.target()->0;
            if s.exists_id(id) {
                s.lemma_found(id);
            }
        },
    }
}

/// Each escrow moves along the state machine only: an operation leaves its
/// status alone or takes it from active to disputed, released, refunded or
/// released by timeout, or from disputed to one of the two resolutions.
/// Parties, token, amount, creation time and timeout never change.
pub proof fn law_transitions(s: EscrowState, i: int, call: EscrowCall, now: u64)
    requires
        s.wf(),
        0 <= i < s.escrows.len(),
    ensures
        apply(s, call, now) matches Ok(post) ==> {
            let before = s.escrows[i];
            let after = post.escrows[i];
            &&& after.sender == before.sender
            &&& after.recipient == before.recipient
            &&& after.token == before.token
            &&& after.amount == before.amount
            &&& after.created_at == before.created_at
            &&& after.timeout_duration == before.timeout_duration
            &&& after.status != before.status ==> allowed_transition(before.status, after.status)
            &&& after.dispute_period != before.dispute_period ==> before.status
                == EscrowStatus::Active && after.status == EscrowStatus::Active
        },
{
    s.lemma_index_of(i);
    match call {
        EscrowCall::Create { .. } => {},
        EscrowCall::Initialize { .. } => {},
        EscrowCall::SetDisputeFee { .. } => {},
        EscrowCall::TransferAdmin { .. } => {},
        EscrowCall::SetPaused { .. } => {},
        _ => {
            let id = call.target()->0;
            if s.exists_id(id) {
                s.lemma_found(id);
            }
        },
    }
}

/// The arrows of the state machine.
pub open spec fn allowed_transition(from: EscrowStatus, to: EscrowStatus) -> bool {
    ||| from == EscrowStatus::Active && (to == EscrowStatus::Disputed || to
        == EscrowStatus::Released || to == EscrowStatus::Refunded || to
        == EscrowStatus::AutoReleased)
    ||| from == EscrowStatus::Disputed && (to == EscrowStatus::DisputeResolvedForRecipient || to
        == EscrowStatus::DisputeResolvedForSender)
}

/// A dispute is opened at most once: on an escrow that was ever disputed,
/// resolved or not, opening another is refused as already initiated by an
/// engine that is not paused, and no operation makes the dispute go away
/// or changes it.
pub proof fn law_dispute_only_once(
    s: EscrowState,
    i: int,
    reason: Seq<char>,
    caller: Seq<char>,
    caller_balance: i128,
    call: EscrowCall,
    now: u64,
)
    requires
        s.wf(),
        0 <= i < s.escrows.len(),
        s.escrows[i].has_dispute(),
    ensures
        !s.paused ==> s.initiate_dispute_step(s.escrows[i].id, reason, caller, caller_balance, now)
            == Err::<EscrowState, EscrowError>(EscrowError::DisputeAlreadyInitiated),
        s.initiate_dispute_step(s.escrows[i].id, reason, caller, caller_balance, now) is Err,
        apply(s, call, now) matches Ok(post) ==> post.escrows[i].dispute == s.escrows[i].dispute,
{
    s.lemma_index_of(i);
    match call {
        EscrowCall::Create { .. } => {},
        EscrowCall::Initialize { .. } => {},
        EscrowCall::SetDisputeFee { .. } => {},
        EscrowCall::TransferAdmin { .. } => {},
        EscrowCall::SetPaused { .. } => {},
        _ => {
            let id = call.target()->0;
            if s.exists_id(id) {
                s.lemma_found(id);
            }
        },
    }
}

/// Conservation: after every operation that succeeds, what the escrows
/// keep in custody of a token has changed by exactly what the operation
/// moves. A release, a refund, a release by timeout and a resolution move
/// the escrow's whole amount out, a creation moves it in, and nothing else
/// moves escrowed funds.
pub proof fn law_custody_is_conserved(s: EscrowState, call: EscrowCall, now: u64, token: Seq<char>)
    requires
        s.wf(),
    ensures
        apply(s, call, now) matches Ok(post) ==> held(post.escrows, token) == held(
            s.escrows,
            token,
        ) + custody_change(s, call, token),
        apply(s, call, now) is Ok && call.target() is Some && custody_change(s, call, token) != 0
            ==> token == s.record(call.target()->0).token && custody_change(s, call, token)
            == -s.record(call.target()->0).amount,
{
    match call {
        EscrowCall::Create { req, .. } => {
            lemma_held_push(s.escrows, s.created_record(req, now), token);
        },
        EscrowCall::Initialize { .. } => {},
        EscrowCall::SetDisputeFee { .. } => {},
        EscrowCall::TransferAdmin { .. } => {},
        EscrowCall::SetPaused { .. } => {},
        _ => {
            let id = call.target()->0;
            if s.exists_id(id) {
                s.lemma_found(id);
                if let Ok(post) = apply(s, call, now) {
                    let k = s.index_of(id);
                    lemma_held_update(s.escrows, k, post.escrows[k], token);
                    assert(post.escrows =~= s.escrows.update(k, post.escrows[k]));
                }
            }
        },
    }
}

/// The timeout boundary is inclusive: on an active escrow the release by
/// timeout is refused as long as `now` is before creation time plus
/// timeout duration, and from that instant on it succeeds and leaves the
/// escrow released by timeout.
pub proof fn law_timeout_boundary(s: EscrowState, i: int, now: u64)
    requires
        s.wf(),
        0 <= i < s.escrows.len(),
        s.escrows[i].status == EscrowStatus::Active,
    ensures
        now < s.escrows[i].created_at + s.escrows[i].timeout_duration ==> s.check_timeout_step(
            s.escrows[i].id,
            now,
        ) == Err::<EscrowState, EscrowError>(EscrowError::NotTimedOut),
        now >= s.escrows[i].created_at + s.escrows[i].timeout_duration ==> s.check_timeout_step(
            s.escrows[i].id,
            now,
        ) == Ok::<EscrowState, EscrowError>(
            s.with_record(i, s.escrows[i].with_status(EscrowStatus::AutoReleased)),
        ),
{
    s.lemma_index_of(i);
}

/// A call together with the clock reading at which it is made.
pub struct TimedCall {
    pub call: EscrowCall,
    pub now: u64,
}

/// The state after `calls` are made in order on `s`. A call that is refused
/// leaves the state as it was.
pub open spec fn run(s: EscrowState, calls: Seq<TimedCall>) -> EscrowState
    decreases calls.len(),
{
    if calls.len() == 0 {
        s
    } else {
        let before = run(s, calls.drop_last());
        match apply(before, calls.last().call, calls.last().now) {
            Ok(after) => after,
            Err(_) => before,
        }
    }
}

/// What the calls that succeed among `calls`, made in order on `s`, move
/// into custody of `token`, less what they move out of it.
pub open spec fn moved(s: EscrowState, calls: Seq<TimedCall>, token: Seq<char>) -> int
    decreases calls.len(),
{
    if calls.len() == 0 {
        0
    } else {
        let before = run(s, calls.drop_last());
        moved(s, calls.drop_last(), token) + if apply(
            before,
            calls.last().call,
            calls.last().now,
        ) is Ok {
            custody_change(before, calls.last().call, token)
        } else {
            0
        }
    }
}

/// The invariants. At every point of every history of calls on a
/// well-formed state, the state is well formed, every escrow that was
/// settled at the start is still the same record, and the escrowed funds in
/// custody of each token are those at the start plus all that was moved in
/// less all that was moved out. For an engine that starts without escrows,
/// custody is exactly the sum of the amounts of the escrows that are still
/// active or disputed.
pub proof fn law_invariants_hold_throughout(s: EscrowState, calls: Seq<TimedCall>, token: Seq<char>)
    requires
        s.wf(),
    ensures
        run(s, calls).wf(),
        run(s, calls).escrows.len() >= s.escrows.len(),
        forall|i: int|
            0 <= i < s.escrows.len() && (#[trigger] s.escrows[i]).status.terminal() ==> run(
                s,
                calls,
            ).escrows[i] == s.escrows[i],
        held(run(s, calls).escrows, token) == held(s.escrows, token) + moved(s, calls, token),
        s.escrows.len() == 0 ==> held(run(s, calls).escrows, token) == moved(s, calls, token),
    decreases calls.len(),
{
    if calls.len() > 0 {
        let before = run(s, calls.drop_last());
        let last = calls.last();
        law_invariants_hold_throughout(s, calls.drop_last(), token);
        law_well_formed_forever(before, last.call, last.now);
        law_custody_is_conserved(before, last.call, last.now, token);
        assert forall|i: int|
            0 <= i < s.escrows.len() && (#[trigger] s.escrows[i]).status.terminal() implies run(
            s,
            calls,
        ).escrows[i] == s.escrows[i] by {
            law_settled_is_final(before, i, last.call, last.now);
        }
    }
}

} // verus!
