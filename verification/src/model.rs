//! The escrow engine as a mathematical state machine: the state, and for
//! each operation the function from state and inputs to the next state or
//! the failure. The executable engine is proved against these functions.

use crate::errors::EscrowError;
use crate::naming::{escrow_name, lemma_escrow_name_injective, MAX_ESCROWS};
use crate::record::{
    elapsed, DisputePolicy, DisputeRecord, EscrowRecord, EscrowStatus, ExpiryPolicy,
};
use vstd::prelude::*;

verus! {

/// Everything the escrow engine remembers.
pub struct EscrowState {
    /// The admin, once appointed.
    pub admin: Option<Seq<char>>,
    /// What opening a dispute costs.
    pub dispute_fee: i128,
    /// Whether new escrows and new disputes are refused.
    pub paused: bool,
    /// Who may open a dispute.
    pub dispute_policy: DisputePolicy,
    /// For whom an expired dispute is resolved.
    pub expiry_policy: ExpiryPolicy,
    /// Every escrow ever created, in order of creation.
    pub escrows: Seq<EscrowRecord>,
}

/// The parameters of a new escrow.
pub struct CreateRequest {
    pub sender: Seq<char>,
    pub recipient: Seq<char>,
    pub token: Seq<char>,
    pub amount: i128,
    pub timeout_duration: u64,
    pub dispute_period: u64,
}

impl EscrowState {
    /// What holds of every state the engine reaches: the fee is not
    /// negative, every record is well formed, and record number `i` is
    /// named `escrow_i`.
    pub open spec fn wf(self) -> bool {
        &&& self.dispute_fee >= 0
        &&& self.escrows.len() <= MAX_ESCROWS
        &&& forall|i: int|
            0 <= i < self.escrows.len() ==> (#[trigger] self.escrows[i]).wf() && self.escrows[i].id
                == escrow_name(i as nat)
    }

    /// Whether some record is named `id`.
    pub open spec fn exists_id(self, id: Seq<char>) -> bool {
        exists|i: int| 0 <= i < self.escrows.len() && (#[trigger] self.escrows[i]).id == id
    }

    /// The number of the record named `id`.
    pub open spec fn index_of(self, id: Seq<char>) -> int {
        choose|i: int| 0 <= i < self.escrows.len() && (#[trigger] self.escrows[i]).id == id
    }

    /// The record named `id`.
    pub open spec fn record(self, id: Seq<char>) -> EscrowRecord {
        self.escrows[self.index_of(id)]
    }

    /// The state with record number `i` replaced.
    pub open spec fn with_record(self, i: int, r: EscrowRecord) -> EscrowState {
        EscrowState { escrows: self.escrows.update(i, r), ..self }
    }

    /// The state with the record named `id` moved to `status`.
    pub open spec fn settled(self, id: Seq<char>, status: EscrowStatus) -> EscrowState {
        self.with_record(self.index_of(id), self.record(id).with_status(status))
    }

    /// The first reason to refuse a new escrow, if there is one.
    pub open spec fn create_refusal(
        self,
        req: CreateRequest,
        caller: Seq<char>,
        sender_balance: i128,
        now: u64,
    ) -> Option<EscrowError> {
        if self.paused {
            Some(EscrowError::ContractPaused)
        } else if req.amount <= 0 {
            Some(EscrowError::InvalidAmount)
        } else if req.timeout_duration == 0 {
            Some(EscrowError::ZeroTimeout)
        } else if req.dispute_period == 0 {
            Some(EscrowError::ZeroDisputePeriod)
        } else if req.timeout_duration < req.dispute_period {
            Some(EscrowError::DisputePeriodExceedsTimeout)
        } else if req.sender == req.recipient {
            Some(EscrowError::SameParty)
        } else if caller != req.sender {
            Some(EscrowError::Unauthorized)
        } else if sender_balance < req.amount {
            Some(EscrowError::InsufficientBalance)
        } else if now + req.timeout_duration > u64::MAX {
            Some(EscrowError::TimeoutOverflow)
        } else if self.escrows.len() >= MAX_ESCROWS {
            Some(EscrowError::CapacityExhausted)
        } else {
            None
        }
    }

    /// The record that `create` adds.
    pub open spec fn created_record(self, req: CreateRequest, now: u64) -> EscrowRecord {
        EscrowRecord {
            id: escrow_name(self.escrows.len()),
            sender: req.sender,
            recipient: req.recipient,
            token: req.token,
            amount: req.amount,
            created_at: now,
            timeout_duration: req.timeout_duration,
            dispute_period: req.dispute_period,
            status: EscrowStatus::Active,
            dispute: None,
        }
    }

    /// Creating an escrow: the checks in the order they are made, then the
    /// new record at the end of the list.
    pub open spec fn create_step(
        self,
        req: CreateRequest,
        caller: Seq<char>,
        sender_balance: i128,
        now: u64,
    ) -> Result<EscrowState, EscrowError> {
        match self.create_refusal(req, caller, sender_balance, now) {
            Some(e) => Err(e),
            None => Ok(
                EscrowState { escrows: self.escrows.push(self.created_record(req, now)), ..self },
            ),
        }
    }

    /// Release by the sender: the escrow must exist, be active, and the
    /// caller must be its sender.
    pub open spec fn release_step(self, id: Seq<char>, caller: Seq<char>) -> Result<
        EscrowState,
        EscrowError,
    > {
        if !self.exists_id(id) {
            Err(EscrowError::NotFound)
        } else if self.record(id).status != EscrowStatus::Active {
            Err(EscrowError::NotActive)
        } else if caller != self.record(id).sender {
            Err(EscrowError::Unauthorized)
        } else {
            Ok(self.settled(id, EscrowStatus::Released))
        }
    }

    /// Refund to the sender: same conditions as a release.
    pub open spec fn refund_step(self, id: Seq<char>, caller: Seq<char>) -> Result<
        EscrowState,
        EscrowError,
    > {
        if !self.exists_id(id) {
            Err(EscrowError::NotFound)
        } else if self.record(id).status != EscrowStatus::Active {
            Err(EscrowError::NotActive)
        } else if caller != self.record(id).sender {
            Err(EscrowError::Unauthorized)
        } else {
            Ok(self.settled(id, EscrowStatus::Refunded))
        }
    }

    /// Release by timeout: open to any caller once `now` has reached
    /// creation time plus timeout duration.
    pub open spec fn check_timeout_step(self, id: Seq<char>, now: u64) -> Result<
        EscrowState,
        EscrowError,
    > {
        if !self.exists_id(id) {
            Err(EscrowError::NotFound)
        } else if self.record(id).status != EscrowStatus::Active {
            Err(EscrowError::NotActive)
        } else if !elapsed(self.record(id).created_at, self.record(id).timeout_duration, now) {
            Err(EscrowError::NotTimedOut)
        } else {
            Ok(self.settled(id, EscrowStatus::AutoReleased))
        }
    }

    /// Whether `caller` may open a dispute on the escrow named `id`: the
    /// sender may, and under `EitherParty` the recipient too.
    pub open spec fn may_dispute(self, id: Seq<char>, caller: Seq<char>) -> bool {
        caller == self.record(id).sender || (self.dispute_policy == DisputePolicy::EitherParty
            && caller == self.record(id).recipient)
    }

    /// The dispute that `initiate_dispute` records.
    pub open spec fn opened_dispute(
        self,
        id: Seq<char>,
        reason: Seq<char>,
        caller: Seq<char>,
        now: u64,
    ) -> DisputeRecord {
        DisputeRecord {
            initiated_by: caller,
            initiated_at: now,
            dispute_period: self.record(id).dispute_period,
            reason,
        }
    }

    /// Opening a dispute, by a party that the dispute policy admits, who
    /// pays the dispute fee. That a dispute exists is tested before the
    /// status, so an escrow that was disputed once reports that, whatever
    /// became of it.
    pub open spec fn initiate_dispute_step(
        self,
        id: Seq<char>,
        reason: Seq<char>,
        caller: Seq<char>,
        caller_balance: i128,
        now: u64,
    ) -> Result<EscrowState, EscrowError> {
        if self.paused {
            Err(EscrowError::ContractPaused)
        } else if !self.exists_id(id) {
            Err(EscrowError::NotFound)
        } else if self.record(id).has_dispute() {
            Err(EscrowError::DisputeAlreadyInitiated)
        } else if self.record(id).status != EscrowStatus::Active {
            Err(EscrowError::NotActive)
        } else if !self.may_dispute(id, caller) {
            Err(EscrowError::Unauthorized)
        } else if self.dispute_fee > 0 && caller_balance < self.dispute_fee {
            Err(EscrowError::InsufficientBalanceForFee)
        } else {
            Ok(
                self.with_record(
                    self.index_of(id),
                    self.record(id).with_dispute(self.opened_dispute(id, reason, caller, now)),
                ),
            )
        }
    }

    /// The state a dispute is resolved into.
    pub open spec fn resolved_status(for_recipient: bool) -> EscrowStatus {
        if for_recipient {
            EscrowStatus::DisputeResolvedForRecipient
        } else {
            EscrowStatus::DisputeResolvedForSender
        }
    }

    /// Resolving a dispute for one party. While the dispute window is open
    /// the caller must be the sender; once it has closed anyone may call.
    pub open spec fn resolve_step(
        self,
        id: Seq<char>,
        caller: Seq<char>,
        now: u64,
        for_recipient: bool,
    ) -> Result<EscrowState, EscrowError> {
        if !self.exists_id(id) {
            Err(EscrowError::NotFound)
        } else if self.record(id).status != EscrowStatus::Disputed {
            Err(EscrowError::NotDisputed)
        } else if self.record(id).dispute->0.window_open(now) && caller != self.record(id).sender {
            Err(EscrowError::Unauthorized)
        } else {
            Ok(self.settled(id, Self::resolved_status(for_recipient)))
        }
    }

    /// The state an expired dispute is resolved into.
    pub open spec fn expiry_status(self) -> EscrowStatus {
        Self::resolved_status(self.expiry_policy == ExpiryPolicy::FavorRecipient)
    }

    /// Resolution by expiry of the dispute window, for the party that the
    /// expiry policy names.
    pub open spec fn check_dispute_timeout_step(self, id: Seq<char>, now: u64) -> Result<
        EscrowState,
        EscrowError,
    > {
        if !self.exists_id(id) {
            Err(EscrowError::NotFound)
        } else if self.record(id).status != EscrowStatus::Disputed {
            Err(EscrowError::NotDisputed)
        } else if self.record(id).dispute->0.window_open(now) {
            Err(EscrowError::DisputePeriodNotExpired)
        } else {
            Ok(self.settled(id, self.expiry_status()))
        }
    }

    /// The first reason to refuse an admin operation from `caller`.
    pub open spec fn admin_refusal(self, caller: Seq<char>) -> Option<EscrowError> {
        match self.admin {
            None => Some(EscrowError::NotInitialized),
            Some(a) => if caller != a {
                Some(EscrowError::Unauthorized)
            } else {
                None
            },
        }
    }

    /// Resolution by the admin, whatever the dispute window says.
    pub open spec fn admin_resolve_step(
        self,
        id: Seq<char>,
        for_recipient: bool,
        caller: Seq<char>,
    ) -> Result<EscrowState, EscrowError> {
        if let Some(e) = self.admin_refusal(caller) {
            Err(e)
        } else if !self.exists_id(id) {
            Err(EscrowError::NotFound)
        } else if self.record(id).status != EscrowStatus::Disputed {
            Err(EscrowError::NotDisputed)
        } else {
            Ok(self.settled(id, Self::resolved_status(for_recipient)))
        }
    }

    /// Changing the dispute period: by the sender, while the escrow is
    /// active and undisputed, to a period that is positive and no longer
    /// than the timeout.
    pub open spec fn update_dispute_period_step(
        self,
        id: Seq<char>,
        new_period: u64,
        caller: Seq<char>,
    ) -> Result<EscrowState, EscrowError> {
        if !self.exists_id(id) {
            Err(EscrowError::NotFound)
        } else if caller != self.record(id).sender {
            Err(EscrowError::Unauthorized)
        } else if self.record(id).status != EscrowStatus::Active {
            Err(EscrowError::NotActive)
        } else if self.record(id).has_dispute() {
            Err(EscrowError::DisputeAlreadyInitiated)
        } else if new_period == 0 {
            Err(EscrowError::ZeroDisputePeriod)
        } else if self.record(id).timeout_duration < new_period {
            Err(EscrowError::DisputePeriodExceedsTimeout)
        } else {
            Ok(
                self.with_record(
                    self.index_of(id),
                    self.record(id).with_dispute_period(new_period),
                ),
            )
        }
    }

    /// Appointing the first admin, who must be the caller. The fee starts at zero.
    pub open spec fn initialize_step(self, admin: Seq<char>, caller: Seq<char>) -> Result<
        EscrowState,
        EscrowError,
    > {
        if self.admin is Some {
            Err(EscrowError::AlreadyInitialized)
        } else if caller != admin {
            Err(EscrowError::Unauthorized)
        } else {
            Ok(EscrowState { admin: Some(admin), dispute_fee: 0, ..self })
        }
    }

    /// Setting the dispute fee, by the admin.
    pub open spec fn set_dispute_fee_step(self, fee: i128, caller: Seq<char>) -> Result<
        EscrowState,
        EscrowError,
    > {
        if let Some(e) = self.admin_refusal(caller) {
            Err(e)
        } else if fee < 0 {
            Err(EscrowError::NegativeFee)
        } else {
            Ok(EscrowState { dispute_fee: fee, ..self })
        }
    }

    /// Handing the admin role on, by the admin.
    pub open spec fn transfer_admin_step(self, new_admin: Seq<char>, caller: Seq<char>) -> Result<
        EscrowState,
        EscrowError,
    > {
        if let Some(e) = self.admin_refusal(caller) {
            Err(e)
        } else {
            Ok(EscrowState { admin: Some(new_admin), ..self })
        }
    }

    /// Pausing and resuming, by the admin.
    pub open spec fn set_paused_step(self, paused: bool, caller: Seq<char>) -> Result<
        EscrowState,
        EscrowError,
    > {
        if let Some(e) = self.admin_refusal(caller) {
            Err(e)
        } else {
            Ok(EscrowState { paused, ..self })
        }
    }

    /// Whether a dispute can be opened on the escrow named `id`.
    pub open spec fn can_dispute(self, id: Seq<char>) -> bool {
        self.record(id).status == EscrowStatus::Active && !self.record(id).has_dispute()
    }

    /// In a well-formed state a name belongs to one record only, the one
    /// whose number it holds.
    pub proof fn lemma_index_of(self, i: int)
        requires
            self.wf(),
            0 <= i < self.escrows.len(),
        ensures
            self.exists_id(self.escrows[i].id),
            self.index_of(self.escrows[i].id) == i,
            self.record(self.escrows[i].id) == self.escrows[i],
    {
        let id = self.escrows[i].id;
        let j = self.index_of(id);
        assert(self.escrows[j].wf());
        assert(self.escrows[i].wf());
        lemma_escrow_name_injective(i as nat, j as nat);
    }

    /// A name that some record has is the name of the record at `index_of`.
    pub proof fn lemma_found(self, id: Seq<char>)
        requires
            self.wf(),
            self.exists_id(id),
        ensures
            0 <= self.index_of(id) < self.escrows.len(),
            self.escrows[self.index_of(id)].id == id,
            self.record(id).wf(),
            id == escrow_name(self.index_of(id) as nat),
    {
    }
}

/// What record `r` keeps in custody of `token`: its amount while it is
/// active or disputed, nothing once it is settled.
pub open spec fn stake(r: EscrowRecord, token: Seq<char>) -> int {
    if r.token == token && r.holds_funds() {
        r.amount as int
    } else {
        0
    }
}

/// What the records keep in custody of `token`, all together.
pub open spec fn held(escrows: Seq<EscrowRecord>, token: Seq<char>) -> int
    decreases escrows.len(),
{
    if escrows.len() == 0 {
        0
    } else {
        held(escrows.drop_last(), token) + stake(escrows.last(), token)
    }
}

/// Adding a record adds its stake.
pub proof fn lemma_held_push(escrows: Seq<EscrowRecord>, r: EscrowRecord, token: Seq<char>)
    ensures
        held(escrows.push(r), token) == held(escrows, token) + stake(r, token),
{
    assert(escrows.push(r).drop_last() =~= escrows);
}

/// Replacing a record replaces its stake.
pub proof fn lemma_held_update(escrows: Seq<EscrowRecord>, i: int, r: EscrowRecord, token: Seq<char>)
    requires
        0 <= i < escrows.len(),
    ensures
        held(escrows.update(i, r), token) == held(escrows, token) - stake(escrows[i], token)
            + stake(r, token),
    decreases escrows.len(),
{
    let updated = escrows.update(i, r);
    if i == escrows.len() - 1 {
        assert(updated.drop_last() =~= escrows.drop_last());
    } else {
        assert(updated.drop_last() =~= escrows.drop_last().update(i, r));
        lemma_held_update(escrows.drop_last(), i, r, token);
    }
}

} // verus!
