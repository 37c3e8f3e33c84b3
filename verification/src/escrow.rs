//! The escrow engine: creation, settlement, disputes, queries and the
//! admin gate.
//!
//! The engine never reads a clock, checks a signature or moves a token.
//! The host passes in the caller it has authenticated, the clock reading
//! and the balance it has looked up; the engine answers with the new
//! state, the movement of funds to carry out and the event to publish.
//! A host that can be re-entered during a transfer stores the new state
//! before it carries out the movement.
//!
//! Two policies are fixed when an engine is made. The dispute policy says
//! who may open a dispute: the sender only, or either party. The expiry
//! policy says for whom `check_dispute_timeout` resolves a dispute whose
//! window has closed. `new` makes an engine in which only the sender
//! disputes and expiry favours the recipient.

use crate::errors::EscrowError;
use crate::model::{held, lemma_held_push, lemma_held_update, CreateRequest, EscrowState};
use crate::naming::{escrow_name, format_escrow_name, MAX_ESCROWS};
use crate::principal::Principal;
use crate::record::{
    dispute_view, timeout_reached, DisputeInfo, DisputePolicy, EscrowConfig, EscrowInfo,
    EscrowRecord, EscrowStatus, ExpiryPolicy,
};
use vstd::prelude::*;

verus! {

/// A movement of an escrow's `amount` of its `token`, into or out of custody.
#[derive(Clone, Copy, Debug, PartialEq, Eq, Structural)]
pub enum Movement {
    /// From the sender into custody.
    DepositFromSender,
    /// From custody to the recipient.
    PayoutToRecipient,
    /// From custody back to the sender.
    PayoutToSender,
}

/// The topic under which the escrow engine's events are published.
pub const ESCROW_TOPIC: &'static str = "ESCROW";

/// The event that an operation has the host publish, under `ESCROW_TOPIC`
/// and with the outcome's `info` as its payload.
#[derive(Clone, Copy, Debug, PartialEq, Eq, Structural)]
pub enum EscrowEventKind {
    Created,
    Released,
    DisputeInitiated,
    DisputeResolvedForRecipient,
    DisputeResolvedForSender,
}

/// What a successful operation hands back to the host.
#[derive(Debug, PartialEq, Eq)]
pub struct EscrowOutcome {
    /// The escrow after the operation.
    pub info: EscrowInfo,
    /// The movement of the escrowed amount to carry out, if any.
    pub movement: Option<Movement>,
    /// The dispute fee to pull into custody from the party that opened the
    /// dispute; zero for none.
    pub fee_charged: i128,
    /// The event to publish, if any.
    pub event: Option<EscrowEventKind>,
}

/// The escrow engine's state. Make one with `new`, or from stored parts
/// that satisfy `EscrowState::wf`.
#[derive(Debug, PartialEq, Eq)]
pub struct EscrowContract {
    /// The admin, once appointed.
    pub admin: Option<Principal>,
    /// What opening a dispute costs.
    pub dispute_fee: i128,
    /// Whether new escrows and new disputes are refused.
    pub paused: bool,
    /// Who may open a dispute.
    pub dispute_policy: DisputePolicy,
    /// For whom an expired dispute is resolved.
    pub expiry_policy: ExpiryPolicy,
    /// Every escrow ever created, in order of creation.
    pub escrows: Vec<EscrowConfig>,
}

/// The admin as the model sees it.
pub open spec fn admin_view(a: Option<Principal>) -> Option<Seq<char>> {
    match a {
        Some(p) => Some(p@),
        None => None,
    }
}

impl View for EscrowContract {
    type V = EscrowState;

    open spec fn view(&self) -> EscrowState {
        EscrowState {
            admin: admin_view(self.admin),
            dispute_fee: self.dispute_fee,
            paused: self.paused,
            dispute_policy: self.dispute_policy,
            expiry_policy: self.expiry_policy,
            escrows: self.escrows@.map_values(|c: EscrowConfig| c@),
        }
    }
}

/// The model's answer that corresponds to an operation's result and the
/// state it left behind.
pub open spec fn step_result<T>(res: Result<T, EscrowError>, post: EscrowState) -> Result<
    EscrowState,
    EscrowError,
> {
    match res {
        Ok(_) => Ok(post),
        Err(e) => Err(e),
    }
}

impl EscrowContract {
    /// An engine without admin, fee or escrows, not paused, in which only
    /// the sender opens disputes and an expired dispute goes to the recipient.
    pub fn new() -> (engine: EscrowContract)
        ensures
            engine@ == Self::initial(DisputePolicy::SenderOnly, ExpiryPolicy::FavorRecipient),
            engine@.wf(),
    {
        Self::with_policies(DisputePolicy::SenderOnly, ExpiryPolicy::FavorRecipient)
    }

    /// The state of an engine that has not been used.
    pub open spec fn initial(dispute_policy: DisputePolicy, expiry_policy: ExpiryPolicy) -> EscrowState {
        EscrowState {
            admin: None,
            dispute_fee: 0,
            paused: false,
            dispute_policy,
            expiry_policy,
            escrows: Seq::empty(),
        }
    }

    /// An engine without admin, fee or escrows, not paused, with the two
    /// policies given.
    pub fn with_policies(dispute_policy: DisputePolicy, expiry_policy: ExpiryPolicy) -> (engine:
        EscrowContract)
        ensures
            engine@ == Self::initial(dispute_policy, expiry_policy),
            engine@.wf(),
    {
        let engine = EscrowContract {
            admin: None,
            dispute_fee: 0,
            paused: false,
            dispute_policy,
            expiry_policy,
            escrows: Vec::new(),
        };
        proof {
            assert(engine@.escrows =~= Seq::empty());
        }
        engine
    }

    /// Whether the state is one the engine could have reached. A host that
    /// restores an engine from storage tests this before it calls anything
    /// else.
    pub fn is_well_formed(&self) -> (b: bool)
        ensures
            b == self@.wf(),
    {
        if self.dispute_fee < 0 || self.escrows.len() > MAX_ESCROWS as usize {
            return false;
        }
        let mut i: usize = 0;
        while i < self.escrows.len()
            invariant
                i <= self.escrows.len(),
                self.escrows.len() <= MAX_ESCROWS,
                forall|j: int|
                    0 <= j < i ==> (#[trigger] self@.escrows[j]).wf() && self@.escrows[j].id
                        == escrow_name(j as nat),
            decreases self.escrows.len() - i,
        {
            if !self.escrows[i].is_well_formed() {
                return false;
            }
            let name = format_escrow_name(i as u32);
            if !(self.escrows[i].id == name) {
                proof {
                    assert(self@.escrows[i as int].id != escrow_name(i as nat));
                }
                return false;
            }
            i += 1;
        }
        true
    }

    /// The number of the record named `escrow_id`.
    fn find(&self, escrow_id: &str) -> (r: Option<usize>)
        requires
            self@.wf(),
        ensures
            r is Some == self@.exists_id(escrow_id@),
            r matches Some(i) ==> i < self.escrows.len() && self@.index_of(escrow_id@) == i,
    {
        let key = escrow_id.to_owned();
        let mut i: usize = 0;
        while i < self.escrows.len()
            invariant
                i <= self.escrows.len(),
                key@ == escrow_id@,
                self@.wf(),
                forall|j: int| 0 <= j < i ==> (#[trigger] self@.escrows[j]).id != escrow_id@,
            decreases self.escrows.len() - i,
        {
            if self.escrows[i].id == key {
                proof {
                    self@.lemma_index_of(i as int);
                }
                return Some(i);
            }
            i += 1;
        }
        None
    }

    /// Moves record `i` to `status` and reports it.
    fn settle(
        &mut self,
        i: usize,
        status: EscrowStatus,
        movement: Movement,
        event: Option<EscrowEventKind>,
    ) -> (out: EscrowOutcome)
        requires
            old(self)@.wf(),
            i < old(self).escrows.len(),
            old(self)@.escrows[i as int].with_status(status).wf(),
            old(self)@.escrows[i as int].holds_funds(),
            status.terminal(),
            movement != Movement::DepositFromSender,
        ensures
            final(self)@.wf(),
            final(self)@ == old(self)@.with_record(
                i as int,
                old(self)@.escrows[i as int].with_status(status),
            ),
            out.info.describes(final(self)@.escrows[i as int]),
            out.movement == Some(movement),
            out.fee_charged == 0,
            out.event == event,
            conserves(old(self)@, final(self)@, out),
    {
        self.escrows[i].status = status;
        proof {
            let before = old(self)@.escrows;
            let settled = before[i as int].with_status(status);
            assert(self@.escrows =~= before.update(i as int, settled));
            assert forall|t: Seq<char>| #[trigger]
                held(self@.escrows, t) == held(before, t) + flow(Some(movement), settled, t) by {
                lemma_held_update(before, i as int, settled, t);
            }
            self@.lemma_index_of(i as int);
        }
        let info = self.escrows[i].info();
        EscrowOutcome { info, movement: Some(movement), fee_charged: 0, event }
    }

    /// Releases the escrow to its recipient. `caller` must be the sender.
    pub fn release(&mut self, escrow_id: &str, caller: &Principal) -> (res: Result<
        EscrowOutcome,
        EscrowError,
    >)
        requires
            old(self)@.wf(),
        ensures
            final(self)@.wf(),
            old(self)@.release_step(escrow_id@, caller@) == step_result(res, final(self)@),
            res is Err ==> final(self)@ == old(self)@,
            res matches Ok(out) ==> delivered(
                old(self)@,
                final(self)@,
                out,
                escrow_id@,
                old(self)@.record(escrow_id@).with_status(EscrowStatus::Released),
                Some(Movement::PayoutToRecipient),
                0,
                Some(EscrowEventKind::Released),
            ),
    {
        let i = match self.find(escrow_id) {
            Some(i) => i,
            None => { return Err(EscrowError::NotFound); },
        };
        if !self.escrows[i].status.is_active() {
            return Err(EscrowError::NotActive);
        }
        if !caller.same(&self.escrows[i].sender) {
            return Err(EscrowError::Unauthorized);
        }
        let out = self.settle(
            i,
            EscrowStatus::Released,
            Movement::PayoutToRecipient,
            Some(EscrowEventKind::Released),
        );
        proof {
            self@.lemma_index_of(i as int);
        }
        Ok(out)
    }

    /// Returns the escrow to its sender. `caller` must be the sender.
    pub fn refund(&mut self, escrow_id: &str, caller: &Principal) -> (res: Result<
        EscrowOutcome,
        EscrowError,
    >)
        requires
            old(self)@.wf(),
        ensures
            final(self)@.wf(),
            old(self)@.refund_step(escrow_id@, caller@) == step_result(res, final(self)@),
            res is Err ==> final(self)@ == old(self)@,
            res matches Ok(out) ==> delivered(
                old(self)@,
                final(self)@,
                out,
                escrow_id@,
                old(self)@.record(escrow_id@).with_status(EscrowStatus::Refunded),
                Some(Movement::PayoutToSender),
                0,
                None,
            ),
    {
        let i = match self.find(escrow_id) {
            Some(i) => i,
            None => { return Err(EscrowError::NotFound); },
        };
        if !self.escrows[i].status.is_active() {
            return Err(EscrowError::NotActive);
        }
        if !caller.same(&self.escrows[i].sender) {
            return Err(EscrowError::Unauthorized);
        }
        let out = self.settle(i, EscrowStatus::Refunded, Movement::PayoutToSender, None);
        proof {
            self@.lemma_index_of(i as int);
        }
        Ok(out)
    }

    /// Releases the escrow to its recipient once the timeout is reached.
    /// Any caller may do so.
    pub fn check_timeout(&mut self, escrow_id: &str, now: u64) -> (res: Result<
        EscrowOutcome,
        EscrowError,
    >)
        requires
            old(self)@.wf(),
        ensures
            final(self)@.wf(),
            old(self)@.check_timeout_step(escrow_id@, now) == step_result(res, final(self)@),
            res is Err ==> final(self)@ == old(self)@,
            res matches Ok(out) ==> delivered(
                old(self)@,
                final(self)@,
                out,
                escrow_id@,
                old(self)@.record(escrow_id@).with_status(EscrowStatus::AutoReleased),
                Some(Movement::PayoutToRecipient),
                0,
                None,
            ),
    {
        let i = match self.find(escrow_id) {
            Some(i) => i,
            None => { return Err(EscrowError::NotFound); },
        };
        if !self.escrows[i].status.is_active() {
            return Err(EscrowError::NotActive);
        }
        if !timeout_reached(self.escrows[i].created_at, self.escrows[i].timeout_duration, now) {
            return Err(EscrowError::NotTimedOut);
        }
        let out = self.settle(i, EscrowStatus::AutoReleased, Movement::PayoutToRecipient, None);
        proof {
            self@.lemma_index_of(i as int);
        }
        Ok(out)
    }

    /// Creates an escrow of `amount` of `token` from `sender` for
    /// `recipient`. `caller` must be the sender and `sender_balance` the
    /// sender's balance of the token; `now` becomes the creation time.
    pub fn create(
        &mut self,
        sender: Principal,
        recipient: Principal,
        token: Principal,
        amount: i128,
        timeout_duration: u64,
        dispute_period: u64,
        caller: &Principal,
        sender_balance: i128,
        now: u64,
    ) -> (res: Result<EscrowOutcome, EscrowError>)
        requires
            old(self)@.wf(),
        ensures
            final(self)@.wf(),
            old(self)@.create_step(
                request(sender, recipient, token, amount, timeout_duration, dispute_period),
                caller@,
                sender_balance,
                now,
            ) == step_result(res, final(self)@),
            res is Err ==> final(self)@ == old(self)@,
            res matches Ok(out) ==> delivered(
                old(self)@,
                final(self)@,
                out,
                out.info.id@,
                old(self)@.created_record(
                    request(sender, recipient, token, amount, timeout_duration, dispute_period),
                    now,
                ),
                Some(Movement::DepositFromSender),
                0,
                Some(EscrowEventKind::Created),
            ),
    {
        if self.paused {
            return Err(EscrowError::ContractPaused);
        }
        if amount <= 0 {
            return Err(EscrowError::InvalidAmount);
        }
        if timeout_duration == 0 {
            return Err(EscrowError::ZeroTimeout);
        }
        if dispute_period == 0 {
            return Err(EscrowError::ZeroDisputePeriod);
        }
        if timeout_duration < dispute_period {
            return Err(EscrowError::DisputePeriodExceedsTimeout);
        }
        if sender.same(&recipient) {
            return Err(EscrowError::SameParty);
        }
        if !caller.same(&sender) {
            return Err(EscrowError::Unauthorized);
        }
        if sender_balance < amount {
            return Err(EscrowError::InsufficientBalance);
        }
        if timeout_duration > u64::MAX - now {
            return Err(EscrowError::TimeoutOverflow);
        }
        let count = self.escrows.len();
        if count >= MAX_ESCROWS as usize {
            return Err(EscrowError::CapacityExhausted);
        }
        let id = format_escrow_name(count as u32);
        let record = EscrowConfig {
            id,
            sender,
            recipient,
            token,
            amount,
            created_at: now,
            timeout_duration,
            dispute_period,
            status: EscrowStatus::Active,
            dispute: None,
        };
        let info = record.info();
        self.escrows.push(record);
        proof {
            assert(self@.escrows =~= old(self)@.escrows.push(record@));
            self@.lemma_index_of(count as int);
            assert forall|t: Seq<char>| #[trigger]
                held(self@.escrows, t) == held(old(self)@.escrows, t) + flow(
                    Some(Movement::DepositFromSender),
                    record@,
                    t,
                ) by {
                lemma_held_push(old(self)@.escrows, record@, t);
            }
        }
        Ok(
            EscrowOutcome {
                info,
                movement: Some(Movement::DepositFromSender),
                fee_charged: 0,
                event: Some(EscrowEventKind::Created),
            },
        )
    }

    /// Opens a dispute on an active escrow. `caller` must be a party that
    /// the dispute policy admits, and `caller_balance` the caller's balance
    /// of the escrow's token, out of which the dispute fee is paid.
    pub fn initiate_dispute(
        &mut self,
        escrow_id: &str,
        reason: &str,
        caller: &Principal,
        caller_balance: i128,
        now: u64,
    ) -> (res: Result<EscrowOutcome, EscrowError>)
        requires
            old(self)@.wf(),
        ensures
            final(self)@.wf(),
            old(self)@.initiate_dispute_step(escrow_id@, reason@, caller@, caller_balance, now)
                == step_result(res, final(self)@),
            res is Err ==> final(self)@ == old(self)@,
            res matches Ok(out) ==> delivered(
                old(self)@,
                final(self)@,
                out,
                escrow_id@,
                old(self)@.record(escrow_id@).with_dispute(
                    old(self)@.opened_dispute(escrow_id@, reason@, caller@, now),
                ),
                None,
                old(self)@.dispute_fee,
                Some(EscrowEventKind::DisputeInitiated),
            ),
    {
        if self.paused {
            return Err(EscrowError::ContractPaused);
        }
        let i = match self.find(escrow_id) {
            Some(i) => i,
            None => { return Err(EscrowError::NotFound); },
        };
        if self.escrows[i].has_dispute() {
            return Err(EscrowError::DisputeAlreadyInitiated);
        }
        if !self.escrows[i].status.is_active() {
            return Err(EscrowError::NotActive);
        }
        let admitted = caller.same(&self.escrows[i].sender) || (matches!(
            self.dispute_policy,
            DisputePolicy::EitherParty
        ) && caller.same(&self.escrows[i].recipient));
        if !admitted {
            return Err(EscrowError::Unauthorized);
        }
        if self.dispute_fee > 0 && caller_balance < self.dispute_fee {
            return Err(EscrowError::InsufficientBalanceForFee);
        }
        let dispute = DisputeInfo {
            initiated_by: caller.clone(),
            initiated_at: now,
            dispute_period: self.escrows[i].dispute_period,
            reason: reason.to_owned(),
        };
        let ghost opened = dispute@;
        self.escrows[i].status = EscrowStatus::Disputed;
        self.escrows[i].dispute = Some(dispute);
        proof {
            assert(self@.escrows =~= old(self)@.escrows.update(
                i as int,
                old(self)@.escrows[i as int].with_dispute(opened),
            ));
            self@.lemma_index_of(i as int);
            assert forall|t: Seq<char>| #[trigger]
                held(self@.escrows, t) == held(old(self)@.escrows, t) by {
                lemma_held_update(old(self)@.escrows, i as int, self@.escrows[i as int], t);
            }
        }
        let info = self.escrows[i].info();
        Ok(
            EscrowOutcome {
                info,
                movement: None,
                fee_charged: self.dispute_fee,
                event: Some(EscrowEventKind::DisputeInitiated),
            },
        )
    }

    /// Resolves the dispute on record `i` for one party.
    fn resolve(&mut self, i: usize, for_recipient: bool) -> (out: EscrowOutcome)
        requires
            old(self)@.wf(),
            i < old(self).escrows.len(),
            old(self)@.escrows[i as int].status == EscrowStatus::Disputed,
        ensures
            final(self)@.wf(),
            final(self)@ == old(self)@.with_record(
                i as int,
                old(self)@.escrows[i as int].with_status(EscrowState::resolved_status(for_recipient)),
            ),
            out.info.describes(final(self)@.escrows[i as int]),
            out.movement == Some(resolution_movement(for_recipient)),
            out.fee_charged == 0,
            out.event == Some(resolution_event(for_recipient)),
            conserves(old(self)@, final(self)@, out),
    {
        if for_recipient {
            self.settle(
                i,
                EscrowStatus::DisputeResolvedForRecipient,
                Movement::PayoutToRecipient,
                Some(EscrowEventKind::DisputeResolvedForRecipient),
            )
        } else {
            self.settle(
                i,
                EscrowStatus::DisputeResolvedForSender,
                Movement::PayoutToSender,
                Some(EscrowEventKind::DisputeResolvedForSender),
            )
        }
    }

    /// Whether the dispute window of record `i` is open at `now`.
    fn window_open(&self, i: usize, now: u64) -> (b: bool)
        requires
            self@.wf(),
            i < self.escrows.len(),
            self@.escrows[i as int].status == EscrowStatus::Disputed,
        ensures
            b == self@.escrows[i as int].dispute->0.window_open(now),
    {
        match &self.escrows[i].dispute {
            Some(d) => d.window_open(now),
            None => false,
        }
    }

    /// Resolves a dispute one way or the other, for a caller who is the
    /// sender or who calls after the window has closed.
    fn resolve_dispute(&mut self, escrow_id: &str, caller: &Principal, now: u64, for_recipient: bool) -> (res:
        Result<EscrowOutcome, EscrowError>)
        requires
            old(self)@.wf(),
        ensures
            final(self)@.wf(),
            old(self)@.resolve_step(escrow_id@, caller@, now, for_recipient) == step_result(
                res,
                final(self)@,
            ),
            res is Err ==> final(self)@ == old(self)@,
            res matches Ok(out) ==> delivered(
                old(self)@,
                final(self)@,
                out,
                escrow_id@,
                old(self)@.record(escrow_id@).with_status(EscrowState::resolved_status(for_recipient)),
                Some(resolution_movement(for_recipient)),
                0,
                Some(resolution_event(for_recipient)),
            ),
    {
        let i = match self.find(escrow_id) {
            Some(i) => i,
            None => { return Err(EscrowError::NotFound); },
        };
        if !matches!(self.escrows[i].status, EscrowStatus::Disputed) {
            return Err(EscrowError::NotDisputed);
        }
        if self.window_open(i, now) && !caller.same(&self.escrows[i].sender) {
            return Err(EscrowError::Unauthorized);
        }
        let out = self.resolve(i, for_recipient);
        proof {
            self@.lemma_index_of(i as int);
        }
        Ok(out)
    }

    /// Resolves the dispute for the recipient. While the dispute window is
    /// open `caller` must be the sender; afterwards anyone may call.
    pub fn resolve_dispute_for_recipient(&mut self, escrow_id: &str, caller: &Principal, now: u64) -> (res:
        Result<EscrowOutcome, EscrowError>)
        requires
            old(self)@.wf(),
        ensures
            final(self)@.wf(),
            old(self)@.resolve_step(escrow_id@, caller@, now, true) == step_result(
                res,
                final(self)@,
            ),
            res is Err ==> final(self)@ == old(self)@,
            res matches Ok(out) ==> delivered(
                old(self)@,
                final(self)@,
                out,
                escrow_id@,
                old(self)@.record(escrow_id@).with_status(EscrowStatus::DisputeResolvedForRecipient),
                Some(Movement::PayoutToRecipient),
                0,
                Some(EscrowEventKind::DisputeResolvedForRecipient),
            ),
    {
        self.resolve_dispute(escrow_id, caller, now, true)
    }

    /// Resolves the dispute for the sender. While the dispute window is
    /// open `caller` must be the sender; afterwards anyone may call.
    pub fn resolve_dispute_for_sender(&mut self, escrow_id: &str, caller: &Principal, now: u64) -> (res:
        Result<EscrowOutcome, EscrowError>)
        requires
            old(self)@.wf(),
        ensures
            final(self)@.wf(),
            old(self)@.resolve_step(escrow_id@, caller@, now, false) == step_result(
                res,
                final(self)@,
            ),
            res is Err ==> final(self)@ == old(self)@,
            res matches Ok(out) ==> delivered(
                old(self)@,
                final(self)@,
                out,
                escrow_id@,
                old(self)@.record(escrow_id@).with_status(EscrowStatus::DisputeResolvedForSender),
                Some(Movement::PayoutToSender),
                0,
                Some(EscrowEventKind::DisputeResolvedForSender),
            ),
    {
        self.resolve_dispute(escrow_id, caller, now, false)
    }

    /// Resolves a dispute whose window has closed, for the party that the
    /// expiry policy names. Any caller may do so.
    pub fn check_dispute_timeout(&mut self, escrow_id: &str, now: u64) -> (res: Result<
        EscrowOutcome,
        EscrowError,
    >)
        requires
            old(self)@.wf(),
        ensures
            final(self)@.wf(),
            old(self)@.check_dispute_timeout_step(escrow_id@, now) == step_result(
                res,
                final(self)@,
            ),
            res is Err ==> final(self)@ == old(self)@,
            res matches Ok(out) ==> delivered(
                old(self)@,
                final(self)@,
                out,
                escrow_id@,
                old(self)@.record(escrow_id@).with_status(old(self)@.expiry_status()),
                Some(resolution_movement(old(self)@.expiry_policy == ExpiryPolicy::FavorRecipient)),
                0,
                Some(resolution_event(old(self)@.expiry_policy == ExpiryPolicy::FavorRecipient)),
            ),
    {
        let i = match self.find(escrow_id) {
            Some(i) => i,
            None => { return Err(EscrowError::NotFound); },
        };
        if !matches!(self.escrows[i].status, EscrowStatus::Disputed) {
            return Err(EscrowError::NotDisputed);
        }
        if self.window_open(i, now) {
            return Err(EscrowError::DisputePeriodNotExpired);
        }
        let out = self.resolve(i, matches!(self.expiry_policy, ExpiryPolicy::FavorRecipient));
        proof {
            self@.lemma_index_of(i as int);
        }
        Ok(out)
    }

    /// Tests that `caller` is the admin.
    fn check_admin(&self, caller: &Principal) -> (res: Result<(), EscrowError>)
        ensures
            self@.admin_refusal(caller@) == match res {
                Ok(_) => None::<EscrowError>,
                Err(e) => Some(e),
            },
    {
        match &self.admin {
            None => Err(EscrowError::NotInitialized),
            Some(a) => if caller.same(a) {
                Ok(())
            } else {
                Err(EscrowError::Unauthorized)
            },
        }
    }

    /// Resolves a dispute by the admin's decision, at any time.
    pub fn admin_resolve_dispute(
        &mut self,
        escrow_id: &str,
        resolve_for_recipient: bool,
        caller: &Principal,
    ) -> (res: Result<EscrowOutcome, EscrowError>)
        requires
            old(self)@.wf(),
        ensures
            final(self)@.wf(),
            old(self)@.admin_resolve_step(escrow_id@, resolve_for_recipient, caller@)
                == step_result(res, final(self)@),
            res is Err ==> final(self)@ == old(self)@,
            res matches Ok(out) ==> delivered(
                old(self)@,
                final(self)@,
                out,
                escrow_id@,
                old(self)@.record(escrow_id@).with_status(EscrowState::resolved_status(resolve_for_recipient)),
                Some(resolution_movement(resolve_for_recipient)),
                0,
                Some(resolution_event(resolve_for_recipient)),
            ),
    {
        match self.check_admin(caller) {
            Err(e) => { return Err(e); },
            Ok(_) => {},
        }
        let i = match self.find(escrow_id) {
            Some(i) => i,
            None => { return Err(EscrowError::NotFound); },
        };
        if !matches!(self.escrows[i].status, EscrowStatus::Disputed) {
            return Err(EscrowError::NotDisputed);
        }
        let out = self.resolve(i, resolve_for_recipient);
        proof {
            self@.lemma_index_of(i as int);
        }
        Ok(out)
    }

    /// Changes the dispute period of an active, undisputed escrow.
    /// `caller` must be the sender.
    pub fn update_dispute_period(
        &mut self,
        escrow_id: &str,
        new_dispute_period: u64,
        caller: &Principal,
    ) -> (res: Result<EscrowOutcome, EscrowError>)
        requires
            old(self)@.wf(),
        ensures
            final(self)@.wf(),
            old(self)@.update_dispute_period_step(escrow_id@, new_dispute_period, caller@)
                == step_result(res, final(self)@),
            res is Err ==> final(self)@ == old(self)@,
            res matches Ok(out) ==> delivered(
                old(self)@,
                final(self)@,
                out,
                escrow_id@,
                old(self)@.record(escrow_id@).with_dispute_period(new_dispute_period),
                None,
                0,
                None,
            ),
    {
        let i = match self.find(escrow_id) {
            Some(i) => i,
            None => { return Err(EscrowError::NotFound); },
        };
        if !caller.same(&self.escrows[i].sender) {
            return Err(EscrowError::Unauthorized);
        }
        if !self.escrows[i].status.is_active() {
            return Err(EscrowError::NotActive);
        }
        if self.escrows[i].has_dispute() {
            return Err(EscrowError::DisputeAlreadyInitiated);
        }
        if new_dispute_period == 0 {
            return Err(EscrowError::ZeroDisputePeriod);
        }
        if self.escrows[i].timeout_duration < new_dispute_period {
            return Err(EscrowError::DisputePeriodExceedsTimeout);
        }
        self.escrows[i].dispute_period = new_dispute_period;
        proof {
            assert(self@.escrows =~= old(self)@.escrows.update(
                i as int,
                old(self)@.escrows[i as int].with_dispute_period(new_dispute_period),
            ));
            self@.lemma_index_of(i as int);
            assert forall|t: Seq<char>| #[trigger]
                held(self@.escrows, t) == held(old(self)@.escrows, t) by {
                lemma_held_update(old(self)@.escrows, i as int, self@.escrows[i as int], t);
            }
        }
        let info = self.escrows[i].info();
        Ok(EscrowOutcome { info, movement: None, fee_charged: 0, event: None })
    }

    /// Appoints the first admin and sets the dispute fee to zero. `caller`
    /// must be the admin appointed.
    pub fn initialize(&mut self, admin: Principal, caller: &Principal) -> (res: Result<
        (),
        EscrowError,
    >)
        requires
            old(self)@.wf(),
        ensures
            final(self)@.wf(),
            old(self)@.initialize_step(admin@, caller@) == step_result(res, final(self)@),
            res is Err ==> final(self)@ == old(self)@,
    {
        if self.admin.is_some() {
            return Err(EscrowError::AlreadyInitialized);
        }
        if !caller.same(&admin) {
            return Err(EscrowError::Unauthorized);
        }
        self.admin = Some(admin);
        self.dispute_fee = 0;
        Ok(())
    }

    /// Sets what opening a dispute costs. `caller` must be the admin.
    pub fn set_dispute_fee(&mut self, fee: i128, caller: &Principal) -> (res: Result<
        (),
        EscrowError,
    >)
        requires
            old(self)@.wf(),
        ensures
            final(self)@.wf(),
            old(self)@.set_dispute_fee_step(fee, caller@) == step_result(res, final(self)@),
            res is Err ==> final(self)@ == old(self)@,
    {
        match self.check_admin(caller) {
            Err(e) => { return Err(e); },
            Ok(_) => {},
        }
        if fee < 0 {
            return Err(EscrowError::NegativeFee);
        }
        self.dispute_fee = fee;
        Ok(())
    }

    /// Hands the admin role to `new_admin`. `caller` must be the admin.
    pub fn transfer_admin(&mut self, new_admin: Principal, caller: &Principal) -> (res: Result<
        (),
        EscrowError,
    >)
        requires
            old(self)@.wf(),
        ensures
            final(self)@.wf(),
            old(self)@.transfer_admin_step(new_admin@, caller@) == step_result(
                res,
                final(self)@,
            ),
            res is Err ==> final(self)@ == old(self)@,
    {
        match self.check_admin(caller) {
            Err(e) => { return Err(e); },
            Ok(_) => {},
        }
        self.admin = Some(new_admin);
        Ok(())
    }

    /// Pauses or resumes the engine. `caller` must be the admin.
    pub fn set_paused(&mut self, paused: bool, caller: &Principal) -> (res: Result<
        (),
        EscrowError,
    >)
        requires
            old(self)@.wf(),
        ensures
            final(self)@.wf(),
            old(self)@.set_paused_step(paused, caller@) == step_result(res, final(self)@),
            res is Err ==> final(self)@ == old(self)@,
    {
        match self.check_admin(caller) {
            Err(e) => { return Err(e); },
            Ok(_) => {},
        }
        self.paused = paused;
        Ok(())
    }

    /// What opening a dispute costs.
    pub fn get_dispute_fee(&self) -> (fee: i128)
        ensures
            fee == self@.dispute_fee,
    {
        self.dispute_fee
    }

    /// The admin, if one was appointed.
    pub fn get_admin(&self) -> (admin: Option<Principal>)
        ensures
            admin_view(admin) == self@.admin,
    {
        match &self.admin {
            Some(a) => Some(a.clone()),
            None => None,
        }
    }

    /// Whether new escrows and new disputes are refused.
    pub fn is_paused(&self) -> (paused: bool)
        ensures
            paused == self@.paused,
    {
        self.paused
    }

    /// The escrow named `escrow_id`.
    pub fn get_escrow(&self, escrow_id: &str) -> (res: Result<EscrowInfo, EscrowError>)
        requires
            self@.wf(),
        ensures
            res is Ok == self@.exists_id(escrow_id@),
            res matches Ok(info) ==> info.describes(self@.record(escrow_id@)),
            res matches Err(e) ==> e == EscrowError::NotFound,
    {
        match self.find(escrow_id) {
            Some(i) => Ok(self.escrows[i].info()),
            None => Err(EscrowError::NotFound),
        }
    }

    /// The dispute of the escrow named `escrow_id`, if one was ever opened.
    pub fn get_dispute_info(&self, escrow_id: &str) -> (res: Result<
        Option<DisputeInfo>,
        EscrowError,
    >)
        requires
            self@.wf(),
        ensures
            res is Ok == self@.exists_id(escrow_id@),
            res matches Ok(d) ==> dispute_view(d) == self@.record(escrow_id@).dispute,
            res matches Err(e) ==> e == EscrowError::NotFound,
    {
        match self.find(escrow_id) {
            Some(i) => Ok(
                match &self.escrows[i].dispute {
                    Some(d) => Some(d.clone()),
                    None => None,
                },
            ),
            None => Err(EscrowError::NotFound),
        }
    }

    /// Whether a dispute can be opened on the escrow named `escrow_id`: it
    /// is active and was never disputed.
    pub fn can_dispute(&self, escrow_id: &str) -> (res: Result<bool, EscrowError>)
        requires
            self@.wf(),
        ensures
            res is Ok == self@.exists_id(escrow_id@),
            res matches Ok(b) ==> b == self@.can_dispute(escrow_id@),
            res matches Err(e) ==> e == EscrowError::NotFound,
    {
        match self.find(escrow_id) {
            Some(i) => Ok(self.escrows[i].status.is_active() && !self.escrows[i].has_dispute()),
            None => Err(EscrowError::NotFound),
        }
    }

    /// How many escrows were ever created.
    pub fn get_escrow_count(&self) -> (n: u32)
        requires
            self@.wf(),
        ensures
            n == self@.escrows.len(),
    {
        self.escrows.len() as u32
    }

    /// Whether an escrow is named `escrow_id`.
    pub fn escrow_exists(&self, escrow_id: &str) -> (b: bool)
        requires
            self@.wf(),
        ensures
            b == self@.exists_id(escrow_id@),
    {
        self.find(escrow_id).is_some()
    }

    /// Every escrow, in order of creation.
    pub fn get_all_escrows(&self) -> (infos: Vec<EscrowInfo>)
        requires
            self@.wf(),
        ensures
            describes_all(infos@, self@.escrows),
    {
        let mut infos: Vec<EscrowInfo> = Vec::new();
        let mut i: usize = 0;
        while i < self.escrows.len()
            invariant
                i <= self.escrows.len(),
                self@.wf(),
                describes_all(infos@, self@.escrows.take(i as int)),
            decreases self.escrows.len() - i,
        {
            assert(self@.escrows[i as int].wf());
            infos.push(self.escrows[i].info());
            i += 1;
        }
        assert(self@.escrows.take(i as int) =~= self@.escrows);
        infos
    }

    /// The escrows in state `status`, in order of creation.
    pub fn get_escrows_by_status(&self, status: EscrowStatus) -> (infos: Vec<EscrowInfo>)
        requires
            self@.wf(),
        ensures
            describes_all(infos@, self@.escrows.filter(in_status(status))),
    {
        let mut infos: Vec<EscrowInfo> = Vec::new();
        let mut i: usize = 0;
        proof {
            reveal(Seq::filter);
        }
        while i < self.escrows.len()
            invariant
                i <= self.escrows.len(),
                self@.wf(),
                describes_all(infos@, self@.escrows.take(i as int).filter(in_status(status))),
            decreases self.escrows.len() - i,
        {
            proof {
                reveal(Seq::filter);
                assert(self@.escrows[i as int].wf());
                assert(self@.escrows.take(i + 1).drop_last() =~= self@.escrows.take(i as int));
            }
            if self.escrows[i].status == status {
                infos.push(self.escrows[i].info());
            }
            i += 1;
        }
        assert(self@.escrows.take(i as int) =~= self@.escrows);
        infos
    }

    /// The escrows that `participant` sends or receives, in order of creation.
    pub fn get_escrows_by_participant(&self, participant: &Principal) -> (infos: Vec<EscrowInfo>)
        requires
            self@.wf(),
        ensures
            describes_all(infos@, self@.escrows.filter(with_party(participant@))),
    {
        let mut infos: Vec<EscrowInfo> = Vec::new();
        let mut i: usize = 0;
        proof {
            reveal(Seq::filter);
        }
        while i < self.escrows.len()
            invariant
                i <= self.escrows.len(),
                self@.wf(),
                describes_all(
                    infos@,
                    self@.escrows.take(i as int).filter(with_party(participant@)),
                ),
            decreases self.escrows.len() - i,
        {
            proof {
                reveal(Seq::filter);
                assert(self@.escrows[i as int].wf());
                assert(self@.escrows.take(i + 1).drop_last() =~= self@.escrows.take(i as int));
            }
            if participant.same(&self.escrows[i].sender) || participant.same(
                &self.escrows[i].recipient,
            ) {
                infos.push(self.escrows[i].info());
            }
            i += 1;
        }
        assert(self@.escrows.take(i as int) =~= self@.escrows);
        infos
    }
}

/// The parameters of a new escrow, as the model sees them.
pub open spec fn request(
    sender: Principal,
    recipient: Principal,
    token: Principal,
    amount: i128,
    timeout_duration: u64,
    dispute_period: u64,
) -> CreateRequest {
    CreateRequest {
        sender: sender@,
        recipient: recipient@,
        token: token@,
        amount,
        timeout_duration,
        dispute_period,
    }
}

/// What `movement` of the escrow `r` brings into custody of `token`
/// (negative: takes out of it): the escrow's whole amount of its own
/// token, nothing of any other.
pub open spec fn flow(movement: Option<Movement>, r: EscrowRecord, token: Seq<char>) -> int {
    if r.token != token {
        0
    } else {
        match movement {
            Some(Movement::DepositFromSender) => r.amount as int,
            Some(Movement::PayoutToRecipient) => -(r.amount as int),
            Some(Movement::PayoutToSender) => -(r.amount as int),
            None => 0,
        }
    }
}

/// The record that an outcome's `info` shows, as far as `flow` reads it.
pub open spec fn shown_record(out: EscrowOutcome, post: EscrowState) -> EscrowRecord {
    post.record(out.info.id@)
}

/// Conservation: for every token, what the escrows of `post` keep in
/// custody is what those of `pre` kept plus what the outcome's movement
/// brings in.
pub open spec fn conserves(pre: EscrowState, post: EscrowState, out: EscrowOutcome) -> bool {
    forall|t: Seq<char>| #[trigger]
        held(post.escrows, t) == held(pre.escrows, t) + flow(
            out.movement,
            shown_record(out, post),
            t,
        )
}

/// What a successful operation on one escrow guarantees. The state `post`
/// holds `record` under the name `id`, and `out` shows that record. The
/// outcome asks for exactly this movement, this fee and this event. And
/// the funds that the escrows keep in custody have changed by what the
/// movement brings in or takes out.
pub open spec fn delivered(
    pre: EscrowState,
    post: EscrowState,
    out: EscrowOutcome,
    id: Seq<char>,
    record: EscrowRecord,
    movement: Option<Movement>,
    fee: i128,
    event: Option<EscrowEventKind>,
) -> bool {
    &&& reports(out, post, id, record)
    &&& out.movement == movement
    &&& out.fee_charged == fee
    &&& out.event == event
    &&& conserves(pre, post, out)
}

/// Whether `out` reports `record` and `post` holds it under the name `id`.
pub open spec fn reports(
    out: EscrowOutcome,
    post: EscrowState,
    id: Seq<char>,
    record: EscrowRecord,
) -> bool {
    &&& post.exists_id(id)
    &&& post.record(id) == record
    &&& out.info.describes(record)
}

/// The movement that resolves a dispute for one party.
pub open spec fn resolution_movement(for_recipient: bool) -> Movement {
    if for_recipient {
        Movement::PayoutToRecipient
    } else {
        Movement::PayoutToSender
    }
}

/// The event that reports a dispute resolved for one party.
pub open spec fn resolution_event(for_recipient: bool) -> EscrowEventKind {
    if for_recipient {
        EscrowEventKind::DisputeResolvedForRecipient
    } else {
        EscrowEventKind::DisputeResolvedForSender
    }
}

/// Whether `infos` shows the records of `records`, one for one and in order.
pub open spec fn describes_all(infos: Seq<EscrowInfo>, records: Seq<EscrowRecord>) -> bool {
    &&& infos.len() == records.len()
    &&& forall|k: int| 0 <= k < infos.len() ==> (#[trigger] infos[k]).describes(records[k])
}

/// The records in state `status`.
pub open spec fn in_status(status: EscrowStatus) -> spec_fn(EscrowRecord) -> bool {
    |r: EscrowRecord| r.status == status
}

/// The records that `party` sends or receives.
pub open spec fn with_party(party: Seq<char>) -> spec_fn(EscrowRecord) -> bool {
    |r: EscrowRecord| r.sender == party || r.recipient == party
}

} // verus!
