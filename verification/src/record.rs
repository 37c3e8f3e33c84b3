//! The escrow record, its dispute, and what callers are shown of them.

use crate::principal::Principal;
use vstd::prelude::*;

verus! {

/// Where an escrow stands. `Active` is the initial state; from it an escrow
/// is released, refunded, released by timeout, or disputed. A disputed
/// escrow is resolved for one of the two parties. Nothing leaves the other
/// five states.
#[derive(Clone, Copy, Debug, PartialEq, Eq, Structural)]
pub enum EscrowStatus {
    /// Funds are locked and no dispute was opened.
    Active,
    /// A dispute is open.
    Disputed,
    /// The sender released the funds to the recipient.
    Released,
    /// The funds went back to the sender.
    Refunded,
    /// The funds went to the recipient after the timeout.
    AutoReleased,
    /// The dispute ended in the recipient's favour.
    DisputeResolvedForRecipient,
    /// The dispute ended in the sender's favour.
    DisputeResolvedForSender,
}

impl EscrowStatus {
    /// Whether no transition leaves this state.
    pub open spec fn terminal(self) -> bool {
        self != EscrowStatus::Active && self != EscrowStatus::Disputed
    }

    /// Whether an escrow in this state was disputed at some time.
    pub open spec fn disputed_once(self) -> bool {
        self == EscrowStatus::Disputed || self == EscrowStatus::DisputeResolvedForRecipient
            || self == EscrowStatus::DisputeResolvedForSender
    }

    /// Whether the escrow still accepts release, refund, timeout and dispute.
    pub fn is_active(&self) -> (b: bool)
        ensures
            b == (*self == EscrowStatus::Active),
    {
        matches!(self, EscrowStatus::Active)
    }

    /// Whether no transition leaves this state.
    pub fn is_terminal(&self) -> (b: bool)
        ensures
            b == self.terminal(),
    {
        !matches!(self, EscrowStatus::Active | EscrowStatus::Disputed)
    }
}

/// Who may open a dispute.
#[derive(Clone, Copy, Debug, PartialEq, Eq, Structural)]
pub enum DisputePolicy {
    /// The sender only.
    SenderOnly,
    /// The sender or the recipient.
    EitherParty,
}

/// For whom a dispute is resolved when its window closes unresolved.
#[derive(Clone, Copy, Debug, PartialEq, Eq, Structural)]
pub enum ExpiryPolicy {
    /// For the recipient.
    FavorRecipient,
    /// For the sender.
    FavorSender,
}

/// Whether a period of `duration` seconds that began at `start` is over at
/// `now`. The instant `start + duration` itself counts as over.
pub open spec fn elapsed(start: u64, duration: u64, now: u64) -> bool {
    now >= start + duration
}

/// Whether an escrow created at `created_at` has reached its timeout at `now`.
pub fn timeout_reached(created_at: u64, timeout_duration: u64, now: u64) -> (b: bool)
    ensures
        b == elapsed(created_at, timeout_duration, now),
{
    now >= created_at && now - created_at >= timeout_duration
}

/// The dispute opened on an escrow, as the model sees it.
pub struct DisputeRecord {
    pub initiated_by: Seq<char>,
    pub initiated_at: u64,
    pub dispute_period: u64,
    pub reason: Seq<char>,
}

impl DisputeRecord {
    /// Whether the dispute window is still open at `now`.
    pub open spec fn window_open(self, now: u64) -> bool {
        !elapsed(self.initiated_at, self.dispute_period, now)
    }
}

/// The dispute opened on an escrow.
#[derive(Debug, PartialEq, Eq)]
pub struct DisputeInfo {
    /// Who opened the dispute.
    pub initiated_by: Principal,
    /// Clock reading when it was opened.
    pub initiated_at: u64,
    /// Length of the dispute window in seconds.
    pub dispute_period: u64,
    /// Short tag that says why.
    pub reason: String,
}

impl View for DisputeInfo {
    type V = DisputeRecord;

    open spec fn view(&self) -> DisputeRecord {
        DisputeRecord {
            initiated_by: self.initiated_by@,
            initiated_at: self.initiated_at,
            dispute_period: self.dispute_period,
            reason: self.reason@,
        }
    }
}

impl Clone for DisputeInfo {
    fn clone(&self) -> (d: DisputeInfo)
        ensures
            d@ == self@,
    {
        DisputeInfo {
            initiated_by: self.initiated_by.clone(),
            initiated_at: self.initiated_at,
            dispute_period: self.dispute_period,
            reason: self.reason.clone(),
        }
    }
}

impl DisputeInfo {
    /// Whether the dispute window is still open at `now`. While it is, only
    /// the sender may resolve the dispute.
    pub fn window_open(&self, now: u64) -> (b: bool)
        ensures
            b == self@.window_open(now),
    {
        !timeout_reached(self.initiated_at, self.dispute_period, now)
    }
}

/// The model of one escrow record.
pub struct EscrowRecord {
    pub id: Seq<char>,
    pub sender: Seq<char>,
    pub recipient: Seq<char>,
    pub token: Seq<char>,
    pub amount: i128,
    pub created_at: u64,
    pub timeout_duration: u64,
    pub dispute_period: u64,
    pub status: EscrowStatus,
    pub dispute: Option<DisputeRecord>,
}

impl EscrowRecord {
    /// Whether a dispute was ever opened on this escrow.
    pub open spec fn has_dispute(self) -> bool {
        self.dispute is Some
    }

    /// The instant from which the escrow can be released by timeout.
    pub open spec fn timeout_at(self) -> int {
        self.created_at + self.timeout_duration
    }

    /// Whether the funds are still in custody.
    pub open spec fn holds_funds(self) -> bool {
        !self.status.terminal()
    }

    /// What holds of every record the engine keeps.
    pub open spec fn wf(self) -> bool {
        &&& self.amount > 0
        &&& self.timeout_duration > 0
        &&& self.dispute_period > 0
        &&& self.dispute_period <= self.timeout_duration
        &&& self.timeout_at() <= u64::MAX
        &&& self.sender != self.recipient
        &&& self.has_dispute() == self.status.disputed_once()
        &&& self.dispute matches Some(d) ==> d.dispute_period == self.dispute_period && (
        d.initiated_by == self.sender || d.initiated_by == self.recipient)
    }

    /// The record in another state.
    pub open spec fn with_status(self, status: EscrowStatus) -> EscrowRecord {
        EscrowRecord { status, ..self }
    }

    /// The record with another dispute period.
    pub open spec fn with_dispute_period(self, dispute_period: u64) -> EscrowRecord {
        EscrowRecord { dispute_period, ..self }
    }

    /// The record once `dispute` has been opened on it.
    pub open spec fn with_dispute(self, dispute: DisputeRecord) -> EscrowRecord {
        EscrowRecord { status: EscrowStatus::Disputed, dispute: Some(dispute), ..self }
    }
}

/// One escrow as the engine stores it.
#[derive(Debug, PartialEq, Eq)]
pub struct EscrowConfig {
    /// Name of the escrow, fixed for its lifetime.
    pub id: String,
    /// Who locked the funds.
    pub sender: Principal,
    /// Who receives them on release.
    pub recipient: Principal,
    /// The token held.
    pub token: Principal,
    /// How much of it, fixed at creation.
    pub amount: i128,
    /// Clock reading at creation.
    pub created_at: u64,
    /// Seconds after which anyone can release the funds to the recipient.
    pub timeout_duration: u64,
    /// Length in seconds of the window a dispute opens.
    pub dispute_period: u64,
    /// Where the escrow stands.
    pub status: EscrowStatus,
    /// The dispute, once one was opened.
    pub dispute: Option<DisputeInfo>,
}

/// The dispute of a stored record, as the model sees it.
pub open spec fn dispute_view(d: Option<DisputeInfo>) -> Option<DisputeRecord> {
    match d {
        Some(info) => Some(info@),
        None => None,
    }
}

impl View for EscrowConfig {
    type V = EscrowRecord;

    open spec fn view(&self) -> EscrowRecord {
        EscrowRecord {
            id: self.id@,
            sender: self.sender@,
            recipient: self.recipient@,
            token: self.token@,
            amount: self.amount,
            created_at: self.created_at,
            timeout_duration: self.timeout_duration,
            dispute_period: self.dispute_period,
            status: self.status,
            dispute: dispute_view(self.dispute),
        }
    }
}

impl Clone for EscrowConfig {
    fn clone(&self) -> (c: EscrowConfig)
        ensures
            c@ == self@,
    {
        let dispute = match &self.dispute {
            Some(d) => Some(d.clone()),
            None => None,
        };
        EscrowConfig {
            id: self.id.clone(),
            sender: self.sender.clone(),
            recipient: self.recipient.clone(),
            token: self.token.clone(),
            amount: self.amount,
            created_at: self.created_at,
            timeout_duration: self.timeout_duration,
            dispute_period: self.dispute_period,
            status: self.status,
            dispute,
        }
    }
}

/// What a caller is shown of an escrow.
#[derive(Debug, PartialEq, Eq)]
pub struct EscrowInfo {
    pub id: String,
    pub sender: Principal,
    pub recipient: Principal,
    pub token: Principal,
    pub amount: i128,
    pub created_at: u64,
    /// `created_at` plus the timeout duration.
    pub timeout_at: u64,
    pub dispute_period: u64,
    pub status: EscrowStatus,
    /// Whether a dispute was ever opened.
    pub has_dispute: bool,
}

impl EscrowInfo {
    /// Whether this is what a caller is shown of record `r`.
    pub open spec fn describes(&self, r: EscrowRecord) -> bool {
        &&& self.id@ == r.id
        &&& self.sender@ == r.sender
        &&& self.recipient@ == r.recipient
        &&& self.token@ == r.token
        &&& self.amount == r.amount
        &&& self.created_at == r.created_at
        &&& self.timeout_at == r.timeout_at()
        &&& self.dispute_period == r.dispute_period
        &&& self.status == r.status
        &&& self.has_dispute == r.has_dispute()
    }
}

impl EscrowInfo {
    /// Whether both show the same values.
    pub open spec fn same_as(&self, other: EscrowInfo) -> bool {
        &&& self.id@ == other.id@
        &&& self.sender@ == other.sender@
        &&& self.recipient@ == other.recipient@
        &&& self.token@ == other.token@
        &&& self.amount == other.amount
        &&& self.created_at == other.created_at
        &&& self.timeout_at == other.timeout_at
        &&& self.dispute_period == other.dispute_period
        &&& self.status == other.status
        &&& self.has_dispute == other.has_dispute
    }
}

impl Clone for EscrowInfo {
    fn clone(&self) -> (c: EscrowInfo)
        ensures
            c.same_as(*self),
    {
        EscrowInfo {
            id: self.id.clone(),
            sender: self.sender.clone(),
            recipient: self.recipient.clone(),
            token: self.token.clone(),
            amount: self.amount,
            created_at: self.created_at,
            timeout_at: self.timeout_at,
            dispute_period: self.dispute_period,
            status: self.status,
            has_dispute: self.has_dispute,
        }
    }
}

impl EscrowConfig {
    /// Whether the record is one the engine could have made.
    pub fn is_well_formed(&self) -> (b: bool)
        ensures
            b == self@.wf(),
    {
        if self.amount <= 0 || self.timeout_duration == 0 || self.dispute_period == 0
            || self.dispute_period > self.timeout_duration {
            return false;
        }
        if self.timeout_duration > u64::MAX - self.created_at {
            return false;
        }
        if self.sender.same(&self.recipient) {
            return false;
        }
        let disputed_once = matches!(
            self.status,
            EscrowStatus::Disputed | EscrowStatus::DisputeResolvedForRecipient
                | EscrowStatus::DisputeResolvedForSender
        );
        match &self.dispute {
            Some(d) => disputed_once && d.dispute_period == self.dispute_period && (
            d.initiated_by.same(&self.sender) || d.initiated_by.same(&self.recipient)),
            None => !disputed_once,
        }
    }

    /// Whether a dispute was ever opened on this escrow.
    pub fn has_dispute(&self) -> (b: bool)
        ensures
            b == self@.has_dispute(),
    {
        self.dispute.is_some()
    }

    /// What a caller is shown of this record.
    pub fn info(&self) -> (info: EscrowInfo)
        requires
            self@.timeout_at() <= u64::MAX,
        ensures
            info.describes(self@),
    {
        EscrowInfo {
            id: self.id.clone(),
            sender: self.sender.clone(),
            recipient: self.recipient.clone(),
            token: self.token.clone(),
            amount: self.amount,
            created_at: self.created_at,
            timeout_at: self.created_at + self.timeout_duration,
            dispute_period: self.dispute_period,
            status: self.status,
            has_dispute: self.dispute.is_some(),
        }
    }
}

} // verus!
