//! The k-of-n approval engine.
//!
//! A proposal is not stored. One call weighs the approvals it is given
//! against the current configuration and either executes, which advances
//! the nonce, or does nothing. An approval is a signature that the host
//! has verified: it names its signer and is bound to one operation digest
//! and one nonce. Only approvals bound to the digest proposed and to the
//! current nonce count, each configured signer once.

use crate::errors::MultisigError;
use crate::principal::Principal;
use vstd::prelude::*;

verus! {

/// The configuration as the model sees it.
pub struct MultisigState {
    pub signers: Seq<Seq<char>>,
    pub threshold: u32,
    pub nonce: u32,
}

/// A verified signature as the model sees it.
pub struct ApprovalRecord {
    pub signer: Seq<char>,
    pub operation: Seq<u8>,
    pub nonce: u32,
}

/// Whether no signer is listed twice.
pub open spec fn distinct(signers: Seq<Seq<char>>) -> bool {
    forall|i: int, j: int| 0 <= i < j < signers.len() ==> signers[i] != signers[j]
}

/// Whether `threshold` is at least one and at most the number of signers.
pub open spec fn threshold_fits(signers: Seq<Seq<char>>, threshold: u32) -> bool {
    0 < threshold <= signers.len()
}

/// Whether `approvals` holds a signature of `signer` over `operation` and `nonce`.
pub open spec fn endorsed(
    approvals: Seq<ApprovalRecord>,
    signer: Seq<char>,
    operation: Seq<u8>,
    nonce: u32,
) -> bool {
    exists|k: int|
        0 <= k < approvals.len() && (#[trigger] approvals[k]).signer == signer
            && approvals[k].operation == operation && approvals[k].nonce == nonce
}

/// The signers that have endorsed `operation` at `nonce`.
pub open spec fn endorsers(approvals: Seq<ApprovalRecord>, operation: Seq<u8>, nonce: u32) -> spec_fn(
    Seq<char>,
) -> bool {
    |signer: Seq<char>| endorsed(approvals, signer, operation, nonce)
}

/// How many of `signers` have endorsed `operation` at `nonce`. A signer
/// counts once however many signatures it gave, and a signature of anyone
/// else counts for nothing. In a list without duplicates this is the
/// number of distinct configured signers with a valid signature.
pub open spec fn valid_count(
    signers: Seq<Seq<char>>,
    approvals: Seq<ApprovalRecord>,
    operation: Seq<u8>,
    nonce: u32,
) -> nat {
    signers.filter(endorsers(approvals, operation, nonce)).len()
}

impl MultisigState {
    /// What holds of every stored configuration.
    pub open spec fn wf(self) -> bool {
        threshold_fits(self.signers, self.threshold) && distinct(self.signers)
    }

    /// Whether a proposal of `operation` with `approvals` reaches the threshold.
    pub open spec fn approved(self, approvals: Seq<ApprovalRecord>, operation: Seq<u8>) -> bool {
        valid_count(self.signers, approvals, operation, self.nonce) >= self.threshold
    }

    /// The configuration after a proposal: the nonce advanced by one if it
    /// was approved, unchanged if not; refused if the nonce cannot advance.
    pub open spec fn propose_step(self, approvals: Seq<ApprovalRecord>, operation: Seq<u8>) -> Result<
        MultisigState,
        MultisigError,
    > {
        if !self.approved(approvals, operation) {
            Ok(self)
        } else if self.nonce == u32::MAX {
            Err(MultisigError::NonceExhausted)
        } else {
            Ok(MultisigState { nonce: (self.nonce + 1) as u32, ..self })
        }
    }
}

/// The first reason to refuse a signer list with a threshold, if there is one.
pub open spec fn config_refusal(signers: Seq<Seq<char>>, threshold: u32) -> Option<MultisigError> {
    if !threshold_fits(signers, threshold) {
        Some(MultisigError::InvalidThreshold)
    } else if !distinct(signers) {
        Some(MultisigError::DuplicateSigner)
    } else {
        None
    }
}

/// The signers, the number of them that must approve, and the nonce that
/// approvals are bound to.
#[derive(Debug, PartialEq, Eq)]
pub struct MultiSigConfig {
    pub signers: Vec<Principal>,
    pub threshold: u32,
    pub nonce: u32,
}

/// The signers as the model sees them.
pub open spec fn signer_views(signers: Seq<Principal>) -> Seq<Seq<char>> {
    signers.map_values(|p: Principal| p@)
}

impl View for MultiSigConfig {
    type V = MultisigState;

    open spec fn view(&self) -> MultisigState {
        MultisigState {
            signers: signer_views(self.signers@),
            threshold: self.threshold,
            nonce: self.nonce,
        }
    }
}

/// A copy of a list of principals.
fn copy_principals(list: &Vec<Principal>) -> (copy: Vec<Principal>)
    ensures
        signer_views(copy@) == signer_views(list@),
{
    let mut copy: Vec<Principal> = Vec::new();
    let mut i: usize = 0;
    while i < list.len()
        invariant
            i <= list.len(),
            copy.len() == i,
            forall|k: int| 0 <= k < i ==> (#[trigger] copy@[k])@ == list@[k]@,
        decreases list.len() - i,
    {
        copy.push(list[i].clone());
        i += 1;
    }
    proof {
        assert(signer_views(copy@) =~= signer_views(list@));
    }
    copy
}

impl Clone for MultiSigConfig {
    fn clone(&self) -> (c: MultiSigConfig)
        ensures
            c@ == self@,
    {
        MultiSigConfig {
            signers: copy_principals(&self.signers),
            threshold: self.threshold,
            nonce: self.nonce,
        }
    }
}

/// A signature that the host has verified.
#[derive(Debug, PartialEq, Eq)]
pub struct Approval {
    /// Whose signature it is.
    pub signer: Principal,
    /// The digest of the operation it was made over.
    pub operation: [u8; 32],
    /// The nonce it was made over.
    pub nonce: u32,
}

impl View for Approval {
    type V = ApprovalRecord;

    open spec fn view(&self) -> ApprovalRecord {
        ApprovalRecord { signer: self.signer@, operation: self.operation@, nonce: self.nonce }
    }
}

/// The approvals as the model sees them.
pub open spec fn approval_views(approvals: Seq<Approval>) -> Seq<ApprovalRecord> {
    approvals.map_values(|a: Approval| a@)
}

/// What is published of every proposal, whatever comes of it.
#[derive(Debug, PartialEq, Eq)]
pub struct MultisigTransactionProposedData {
    /// The nonce the approvals were weighed against.
    pub nonce: u32,
    /// Who made the proposal.
    pub proposer: Principal,
    /// The digest of the operation proposed.
    pub operation_hash: [u8; 32],
    /// The threshold the approvals were weighed against.
    pub threshold: u32,
    /// How many distinct configured signers approved.
    pub current_signatures: usize,
    /// When the proposal was made.
    pub proposed_at: u64,
}

impl MultisigTransactionProposedData {
    /// Whether this records a proposal of `operation` by `proposer` with
    /// `approvals`, weighed against `pre` at `now`.
    pub open spec fn records(
        &self,
        pre: MultisigState,
        proposer: Seq<char>,
        approvals: Seq<ApprovalRecord>,
        operation: Seq<u8>,
        now: u64,
    ) -> bool {
        &&& self.nonce == pre.nonce
        &&& self.proposer@ == proposer
        &&& self.operation_hash@ == operation
        &&& self.threshold == pre.threshold
        &&& self.current_signatures == valid_count(pre.signers, approvals, operation, pre.nonce)
        &&& self.proposed_at == now
    }
}

/// What is published of a proposal that is executed.
#[derive(Debug, PartialEq, Eq)]
pub struct MultisigTransactionExecutedData {
    /// The nonce that the execution used up.
    pub nonce: u32,
    /// The configured signers.
    pub signers: Vec<Principal>,
    /// The digest of the operation executed.
    pub operation_hash: [u8; 32],
    /// When it was executed.
    pub executed_at: u64,
}

impl MultisigTransactionExecutedData {
    /// Whether this records the execution of `operation` under `pre` at `now`.
    pub open spec fn records(&self, pre: MultisigState, operation: Seq<u8>, now: u64) -> bool {
        &&& self.nonce == pre.nonce
        &&& signer_views(self.signers@) == pre.signers
        &&& self.operation_hash@ == operation
        &&& self.executed_at == now
    }
}

/// What is published when the configuration is replaced.
#[derive(Debug, PartialEq, Eq)]
pub struct MultisigConfigUpdatedData {
    pub old_signers: Vec<Principal>,
    pub new_signers: Vec<Principal>,
    pub old_threshold: u32,
    pub new_threshold: u32,
    /// When the configuration was replaced.
    pub updated_at: u64,
}

impl MultisigConfigUpdatedData {
    /// Whether this records the change from `pre` to `post` at `now`.
    pub open spec fn records(&self, pre: MultisigState, post: MultisigState, now: u64) -> bool {
        &&& signer_views(self.old_signers@) == pre.signers
        &&& signer_views(self.new_signers@) == post.signers
        &&& self.old_threshold == pre.threshold
        &&& self.new_threshold == post.threshold
        &&& self.updated_at == now
    }
}

/// What a proposal came to, with the events to publish under `MULTISIG_TOPIC`.
#[derive(Debug, PartialEq, Eq)]
pub struct ProposalOutcome {
    /// Whether the threshold was reached and the operation is to be executed.
    pub executed: bool,
    /// The event that every proposal publishes.
    pub proposed: MultisigTransactionProposedData,
    /// The event that an executed proposal publishes after it.
    pub execution: Option<MultisigTransactionExecutedData>,
}

/// A replaced configuration, with the event to publish under `MULTISIG_TOPIC`.
#[derive(Debug, PartialEq, Eq)]
pub struct ConfigUpdate {
    /// The configuration now stored.
    pub config: MultiSigConfig,
    /// The event that the replacement publishes.
    pub event: MultisigConfigUpdatedData,
}

/// The topic under which the approval engine's events are published.
pub const MULTISIG_TOPIC: &'static str = "MULTISIG";

/// Whether two digests are the same.
pub fn same_digest(a: &[u8; 32], b: &[u8; 32]) -> (same: bool)
    ensures
        same == (a@ == b@),
{
    let mut i: usize = 0;
    while i < 32
        invariant
            i <= 32,
            forall|k: int| 0 <= k < i ==> a@[k] == b@[k],
        decreases 32 - i,
    {
        if a[i] != b[i] {
            return false;
        }
        i += 1;
    }
    proof {
        assert(a@ =~= b@);
    }
    true
}

/// Whether `approvals` holds a signature of `signer` over `operation` and `nonce`.
pub fn is_endorsed(approvals: &Vec<Approval>, signer: &Principal, operation: &[u8; 32], nonce: u32) -> (b:
    bool)
    ensures
        b == endorsed(approval_views(approvals@), signer@, operation@, nonce),
{
    let mut k: usize = 0;
    while k < approvals.len()
        invariant
            k <= approvals.len(),
            forall|m: int|
                0 <= m < k ==> !((#[trigger] approval_views(approvals@)[m]).signer == signer@
                    && approval_views(approvals@)[m].operation == operation@ && approval_views(
                    approvals@,
                )[m].nonce == nonce),
        decreases approvals.len() - k,
    {
        if approvals[k].nonce == nonce && approvals[k].signer.same(signer) && same_digest(
            &approvals[k].operation,
            operation,
        ) {
            proof {
                assert(approval_views(approvals@)[k as int] == approvals@[k as int]@);
            }
            return true;
        }
        k += 1;
    }
    false
}

/// How many of `signers` have endorsed `operation` at `nonce`.
pub fn count_valid(
    signers: &Vec<Principal>,
    approvals: &Vec<Approval>,
    operation: &[u8; 32],
    nonce: u32,
) -> (n: usize)
    ensures
        n == valid_count(signer_views(signers@), approval_views(approvals@), operation@, nonce),
{
    let mut n: usize = 0;
    let mut i: usize = 0;
    proof {
        reveal(Seq::filter);
    }
    while i < signers.len()
        invariant
            i <= signers.len(),
            n <= i,
            n == valid_count(
                signer_views(signers@).take(i as int),
                approval_views(approvals@),
                operation@,
                nonce,
            ),
        decreases signers.len() - i,
    {
        proof {
            reveal(Seq::filter);
            assert(signer_views(signers@).take(i + 1).drop_last() =~= signer_views(signers@).take(
                i as int,
            ));
        }
        if is_endorsed(approvals, &signers[i], operation, nonce) {
            n += 1;
        }
        i += 1;
    }
    proof {
        assert(signer_views(signers@).take(i as int) =~= signer_views(signers@));
    }
    n
}

/// Whether no signer is listed twice.
pub fn all_distinct(signers: &Vec<Principal>) -> (b: bool)
    ensures
        b == distinct(signer_views(signers@)),
{
    let mut j: usize = 0;
    while j < signers.len()
        invariant
            j <= signers.len(),
            forall|a: int, c: int|
                0 <= a < c < j ==> signer_views(signers@)[a] != signer_views(signers@)[c],
        decreases signers.len() - j,
    {
        let mut i: usize = 0;
        while i < j
            invariant
                i <= j,
                j < signers.len(),
                forall|a: int| 0 <= a < i ==> signer_views(signers@)[a] != signer_views(signers@)[j as int],
            decreases j - i,
        {
            if signers[i].same(&signers[j]) {
                proof {
                    assert(signer_views(signers@)[i as int] == signer_views(signers@)[j as int]);
                }
                return false;
            }
            i += 1;
        }
        j += 1;
    }
    true
}

/// Tests a signer list and a threshold.
fn check_config(signers: &Vec<Principal>, threshold: u32) -> (res: Result<(), MultisigError>)
    ensures
        config_refusal(signer_views(signers@), threshold) == match res {
            Ok(_) => None::<MultisigError>,
            Err(e) => Some(e),
        },
{
    if threshold == 0 || threshold as usize > signers.len() {
        return Err(MultisigError::InvalidThreshold);
    }
    if !all_distinct(signers) {
        return Err(MultisigError::DuplicateSigner);
    }
    Ok(())
}

/// The approval engine's state: the one configuration, once stored.
#[derive(Debug, PartialEq, Eq)]
pub struct MultiSigContract {
    pub config: Option<MultiSigConfig>,
}

/// The stored configuration as the model sees it.
pub open spec fn config_view(c: Option<MultiSigConfig>) -> Option<MultisigState> {
    match c {
        Some(config) => Some(config@),
        None => None,
    }
}

impl View for MultiSigContract {
    type V = Option<MultisigState>;

    open spec fn view(&self) -> Option<MultisigState> {
        config_view(self.config)
    }
}

impl MultiSigContract {
    /// What holds of every state the engine reaches.
    pub open spec fn wf(&self) -> bool {
        self@ matches Some(c) ==> c.wf()
    }

    /// Whether the state is one the engine could have reached.
    pub fn is_well_formed(&self) -> (b: bool)
        ensures
            b == self.wf(),
    {
        match &self.config {
            None => true,
            Some(config) => check_config(&config.signers, config.threshold).is_ok(),
        }
    }

    /// An engine without configuration.
    pub fn new() -> (engine: MultiSigContract)
        ensures
            engine@ is None,
            engine.wf(),
    {
        MultiSigContract { config: None }
    }

    /// Stores the first configuration, with nonce zero. Refused if one is
    /// stored already, if the threshold is zero or larger than the number
    /// of signers, or if a signer is listed twice.
    pub fn initialize(&mut self, signers: Vec<Principal>, threshold: u32) -> (res: Result<
        MultiSigConfig,
        MultisigError,
    >)
        requires
            old(self).wf(),
        ensures
            final(self).wf(),
            match res {
                Ok(config) => {
                    &&& old(self)@ is None
                    &&& config_refusal(signer_views(signers@), threshold) is None
                    &&& config@ == (MultisigState {
                        signers: signer_views(signers@),
                        threshold,
                        nonce: 0,
                    })
                    &&& final(self)@ == Some(config@)
                },
                Err(e) => {
                    &&& final(self)@ == old(self)@
                    &&& e == if old(self)@ is Some {
                        MultisigError::AlreadyInitialized
                    } else {
                        config_refusal(signer_views(signers@), threshold)->0
                    }
                    &&& old(self)@ is Some || config_refusal(signer_views(signers@), threshold) is Some
                },
            },
    {
        if self.config.is_some() {
            return Err(MultisigError::AlreadyInitialized);
        }
        match check_config(&signers, threshold) {
            Err(e) => { return Err(e); },
            Ok(_) => {},
        }
        let config = MultiSigConfig { signers, threshold, nonce: 0 };
        let copy = config.clone();
        self.config = Some(config);
        Ok(copy)
    }

    /// Weighs `approvals` for `operation` against the configuration. If as
    /// many distinct configured signers as the threshold asks for have
    /// approved this operation at the current nonce, the proposal is
    /// executed and the nonce advances by one; if not, nothing changes.
    /// Either way the attempt is recorded in an event, and an execution in
    /// a second one.
    pub fn propose_transaction(
        &mut self,
        operation: &[u8; 32],
        approvals: &Vec<Approval>,
        proposer: &Principal,
        now: u64,
    ) -> (res: Result<ProposalOutcome, MultisigError>)
        requires
            old(self).wf(),
        ensures
            final(self).wf(),
            match res {
                Ok(out) => {
                    &&& old(self)@ matches Some(pre)
                    &&& final(self)@ matches Some(post)
                    &&& pre.propose_step(approval_views(approvals@), operation@) == Ok::<
                        MultisigState,
                        MultisigError,
                    >(post)
                    &&& out.executed == pre.approved(approval_views(approvals@), operation@)
                    &&& out.proposed.records(
                        pre,
                        proposer@,
                        approval_views(approvals@),
                        operation@,
                        now,
                    )
                    &&& out.execution is Some == out.executed
                    &&& out.execution matches Some(e) ==> e.records(pre, operation@, now)
                },
                Err(e) => {
                    &&& final(self)@ == old(self)@
                    &&& match old(self)@ {
                        None => e == MultisigError::NotInitialized,
                        Some(pre) => pre.propose_step(approval_views(approvals@), operation@)
                            == Err::<MultisigState, MultisigError>(e),
                    }
                },
            },
    {
        match &mut self.config {
            None => Err(MultisigError::NotInitialized),
            Some(config) => {
                let valid = count_valid(&config.signers, approvals, operation, config.nonce);
                let executed = valid >= config.threshold as usize;
                if executed && config.nonce == u32::MAX {
                    return Err(MultisigError::NonceExhausted);
                }
                let proposed = MultisigTransactionProposedData {
                    nonce: config.nonce,
                    proposer: proposer.clone(),
                    operation_hash: *operation,
                    threshold: config.threshold,
                    current_signatures: valid,
                    proposed_at: now,
                };
                let execution = if executed {
                    let event = MultisigTransactionExecutedData {
                        nonce: config.nonce,
                        signers: copy_principals(&config.signers),
                        operation_hash: *operation,
                        executed_at: now,
                    };
                    config.nonce = config.nonce + 1;
                    Some(event)
                } else {
                    None
                };
                Ok(ProposalOutcome { executed, proposed, execution })
            },
        }
    }

    /// The stored configuration.
    pub fn get_config(&self) -> (res: Result<MultiSigConfig, MultisigError>)
        ensures
            match res {
                Ok(config) => self@ == Some(config@),
                Err(e) => self@ is None && e == MultisigError::NotInitialized,
            },
    {
        match &self.config {
            Some(config) => Ok(config.clone()),
            None => Err(MultisigError::NotInitialized),
        }
    }

    /// Replaces signers and threshold and keeps the nonce. The new list
    /// and threshold are tested as in `initialize`. The change is recorded
    /// in an event.
    pub fn update_config(&mut self, new_signers: Vec<Principal>, new_threshold: u32, now: u64) -> (res:
        Result<ConfigUpdate, MultisigError>)
        requires
            old(self).wf(),
        ensures
            final(self).wf(),
            match res {
                Ok(update) => {
                    &&& old(self)@ matches Some(pre)
                    &&& config_refusal(signer_views(new_signers@), new_threshold) is None
                    &&& update.config@ == (MultisigState {
                        signers: signer_views(new_signers@),
                        threshold: new_threshold,
                        nonce: pre.nonce,
                    })
                    &&& final(self)@ == Some(update.config@)
                    &&& update.event.records(pre, update.config@, now)
                },
                Err(e) => {
                    &&& final(self)@ == old(self)@
                    &&& e == match config_refusal(signer_views(new_signers@), new_threshold) {
                        Some(refusal) => refusal,
                        None => MultisigError::NotInitialized,
                    }
                    &&& config_refusal(signer_views(new_signers@), new_threshold) is Some
                        || old(self)@ is None
                },
            },
    {
        match check_config(&new_signers, new_threshold) {
            Err(e) => { return Err(e); },
            Ok(_) => {},
        }
        let (old_signers, old_threshold, nonce) = match &self.config {
            Some(config) => (copy_principals(&config.signers), config.threshold, config.nonce),
            None => { return Err(MultisigError::NotInitialized); },
        };
        let event = MultisigConfigUpdatedData {
            old_signers,
            new_signers: copy_principals(&new_signers),
            old_threshold,
            new_threshold,
            updated_at: now,
        };
        let config = MultiSigConfig { signers: new_signers, threshold: new_threshold, nonce };
        let copy = config.clone();
        self.config = Some(config);
        Ok(ConfigUpdate { config: copy, event })
    }
}

/// No signer counts for an operation or a nonce that no approval is bound to.
pub proof fn lemma_nothing_bound_counts_nothing(
    signers: Seq<Seq<char>>,
    approvals: Seq<ApprovalRecord>,
    operation: Seq<u8>,
    nonce: u32,
)
    requires
        forall|k: int| 0 <= k < approvals.len() ==> (#[trigger] approvals[k]).nonce != nonce,
    ensures
        valid_count(signers, approvals, operation, nonce) == 0,
    decreases signers.len(),
{
    reveal(Seq::filter);
    if signers.len() > 0 {
        lemma_nothing_bound_counts_nothing(signers.drop_last(), approvals, operation, nonce);
    }
}

/// The configured signers with a valid signature over `operation` and `nonce`.
pub open spec fn valid_signers(
    signers: Seq<Seq<char>>,
    approvals: Seq<ApprovalRecord>,
    operation: Seq<u8>,
    nonce: u32,
) -> Set<Seq<char>> {
    Set::new(|s: Seq<char>| signers.contains(s) && endorsed(approvals, s, operation, nonce))
}

/// The count that a proposal is weighed by is the number of distinct
/// configured signers with a valid signature: where no signer is listed
/// twice, `valid_count` is the size of the set `valid_signers`.
pub proof fn law_count_is_number_of_valid_signers(
    signers: Seq<Seq<char>>,
    approvals: Seq<ApprovalRecord>,
    operation: Seq<u8>,
    nonce: u32,
)
    requires
        distinct(signers),
    ensures
        valid_signers(signers, approvals, operation, nonce).finite(),
        valid_count(signers, approvals, operation, nonce) == valid_signers(
            signers,
            approvals,
            operation,
            nonce,
        ).len(),
    decreases signers.len(),
{
    reveal(Seq::filter);
    let all = valid_signers(signers, approvals, operation, nonce);
    if signers.len() == 0 {
        assert(all =~= Set::<Seq<char>>::empty());
    } else {
        let init = signers.drop_last();
        let last = signers.last();
        let before = valid_signers(init, approvals, operation, nonce);
        assert(distinct(init)) by {
            assert forall|i: int, j: int| 0 <= i < j < init.len() implies init[i] != init[j] by {
                assert(init[i] == signers[i] && init[j] == signers[j]);
            }
        }
        law_count_is_number_of_valid_signers(init, approvals, operation, nonce);
        assert(!init.contains(last)) by {
            if init.contains(last) {
                let k = choose|k: int| 0 <= k < init.len() && init[k] == last;
                assert(signers[k] == signers[signers.len() - 1]);
            }
        }
        assert forall|s: Seq<char>| signers.contains(s) <==> (init.contains(s) || s == last) by {
            if signers.contains(s) {
                let k = choose|k: int| 0 <= k < signers.len() && signers[k] == s;
                if k < init.len() {
                    assert(init[k] == s);
                }
            }
            if init.contains(s) {
                let k = choose|k: int| 0 <= k < init.len() && init[k] == s;
                assert(signers[k] == s);
            }
            if s == last {
                assert(signers[signers.len() - 1] == s);
            }
        }
        if endorsed(approvals, last, operation, nonce) {
            assert(all =~= before.insert(last));
        } else {
            assert(all =~= before);
        }
    }
}

/// The nonce counts the executions. A proposal executes exactly when the
/// distinct configured signers that approved it reach the threshold, and
/// it then advances the nonce by exactly one and changes nothing else. A
/// proposal that does not execute changes nothing. The nonce never
/// decreases and never wraps: at the last nonce an approved proposal is
/// refused.
pub proof fn law_nonce_counts_executions(
    s: MultisigState,
    approvals: Seq<ApprovalRecord>,
    operation: Seq<u8>,
)
    requires
        s.wf(),
    ensures
        s.approved(approvals, operation) <==> valid_signers(
            s.signers,
            approvals,
            operation,
            s.nonce,
        ).len() >= s.threshold,
        match s.propose_step(approvals, operation) {
            Ok(post) => {
                &&& post.wf()
                &&& post.signers == s.signers
                &&& post.threshold == s.threshold
                &&& post.nonce == if s.approved(approvals, operation) {
                    s.nonce + 1
                } else {
                    s.nonce as int
                }
            },
            Err(e) => e == MultisigError::NonceExhausted && s.approved(approvals, operation)
                && s.nonce == u32::MAX,
        },
{
    law_count_is_number_of_valid_signers(s.signers, approvals, operation, s.nonce);
}

/// Replay protection: once a proposal has executed, the approvals that
/// carried it, all bound to the nonce that has passed, execute nothing any
/// more: the same call again does not reach the threshold and leaves the
/// configuration as it is.
pub proof fn law_executed_approvals_are_spent(
    s: MultisigState,
    approvals: Seq<ApprovalRecord>,
    operation: Seq<u8>,
)
    requires
        s.wf(),
        forall|k: int| 0 <= k < approvals.len() ==> (#[trigger] approvals[k]).nonce == s.nonce,
        s.approved(approvals, operation),
        s.nonce < u32::MAX,
    ensures
        ({
            let post = s.propose_step(approvals, operation)->Ok_0;
            &&& s.propose_step(approvals, operation) is Ok
            &&& post.nonce == s.nonce + 1
            &&& !post.approved(approvals, operation)
            &&& post.propose_step(approvals, operation) == Ok::<MultisigState, MultisigError>(post)
        }),
{
    let post = s.propose_step(approvals, operation)->Ok_0;
    lemma_nothing_bound_counts_nothing(s.signers, approvals, operation, post.nonce);
}

/// A threshold of zero, and one above the number of signers, is refused
/// whatever the signers are.
pub proof fn law_threshold_must_fit(signers: Seq<Seq<char>>, threshold: u32)
    ensures
        threshold == 0 || threshold > signers.len() ==> config_refusal(signers, threshold) == Some(
            MultisigError::InvalidThreshold,
        ),
        config_refusal(signers, threshold) is None ==> 1 <= threshold <= signers.len() && distinct(
            signers,
        ),
{
}

} // verus!
