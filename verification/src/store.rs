//! The commit boundary: one compare-and-swap request per action, and the store
//! that keeps a snapshot in memory.

use crate::arith::{nearest, sat_add};
use crate::snapshot::{DigRuntimeSnapshot, SnapshotView};
use crate::text::{int_text, integer_text, join2, join3};
use crate::version::{version_of, DigRuntimeVersion};
use vstd::prelude::*;

verus! {

/// Pet work that a commit settles together with the tunnel.
#[derive(Clone, Copy, Debug, PartialEq, Eq, Structural)]
pub struct PetDigWorkClaim {
    pub pet_id: i64,
    pub expected_units: i64,
    pub expected_at: i64,
    pub new_units: i64,
    pub new_at: i64,
}

/// A Slow Drip payout claimed before a dig is admitted. The gross amount counts
/// against the daily cap; `credit_jc` is what reaches the wallet.
#[derive(Debug, PartialEq, Eq)]
pub struct DigSlowDripClaim {
    pub claim_date: String,
    pub gross_jc: i64,
    pub credit_jc: i64,
    pub claimed_before: i64,
    pub claimed_after: i64,
    pub anchor_before: i64,
    pub expected_last_claim_at: i64,
    pub claimed_at: i64,
}

/// What a [`DigSlowDripClaim`] holds.
#[verifier::ext_equal]
pub struct SlowDripView {
    pub claim_date: Seq<char>,
    pub gross_jc: i64,
    pub credit_jc: i64,
    pub claimed_before: i64,
    pub claimed_after: i64,
    pub anchor_before: i64,
    pub expected_last_claim_at: i64,
    pub claimed_at: i64,
}

impl View for DigSlowDripClaim {
    type V = SlowDripView;

    open spec fn view(&self) -> SlowDripView {
        SlowDripView {
            claim_date: self.claim_date@,
            gross_jc: self.gross_jc,
            credit_jc: self.credit_jc,
            claimed_before: self.claimed_before,
            claimed_after: self.claimed_after,
            anchor_before: self.anchor_before,
            expected_last_claim_at: self.expected_last_claim_at,
            claimed_at: self.claimed_at,
        }
    }
}

impl Clone for DigSlowDripClaim {
    fn clone(&self) -> (copy: DigSlowDripClaim)
        ensures
            copy == *self,
    {
        DigSlowDripClaim {
            claim_date: self.claim_date.clone(),
            gross_jc: self.gross_jc,
            credit_jc: self.credit_jc,
            claimed_before: self.claimed_before,
            claimed_after: self.claimed_after,
            anchor_before: self.anchor_before,
            expected_last_claim_at: self.expected_last_claim_at,
            claimed_at: self.claimed_at,
        }
    }
}

/// One transaction request.
#[derive(Debug)]
pub struct DigRuntimeCommit {
    /// The version that the stored snapshot must still have.
    pub expected: DigRuntimeVersion,
    /// What replaces it.
    pub next: DigRuntimeSnapshot,
    /// Inventory rows that the commit burns.
    pub consumed_item_ids: Vec<i64>,
    pub pet_work_claim: Option<PetDigWorkClaim>,
    /// Spend the Overgrowth charge that the preview saw.
    pub consume_overgrowth: bool,
    pub depth_before: i64,
    pub depth_after: i64,
    /// Net reward for the audit row.
    pub jc_delta: i64,
    pub vanity_tax: i64,
    pub low_priority_tax: i64,
    /// Wallet debit that is ledgered on its own.
    pub balance_cost: i64,
    pub action_type: String,
    pub detail: String,
    pub now: i64,
}

/// What a [`DigRuntimeCommit`] holds.
#[verifier::ext_equal]
pub struct CommitView {
    pub expected: DigRuntimeVersion,
    pub next: SnapshotView,
    pub consumed_item_ids: Seq<i64>,
    pub pet_work_claim: Option<PetDigWorkClaim>,
    pub consume_overgrowth: bool,
    pub depth_before: i64,
    pub depth_after: i64,
    pub jc_delta: i64,
    pub vanity_tax: i64,
    pub low_priority_tax: i64,
    pub balance_cost: i64,
    pub action_type: Seq<char>,
    pub detail: Seq<char>,
    pub now: i64,
}

impl View for DigRuntimeCommit {
    type V = CommitView;

    open spec fn view(&self) -> CommitView {
        CommitView {
            expected: self.expected,
            next: self.next@,
            consumed_item_ids: self.consumed_item_ids@,
            pet_work_claim: self.pet_work_claim,
            consume_overgrowth: self.consume_overgrowth,
            depth_before: self.depth_before,
            depth_after: self.depth_after,
            jc_delta: self.jc_delta,
            vanity_tax: self.vanity_tax,
            low_priority_tax: self.low_priority_tax,
            balance_cost: self.balance_cost,
            action_type: self.action_type@,
            detail: self.detail@,
            now: self.now,
        }
    }
}

impl Clone for DigRuntimeCommit {
    fn clone(&self) -> (copy: DigRuntimeCommit)
        ensures
            copy@ == self@,
    {
        let copy = DigRuntimeCommit {
            expected: self.expected,
            next: self.next.clone(),
            consumed_item_ids: self.consumed_item_ids.clone(),
            pet_work_claim: self.pet_work_claim,
            consume_overgrowth: self.consume_overgrowth,
            depth_before: self.depth_before,
            depth_after: self.depth_after,
            jc_delta: self.jc_delta,
            vanity_tax: self.vanity_tax,
            low_priority_tax: self.low_priority_tax,
            balance_cost: self.balance_cost,
            action_type: self.action_type.clone(),
            detail: self.detail.clone(),
            now: self.now,
        };
        assert(copy@ =~= self@);
        copy
    }
}

/// What a committed transaction reports.
#[derive(Debug, PartialEq, Eq)]
pub struct DigRuntimeCommitReceipt {
    pub balance_after: i64,
    pub action_id: i64,
    /// Staged identifier and stored identifier of each new inventory row.
    pub inserted_item_ids: Vec<(i64, i64)>,
    pub inserted_artifact_ids: Vec<(i64, i64)>,
    pub inserted_gear_ids: Vec<(i64, i64)>,
}

/// What a [`DigRuntimeCommitReceipt`] holds.
#[verifier::ext_equal]
pub struct ReceiptView {
    pub balance_after: i64,
    pub action_id: i64,
    pub inserted_item_ids: Seq<(i64, i64)>,
    pub inserted_artifact_ids: Seq<(i64, i64)>,
    pub inserted_gear_ids: Seq<(i64, i64)>,
}

impl View for DigRuntimeCommitReceipt {
    type V = ReceiptView;

    open spec fn view(&self) -> ReceiptView {
        ReceiptView {
            balance_after: self.balance_after,
            action_id: self.action_id,
            inserted_item_ids: self.inserted_item_ids@,
            inserted_artifact_ids: self.inserted_artifact_ids@,
            inserted_gear_ids: self.inserted_gear_ids@,
        }
    }
}

/// What an optional Slow Drip claim holds.
pub open spec fn claim_view(claim: Option<DigSlowDripClaim>) -> Option<SlowDripView> {
    match claim {
        Some(claim) => Some(claim@),
        None => None,
    }
}

/// Why a store refused or failed.
#[derive(Debug, PartialEq, Eq)]
pub enum DigRuntimeStoreError {
    MissingPlayer,
    MissingTunnel,
    Conflict,
    MissingQueuedItem(i64),
    StateConflict,
    InvalidJson(&'static str),
    Sqlite(String),
    Poisoned,
    Weather(String),
    Inventory(String),
    Event(String),
    InsufficientFunds,
    PetWorkConflict,
    Pet(String),
    OvergrowthConflict,
    BloodPact(String),
}

/// The text shown for a store error.
pub open spec fn store_error_text(error: DigRuntimeStoreError) -> Seq<char> {
    match error {
        DigRuntimeStoreError::MissingPlayer => "player is not registered"@,
        DigRuntimeStoreError::MissingTunnel => "tunnel is missing"@,
        DigRuntimeStoreError::Conflict => "Dig state changed before the transaction committed"@,
        DigRuntimeStoreError::MissingQueuedItem(id) => "queued consumable "@ + int_text(id as int)
            + " disappeared before the transaction committed"@,
        DigRuntimeStoreError::StateConflict => "persisted Dig state changed before the transaction committed"@,
        DigRuntimeStoreError::InvalidJson(column) => "invalid persisted Dig JSON in "@ + column@,
        DigRuntimeStoreError::Sqlite(detail) => "SQLite Dig operation failed: "@ + detail@,
        DigRuntimeStoreError::Poisoned => "in-memory Dig store lock is poisoned"@,
        DigRuntimeStoreError::Weather(detail) => "Dig weather setup failed: "@ + detail@,
        DigRuntimeStoreError::Inventory(detail) => "Dig inventory operation failed: "@ + detail@,
        DigRuntimeStoreError::Event(detail) => "Dig event operation failed: "@ + detail@,
        DigRuntimeStoreError::InsufficientFunds => "insufficient_funds"@,
        DigRuntimeStoreError::PetWorkConflict => "pet dig work changed before the transaction committed"@,
        DigRuntimeStoreError::Pet(detail) => "Dig pet operation failed: "@ + detail@,
        DigRuntimeStoreError::OvergrowthConflict => "the previewed Overgrowth charge changed before Dig settlement"@,
        DigRuntimeStoreError::BloodPact(detail) => "Dig Blood Pact settlement failed: "@ + detail@,
    }
}

impl DigRuntimeStoreError {
    /// The text shown for this error.
    pub fn message(&self) -> (text: String)
        ensures
            text@ == store_error_text(*self),
    {
        match self {
            DigRuntimeStoreError::MissingPlayer => "player is not registered".to_owned(),
            DigRuntimeStoreError::MissingTunnel => "tunnel is missing".to_owned(),
            DigRuntimeStoreError::Conflict => {
                "Dig state changed before the transaction committed".to_owned()
            },
            DigRuntimeStoreError::MissingQueuedItem(id) => join3(
                "queued consumable ",
                integer_text(*id).as_str(),
                " disappeared before the transaction committed",
            ),
            DigRuntimeStoreError::StateConflict => {
                "persisted Dig state changed before the transaction committed".to_owned()
            },
            DigRuntimeStoreError::InvalidJson(column) => {
                join2("invalid persisted Dig JSON in ", column)
            },
            DigRuntimeStoreError::Sqlite(detail) => {
                join2("SQLite Dig operation failed: ", detail.as_str())
            },
            DigRuntimeStoreError::Poisoned => "in-memory Dig store lock is poisoned".to_owned(),
            DigRuntimeStoreError::Weather(detail) => {
                join2("Dig weather setup failed: ", detail.as_str())
            },
            DigRuntimeStoreError::Inventory(detail) => {
                join2("Dig inventory operation failed: ", detail.as_str())
            },
            DigRuntimeStoreError::Event(detail) => {
                join2("Dig event operation failed: ", detail.as_str())
            },
            DigRuntimeStoreError::InsufficientFunds => "insufficient_funds".to_owned(),
            DigRuntimeStoreError::PetWorkConflict => {
                "pet dig work changed before the transaction committed".to_owned()
            },
            DigRuntimeStoreError::Pet(detail) => {
                join2("Dig pet operation failed: ", detail.as_str())
            },
            DigRuntimeStoreError::OvergrowthConflict => {
                "the previewed Overgrowth charge changed before Dig settlement".to_owned()
            },
            DigRuntimeStoreError::BloodPact(detail) => {
                join2("Dig Blood Pact settlement failed: ", detail.as_str())
            },
        }
    }
}

/// What the in-memory store holds: the snapshot and the next action identifier.
#[verifier::ext_equal]
pub struct StoreView {
    pub snapshot: Option<SnapshotView>,
    pub next_action_id: i64,
}

impl StoreView {
    /// Whether a commit request still matches what is stored.
    pub open spec fn accepts(self, request: CommitView) -> bool {
        self.snapshot is Some && version_of(self.snapshot->0) == request.expected
    }

    /// The store after a request: replaced where the version matches, and
    /// untouched otherwise.
    pub open spec fn after(self, request: CommitView) -> StoreView {
        if self.accepts(request) {
            StoreView {
                snapshot: Some(request.next),
                next_action_id: nearest(self.next_action_id + 1),
            }
        } else {
            self
        }
    }
}

/// A store for one player that lives in memory.
#[derive(Debug)]
pub struct InMemoryDigRuntimeStore {
    snapshot: Option<DigRuntimeSnapshot>,
    next_action_id: i64,
}

impl View for InMemoryDigRuntimeStore {
    type V = StoreView;

    closed spec fn view(&self) -> StoreView {
        StoreView {
            snapshot: match self.snapshot {
                Some(snapshot) => Some(snapshot@),
                None => None,
            },
            next_action_id: self.next_action_id,
        }
    }
}

impl Default for InMemoryDigRuntimeStore {
    /// A store without a player.
    fn default() -> (store: InMemoryDigRuntimeStore)
        ensures
            store@ == (StoreView { snapshot: None, next_action_id: 0 }),
    {
        InMemoryDigRuntimeStore { snapshot: None, next_action_id: 0 }
    }
}

impl InMemoryDigRuntimeStore {
    /// A store that holds one snapshot and numbers actions from one.
    pub fn new(snapshot: DigRuntimeSnapshot) -> (store: InMemoryDigRuntimeStore)
        ensures
            store@ == (StoreView { snapshot: Some(snapshot@), next_action_id: 1 }),
    {
        InMemoryDigRuntimeStore { snapshot: Some(snapshot), next_action_id: 1 }
    }

    /// A copy of the stored snapshot.
    pub fn current(&self) -> (snapshot: Option<DigRuntimeSnapshot>)
        ensures
            match snapshot {
                Some(snapshot) => self@.snapshot == Some(snapshot@),
                None => self@.snapshot is None,
            },
    {
        match &self.snapshot {
            Some(snapshot) => Some(snapshot.clone()),
            None => None,
        }
    }

    /// A copy of the stored snapshot, or the error for a player who is absent.
    pub fn snapshot(&self) -> (snapshot: Result<DigRuntimeSnapshot, DigRuntimeStoreError>)
        ensures
            match snapshot {
                Ok(snapshot) => self@.snapshot == Some(snapshot@),
                Err(error) => self@.snapshot is None && error is MissingPlayer,
            },
    {
        match &self.snapshot {
            Some(snapshot) => Ok(snapshot.clone()),
            None => Err(DigRuntimeStoreError::MissingPlayer),
        }
    }

    /// Replaces the stored snapshot if its version is the expected one.
    pub fn commit(&mut self, request: DigRuntimeCommit) -> (receipt: Result<
        DigRuntimeCommitReceipt,
        DigRuntimeStoreError,
    >)
        ensures
            final(self)@ == old(self)@.after(request@),
            match receipt {
                Ok(receipt) => {
                    &&& old(self)@.accepts(request@)
                    &&& receipt@ == (ReceiptView {
                        balance_after: request@.next.balance,
                        action_id: old(self)@.next_action_id,
                        inserted_item_ids: Seq::empty(),
                        inserted_artifact_ids: Seq::empty(),
                        inserted_gear_ids: Seq::empty(),
                    })
                },
                Err(error) => {
                    &&& !old(self)@.accepts(request@)
                    &&& error is MissingPlayer <==> old(self)@.snapshot is None
                    &&& error is Conflict <==> old(self)@.snapshot is Some
                },
            },
    {
        let version = match &self.snapshot {
            Some(current) => DigRuntimeVersion::of(current),
            None => {
                return Err(DigRuntimeStoreError::MissingPlayer);
            },
        };
        if version != request.expected {
            return Err(DigRuntimeStoreError::Conflict);
        }
        let receipt = DigRuntimeCommitReceipt {
            balance_after: request.next.balance,
            action_id: self.next_action_id,
            inserted_item_ids: Vec::new(),
            inserted_artifact_ids: Vec::new(),
            inserted_gear_ids: Vec::new(),
        };
        self.snapshot = Some(request.next);
        self.next_action_id = sat_add(self.next_action_id, 1);
        Ok(receipt)
    }
}

/// A request built on the stored snapshot is accepted, and its snapshot is what
/// the store then holds.
pub proof fn law_current_version_commits(store: StoreView, request: CommitView)
    requires
        store.snapshot is Some,
        request.expected == version_of(store.snapshot->0),
    ensures
        store.accepts(request),
        store.after(request).snapshot == Some(request.next),
{
}

/// A request that the store does not accept changes nothing.
pub proof fn law_refused_commit_changes_nothing(store: StoreView, request: CommitView)
    requires
        !store.accepts(request),
    ensures
        store.after(request) == store,
{
}

/// Once one of two requests built on the same snapshot has moved the balance,
/// the depth, the dig counter or the time of the last dig, the other one is
/// refused.
pub proof fn law_stale_version_is_refused(
    store: StoreView,
    first: CommitView,
    second: CommitView,
)
    requires
        store.accepts(first),
        second.expected == first.expected,
        version_of(first.next).balance != first.expected.balance
            || version_of(first.next).depth != first.expected.depth
            || version_of(first.next).total_digs != first.expected.total_digs
            || version_of(first.next).last_dig_at != first.expected.last_dig_at,
    ensures
        !store.after(first).accepts(second),
        store.after(first).after(second) == store.after(first),
{
}

} // verus!
