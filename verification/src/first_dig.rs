//! The first dig of a miner, which never caves in and is never taxed.

use crate::arith::{larger, max_of, min_of, nearest, sat_sub, smaller};
use crate::json::{object, optional_int, render_json, text_of_json, Json, JsonView};
use crate::outcome::{idle_outcome, DigRuntimeOutcome, OutcomeView};
use crate::report::DigSettlement;
use crate::settlement::{apply_state, state_applied, StateView, TunnelState};
use crate::snapshot::{DigRuntimeSnapshot, SnapshotView, TunnelView};
use crate::store::{CommitView, DigRuntimeCommit, PetDigWorkClaim};
use crate::text::{text_view, texts};
use crate::version::{version_of, DigRuntimeVersion};
use vstd::prelude::*;

verus! {

/// Where a boss gate lets an advance end.
#[derive(Clone, Copy, Debug, PartialEq, Eq, Structural)]
pub struct BossGate {
    pub advance: i64,
    pub depth_after: i64,
    pub boss_encounter: Option<i64>,
}

/// The pet's blocks that a boss in the way leaves standing: how much further the
/// advance with the pet gets than the one without, at most what was offered.
pub fn first_dig_pet_bonus(gated_total: i64, gated_base: i64, offered: i64) -> (bonus: i64)
    ensures
        bonus == smaller(nearest(gated_total - gated_base), offered),
{
    min_of(sat_sub(gated_total, gated_base), offered)
}

/// What a first dig reports.
#[derive(Debug)]
pub struct FirstDigReport {
    pub today: String,
    pub now: i64,
    pub jc_earned: i64,
    pub gate: BossGate,
    pub pet_work_claim: Option<PetDigWorkClaim>,
    pub pet_dig_bonus: i64,
    pub pet_name: Option<String>,
    pub minigame_scaled_jc: i64,
    pub economy_adjusted_jc: i64,
    /// The multiplier of the daily economy, a number.
    pub economy_multiplier: Json,
    pub mutation_names: Vec<String>,
}

/// The audit detail of a first dig.
pub open spec fn first_dig_tree(report: FirstDigReport) -> JsonView {
    object().with("first_dig"@, JsonView::Bool(true)).with(
        "gross_jc"@,
        JsonView::Int(report.economy_adjusted_jc),
    ).with("minigame_scaled_jc"@, JsonView::Int(report.minigame_scaled_jc)).with(
        "economy_adjusted_jc"@,
        JsonView::Int(report.economy_adjusted_jc),
    ).with("economy_reward_multiplier"@, report.economy_multiplier@).with(
        "vanity_tax"@,
        JsonView::Int(0),
    ).with("low_priority_tax"@, JsonView::Int(0)).with(
        "pet_dig_bonus"@,
        JsonView::Int(report.pet_dig_bonus),
    ).with("boss_boundary"@, optional_int(report.gate.boss_encounter))
}

/// A snapshot whose streak starts today.
pub open spec fn streak_started(current: SnapshotView, today: Seq<char>) -> SnapshotView {
    SnapshotView {
        tunnel: match current.tunnel {
            Some(tunnel) => Some(
                TunnelView { streak_days: 1, streak_last_date: Some(today), ..tunnel },
            ),
            None => None,
        },
        ..current
    }
}

/// The stored snapshot of a first dig: it ends where the boss gate says.
pub open spec fn first_dig_snapshot(
    current: SnapshotView,
    state: StateView,
    report: FirstDigReport,
) -> SnapshotView {
    state_applied(
        streak_started(current, report.today@),
        StateView {
            depth: report.gate.depth_after,
            max_depth: larger(state.max_depth, report.gate.depth_after),
            ..state
        },
        report.today@,
        false,
        report.jc_earned,
    )
}

/// The commit of a first dig.
pub open spec fn first_dig_commit(
    base: SnapshotView,
    current: SnapshotView,
    state: StateView,
    report: FirstDigReport,
) -> CommitView {
    CommitView {
        expected: version_of(base),
        next: first_dig_snapshot(current, state, report),
        consumed_item_ids: Seq::empty(),
        pet_work_claim: report.pet_work_claim,
        consume_overgrowth: false,
        depth_before: 0,
        depth_after: report.gate.advance,
        jc_delta: report.jc_earned,
        vanity_tax: 0,
        low_priority_tax: 0,
        balance_cost: 0,
        action_type: "dig"@,
        detail: text_of_json(first_dig_tree(report)),
        now: report.now,
    }
}

/// The outcome of a first dig before its commit is confirmed.
pub open spec fn first_dig_outcome(
    current: SnapshotView,
    state: StateView,
    report: FirstDigReport,
) -> OutcomeView {
    OutcomeView {
        success: true,
        depth_before: 0,
        depth_after: report.gate.advance,
        advance: report.gate.advance,
        jc_earned: report.jc_earned,
        balance_after: state.balance,
        mutation_names: texts(report.mutation_names@),
        tip: "Welcome to the mines! Use /dig again after the cooldown."@,
        boss_boundary: report.gate.boss_encounter,
        first_dig: true,
        pet_dig_bonus: report.pet_dig_bonus,
        pet_name: text_view(report.pet_name),
        ..idle_outcome(current)
    }
}

fn first_dig_detail(report: &FirstDigReport) -> (tree: Json)
    ensures
        tree@ == first_dig_tree(*report),
{
    let mut tree = Json::empty_object();
    tree.set("first_dig", Json::Bool(true));
    tree.set("gross_jc", Json::from_i64(report.economy_adjusted_jc));
    tree.set("minigame_scaled_jc", Json::from_i64(report.minigame_scaled_jc));
    tree.set("economy_adjusted_jc", Json::from_i64(report.economy_adjusted_jc));
    tree.set("economy_reward_multiplier", report.economy_multiplier.clone());
    tree.set("vanity_tax", Json::from_i64(0));
    tree.set("low_priority_tax", Json::from_i64(0));
    tree.set("pet_dig_bonus", Json::from_i64(report.pet_dig_bonus));
    tree.set("boss_boundary", Json::from_optional_i64(report.gate.boss_encounter));
    tree
}

/// Writes the commit and the outcome of a first dig.
pub fn settle_first_dig(
    base: &DigRuntimeSnapshot,
    current: DigRuntimeSnapshot,
    state: TunnelState,
    report: FirstDigReport,
) -> (settlement: DigSettlement)
    ensures
        settlement.commit@ == first_dig_commit(base@, current@, state@, report),
        settlement.outcome@ == first_dig_outcome(current@, state@, report),
{
    let ghost start = current@;
    let ghost settled = StateView {
        depth: report.gate.depth_after,
        max_depth: larger(state@.max_depth, report.gate.depth_after),
        ..state@
    };
    let ghost wanted_commit = first_dig_commit(base@, current@, state@, report);
    let ghost wanted_outcome = first_dig_outcome(current@, state@, report);
    let detail = render_json(first_dig_detail(&report));
    let mut outcome = DigRuntimeOutcome::idle(&current);
    let mut state = state;
    state.depth = report.gate.depth_after;
    state.max_depth = max_of(state.max_depth, report.gate.depth_after);
    assert(state@ =~= settled);
    let mut next = current;
    match next.tunnel.take() {
        Some(taken) => {
            let mut tunnel = taken;
            tunnel.streak_days = 1;
            tunnel.streak_last_date = Some(report.today.clone());
            next.tunnel = Some(tunnel);
        },
        None => {},
    }
    assert(next@ =~= streak_started(start, report.today@));
    apply_state(&mut next, &state, report.today.as_str(), false, report.jc_earned);
    outcome.success = true;
    outcome.depth_before = 0;
    outcome.depth_after = report.gate.advance;
    outcome.advance = report.gate.advance;
    outcome.jc_earned = report.jc_earned;
    outcome.balance_after = next.balance;
    outcome.mutation_names = report.mutation_names;
    outcome.tip = "Welcome to the mines! Use /dig again after the cooldown.".to_owned();
    outcome.boss_boundary = report.gate.boss_encounter;
    outcome.first_dig = true;
    outcome.pet_dig_bonus = report.pet_dig_bonus;
    outcome.pet_name = report.pet_name;
    assert(outcome@ =~= wanted_outcome);
    let commit = DigRuntimeCommit {
        expected: DigRuntimeVersion::of(base),
        next,
        consumed_item_ids: Vec::new(),
        pet_work_claim: report.pet_work_claim,
        consume_overgrowth: false,
        depth_before: 0,
        depth_after: report.gate.advance,
        jc_delta: report.jc_earned,
        vanity_tax: 0,
        low_priority_tax: 0,
        balance_cost: 0,
        action_type: "dig".to_owned(),
        detail,
        now: report.now,
    };
    assert(commit@ =~= wanted_commit);
    DigSettlement { commit, outcome }
}

/// A first dig ends where the boss gate says, starts a streak of one day, is
/// never taxed and never costs anything.
pub proof fn law_first_dig_is_free_and_gated(
    base: SnapshotView,
    current: SnapshotView,
    state: StateView,
    report: FirstDigReport,
)
    requires
        current.tunnel is Some,
    ensures
        ({
            let commit = first_dig_commit(base, current, state, report);
            let tunnel = commit.next.tunnel->0;
            &&& commit.next.tunnel is Some
            &&& tunnel.depth == report.gate.depth_after
            &&& tunnel.max_depth >= tunnel.depth
            &&& tunnel.streak_days == 1
            &&& tunnel.streak_last_date == Some(report.today@)
            &&& commit.vanity_tax == 0
            &&& commit.low_priority_tax == 0
            &&& commit.balance_cost == 0
            &&& commit.consumed_item_ids.len() == 0
        }),
{
}

} // verus!
