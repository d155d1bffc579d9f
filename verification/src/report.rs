//! What a settled dig reports: its event, its audit detail, its commit and its
//! outcome.

use crate::arith::{nearest, sat_add, sat_sub};
use crate::json::{
    object, optional_int, optional_text, render_json, text_array, text_of_json, tree_option, Json,
    JsonView,
};
use crate::loot::list_has;
use crate::outcome::{
    idle_outcome, DigRuntimeOutcome, DigRuntimeRequest, DigRuntimeWeatherInfo, OutcomeView,
    WeatherInfoView,
};
use crate::settlement::DigOutcome;
use crate::snapshot::{DigRuntimeSnapshot, SnapshotView, TunnelView};
use crate::store::{
    claim_view, CommitView, DigRuntimeCommit, DigRuntimeCommitReceipt, DigSlowDripClaim,
    PetDigWorkClaim, SlowDripView,
};
use crate::text::{borrow_text, same_text, text_view, texts};
use crate::version::{version_of, DigRuntimeVersion};
use vstd::prelude::*;

verus! {

/// The tip for a depth: three for each of four bands.
pub open spec fn tip_text(depth: i64, index: int) -> Seq<char> {
    if depth <= 10 {
        if index == 0 {
            "Use /dig to advance your tunnel. Your first dig each day is free!"@
        } else if index == 1 {
            "Buy items from the shop with /dig shop. Dynamite blasts through rock fast."@
        } else {
            "Each layer gets harder but more rewarding. Keep digging!"@
        }
    } else if depth <= 25 {
        if index == 0 {
            "Ask a friend to /dig help you — it slows down decay too."@
        } else if index == 1 {
            "Watch out for sabotage! Buy insurance to protect your tunnel."@
        } else {
            "Set a trap to punish anyone who tries to sabotage you."@
        }
    } else if depth <= 50 {
        if index == 0 {
            "Bosses guard each layer boundary. Choose your strategy wisely."@
        } else if index == 1 {
            "Prestige resets your depth but grants permanent bonuses."@
        } else {
            "Upgrade your pickaxe for better digging performance."@
        }
    } else {
        if index == 0 {
            "Relics give permanent bonuses — equip them from your inventory."@
        } else if index == 1 {
            "Deeper layers have rarer artifacts. Keep exploring!"@
        } else {
            "Stack sabotage defenses: insurance + reinforcement + relics."@
        }
    }
}

/// Picks the tip for a depth by a seed.
pub fn dig_progressive_tip(depth: i64, seed: i64) -> (tip: String)
    ensures
        tip@ == tip_text(depth, seed as int % 3),
{
    let index: i64 = if seed >= 0 {
        seed % 3
    } else {
        let back: i128 = (-(seed as i128)) % 3;
        if back == 0 {
            0
        } else {
            (3 - back) as i64
        }
    };
    assert(index == seed as int % 3) by (nonlinear_arith)
        requires
            seed >= 0 ==> index == seed as int % 3,
            seed < 0 ==> index == (if (-(seed as int)) % 3 == 0 {
                0int
            } else {
                3 - (-(seed as int)) % 3
            }),
    ;
    let tip = if depth <= 10 {
        if index == 0 {
            "Use /dig to advance your tunnel. Your first dig each day is free!"
        } else if index == 1 {
            "Buy items from the shop with /dig shop. Dynamite blasts through rock fast."
        } else {
            "Each layer gets harder but more rewarding. Keep digging!"
        }
    } else if depth <= 25 {
        if index == 0 {
            "Ask a friend to /dig help you — it slows down decay too."
        } else if index == 1 {
            "Watch out for sabotage! Buy insurance to protect your tunnel."
        } else {
            "Set a trap to punish anyone who tries to sabotage you."
        }
    } else if depth <= 50 {
        if index == 0 {
            "Bosses guard each layer boundary. Choose your strategy wisely."
        } else if index == 1 {
            "Prestige resets your depth but grants permanent bonuses."
        } else {
            "Upgrade your pickaxe for better digging performance."
        }
    } else {
        if index == 0 {
            "Relics give permanent bonuses — equip them from your inventory."
        } else if index == 1 {
            "Deeper layers have rarer artifacts. Keep exploring!"
        } else {
            "Stack sabotage defenses: insurance + reinforcement + relics."
        }
    };
    tip.to_owned()
}

/// Percent chance of an event in a layer before any multiplier.
pub open spec fn event_percent(layer: Seq<char>) -> i64 {
    if layer == "Crystal"@ || layer == "Magma"@ {
        27
    } else if layer == "Abyss"@ || layer == "Frozen Core"@ {
        31
    } else if layer == "Fungal Depths"@ {
        38
    } else if layer == "The Hollow"@ {
        45
    } else {
        22
    }
}

/// Looks up the percent chance of an event in a layer.
pub fn layer_event_percent(layer: &str) -> (percent: i64)
    ensures
        percent == event_percent(layer@),
{
    if same_text(layer, "Crystal") || same_text(layer, "Magma") {
        27
    } else if same_text(layer, "Abyss") || same_text(layer, "Frozen Core") {
        31
    } else if same_text(layer, "Fungal Depths") {
        38
    } else if same_text(layer, "The Hollow") {
        45
    } else {
        22
    }
}

/// Tenths by which the light of a tunnel multiplies the chance of an event.
pub fn luminosity_event_tenths(luminosity: i64) -> (tenths: i64)
    ensures
        tenths == (if luminosity <= 0 {
            30int
        } else if luminosity <= 25 {
            25
        } else if luminosity < 76 {
            15
        } else {
            10
        }),
{
    if luminosity <= 0 {
        30
    } else if luminosity <= 25 {
        25
    } else if luminosity < 76 {
        15
    } else {
        10
    }
}

/// Whether a dig uses a Void Bait charge: one was active or burnt, and there
/// was no cave-in.
pub fn void_bait_used(cave_in: bool, void_bait_digs: i64, items_used: &Vec<String>) -> (used: bool)
    ensures
        used == (!cave_in && (void_bait_digs > 0 || texts(items_used@).contains("void_bait"@))),
{
    !cave_in && (void_bait_digs > 0 || list_has(items_used, "void_bait"))
}

/// Tells whether an event comes up. A cave-in meets none, not even a forced one.
/// Otherwise a forced event always comes up, and another one where the roll of
/// the dig was under its chance.
pub fn event_comes_up(cave_in: bool, forced: bool, rolled_under: bool) -> (passed: bool)
    ensures
        passed == (!cave_in && (forced || rolled_under)),
{
    !cave_in && (forced || rolled_under)
}

/// What became of the events of one dig.
#[derive(Debug, PartialEq, Eq)]
pub struct DigEvents {
    pub event: Option<String>,
    pub preview: Option<String>,
    pub sonar_skipped: bool,
}

/// Whether an active sonar swallows the event of a dig.
pub open spec fn sonar_swallows(sonar_active: bool, selected: Option<Seq<char>>) -> bool {
    sonar_active && selected is Some
}

/// A snapshot after its event: a sonar that swallowed one is used up unless the
/// dig pinged again, and an event that happens is counted for the run.
pub open spec fn with_event(
    snapshot: SnapshotView,
    sonar_active: bool,
    preview_included: bool,
    selected: Option<Seq<char>>,
) -> SnapshotView {
    SnapshotView {
        tunnel: match snapshot.tunnel {
            Some(tunnel) => Some(
                if sonar_swallows(sonar_active, selected) {
                    if preview_included {
                        tunnel
                    } else {
                        TunnelView { sonar_skip_pending: false, ..tunnel }
                    }
                } else if selected is Some {
                    TunnelView { current_run_events: nearest(tunnel.current_run_events + 1), ..tunnel }
                } else {
                    tunnel
                },
            ),
            None => None,
        },
        ..snapshot
    }
}

/// Settles the event of a dig. `selected` is the event that came up and
/// `preview` what a sonar ping saw.
pub fn resolve_event(
    snapshot: &mut DigRuntimeSnapshot,
    sonar_active: bool,
    preview_included: bool,
    selected: Option<String>,
    preview: Option<String>,
) -> (events: DigEvents)
    ensures
        final(snapshot)@ == with_event(
            old(snapshot)@,
            sonar_active,
            preview_included,
            text_view(selected),
        ),
        events.sonar_skipped == sonar_swallows(sonar_active, text_view(selected)),
        text_view(events.event) == (if events.sonar_skipped {
            None
        } else {
            text_view(selected)
        }),
        text_view(events.preview) == (if events.sonar_skipped {
            text_view(selected)
        } else if preview_included {
            text_view(preview)
        } else {
            None
        }),
{
    let ghost before = snapshot@;
    let skipped = sonar_active && selected.is_some();
    match snapshot.tunnel.take() {
        Some(taken) => {
            let mut tunnel = taken;
            if skipped {
                if !preview_included {
                    tunnel.sonar_skip_pending = false;
                }
            } else if selected.is_some() {
                tunnel.current_run_events = sat_add(tunnel.current_run_events, 1);
            }
            snapshot.tunnel = Some(tunnel);
        },
        None => {},
    }
    assert(snapshot@ =~= with_event(before, sonar_active, preview_included, text_view(selected)));
    if skipped {
        DigEvents { event: None, preview: selected, sonar_skipped: true }
    } else if preview_included {
        DigEvents { event: selected, preview, sonar_skipped: false }
    } else {
        DigEvents { event: selected, preview: None, sonar_skipped: false }
    }
}

/// What became of one automatic purchase.
#[derive(Debug, PartialEq, Eq)]
pub struct AutoBuyPurchase {
    pub item_type: String,
    pub status: String,
    pub cost: i64,
    pub item_id: Option<i64>,
}

/// What a [`AutoBuyPurchase`] holds.
#[verifier::ext_equal]
pub struct PurchaseView {
    pub item_type: Seq<char>,
    pub status: Seq<char>,
    pub cost: i64,
    pub item_id: Option<i64>,
}

impl View for AutoBuyPurchase {
    type V = PurchaseView;

    open spec fn view(&self) -> PurchaseView {
        PurchaseView {
            item_type: self.item_type@,
            status: self.status@,
            cost: self.cost,
            item_id: self.item_id,
        }
    }
}

/// How an automatic purchase is audited.
pub open spec fn purchase_tree(purchase: PurchaseView) -> JsonView {
    object().with("item"@, JsonView::Text(purchase.item_type)).with(
        "status"@,
        JsonView::Text(purchase.status),
    ).with("cost"@, JsonView::Int(purchase.cost)).with(
        "item_id"@,
        optional_int(purchase.item_id),
    )
}

/// How a Slow Drip claim is audited.
pub open spec fn drip_tree(claim: SlowDripView) -> JsonView {
    object().with("claim_date"@, JsonView::Text(claim.claim_date)).with(
        "gross_jc"@,
        JsonView::Int(claim.gross_jc),
    ).with("credit_jc"@, JsonView::Int(claim.credit_jc)).with(
        "claimed_before"@,
        JsonView::Int(claim.claimed_before),
    ).with("claimed_after"@, JsonView::Int(claim.claimed_after)).with(
        "anchor_before"@,
        JsonView::Int(claim.anchor_before),
    ).with("claimed_at"@, JsonView::Int(claim.claimed_at))
}

/// What purchases a list holds.
pub open spec fn purchase_views(list: Seq<AutoBuyPurchase>) -> Seq<PurchaseView> {
    list.map_values(|x: AutoBuyPurchase| x@)
}

fn purchase_detail(purchase: &AutoBuyPurchase) -> (tree: Json)
    ensures
        tree@ == purchase_tree(purchase@),
{
    let mut tree = Json::empty_object();
    tree.set("item", Json::from_text(purchase.item_type.as_str()));
    tree.set("status", Json::from_text(purchase.status.as_str()));
    tree.set("cost", Json::from_i64(purchase.cost));
    tree.set("item_id", Json::from_optional_i64(purchase.item_id));
    tree
}

fn purchases_detail(purchases: &Vec<AutoBuyPurchase>) -> (tree: Json)
    ensures
        tree@ == JsonView::Array(
            purchase_views(purchases@).map_values(|p: PurchaseView| purchase_tree(p)),
        ),
{
    let mut items: Vec<Json> = Vec::new();
    let mut i: usize = 0;
    while i < purchases.len()
        invariant
            i <= purchases.len(),
            items.len() == i,
            forall|j: int| 0 <= j < i ==> (#[trigger] items@[j])@ == purchase_tree(purchases@[j]@),
        decreases purchases.len() - i,
    {
        items.push(purchase_detail(&purchases[i]));
        i = i + 1;
    }
    proof {
        crate::json::lemma_views_index(items@);
        let wanted = purchase_views(purchases@).map_values(|p: PurchaseView| purchase_tree(p));
        assert forall|j: int| 0 <= j < wanted.len() implies crate::json::tree_views(items@)[j]
            == wanted[j] by {
            assert(crate::json::tree_views(items@)[j] == crate::json::tree_view(items@[j]));
            assert(items@[j]@ == purchase_tree(purchases@[j]@));
        }
        assert(crate::json::tree_views(items@) =~= wanted);
    }
    Json::Array(items)
}

fn drip_detail(claim: &Option<DigSlowDripClaim>) -> (tree: Json)
    ensures
        tree@ == (match claim_view(*claim) {
            Some(claim) => drip_tree(claim),
            None => JsonView::Null,
        }),
{
    match claim {
        Some(claim) => {
            let mut tree = Json::empty_object();
            tree.set("claim_date", Json::from_text(claim.claim_date.as_str()));
            tree.set("gross_jc", Json::from_i64(claim.gross_jc));
            tree.set("credit_jc", Json::from_i64(claim.credit_jc));
            tree.set("claimed_before", Json::from_i64(claim.claimed_before));
            tree.set("claimed_after", Json::from_i64(claim.claimed_after));
            tree.set("anchor_before", Json::from_i64(claim.anchor_before));
            tree.set("claimed_at", Json::from_i64(claim.claimed_at));
            tree
        },
        None => Json::Null,
    }
}

/// Everything that a settled dig reports.
#[derive(Debug)]
pub struct DigReport {
    pub request: DigRuntimeRequest,
    /// Name of the tunnel that was dug.
    pub tunnel_name: String,
    pub depth_before: i64,
    /// Wallet before the reward and before the price of a paid dig.
    pub balance_before: i64,
    pub outcome: DigOutcome,
    /// Whether the dig paid to bypass a cooldown, and what it paid.
    pub paid: bool,
    pub paid_cost: i64,
    /// Blocks that the ordinary roll of a cave-in took.
    pub block_loss: i64,
    /// How a cave-in is told.
    pub cave_in_detail: Option<Json>,
    pub event_id: Option<String>,
    pub artifact_id: Option<String>,
    pub items_used: Vec<String>,
    pub consumed_item_ids: Vec<i64>,
    pub pet_work_claim: Option<PetDigWorkClaim>,
    pub pet_dig_bonus: i64,
    pub pet_name: Option<String>,
    pub overgrowth: bool,
    pub mana_paid_cave_refund: i64,
    pub helltide_tax: i64,
    /// The multiplier of the daily economy, a number.
    pub economy_multiplier: Json,
    pub auto_purchases: Vec<AutoBuyPurchase>,
    pub slow_drip: Option<DigSlowDripClaim>,
    pub luminosity_drained: i64,
    pub corruption_description: Option<String>,
    pub mutation_names: Vec<String>,
    pub weather: Option<DigRuntimeWeatherInfo>,
}

/// What a committed dig reports.
#[derive(Debug)]
pub struct DigSettlement {
    pub commit: DigRuntimeCommit,
    pub outcome: DigRuntimeOutcome,
}

/// What an optional weather holds.
pub open spec fn weather_view(weather: Option<DigRuntimeWeatherInfo>) -> Option<WeatherInfoView> {
    match weather {
        Some(weather) => Some(weather@),
        None => None,
    }
}

/// The audit detail of a dig.
pub open spec fn audit_tree(report: DigReport) -> JsonView {
    object().with("cave_in"@, JsonView::Bool(report.outcome.cave_in)).with(
        "block_loss"@,
        if report.outcome.cave_in {
            JsonView::Int(report.block_loss)
        } else {
            JsonView::Null
        },
    ).with(
        "cave_in_detail"@,
        match tree_option(report.cave_in_detail) {
            Some(tree) => tree,
            None => JsonView::Null,
        },
    ).with("event"@, optional_text(text_view(report.event_id))).with(
        "artifact"@,
        optional_text(text_view(report.artifact_id)),
    ).with("items_used"@, text_array(texts(report.items_used@))).with(
        "paid"@,
        JsonView::Bool(report.paid),
    ).with("pet_dig_bonus"@, JsonView::Int(report.pet_dig_bonus)).with(
        "mana_yield_tax"@,
        JsonView::Int(report.outcome.mana_yield_tax),
    ).with("mana_paid_cave_refund"@, JsonView::Int(report.mana_paid_cave_refund)).with(
        "helltide_tax"@,
        JsonView::Int(report.helltide_tax),
    ).with("bankruptcy_penalty"@, JsonView::Int(report.outcome.bankruptcy_penalty)).with(
        "vanity_tax"@,
        JsonView::Int(report.outcome.vanity_tax),
    ).with("low_priority_tax"@, JsonView::Int(report.outcome.low_priority_tax)).with(
        "gross_jc"@,
        JsonView::Int(report.outcome.gross_jc),
    ).with("economy_adjusted_jc"@, JsonView::Int(report.outcome.economy_adjusted_jc)).with(
        "economy_reward_multiplier"@,
        report.economy_multiplier@,
    ).with(
        "auto_purchases"@,
        JsonView::Array(
            purchase_views(report.auto_purchases@).map_values(|p: PurchaseView| purchase_tree(p)),
        ),
    ).with(
        "slow_drip"@,
        match claim_view(report.slow_drip) {
            Some(claim) => drip_tree(claim),
            None => JsonView::Null,
        },
    )
}

fn audit_detail(report: &DigReport) -> (tree: Json)
    ensures
        tree@ == audit_tree(*report),
{
    let mut tree = Json::empty_object();
    tree.set("cave_in", Json::Bool(report.outcome.cave_in));
    tree.set(
        "block_loss",
        if report.outcome.cave_in {
            Json::from_i64(report.block_loss)
        } else {
            Json::Null
        },
    );
    tree.set(
        "cave_in_detail",
        match &report.cave_in_detail {
            Some(detail) => detail.clone(),
            None => Json::Null,
        },
    );
    tree.set("event", Json::from_optional_text(borrow_text(&report.event_id)));
    tree.set("artifact", Json::from_optional_text(borrow_text(&report.artifact_id)));
    tree.set("items_used", Json::from_texts(&report.items_used));
    tree.set("paid", Json::Bool(report.paid));
    tree.set("pet_dig_bonus", Json::from_i64(report.pet_dig_bonus));
    tree.set("mana_yield_tax", Json::from_i64(report.outcome.mana_yield_tax));
    tree.set("mana_paid_cave_refund", Json::from_i64(report.mana_paid_cave_refund));
    tree.set("helltide_tax", Json::from_i64(report.helltide_tax));
    tree.set("bankruptcy_penalty", Json::from_i64(report.outcome.bankruptcy_penalty));
    tree.set("vanity_tax", Json::from_i64(report.outcome.vanity_tax));
    tree.set("low_priority_tax", Json::from_i64(report.outcome.low_priority_tax));
    tree.set("gross_jc", Json::from_i64(report.outcome.gross_jc));
    tree.set("economy_adjusted_jc", Json::from_i64(report.outcome.economy_adjusted_jc));
    tree.set("economy_reward_multiplier", report.economy_multiplier.clone());
    tree.set("auto_purchases", purchases_detail(&report.auto_purchases));
    tree.set("slow_drip", drip_detail(&report.slow_drip));
    tree
}

/// What a dig paid.
pub open spec fn price_paid(report: DigReport) -> i64 {
    if report.paid {
        report.paid_cost
    } else {
        0
    }
}

/// The commit of a dig. A cave-in audits what happened to the wallet apart from
/// the price; any other dig audits the net reward less the price.
pub open spec fn dig_commit(base: SnapshotView, next: SnapshotView, report: DigReport)
    -> CommitView {
    CommitView {
        expected: version_of(base),
        next,
        consumed_item_ids: report.consumed_item_ids@,
        pet_work_claim: report.pet_work_claim,
        consume_overgrowth: report.overgrowth,
        depth_before: report.depth_before,
        depth_after: report.outcome.depth_after,
        jc_delta: if report.outcome.cave_in {
            nearest(nearest(next.balance - report.balance_before) + price_paid(report))
        } else {
            nearest(report.outcome.jc_earned - price_paid(report))
        },
        vanity_tax: if report.outcome.cave_in {
            0
        } else {
            report.outcome.vanity_tax
        },
        low_priority_tax: if report.outcome.cave_in {
            0
        } else {
            report.outcome.low_priority_tax
        },
        balance_cost: price_paid(report),
        action_type: "dig"@,
        detail: text_of_json(audit_tree(report)),
        now: report.request.now,
    }
}

/// The outcome of a dig before its commit is confirmed.
pub open spec fn dig_outcome(next: SnapshotView, report: DigReport) -> OutcomeView {
    OutcomeView {
        success: true,
        error: None,
        depth_before: report.depth_before,
        depth_after: report.outcome.depth_after,
        advance: report.outcome.advance,
        jc_earned: if report.outcome.cave_in {
            0
        } else {
            report.outcome.jc_earned
        },
        vanity_tax: if report.outcome.cave_in {
            0
        } else {
            report.outcome.vanity_tax
        },
        low_priority_tax: if report.outcome.cave_in {
            0
        } else {
            report.outcome.low_priority_tax
        },
        tunnel_name: report.tunnel_name@,
        milestone_bonus: report.outcome.milestone_bonus,
        streak_bonus: report.outcome.streak_bonus,
        bankruptcy_penalty: report.outcome.bankruptcy_penalty,
        luminosity_drained: report.luminosity_drained,
        corruption_description: text_view(report.corruption_description),
        mutation_names: texts(report.mutation_names@),
        tip: tip_text(report.outcome.depth_after, report.request.now as int % 3),
        cave_in: report.outcome.cave_in,
        cave_in_detail: match tree_option(report.cave_in_detail) {
            Some(tree) => Some(
                text_of_json(
                    tree.with("depth_after"@, JsonView::Int(report.outcome.depth_after)),
                ),
            ),
            None => None,
        },
        event_id: text_view(report.event_id),
        artifact_id: text_view(report.artifact_id),
        boss_boundary: report.outcome.boss_encounter,
        paid_dig_cost: report.paid_cost,
        items_used: texts(report.items_used@),
        consumed_item_ids: report.consumed_item_ids@,
        pet_dig_bonus: report.pet_dig_bonus,
        pet_name: text_view(report.pet_name),
        forced_event_consumed: report.request.forced_event && report.event_id is Some,
        weather: weather_view(report.weather),
        ..idle_outcome(next)
    }
}

fn write_outcome(next: &DigRuntimeSnapshot, report: DigReport) -> (outcome: DigRuntimeOutcome)
    ensures
        outcome@ == dig_outcome(next@, report),
{
    let ghost wanted = dig_outcome(next@, report);
    let mut outcome = DigRuntimeOutcome::idle(next);
    outcome.success = true;
    outcome.depth_before = report.depth_before;
    outcome.depth_after = report.outcome.depth_after;
    outcome.advance = report.outcome.advance;
    if !report.outcome.cave_in {
        outcome.jc_earned = report.outcome.jc_earned;
        outcome.vanity_tax = report.outcome.vanity_tax;
        outcome.low_priority_tax = report.outcome.low_priority_tax;
    }
    outcome.tunnel_name = report.tunnel_name;
    outcome.milestone_bonus = report.outcome.milestone_bonus;
    outcome.streak_bonus = report.outcome.streak_bonus;
    outcome.bankruptcy_penalty = report.outcome.bankruptcy_penalty;
    outcome.luminosity_drained = report.luminosity_drained;
    outcome.corruption_description = report.corruption_description;
    outcome.mutation_names = report.mutation_names;
    outcome.tip = dig_progressive_tip(report.outcome.depth_after, report.request.now);
    outcome.cave_in = report.outcome.cave_in;
    outcome.cave_in_detail = match report.cave_in_detail {
        Some(detail) => {
            let mut told = detail;
            told.set("depth_after", Json::from_i64(report.outcome.depth_after));
            Some(render_json(told))
        },
        None => None,
    };
    outcome.forced_event_consumed = report.request.forced_event && report.event_id.is_some();
    outcome.event_id = report.event_id;
    outcome.artifact_id = report.artifact_id;
    outcome.boss_boundary = report.outcome.boss_encounter;
    outcome.paid_dig_cost = report.paid_cost;
    outcome.items_used = report.items_used;
    outcome.consumed_item_ids = report.consumed_item_ids;
    outcome.pet_dig_bonus = report.pet_dig_bonus;
    outcome.pet_name = report.pet_name;
    outcome.weather = report.weather;
    assert(outcome@ =~= wanted);
    outcome
}

/// Writes the commit and the outcome of a settled dig.
pub fn report_dig(base: &DigRuntimeSnapshot, next: DigRuntimeSnapshot, report: DigReport)
    -> (settlement: DigSettlement)
    ensures
        settlement.commit@ == dig_commit(base@, next@, report),
        settlement.outcome@ == dig_outcome(next@, report),
        settlement.outcome.boss_boundary == report.outcome.boss_encounter,
        settlement.outcome.depth_before == report.depth_before,
        settlement.outcome.depth_after == report.outcome.depth_after,
        settlement.outcome.balance_after == next.balance,
        settlement.outcome.cave_in == report.outcome.cave_in,
        !report.outcome.cave_in ==> settlement.outcome.jc_earned == report.outcome.jc_earned,
{
    let price = if report.paid {
        report.paid_cost
    } else {
        0
    };
    let ghost wanted = dig_commit(base@, next@, report);
    let detail = render_json(audit_detail(&report));
    let jc_delta = if report.outcome.cave_in {
        sat_add(sat_sub(next.balance, report.balance_before), price)
    } else {
        sat_sub(report.outcome.jc_earned, price)
    };
    let commit = DigRuntimeCommit {
        expected: DigRuntimeVersion::of(base),
        next: next.clone(),
        consumed_item_ids: report.consumed_item_ids.clone(),
        pet_work_claim: report.pet_work_claim,
        consume_overgrowth: report.overgrowth,
        depth_before: report.depth_before,
        depth_after: report.outcome.depth_after,
        jc_delta,
        vanity_tax: if report.outcome.cave_in {
            0
        } else {
            report.outcome.vanity_tax
        },
        low_priority_tax: if report.outcome.cave_in {
            0
        } else {
            report.outcome.low_priority_tax
        },
        balance_cost: price,
        action_type: "dig".to_owned(),
        detail,
        now: report.request.now,
    };
    assert(commit@ =~= wanted);
    let outcome = write_outcome(&next, report);
    DigSettlement { commit, outcome }
}

/// An outcome that the receipt of its commit confirms.
pub open spec fn confirmed(outcome: OutcomeView, receipt: DigRuntimeCommitReceipt) -> OutcomeView {
    OutcomeView {
        balance_after: receipt@.balance_after,
        action_id: Some(receipt@.action_id),
        ..outcome
    }
}

/// Confirms an outcome with the receipt of its commit.
pub fn confirm_outcome(outcome: &mut DigRuntimeOutcome, receipt: &DigRuntimeCommitReceipt)
    ensures
        final(outcome)@ == confirmed(old(outcome)@, *receipt),
        final(outcome).balance_after == receipt.balance_after,
        final(outcome).action_id == Some(receipt.action_id),
{
    outcome.balance_after = receipt.balance_after;
    outcome.action_id = Some(receipt.action_id);
    assert(outcome@ =~= (OutcomeView {
        balance_after: receipt@.balance_after,
        action_id: Some(receipt@.action_id),
        ..old(outcome)@
    }));
}

/// The owner of a committed tunnel, to whom the result is delivered.
pub fn delivery_target(next: &DigRuntimeSnapshot) -> (target: (i64, i64))
    ensures
        target == (match next@.tunnel {
            Some(tunnel) => (tunnel.discord_id, tunnel.guild_id),
            None => (0i64, 0i64),
        }),
{
    match &next.tunnel {
        Some(tunnel) => (tunnel.discord_id, tunnel.guild_id),
        None => (0, 0),
    }
}

/// A reported dig keeps its books: apart from a cave-in, the audited amount is
/// the net reward less the price, and the price is ledgered on its own.
pub proof fn law_audit_matches_outcome(base: SnapshotView, next: SnapshotView, report: DigReport)
    requires
        !report.outcome.cave_in,
        i64::MIN <= report.outcome.jc_earned - price_paid(report) <= i64::MAX,
    ensures
        dig_commit(base, next, report).jc_delta + dig_commit(base, next, report).balance_cost
            == dig_outcome(next, report).jc_earned,
        dig_commit(base, next, report).depth_after == dig_outcome(next, report).depth_after,
        dig_commit(base, next, report).consumed_item_ids
            == dig_outcome(next, report).consumed_item_ids,
{
}

/// A cave-in reports no reward and no tax, whatever the rules computed.
pub proof fn law_cave_in_reports_no_reward(base: SnapshotView, next: SnapshotView, report: DigReport)
    requires
        report.outcome.cave_in,
    ensures
        dig_outcome(next, report).jc_earned == 0,
        dig_outcome(next, report).vanity_tax == 0,
        dig_outcome(next, report).low_priority_tax == 0,
        dig_commit(base, next, report).vanity_tax == 0,
        dig_commit(base, next, report).low_priority_tax == 0,
{
}

} // verus!
