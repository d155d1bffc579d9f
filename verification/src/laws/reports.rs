//! Laws on what a dig reports, audits and commits.

use crate::json::{optional_int, optional_text, text_array, tree_option, JsonView};
use crate::outcome::{blocked_outcome, idle_outcome, OutcomeView};
use crate::report::{
    audit_tree, confirmed, delivery_target, dig_commit, dig_outcome, drip_tree, event_comes_up,
    layer_event_percent, luminosity_event_tenths, purchase_tree, purchase_views, void_bait_used,
    weather_view, with_event, DigReport, PurchaseView,
};
use crate::snapshot::{SnapshotView, TunnelView};
use crate::store::{claim_view, DigRuntimeCommitReceipt, SlowDripView};
use crate::text::{text_view, texts};
use crate::turn::{event_met, event_told, EventDraw};
use crate::version::version_of;
use vstd::prelude::*;

verus! {

/// A dig reports what its rules came to: where it started and ended, the boss it
/// ran into, the coins and bonuses, what it used and found, and the tunnel and
/// the wallet as they are stored.
pub proof fn law_report_tells_the_dig(next: SnapshotView, report: DigReport)
    ensures
        ({
            let told = dig_outcome(next, report);
            let dug = report.outcome;
            &&& told.success && told.error is None
            &&& told.depth_before == report.depth_before
            &&& told.depth_after == dug.depth_after && told.advance == dug.advance
            &&& told.boss_boundary == dug.boss_encounter
            &&& told.cave_in == dug.cave_in
            &&& told.milestone_bonus == dug.milestone_bonus
            &&& told.streak_bonus == dug.streak_bonus
            &&& told.bankruptcy_penalty == dug.bankruptcy_penalty
            &&& !dug.cave_in ==> {
                &&& told.jc_earned == dug.jc_earned
                &&& told.vanity_tax == dug.vanity_tax
                &&& told.low_priority_tax == dug.low_priority_tax
            }
            &&& told.tunnel_name == report.tunnel_name@
            &&& told.luminosity_drained == report.luminosity_drained
            &&& told.corruption_description == text_view(report.corruption_description)
            &&& told.mutation_names == texts(report.mutation_names@)
            &&& told.event_id == text_view(report.event_id)
            &&& told.artifact_id == text_view(report.artifact_id)
            &&& told.paid_dig_cost == report.paid_cost
            &&& told.items_used == texts(report.items_used@)
            &&& told.consumed_item_ids == report.consumed_item_ids@
            &&& told.pet_dig_bonus == report.pet_dig_bonus
            &&& told.pet_name == text_view(report.pet_name)
            &&& told.weather == weather_view(report.weather)
            &&& told.forced_event_consumed <==> report.request.forced_event && report.event_id
                is Some
            &&& told.cave_in_detail is Some <==> report.cave_in_detail is Some
        }),
        ({
            let told = dig_outcome(next, report);
            &&& told.balance_after == next.balance
            &&& next.tunnel matches Some(tunnel) ==> told.luminosity_after == tunnel.luminosity
                && told.pickaxe_tier == tunnel.pickaxe_tier
            &&& next.tunnel is None ==> told.luminosity_after == 100 && told.pickaxe_tier == 0
            &&& !told.first_dig && !told.route_choice_required && !told.paid_dig_available
            &&& !told.relic_trim_notice && told.cooldown_remaining == 0 && told.action_id is None
        }),
{
}

/// What is committed is what was settled, against the tunnel as it was read, and
/// agrees with what is reported of depth and use.
pub proof fn law_commit_keeps_the_dig(base: SnapshotView, next: SnapshotView, report: DigReport)
    requires
        -1_000_000_000_000_000 <= next.balance <= 1_000_000_000_000_000,
        -1_000_000_000_000_000 <= report.balance_before <= 1_000_000_000_000_000,
        -1_000_000_000_000_000 <= report.paid_cost <= 1_000_000_000_000_000,
        -1_000_000_000_000_000 <= report.outcome.jc_earned <= 1_000_000_000_000_000,
    ensures
        ({
            let stored = dig_commit(base, next, report);
            let price = if report.paid {
                report.paid_cost
            } else {
                0
            };
            &&& stored.expected == version_of(base) && stored.next == next
            &&& stored.depth_before == report.depth_before
            &&& stored.depth_after == report.outcome.depth_after
            &&& stored.consumed_item_ids == report.consumed_item_ids@
            &&& stored.pet_work_claim == report.pet_work_claim
            &&& stored.consume_overgrowth == report.overgrowth
            &&& stored.now == report.request.now
            &&& stored.action_type == "dig"@
            &&& stored.balance_cost == price
            &&& report.outcome.cave_in ==> stored.jc_delta - price == next.balance
                - report.balance_before
            &&& !report.outcome.cave_in ==> {
                &&& stored.jc_delta + price == report.outcome.jc_earned
                &&& stored.vanity_tax == report.outcome.vanity_tax
                &&& stored.low_priority_tax == report.outcome.low_priority_tax
            }
        }),
{
}

proof fn lemma_audit_words()
    ensures
        "cave_in"@.len() == 7,
        "block_loss"@.len() == 10,
        "cave_in_detail"@.len() == 14,
        "event"@.len() == 5,
        "artifact"@.len() == 8,
        "items_used"@.len() == 10,
        "paid"@.len() == 4,
        "pet_dig_bonus"@.len() == 13,
        "mana_yield_tax"@.len() == 14,
        "mana_paid_cave_refund"@.len() == 21,
        "helltide_tax"@.len() == 12,
        "bankruptcy_penalty"@.len() == 18,
        "vanity_tax"@.len() == 10,
        "low_priority_tax"@.len() == 16,
        "gross_jc"@.len() == 8,
        "economy_adjusted_jc"@.len() == 19,
        "economy_reward_multiplier"@.len() == 25,
        "auto_purchases"@.len() == 14,
        "slow_drip"@.len() == 9,
        "block_loss"@[0] != "items_used"@[0],
        "block_loss"@[0] != "vanity_tax"@[0],
        "cave_in_detail"@[0] != "mana_yield_tax"@[0],
        "cave_in_detail"@[0] != "auto_purchases"@[0],
        "artifact"@[0] != "gross_jc"@[0],
        "items_used"@[0] != "vanity_tax"@[0],
        "mana_yield_tax"@[0] != "auto_purchases"@[0],
{
    reveal_strlit("cave_in");
    reveal_strlit("block_loss");
    reveal_strlit("cave_in_detail");
    reveal_strlit("event");
    reveal_strlit("artifact");
    reveal_strlit("items_used");
    reveal_strlit("paid");
    reveal_strlit("pet_dig_bonus");
    reveal_strlit("mana_yield_tax");
    reveal_strlit("mana_paid_cave_refund");
    reveal_strlit("helltide_tax");
    reveal_strlit("bankruptcy_penalty");
    reveal_strlit("vanity_tax");
    reveal_strlit("low_priority_tax");
    reveal_strlit("gross_jc");
    reveal_strlit("economy_adjusted_jc");
    reveal_strlit("economy_reward_multiplier");
    reveal_strlit("auto_purchases");
    reveal_strlit("slow_drip");
}

/// The audit of a dig holds each of its figures under its own name.
pub proof fn law_audit_names_the_figures(report: DigReport)
    ensures
        ({
            let audit = audit_tree(report);
            let dug = report.outcome;
            &&& audit.get("cave_in"@) == Some(JsonView::Bool(dug.cave_in))
            &&& audit.get("block_loss"@) == Some(
                if dug.cave_in {
                    JsonView::Int(report.block_loss)
                } else {
                    JsonView::Null
                },
            )
            &&& audit.get("cave_in_detail"@) == Some(
                match tree_option(report.cave_in_detail) {
                    Some(tree) => tree,
                    None => JsonView::Null,
                },
            )
            &&& audit.get("event"@) == Some(optional_text(text_view(report.event_id)))
            &&& audit.get("artifact"@) == Some(optional_text(text_view(report.artifact_id)))
            &&& audit.get("items_used"@) == Some(text_array(texts(report.items_used@)))
            &&& audit.get("paid"@) == Some(JsonView::Bool(report.paid))
            &&& audit.get("pet_dig_bonus"@) == Some(JsonView::Int(report.pet_dig_bonus))
            &&& audit.get("mana_yield_tax"@) == Some(JsonView::Int(dug.mana_yield_tax))
            &&& audit.get("mana_paid_cave_refund"@) == Some(
                JsonView::Int(report.mana_paid_cave_refund),
            )
            &&& audit.get("helltide_tax"@) == Some(JsonView::Int(report.helltide_tax))
            &&& audit.get("bankruptcy_penalty"@) == Some(JsonView::Int(dug.bankruptcy_penalty))
            &&& audit.get("vanity_tax"@) == Some(JsonView::Int(dug.vanity_tax))
            &&& audit.get("low_priority_tax"@) == Some(JsonView::Int(dug.low_priority_tax))
            &&& audit.get("gross_jc"@) == Some(JsonView::Int(dug.gross_jc))
            &&& audit.get("economy_adjusted_jc"@) == Some(JsonView::Int(dug.economy_adjusted_jc))
            &&& audit.get("economy_reward_multiplier"@) == Some(report.economy_multiplier@)
            &&& audit.get("slow_drip"@) == Some(
                match claim_view(report.slow_drip) {
                    Some(claim) => drip_tree(claim),
                    None => JsonView::Null,
                },
            )
        }),
        ({
            let listed = audit_tree(report).get("auto_purchases"@);
            let bought = purchase_views(report.auto_purchases@);
            &&& listed matches Some(JsonView::Array(rows))
            &&& rows.len() == bought.len()
            &&& forall|i: int| 0 <= i < rows.len() ==> #[trigger] rows[i] == purchase_tree(bought[i])
        }),
{
    lemma_audit_words();
}

proof fn lemma_purchase_words()
    ensures
        "item"@.len() == 4,
        "status"@.len() == 6,
        "cost"@.len() == 4,
        "item_id"@.len() == 7,
        "item"@[0] != "cost"@[0],
{
    reveal_strlit("item");
    reveal_strlit("status");
    reveal_strlit("cost");
    reveal_strlit("item_id");
}

/// The audit of a purchase names the item, what became of it, its price and its
/// row.
pub proof fn law_audit_names_the_purchase(purchase: PurchaseView)
    ensures
        purchase_tree(purchase).text_at("item"@) == Some(purchase.item_type),
        purchase_tree(purchase).text_at("status"@) == Some(purchase.status),
        purchase_tree(purchase).int_at("cost"@) == Some(purchase.cost),
        purchase_tree(purchase).get("item_id"@) == Some(optional_int(purchase.item_id)),
{
    lemma_purchase_words();
}

proof fn lemma_drip_words()
    ensures
        "claim_date"@.len() == 10,
        "gross_jc"@.len() == 8,
        "credit_jc"@.len() == 9,
        "claimed_before"@.len() == 14,
        "claimed_after"@.len() == 13,
        "anchor_before"@.len() == 13,
        "claimed_at"@.len() == 10,
        "claim_date"@[5] != "claimed_at"@[5],
        "claimed_after"@[0] != "anchor_before"@[0],
{
    reveal_strlit("claim_date");
    reveal_strlit("gross_jc");
    reveal_strlit("credit_jc");
    reveal_strlit("claimed_before");
    reveal_strlit("claimed_after");
    reveal_strlit("anchor_before");
    reveal_strlit("claimed_at");
}

/// The audit of a Slow Drip claim names what was claimed, when and from where.
pub proof fn law_audit_names_the_drip(claim: SlowDripView)
    ensures
        drip_tree(claim).text_at("claim_date"@) == Some(claim.claim_date),
        drip_tree(claim).int_at("gross_jc"@) == Some(claim.gross_jc),
        drip_tree(claim).int_at("credit_jc"@) == Some(claim.credit_jc),
        drip_tree(claim).int_at("claimed_before"@) == Some(claim.claimed_before),
        drip_tree(claim).int_at("claimed_after"@) == Some(claim.claimed_after),
        drip_tree(claim).int_at("anchor_before"@) == Some(claim.anchor_before),
        drip_tree(claim).int_at("claimed_at"@) == Some(claim.claimed_at),
{
    lemma_drip_words();
}

/// A receipt changes two things of an outcome: the balance and the number of the
/// action, which become those of the receipt.
pub proof fn law_receipt_confirms_the_outcome(told: OutcomeView, receipt: DigRuntimeCommitReceipt)
    ensures
        confirmed(told, receipt).balance_after == receipt.balance_after,
        confirmed(told, receipt).action_id == Some(receipt.action_id),
        told == (OutcomeView {
            balance_after: told.balance_after,
            action_id: told.action_id,
            ..confirmed(told, receipt)
        }),
{
}

/// The darker a tunnel, the likelier an event: three times as likely without
/// light, two and a half times up to a quarter of it, one and a half times up to
/// three quarters, and no likelier above.
pub proof fn law_darkness_draws_events(luminosity: i64, tenths: i64)
    requires
        call_ensures(luminosity_event_tenths, (luminosity,), tenths),
    ensures
        luminosity <= 0 ==> tenths == 30,
        1 <= luminosity <= 25 ==> tenths == 25,
        26 <= luminosity <= 75 ==> tenths == 15,
        luminosity >= 76 ==> tenths == 10,
{
}

/// The layers in which events are likelier than elsewhere.
pub proof fn law_layers_draw_events(layer: &str, percent: i64)
    requires
        call_ensures(layer_event_percent, (layer,), percent),
    ensures
        layer@ == "Crystal"@ || layer@ == "Magma"@ ==> percent == 27,
        layer@ == "Abyss"@ || layer@ == "Frozen Core"@ ==> percent == 31,
        layer@ == "Fungal Depths"@ ==> percent == 38,
        layer@ == "The Hollow"@ ==> percent == 45,
        layer@ != "Crystal"@ && layer@ != "Magma"@ && layer@ != "Abyss"@ && layer@
            != "Frozen Core"@ && layer@ != "Fungal Depths"@ && layer@ != "The Hollow"@ ==> percent
            == 22,
{
    lemma_layer_words();
}

proof fn lemma_layer_words()
    ensures
        "Crystal"@.len() == 7,
        "Magma"@.len() == 5,
        "Abyss"@.len() == 5,
        "Frozen Core"@.len() == 11,
        "Fungal Depths"@.len() == 13,
        "The Hollow"@.len() == 10,
        "Magma"@[0] != "Abyss"@[0],
{
    reveal_strlit("Crystal");
    reveal_strlit("Magma");
    reveal_strlit("Abyss");
    reveal_strlit("Frozen Core");
    reveal_strlit("Fungal Depths");
    reveal_strlit("The Hollow");
}

/// A bait is used up by a dig that had one at work or burnt one, but never by a
/// cave-in; an event comes up only where the roof holds, and always where it is
/// forced.
pub proof fn law_cave_in_spares_bait_and_event(
    cave_in: bool,
    void_bait_digs: i64,
    items_used: &Vec<String>,
    forced: bool,
    rolled_under: bool,
    used: bool,
    passed: bool,
)
    requires
        call_ensures(void_bait_used, (cave_in, void_bait_digs, items_used), used),
        call_ensures(event_comes_up, (cave_in, forced, rolled_under), passed),
    ensures
        cave_in ==> !used && !passed,
        !cave_in && void_bait_digs > 0 ==> used,
        !cave_in && texts(items_used@).contains("void_bait"@) ==> used,
        used ==> void_bait_digs > 0 || texts(items_used@).contains("void_bait"@),
        !cave_in && forced ==> passed,
        !cave_in && !forced ==> passed == rolled_under,
{
}

/// The result of a dig is delivered to whoever owns the committed tunnel.
pub proof fn law_owner_gets_the_result(
    next: &crate::snapshot::DigRuntimeSnapshot,
    target: (i64, i64),
)
    requires
        call_ensures(delivery_target, (next,), target),
    ensures
        next@.tunnel matches Some(tunnel) ==> target.0 == tunnel.discord_id && target.1
            == tunnel.guild_id,
        next@.tunnel is None ==> target == (0i64, 0i64),
{
}

/// An event that happens adds one to the events of the run and leaves the sonar
/// alone; an event that an active sonar swallows is not counted and uses the
/// sonar up, unless the dig pinged again. Nothing else of the snapshot changes.
pub proof fn law_event_is_counted_or_swallowed(
    before: SnapshotView,
    tunnel: TunnelView,
    sonar_active: bool,
    pinged: bool,
    met: Option<Seq<char>>,
)
    requires
        before.tunnel == Some(tunnel),
        tunnel.current_run_events < i64::MAX,
    ensures
        ({
            let after = with_event(before, sonar_active, pinged, met);
            let kept = after.tunnel->0;
            &&& after.tunnel is Some
            &&& met is Some && !sonar_active ==> kept.current_run_events
                == tunnel.current_run_events + 1 && kept.sonar_skip_pending
                == tunnel.sonar_skip_pending
            &&& met is None || sonar_active ==> kept.current_run_events == tunnel.current_run_events
            &&& met is Some && sonar_active && !pinged ==> !kept.sonar_skip_pending
            &&& met is None || pinged ==> kept.sonar_skip_pending == tunnel.sonar_skip_pending
            &&& tunnel == (TunnelView {
                current_run_events: tunnel.current_run_events,
                sonar_skip_pending: tunnel.sonar_skip_pending,
                ..kept
            })
            &&& before == (SnapshotView { tunnel: before.tunnel, ..after })
        }),
{
}

/// A dig meets the event that was drawn where it was forced or rolled under its
/// chance, and tells it unless an active sonar swallows it.
pub proof fn law_drawn_event_is_met(draw: EventDraw, report: DigReport)
    requires
        !report.outcome.cave_in,
    ensures
        report.request.forced_event || draw.rolled_under ==> event_met(draw, report) == text_view(
            draw.selected,
        ),
        !report.request.forced_event && !draw.rolled_under ==> event_met(draw, report) is None,
        draw.sonar_active ==> event_told(draw, report) is None,
        !draw.sonar_active ==> event_told(draw, report) == event_met(draw, report),
{
}

/// A dig that is turned away changes nothing: it reports the tunnel as it stands,
/// with the reason, the price that would pay for it, and whether the wallet holds
/// that much.
pub proof fn law_blocked_dig_reports_the_tunnel(
    snapshot: SnapshotView,
    tunnel: TunnelView,
    message: Seq<char>,
    cost: i64,
    cooldown: i64,
)
    requires
        snapshot.tunnel == Some(tunnel),
    ensures
        ({
            let told = blocked_outcome(snapshot, message, cost, cooldown);
            &&& !told.success && told.error == Some(message)
            &&& told.depth_before == tunnel.depth && told.depth_after == tunnel.depth
            &&& told.advance == 0 && told.jc_earned == 0 && told.balance_after == snapshot.balance
            &&& told.tunnel_name == tunnel.tunnel_name
            &&& told.luminosity_after == tunnel.luminosity && told.luminosity_drained == 0
            &&& told.pickaxe_tier == tunnel.pickaxe_tier
            &&& told.paid_dig_cost == cost && told.cooldown_remaining == cooldown
            &&& told.paid_dig_available <==> snapshot.balance >= cost
            &&& !told.cave_in && told.cave_in_detail is None && told.event_id is None
            &&& told.artifact_id is None && told.boss_boundary is None && !told.first_dig
            &&& told.items_used.len() == 0 && told.consumed_item_ids.len() == 0
            &&& told.mutation_names.len() == 0 && told.action_id is None
            &&& !told.route_choice_required && !told.forced_event_consumed
            &&& told.vanity_tax == 0 && told.low_priority_tax == 0 && told.pet_dig_bonus == 0
        }),
        idle_outcome(snapshot).error is None && !idle_outcome(snapshot).paid_dig_available,
{
}

} // verus!
