//! Laws on cave-ins, injuries, light and what wears off.

use crate::cave_in::{
    burnt_after_cave_in, cave_in_applicability, cave_in_branch, cave_in_tree, fall_kind, hinders_as,
    is_insured, is_reinforced, lost_item, raise_cave_loss, reinforced_cave_loss, satchel_index,
    settle_cave_loss, snapshot_after_cave_in, tunnel_after_cave_in, Applicability, CaveInBranch,
    CaveInView, CaveLoss, FallKind,
};
use crate::condition::{
    effect_counted, injury_is, injury_reduces_advance, injury_slows_cooldown, injury_tick,
    tick_reduces, ticked_effect, ticked_injury, InjuryTickView,
};
use crate::json::{json_of_text, object, text_array, text_of_json, JsonView};
use crate::light::{
    base_luminosity_drain, deep_luminosity_drain_bonus, hooks_answered, hooks_begun, refilled,
    Light, LightAnswer, LightHooks, LightStep,
};
use crate::snapshot::{DigRuntimeSnapshot, SnapshotView, TunnelView};
use crate::streak::streak_after;
use crate::turn::{closed_dig, struck, Aftermath};
use crate::upkeep::{lit_tunnel, reinforced, relics_worn, used_rows};
use vstd::prelude::*;

verus! {

/// An injury reduces the advance of the digs that it lasts and leaves the cooldown
/// alone; a stun and a catastrophe slow the cooldown and leave the advance alone.
/// Each is kept under its own name with the digs it lasts.
pub proof fn law_injury_hinders_by_kind(tunnel: TunnelView, cave_in: CaveInView, digs: i64)
    requires
        match cave_in {
            CaveInView::Injury { digs: lasting } => lasting == digs,
            CaveInView::Stun { digs: lasting } => lasting == digs,
            CaveInView::Catastrophic { stun_digs, .. } => stun_digs == digs,
            _ => false,
        },
    ensures
        ({
            let kept = |kind: Seq<char>|
                object().with("type"@, JsonView::Text(kind)).with(
                    "digs_remaining"@,
                    JsonView::Int(digs),
                );
            let column = tunnel_after_cave_in(tunnel, cave_in).injury_state;
            let (hurt, stunned) = (kept("reduced_advance"@), kept("slower_cooldown"@));
            &&& cave_in is Injury ==> column == Some(text_of_json(hurt))
            &&& !(cave_in is Injury) ==> column == Some(text_of_json(stunned))
            &&& injury_is(Some(hurt), "reduced_advance"@)
            &&& !injury_is(Some(hurt), "slower_cooldown"@)
            &&& injury_is(Some(stunned), "slower_cooldown"@)
            &&& !injury_is(Some(stunned), "reduced_advance"@)
            &&& match injury_tick(Some(hurt)) {
                InjuryTickView::Healed { reduced } => digs <= 1 && reduced == (digs > 0),
                InjuryTickView::Remaining { reduced, .. } => digs > 1 && reduced,
                InjuryTickView::Unchanged => false,
            }
        }),
{
    lemma_injury_names();
}

/// A column that hinders as an injury says reduces the advance, and one that
/// hinders as a stun says slows the cooldown, for as many digs as were drawn.
pub proof fn law_column_hinders(
    column: Option<&str>,
    cave_in: CaveInView,
    reduces: bool,
    slows: bool,
)
    requires
        hinders_as(crate::text::str_view(column), cave_in),
        call_ensures(injury_reduces_advance, (column,), reduces),
        call_ensures(injury_slows_cooldown, (column,), slows),
    ensures
        cave_in matches CaveInView::Injury { digs } ==> reduces && !slows && (digs > 0
            ==> tick_reduces(crate::text::str_view(column))),
        cave_in matches CaveInView::Stun { .. } ==> slows && !reduces && !tick_reduces(
            crate::text::str_view(column),
        ),
        cave_in matches CaveInView::Catastrophic { .. } ==> slows && !reduces && !tick_reduces(
            crate::text::str_view(column),
        ),
{
    lemma_injury_names();
}

proof fn lemma_injury_names()
    ensures
        "type"@.len() == 4,
        "digs_remaining"@.len() == 14,
        "reduced_advance"@ != "slower_cooldown"@,
{
    reveal_strlit("type");
    reveal_strlit("digs_remaining");
    reveal_strlit("reduced_advance");
    reveal_strlit("slower_cooldown");
    assert("reduced_advance"@[0] != "slower_cooldown"@[0]);
}

/// Each dig uses one dig of an injury up, the last one heals it, and what is left
/// keeps its kind.
pub proof fn law_injury_wears_off(raw: Option<Seq<char>>, tree: JsonView, remaining: i64)
    requires
        raw matches Some(text) && json_of_text(text) == Some(tree),
        tree.int_at("digs_remaining"@) == Some(remaining),
    ensures
        remaining <= 1 ==> ticked_injury(raw) is None,
        remaining > 1 ==> ticked_injury(raw) == Some(
            text_of_json(tree.with("digs_remaining"@, JsonView::Int((remaining - 1) as i64))),
        ),
        tick_reduces(raw) <==> remaining > 0 && tree.text_at("type"@) == Some("reduced_advance"@),
        ticked_injury(None) is None && !tick_reduces(None),
{
}

/// An effect loses one dig at a time and is gone with its last.
pub proof fn law_effect_wears_off(raw: Seq<char>, tree: JsonView, remaining: i64)
    requires
        json_of_text(raw) == Some(tree),
        tree.get("digs_remaining"@) is Some,
    ensures
        remaining <= 1 ==> ticked_effect(Some(raw), remaining) is None,
        remaining > 1 ==> ticked_effect(Some(raw), remaining) == Some(
            text_of_json(tree.with("digs_remaining"@, JsonView::Int((remaining - 1) as i64))),
        ),
        effect_counted(tree, remaining).int_at("digs_remaining"@) == Some(remaining),
{
}

/// What each cave-in does to the tunnel: a cushioned one uses a grappling line and
/// spares the run, a snuffed lamp costs 25 light, a cracked hat one charge, a
/// catastrophe the buffs. Every other one ends the run without cave-ins.
pub proof fn law_cave_in_hits_the_tunnel(tunnel: TunnelView, cave_in: CaveInView)
    requires
        tunnel.luminosity >= 0,
        tunnel.hard_hat_charges >= 0,
        tunnel.grappling_hook_charges >= 0,
    ensures
        ({
            let hit = tunnel_after_cave_in(tunnel, cave_in);
            &&& cave_in is Cushioned ==> hit.cavein_free_streak == tunnel.cavein_free_streak
            &&& !(cave_in is Cushioned) ==> hit.cavein_free_streak == 0
            &&& cave_in is Cushioned && tunnel.grappling_hook_charges > 0
                ==> hit.grappling_hook_charges == tunnel.grappling_hook_charges - 1
            &&& !(cave_in is Cushioned) ==> hit.grappling_hook_charges
                == tunnel.grappling_hook_charges
            &&& cave_in is SnuffedLight && tunnel.luminosity >= 25 ==> hit.luminosity
                == tunnel.luminosity - 25
            &&& cave_in is SnuffedLight && tunnel.luminosity < 25 ==> hit.luminosity == 0
            &&& !(cave_in is SnuffedLight) ==> hit.luminosity == tunnel.luminosity
            &&& cave_in is CrackedHat && tunnel.hard_hat_charges > 0 ==> hit.hard_hat_charges
                == tunnel.hard_hat_charges - 1
            &&& !(cave_in is CrackedHat) ==> hit.hard_hat_charges == tunnel.hard_hat_charges
            &&& cave_in is Catastrophic ==> hit.temp_buffs is None
            &&& !(cave_in is Catastrophic) ==> hit.temp_buffs == tunnel.temp_buffs
            &&& !(cave_in is Catastrophic || cave_in is Stun || cave_in is Injury)
                ==> hit.injury_state == tunnel.injury_state
            &&& tunnel == (TunnelView {
                cavein_free_streak: tunnel.cavein_free_streak,
                grappling_hook_charges: tunnel.grappling_hook_charges,
                luminosity: tunnel.luminosity,
                hard_hat_charges: tunnel.hard_hat_charges,
                temp_buffs: tunnel.temp_buffs,
                injury_state: tunnel.injury_state,
                ..hit
            })
        }),
{
}

/// A spilled satchel loses the row that was drawn, which counts as burnt and is
/// named; other cave-ins lose no row. Gear is replaced where it was hit.
pub proof fn law_cave_in_hits_the_satchel(
    before: SnapshotView,
    burnt: Seq<i64>,
    index: int,
    known_name: Option<Seq<char>>,
    other: CaveInView,
)
    requires
        0 <= index < before.inventory.len(),
        !(other is SpilledSatchel),
    ensures
        ({
            let spilled = CaveInView::SpilledSatchel { index, known_name };
            let after = snapshot_after_cave_in(before, spilled);
            &&& after.inventory == before.inventory.remove(index)
            &&& burnt_after_cave_in(burnt, before, spilled) == burnt.push(
                before.inventory[index].id,
            )
            &&& known_name is None ==> lost_item(before, spilled) == before.inventory[index].item_type
            &&& known_name matches Some(name) ==> lost_item(before, spilled) == name
            &&& after.gear == before.gear && after.artifacts == before.artifacts && after.balance
                == before.balance
        }),
        ({
            let after = snapshot_after_cave_in(before, other);
            &&& after.inventory == before.inventory && burnt_after_cave_in(burnt, before, other)
                == burnt
            &&& lost_item(before, other).len() == 0
            &&& other matches CaveInView::Catastrophic { gear, .. } ==> after.gear == gear
            &&& other matches CaveInView::GearNick { gear, .. } ==> after.gear == gear
            &&& !(other is Catastrophic || other is GearNick) ==> after.gear == before.gear
            &&& after.artifacts == before.artifacts && after.weather == before.weather
        }),
{
}

/// The names that a consequence is drawn under, and what becomes of one that has
/// nothing to hit: a medical bill.
pub proof fn law_consequences_by_name(name: &str, staged: &DigRuntimeSnapshot, branch: CaveInBranch)
    requires
        call_ensures(cave_in_branch, (name, staged), branch),
    ensures
        name@ == "stun"@ ==> branch == CaveInBranch::Stun,
        name@ == "injury"@ ==> branch == CaveInBranch::Injury,
        name@ == "medical_bill"@ ==> branch == CaveInBranch::MedicalBill,
        name@ == "gear_nick"@ ==> branch == CaveInBranch::GearNick,
        branch == CaveInBranch::SpilledSatchel <==> name@ == "spilled_satchel"@
            && staged@.inventory.len() > 0,
        branch == CaveInBranch::SnuffedLight <==> name@ == "snuffed_light"@ && staged@.tunnel is Some
            && staged@.tunnel->0.luminosity > 0,
        branch == CaveInBranch::CrackedHat <==> name@ == "cracked_hat"@ && staged@.tunnel is Some
            && staged@.tunnel->0.hard_hat_charges > 0,
        branch == CaveInBranch::Stun ==> name@ == "stun"@,
        branch == CaveInBranch::Injury ==> name@ == "injury"@,
        branch == CaveInBranch::GearNick ==> name@ == "gear_nick"@,
{
    lemma_consequence_words();
}

proof fn lemma_consequence_words()
    ensures
        "stun"@.len() == 4,
        "injury"@.len() == 6,
        "medical_bill"@.len() == 12,
        "gear_nick"@.len() == 9,
        "spilled_satchel"@.len() == 15,
        "snuffed_light"@.len() == 13,
        "cracked_hat"@.len() == 11,
{
    reveal_strlit("stun");
    reveal_strlit("injury");
    reveal_strlit("medical_bill");
    reveal_strlit("gear_nick");
    reveal_strlit("spilled_satchel");
    reveal_strlit("snuffed_light");
    reveal_strlit("cracked_hat");
}

/// What a consequence may hit: items where there are any, gear that is worn and
/// whole, a lamp that burns, a hat with a charge.
pub proof fn law_applicability_is_what_is_there(
    staged: &DigRuntimeSnapshot,
    applicability: Applicability,
)
    requires
        call_ensures(cave_in_applicability, (staged,), applicability),
    ensures
        applicability.items <==> staged@.inventory.len() > 0,
        staged@.tunnel matches Some(tunnel) ==> applicability.light == (tunnel.luminosity > 0)
            && applicability.hard_hat == (tunnel.hard_hat_charges > 0),
        staged@.tunnel is None ==> !applicability.light && !applicability.hard_hat,
        forall|i: int|
            0 <= i < staged@.gear.len() && (#[trigger] staged@.gear[i]).equipped
                && staged@.gear[i].durability > 0 ==> applicability.gear,
        applicability.gear ==> exists|i: int|
            0 <= i < staged@.gear.len() && (#[trigger] staged@.gear[i]).equipped
                && staged@.gear[i].durability > 0,
{
    if applicability.gear {
        let i = choose|i: int|
            0 <= i < staged@.gear.len() && crate::cave_in::can_wear(#[trigger] staged@.gear[i]);
        assert(staged@.gear[i].equipped);
    }
    assert forall|i: int|
        0 <= i < staged@.gear.len() && (#[trigger] staged@.gear[i]).equipped
            && staged@.gear[i].durability > 0 implies applicability.gear by {
        assert(crate::cave_in::can_wear(staged@.gear[i]));
    }
}

/// A rolled loss grows by its bonuses up to the cap, a reinforced tunnel loses at
/// most eight blocks, a grappling line all of it, and a pickaxe of the seventh
/// tier spares one block but never the last.
pub proof fn law_loss_is_raised_and_limited(
    rolled: i64,
    policy_bonus: i64,
    mutation_bonus: i64,
    cap: Option<i64>,
    raised: i64,
    firm: bool,
    staked: i64,
    rubble: i64,
    charm: bool,
    grappling: i64,
    tier: i64,
    settled: CaveLoss,
)
    requires
        call_ensures(raise_cave_loss, (rolled, policy_bonus, mutation_bonus, cap), raised),
        call_ensures(reinforced_cave_loss, (raised, firm), staked),
        call_ensures(settle_cave_loss, (staked, rubble, charm, grappling, tier), settled),
        0 <= rolled <= 1_000_000,
        0 <= policy_bonus <= 1_000_000,
        0 <= mutation_bonus <= 1_000_000,
        cap matches Some(cap) ==> 0 <= cap,
        0 <= rubble <= 1_000_000,
    ensures
        cap is None ==> raised == rolled + policy_bonus + mutation_bonus,
        cap matches Some(cap) ==> raised <= cap && (rolled + policy_bonus + mutation_bonus <= cap
            ==> raised == rolled + policy_bonus + mutation_bonus) && (rolled + policy_bonus
            + mutation_bonus > cap ==> raised == cap),
        !firm || raised <= 8 ==> staked == raised,
        firm && raised > 8 ==> staked == 8,
        settled.absorbed <==> grappling > 0,
        grappling > 0 ==> settled.loss == 0,
        grappling <= 0 && tier < 7 ==> settled.loss == staked,
        grappling <= 0 && tier >= 7 && staked >= 2 ==> settled.loss == staked - 1,
        grappling <= 0 && tier >= 7 && staked <= 1 ==> settled.loss == 1,
        !charm || staked == 0 ==> settled.reward == rubble,
        charm && staked == 1 ==> settled.reward == rubble + 1,
        charm && staked >= 2 ==> settled.reward == rubble + staked / 2,
{
}

/// A line that took a fall leaves no catastrophe, and protection ends with its
/// last second.
pub proof fn law_protection_comes_first(
    absorbed: bool,
    catastrophic: bool,
    kind: FallKind,
    until: i64,
    insurance: Option<i64>,
    now: i64,
    firm: bool,
    insured: bool,
)
    requires
        call_ensures(fall_kind, (absorbed, catastrophic), kind),
        call_ensures(is_reinforced, (until, now), firm),
        call_ensures(is_insured, (insurance, now), insured),
    ensures
        absorbed ==> kind == FallKind::Cushioned,
        !absorbed && catastrophic ==> kind == FallKind::Catastrophic,
        !absorbed && !catastrophic ==> kind == FallKind::Ordinary,
        firm <==> now < until,
        insured <==> insurance is Some && now < insurance->0,
{
}

/// A roll picks a row of the satchel, the last one where it rolled beyond.
pub proof fn law_satchel_row_is_there(roll: u32, length: usize, index: usize)
    requires
        call_ensures(satchel_index, (roll, length), index),
        length > 0,
    ensures
        index < length,
        roll < length ==> index == roll,
        roll >= length ==> index == length - 1,
{
}

proof fn lemma_detail_words()
    ensures
        "type"@.len() == 4,
        "block_loss"@.len() == 10,
        "message"@.len() == 7,
        "jc_lost"@.len() == 7,
        "stun_digs"@.len() == 9,
        "depth_after"@.len() == 11,
        "insurance_saved"@.len() == 15,
        "gear_broken"@.len() == 11,
        "item_lost"@.len() == 9,
        "message"@[0] != "jc_lost"@[0],
        "stun_digs"@[0] != "item_lost"@[0],
        "depth_after"@[0] != "gear_broken"@[0],
{
    reveal_strlit("type");
    reveal_strlit("block_loss");
    reveal_strlit("message");
    reveal_strlit("jc_lost");
    reveal_strlit("stun_digs");
    reveal_strlit("depth_after");
    reveal_strlit("insurance_saved");
    reveal_strlit("gear_broken");
    reveal_strlit("item_lost");
}

/// A cave-in is told under its own name with the blocks that it cost, and with
/// what else it took: a catastrophe its stun, its depth, whether insurance held and
/// what broke, a nick what broke, a spill the item, and a paid bill the coins.
pub proof fn law_cave_in_is_told(
    cave_in: CaveInView,
    cave_loss: i64,
    lost: Seq<char>,
    medical_cost: i64,
)
    ensures
        ({
            let told = cave_in_tree(cave_in, cave_loss, lost, medical_cost);
            let named = told.text_at("type"@);
            &&& cave_in is Cushioned ==> named == Some("cushioned"@)
            &&& cave_in is Catastrophic ==> named == Some("catastrophic"@)
            &&& cave_in is Stun ==> named == Some("stun"@)
            &&& cave_in is Injury ==> named == Some("injury"@)
            &&& cave_in is MedicalBill ==> named == Some("medical_bill"@)
            &&& cave_in is GearNick ==> named == Some("gear_nick"@)
            &&& cave_in is SpilledSatchel ==> named == Some("spilled_satchel"@)
            &&& cave_in is SnuffedLight ==> named == Some("snuffed_light"@)
            &&& cave_in is CrackedHat ==> named == Some("cracked_hat"@)
            &&& cave_in is Cushioned ==> told.int_at("block_loss"@) == Some(0i64)
            &&& cave_in matches CaveInView::Catastrophic {
                total_loss,
                stun_digs,
                depth_after,
                insurance_saved,
                gear_broken,
                ..
            } ==> {
                &&& told.int_at("block_loss"@) == Some(total_loss)
                &&& told.int_at("stun_digs"@) == Some(stun_digs)
                &&& told.int_at("depth_after"@) == Some(depth_after)
                &&& told.bool_at("insurance_saved"@) == Some(insurance_saved)
                &&& told.get("gear_broken"@) == Some(text_array(gear_broken))
            }
            &&& !(cave_in is Cushioned || cave_in is Catastrophic) ==> told.int_at("block_loss"@)
                == Some(cave_loss)
            &&& cave_in matches CaveInView::GearNick { gear_broken, .. } ==> told.get(
                "gear_broken"@,
            ) == Some(text_array(gear_broken))
            &&& cave_in is SpilledSatchel ==> told.text_at("item_lost"@) == Some(lost)
            &&& medical_cost > 0 ==> told.int_at("jc_lost"@) == Some(medical_cost)
            &&& medical_cost <= 0 && !(cave_in is MedicalBill) ==> told.get("jc_lost"@) is None
            &&& told.text_at("message"@) is Some
        }),
{
    lemma_detail_words();
}

/// A torch gives back 50 light and a Spore Cloak half of what was drained, neither
/// beyond 100; a surcharge and a curse take light down to nothing, the first only
/// where some was drained; Deep Sight gives back a quarter, at least one, and a
/// hard hat costs ten.
pub proof fn law_light_is_moved_by_its_hooks(light: Light, amount: i64)
    requires
        0 <= light.level <= 100,
        0 <= light.drained <= 1_000_000,
        0 < amount <= 1_000_000,
    ensures
        light.with_torch(false) == light && light.with_spore_cloak(false) == light,
        light.level <= 50 ==> light.with_torch(true).level == light.level + 50,
        light.level > 50 ==> light.with_torch(true).level == 100,
        light.with_torch(true).drained == light.drained,
        light.drained > 0 && light.level + light.drained / 2 <= 100 ==> light.with_spore_cloak(
            true,
        ).level == light.level + light.drained / 2,
        light.drained > 0 && light.level + light.drained / 2 > 100 ==> light.with_spore_cloak(
            true,
        ).level == 100,
        light.drained > 0 ==> light.with_spore_cloak(true).drained == light.drained - light.drained
            / 2,
        light.with_surcharge(false, amount) == light,
        light.drained == 0 ==> light.with_surcharge(true, amount) == light
            && light.with_spore_cloak(true) == light && light.with_deep_sight(true) == light,
        light.drained > 0 && amount <= light.level ==> light.with_surcharge(true, amount).level
            == light.level - amount,
        light.drained > 0 && amount > light.level ==> light.with_surcharge(true, amount).level == 0,
        light.drained > 0 ==> light.with_surcharge(true, amount).drained == light.drained + amount,
        amount <= light.level ==> light.with_curse(amount).level == light.level - amount,
        amount > light.level ==> light.with_curse(amount).level == 0,
        light.with_curse(amount).drained == light.drained + amount,
        light.with_curse(0) == light && light.with_deep_sight(false) == light,
        0 < light.drained < 8 && light.level < 100 ==> light.with_deep_sight(true).level
            == light.level + 1,
        light.drained >= 8 && light.level + light.drained / 4 <= 100 ==> light.with_deep_sight(
            true,
        ).level == light.level + light.drained / 4,
        light.with_deep_sight(true).drained == light.drained,
        light.with_hard_hat(false) == light,
        light.level >= 10 ==> light.with_hard_hat(true).level == light.level - 10,
        light.level < 10 ==> light.with_hard_hat(true).level == 0,
        light.with_hard_hat(true).drained == light.drained,
{
}

/// A drain takes what it says of the light, as far as there is any, and that is
/// what counts as drained.
pub proof fn law_drain_takes_light(before: i64, drain: i64)
    requires
        0 <= before <= 1_000_000,
        0 <= drain <= 1_000_000,
    ensures
        drain <= before ==> Light::drained_by(before, drain) == (Light {
            level: (before - drain) as i64,
            drained: drain,
        }),
        drain > before ==> Light::drained_by(before, drain) == (Light {
            level: 0,
            drained: before,
        }),
{
}

/// The drain of a layer: a quarter less with a pickaxe of the sixth tier, and one
/// more for each twenty blocks below 350.
pub proof fn law_drain_of_a_layer(layer: i64, tier: i64, depth: i64, drain: i64, deep: i64)
    requires
        call_ensures(base_luminosity_drain, (layer, tier, depth), drain),
        call_ensures(deep_luminosity_drain_bonus, (depth,), deep),
        0 <= layer <= 1_000_000,
        depth <= 1_000_000_000,
    ensures
        depth <= 350 ==> deep == 0,
        depth > 350 ==> deep == (depth - 350) / 20,
        tier < 6 ==> drain == layer + deep,
        tier >= 6 ==> drain == layer - layer / 4 + deep,
{
}

/// A tunnel gets 20 light back for each day since its light was last counted, in
/// parts for parts of a day and never beyond 100; then it counts from now.
pub proof fn law_light_comes_back(tunnel: TunnelView, since: i64, now: i64)
    requires
        tunnel.last_lum_update_at == Some(since),
        0 <= tunnel.luminosity <= 100,
        since <= now,
        0 <= now <= 1_000_000_000_000,
        0 <= since,
    ensures
        ({
            let lit = refilled(tunnel, now);
            let back = (now - since) * 20 / 86_400;
            &&& tunnel.luminosity + back <= 100 ==> lit.luminosity == tunnel.luminosity + back
            &&& tunnel.luminosity + back > 100 ==> lit.luminosity == 100
            &&& lit.last_lum_update_at == Some(now)
            &&& tunnel == (TunnelView {
                luminosity: tunnel.luminosity,
                last_lum_update_at: tunnel.last_lum_update_at,
                ..lit
            })
        }),
        ({
            let unknown = TunnelView { last_lum_update_at: None, ..tunnel };
            refilled(unknown, now).luminosity == tunnel.luminosity
        }),
{
}

/// The hooks of a dig ask for the ascension, the weather and the Lantern Stub in
/// this order, and end with what the stub left.
pub proof fn law_hooks_ask_in_order(light: Light, hooks: LightHooks, answer: LightAnswer)
    requires
        0 <= light.level <= 100,
        0 <= light.drained <= 1_000,
        0 <= answer.amount <= 100,
        !hooks.deep_sight,
        !hooks.hard_hat,
        hooks.curse == 0,
    ensures
        hooks_begun(light, LightHooks { torch: false, spore_cloak: false, ..hooks })
            == LightStep::Ascension(light),
        hooks_answered(LightStep::Ascension(light), hooks, answer) is Weather,
        hooks_answered(LightStep::Weather(light), hooks, answer) is LanternStub,
        hooks_answered(LightStep::LanternStub(light), hooks, answer) == LightStep::Settled(
            Light { level: answer.amount, drained: light.drained },
        ),
        !answer.applies ==> hooks_answered(LightStep::Ascension(light), hooks, answer)
            == LightStep::Weather(light),
        !answer.applies ==> hooks_answered(LightStep::Weather(light), hooks, answer)
            == LightStep::LanternStub(light),
{
}

/// A tunnel keeps the light that its hooks left and the day of the Lantern Stub,
/// and a reinforcement lasts as long as the longer of the old and the new one.
pub proof fn law_light_and_shoring_are_kept(
    tunnel: TunnelView,
    light: Light,
    date: Seq<char>,
    now: i64,
    seconds: i64,
)
    requires
        0 <= now <= 1_000_000_000_000,
        0 <= seconds <= 1_000_000_000_000,
    ensures
        lit_tunnel(tunnel, light, Some(date)) == (TunnelView {
            luminosity: light.level,
            lantern_stub_date: Some(date),
            ..tunnel
        }),
        lit_tunnel(tunnel, light, None) == (TunnelView { luminosity: light.level, ..tunnel }),
        tunnel.reinforced_until <= now + seconds ==> reinforced(tunnel, now, seconds)
            == (TunnelView { reinforced_until: (now + seconds) as i64, ..tunnel }),
        tunnel.reinforced_until > now + seconds ==> reinforced(tunnel, now, seconds) == tunnel,
{
}

/// The relics that count are those that are worn, each once, in order; the rows
/// that a dig burns are those that are queued for digs, boss items never.
pub proof fn law_worn_and_queued_count(
    artifacts: Seq<crate::snapshot::ArtifactView>,
    artifact: crate::snapshot::ArtifactView,
    items: Seq<crate::snapshot::ItemView>,
    item: crate::snapshot::ItemView,
    dig_items: Seq<Seq<char>>,
)
    ensures
        relics_worn(Seq::empty()).len() == 0 && used_rows(Seq::empty(), dig_items).len() == 0,
        artifact.is_relic && artifact.equipped ==> relics_worn(artifacts.push(artifact))
            == relics_worn(artifacts).push(artifact.artifact_id),
        !(artifact.is_relic && artifact.equipped) ==> relics_worn(artifacts.push(artifact))
            == relics_worn(artifacts),
        ({
            let boss_item = item.item_type == "tempered_whetstone"@ || item.item_type
                == "warding_salts"@ || item.item_type == "rescue_line"@;
            let used = item.queued && dig_items.contains(item.item_type) && !boss_item;
            &&& used ==> used_rows(items.push(item), dig_items) == used_rows(items, dig_items).push(
                item.id,
            )
            &&& !used ==> used_rows(items.push(item), dig_items) == used_rows(items, dig_items)
        }),
{
    assert(artifacts.push(artifact).drop_last() =~= artifacts);
    assert(items.push(item).drop_last() =~= items);
}

/// A daily streak goes on the day after, stays within the day, and starts anew
/// after a gap or where there was none.
pub proof fn law_streak_counts_days(streak: i64, last: Seq<char>, today: Seq<char>, gap: i64)
    requires
        1 <= streak < i64::MAX,
    ensures
        streak_after(streak, None, today, None) == 1,
        streak_after(streak, Some(today), today, Some(gap)) == streak,
        last != today ==> streak_after(streak, Some(last), today, Some(1i64)) == streak + 1,
        last != today && gap != 1 ==> streak_after(streak, Some(last), today, Some(gap)) == 1,
        last != today ==> streak_after(streak, Some(last), today, None) == 1,
{
}

/// A roll strikes first and a reinforcement that was burnt on the way comes after
/// it; without either nothing changes.
pub proof fn law_reinforcement_follows_the_strike(
    snapshot: SnapshotView,
    tunnel: TunnelView,
    cave_in: CaveInView,
    now: i64,
    seconds: i64,
)
    requires
        snapshot.tunnel == Some(tunnel),
    ensures
        struck(snapshot, None, false, now, seconds) == snapshot,
        struck(snapshot, Some(cave_in), false, now, seconds) == snapshot_after_cave_in(
            snapshot,
            cave_in,
        ),
        struck(snapshot, None, true, now, seconds).tunnel == Some(reinforced(tunnel, now, seconds)),
        struck(snapshot, Some(cave_in), true, now, seconds).tunnel == Some(
            reinforced(tunnel_after_cave_in(tunnel, cave_in), now, seconds),
        ),
{
}

/// A catastrophe leaves the digger where it says with no advance, the bill and the
/// refund change the wallet alone, and a bill also what was earned.
pub proof fn law_aftermath_is_borne(
    dig: (crate::settlement::StateView, crate::settlement::DigOutcome),
    aftermath: Aftermath,
)
    requires
        0 <= dig.0.balance <= 1_000_000_000_000,
        -1_000_000_000_000 <= dig.1.jc_earned <= 1_000_000_000_000,
        0 <= aftermath.bill <= dig.0.balance,
        0 <= aftermath.refund <= 1_000_000_000_000,
    ensures
        ({
            let (state, told) = closed_dig(dig, aftermath);
            &&& state.balance == dig.0.balance - aftermath.bill + aftermath.refund
            &&& told.jc_earned == dig.1.jc_earned - aftermath.bill
            &&& aftermath.fall is None ==> state.depth == dig.0.depth && told.depth_after
                == dig.1.depth_after && told.advance == dig.1.advance
            &&& aftermath.fall matches Some(depth) ==> state.depth == depth && told.depth_after
                == depth && told.advance == 0
            &&& state == (crate::settlement::StateView {
                balance: state.balance,
                depth: state.depth,
                ..dig.0
            })
            &&& told == (crate::settlement::DigOutcome {
                jc_earned: told.jc_earned,
                depth_after: told.depth_after,
                advance: told.advance,
                ..dig.1
            })
        }),
{
}

} // verus!
