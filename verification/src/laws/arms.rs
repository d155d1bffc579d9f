//! Laws on what a fighter brings into a boss fight.

use crate::combat::{
    active_cheers, counting_cheers, effect_in_slot, gear_effect, has_attempt_effect, no_effects,
    occurrences, relic_stats, stat_total, with_gear, with_relics, worn_piece, worn_relics,
    CombatEffects, EffectsView, EquippedArtifactView, GearSlot, PieceView, RelicEffects,
    TrophyEffects,
};
use crate::json::JsonView;
use crate::preparation::{is_preparation_item, prepare_combat, CombatBase, PreparedCombat};
use crate::text::texts;
use vstd::prelude::*;

verus! {

proof fn lemma_relic_words()
    ensures
        "weeping_fang"@.len() == 12,
        "runebitten_shard"@.len() == 16,
        "aching_spine"@.len() == 12,
        "listening_shard"@.len() == 15,
        "hateborn_ember"@.len() == 14,
        "berserkers_mark"@.len() == 15,
        "gamblers_edge"@.len() == 13,
        "deaths_door"@.len() == 11,
        "paper_crane"@.len() == 11,
        "bottled_quake"@.len() == 13,
        "weeping_fang"@[0] != "aching_spine"@[0],
        "listening_shard"@[0] != "berserkers_mark"@[0],
        "gamblers_edge"@[0] != "bottled_quake"@[0],
        "deaths_door"@[0] != "paper_crane"@[0],
{
    reveal_strlit("weeping_fang");
    reveal_strlit("runebitten_shard");
    reveal_strlit("aching_spine");
    reveal_strlit("listening_shard");
    reveal_strlit("hateborn_ember");
    reveal_strlit("berserkers_mark");
    reveal_strlit("gamblers_edge");
    reveal_strlit("deaths_door");
    reveal_strlit("paper_crane");
    reveal_strlit("bottled_quake");
}

/// Trophies and relics by name. Each works where it is worn, and only there.
pub proof fn law_relics_work_by_name(effects: EffectsView, relics: Seq<Seq<char>>)
    ensures
        ({
            let armed = with_relics(effects, relics);
            &&& armed.trophies.lifesteal <==> relics.contains("runebitten_shard"@)
            &&& armed.trophies.regrowth <==> relics.contains("aching_spine"@)
            &&& armed.trophies.forewarned <==> relics.contains("listening_shard"@)
            &&& armed.trophies.laststand <==> relics.contains("hateborn_ember"@)
            &&& relics.contains("weeping_fang"@) ==> armed.trophies.venom_rounds == 4
            &&& !relics.contains("weeping_fang"@) ==> armed.trophies.venom_rounds == 0
            &&& relics.contains("berserkers_mark"@) ==> armed.relics.berserk_rage == Some(0u8)
            &&& !relics.contains("berserkers_mark"@) ==> armed.relics.berserk_rage is None
            &&& armed.relics.double_hit <==> relics.contains("gamblers_edge"@)
            &&& armed.relics.deaths_door <==> relics.contains("deaths_door"@)
            &&& armed.relics.paper_crane <==> relics.contains("paper_crane"@)
            &&& armed.relics.bottled_quake <==> relics.contains("bottled_quake"@)
            &&& armed.trophies.start_hp == effects.trophies.start_hp
            &&& effects == (EffectsView {
                trophies: effects.trophies,
                relics: effects.relics,
                ..armed
            })
        }),
{
}

/// Whoever wears one of them has its effect at work and none of the others.
pub proof fn law_one_relic_works_alone(worn: Seq<char>)
    ensures
        ({
            let armed = with_relics(no_effects(), seq![worn]);
            let (trophies, relics) = (armed.trophies, armed.relics);
            let none = no_effects();
            &&& worn == "weeping_fang"@ ==> trophies == (TrophyEffects {
                venom_rounds: 4,
                ..none.trophies
            }) && relics == none.relics
            &&& worn == "runebitten_shard"@ ==> trophies == (TrophyEffects {
                lifesteal: true,
                ..none.trophies
            }) && relics == none.relics
            &&& worn == "aching_spine"@ ==> trophies == (TrophyEffects {
                regrowth: true,
                ..none.trophies
            }) && relics == none.relics
            &&& worn == "listening_shard"@ ==> trophies == (TrophyEffects {
                forewarned: true,
                ..none.trophies
            }) && relics == none.relics
            &&& worn == "hateborn_ember"@ ==> trophies == (TrophyEffects {
                laststand: true,
                ..none.trophies
            }) && relics == none.relics
            &&& worn == "berserkers_mark"@ ==> relics == (RelicEffects {
                berserk_rage: Some(0),
                ..none.relics
            }) && trophies == none.trophies
            &&& worn == "gamblers_edge"@ ==> relics == (RelicEffects {
                double_hit: true,
                ..none.relics
            }) && trophies == none.trophies
            &&& worn == "deaths_door"@ ==> relics == (RelicEffects {
                deaths_door: true,
                ..none.relics
            }) && trophies == none.trophies
            &&& worn == "paper_crane"@ ==> relics == (RelicEffects {
                paper_crane: true,
                ..none.relics
            }) && trophies == none.trophies
            &&& worn == "bottled_quake"@ ==> relics == (RelicEffects {
                bottled_quake: true,
                ..none.relics
            }) && trophies == none.trophies
        }),
{
    lemma_relic_words();
    let list = seq![worn];
    assert(list[0] == worn);
    law_relics_work_by_name(no_effects(), list);
    assert forall|id: Seq<char>| #[trigger] list.contains(id) <==> id == worn by {
        if id == worn {
            assert(list[0] == id);
        }
    }
}

/// A fresh fighter has nothing at work.
pub proof fn law_nothing_works_at_first()
    ensures
        ({
            let none = no_effects();
            &&& !none.trophies.lifesteal && !none.trophies.regrowth && !none.trophies.forewarned
            &&& !none.trophies.laststand && none.trophies.venom_rounds == 0
            &&& none.trophies.start_hp is None && none.relics.berserk_rage is None
            &&& !none.relics.double_hit && !none.relics.deaths_door && !none.relics.paper_crane
            &&& !none.relics.bottled_quake && !none.gear.reflect_first_hit
            &&& !none.gear.block_first_status && !none.gear.springheel_counter
            &&& !none.gear.block_first_skip && !none.gear.heal_first_crit
            &&& !none.gear.reroll_first_miss && none.conditions.burn_rounds_remaining == 0
            &&& none.conditions.bleed_rounds_remaining == 0 && !none.conditions.silenced_next_round
            &&& !none.conditions.frostbite_next_round && !none.conditions.boss_exposed_next_round
            &&& none.conditions.skip_next_round_for is None && none.pet_assist is None
            &&& none.boss_preparation is None && none.shifting_idol_bonus is None
            &&& none.blocked.paper_crane is None && none.blocked.nullweave is None
            &&& !none.blocked.anchor_boots
        }),
{
}

/// The effects of gear by name: each works where a piece that is worn, whole and in
/// front of its slot has it, and what worked before keeps working.
pub proof fn law_gear_works_by_name(
    effects: EffectsView,
    gear: Seq<PieceView>,
    slot: GearSlot,
    piece: PieceView,
)
    requires
        worn_piece(gear, slot) == Some(piece),
        slot != GearSlot::Relic,
        piece.durability > 0,
    ensures
        ({
            let armed = with_gear(effects, gear).gear;
            &&& piece.effect_id == Some("reflect_first_hit"@) ==> armed.reflect_first_hit
            &&& piece.effect_id == Some("block_first_status"@) ==> armed.block_first_status
            &&& piece.effect_id == Some("springheel_counter"@) ==> armed.springheel_counter
            &&& piece.effect_id == Some("block_first_skip"@) ==> armed.block_first_skip
            &&& piece.effect_id == Some("heal_first_crit"@) ==> armed.heal_first_crit
            &&& piece.effect_id == Some("reroll_first_miss"@) ==> armed.reroll_first_miss
            &&& effects.gear.reflect_first_hit ==> armed.reflect_first_hit
            &&& effects.gear.block_first_status ==> armed.block_first_status
            &&& effects.gear.springheel_counter ==> armed.springheel_counter
            &&& effects.gear.block_first_skip ==> armed.block_first_skip
            &&& effects.gear.heal_first_crit ==> armed.heal_first_crit
            &&& effects.gear.reroll_first_miss ==> armed.reroll_first_miss
        }),
        effects == (EffectsView { gear: effects.gear, ..with_gear(effects, gear) }),
{
    if piece.effect_id is Some {
        lemma_worn_effect(gear, slot, piece, piece.effect_id->0);
    }
}

proof fn lemma_worn_effect(gear: Seq<PieceView>, slot: GearSlot, piece: PieceView, effect: Seq<char>)
    requires
        worn_piece(gear, slot) == Some(piece),
        slot != GearSlot::Relic,
        piece.durability > 0,
        piece.effect_id == Some(effect),
    ensures
        gear_effect(gear, effect),
{
    reveal(gear_effect);
    assert(effect_in_slot(gear, slot, effect));
    assert(slot == GearSlot::Weapon || slot == GearSlot::Armor || slot == GearSlot::Boots || slot
        == GearSlot::Amulet || slot == GearSlot::Ring);
}

/// Gear that nobody wears, or that is worn out, or that has another effect, gives
/// none.
pub proof fn law_idle_gear_gives_nothing(effects: EffectsView, gear: Seq<PieceView>)
    requires
        forall|slot: GearSlot|
            match #[trigger] worn_piece(gear, slot) {
                Some(piece) => piece.durability <= 0 || piece.effect_id is None,
                None => true,
            },
    ensures
        with_gear(effects, gear) == effects,
{
    assert forall|effect: Seq<char>| !#[trigger] gear_effect(gear, effect) by {
        reveal(gear_effect);
        assert forall|slot: GearSlot| !#[trigger] effect_in_slot(gear, slot, effect) by {
            assert(match worn_piece(gear, slot) {
                Some(piece) => piece.durability <= 0 || piece.effect_id is None,
                None => true,
            });
        }
    }
    assert(with_gear(effects, gear).gear == effects.gear);
}

/// The piece of a slot is the last one that is worn there.
pub proof fn law_last_worn_piece_counts(gear: Seq<PieceView>, piece: PieceView, slot: GearSlot)
    ensures
        worn_piece(Seq::empty(), slot) is None,
        piece.equipped && piece.slot == slot ==> worn_piece(gear.push(piece), slot) == Some(piece),
        !(piece.equipped && piece.slot == slot) ==> worn_piece(gear.push(piece), slot)
            == worn_piece(gear, slot),
{
    assert(gear.push(piece).drop_last() =~= gear);
}

/// The relics that count in a fight are those that are worn.
pub proof fn law_worn_relics_count(
    artifacts: Seq<EquippedArtifactView>,
    artifact: EquippedArtifactView,
)
    ensures
        worn_relics(Seq::empty()).len() == 0,
        artifact.is_relic && artifact.equipped ==> worn_relics(artifacts.push(artifact))
            == worn_relics(artifacts).push(artifact.artifact_id),
        !(artifact.is_relic && artifact.equipped) ==> worn_relics(artifacts.push(artifact))
            == worn_relics(artifacts),
{
    assert(artifacts.push(artifact).drop_last() =~= artifacts);
}

/// An effect of the attempt is at work exactly where one of them is.
pub proof fn law_attempt_effects_are_seen(effects: &CombatEffects, answer: bool)
    requires
        call_ensures(has_attempt_effect, (effects,), answer),
    ensures
        effects@.trophies.lifesteal || effects@.trophies.regrowth || effects@.trophies.forewarned
            || effects@.trophies.laststand ==> answer,
        effects@.trophies.venom_rounds > 0 || effects@.relics.berserk_rage is Some ==> answer,
        effects@.relics.double_hit || effects@.relics.deaths_door || effects@.relics.paper_crane
            || effects@.relics.bottled_quake ==> answer,
        effects@.gear.reflect_first_hit || effects@.gear.block_first_status
            || effects@.gear.springheel_counter || effects@.gear.block_first_skip
            || effects@.gear.heal_first_crit || effects@.gear.reroll_first_miss ==> answer,
        effects@.trophies == no_effects().trophies && effects@.relics == no_effects().relics
            && effects@.gear == no_effects().gear ==> !answer,
{
}

/// A cheer counts before it expires and not after, and those that count keep their
/// order.
pub proof fn law_cheers_count_while_they_last(cheers: Seq<JsonView>, cheer: JsonView, now: i64)
    ensures
        counting_cheers(Seq::empty(), now).len() == 0,
        cheer.int_at("expires_at"@) matches Some(until) ==> {
            &&& now < until ==> counting_cheers(cheers.push(cheer), now) == counting_cheers(
                cheers,
                now,
            ).push(cheer)
            &&& until <= now ==> counting_cheers(cheers.push(cheer), now) == counting_cheers(
                cheers,
                now,
            )
        },
        cheer.int_at("expires_at"@) is None ==> counting_cheers(cheers.push(cheer), now)
            == counting_cheers(cheers, now),
{
    assert(cheers.push(cheer).drop_last() =~= cheers);
}

/// A stat of a pinnacle relic counts once for each time it was rolled, over all
/// relics that are worn.
pub proof fn law_stats_add_up(
    relics: Seq<Seq<char>>,
    relic: Seq<char>,
    rolled: Seq<Seq<char>>,
    last: Seq<char>,
    stat: Seq<char>,
)
    ensures
        stat_total(Seq::empty(), stat) == 0,
        stat_total(relics.push(relic), stat) == stat_total(relics, stat) + occurrences(
            relic_stats(relic),
            stat,
        ),
        occurrences(Seq::empty(), stat) == 0,
        occurrences(rolled.push(last), stat) == occurrences(rolled, stat) + (if last == stat {
            1nat
        } else {
            0
        }),
{
    assert(relics.push(relic).drop_last() =~= relics);
    assert(rolled.push(last).drop_last() =~= rolled);
}

/// Away from the pinnacle a fighter has the health and damage they came with; at
/// it each rolled stat adds a point of health, or a point of damage for each
/// hundred blocks. A whetstone adds one after the phase, at most three cheers
/// count, and relics and gear work as they do.
pub proof fn law_fighter_is_prepared(
    base: CombatBase,
    record: Option<&crate::boss_store::DigBossRuntimeSnapshot>,
    boundary: i32,
    pinnacle_depth: i32,
    now: i64,
    prepared: PreparedCombat,
)
    requires
        call_ensures(prepare_combat, (base, record, boundary, pinnacle_depth, now), prepared),
        -1_000_000 <= base.player_hp <= 1_000_000,
        -1_000_000 <= base.player_damage <= 1_000_000,
        stat_total(texts(base.relics@), "hp_plus_1"@) <= 1_000,
        stat_total(texts(base.relics@), "dmg_plus_per_100"@) <= 1_000,
        0 <= boundary <= 100_000,
    ensures
        ({
            let relics = texts(base.relics@);
            let stacks = stat_total(relics, "dmg_plus_per_100"@);
            &&& boundary != pinnacle_depth ==> prepared.player_hp == base.player_hp
                && prepared.player_damage == base.player_damage && prepared.hit_bonuses == 0
                && prepared.boss_hit_cuts == 0
            &&& boundary == pinnacle_depth ==> prepared.player_hp == base.player_hp + stat_total(
                relics,
                "hp_plus_1"@,
            ) && prepared.player_damage == base.player_damage + stacks * (boundary as int / 100)
            &&& prepared.effects@.trophies.lifesteal <==> relics.contains("runebitten_shard"@)
            &&& prepared.effects@.trophies.regrowth <==> relics.contains("aching_spine"@)
            &&& prepared.hollow_fang <==> relics.contains("hollow_fang"@)
            &&& prepared.shifting_idol <==> relics.contains("shifting_idol"@)
            &&& 0 <= prepared.cheers <= 3
            &&& record is None ==> prepared.cheers == 0 && prepared.luminosity == base.luminosity
                && prepared.boss_preparation is None && prepared.player_damage_after_phase_delta
                == 0
            &&& record matches Some(record) ==> {
                let counting = active_cheers(record@.cheer_data_json, now).len();
                &&& counting <= 3 ==> prepared.cheers == counting
                &&& counting > 3 ==> prepared.cheers == 3
                &&& i32::MIN <= record@.luminosity <= i32::MAX ==> prepared.luminosity
                    == record@.luminosity
            }
        }),
{
    let relics = texts(base.relics@);
    let stacks = stat_total(relics, "dmg_plus_per_100"@);
    law_relics_work_by_name(base.effects@, relics);
    assert(0 <= stacks * (boundary as int / 100) <= 1_000_000) by (nonlinear_arith)
        requires
            0 <= stacks <= 1_000,
            0 <= boundary <= 100_000,
    ;
    assert(forall|id: Seq<char>| crate::combat::relic_worn(relics, id) <==> relics.contains(id));
}

/// The items that prepare for a boss.
pub proof fn law_preparation_items(item_type: &str, answer: bool)
    requires
        call_ensures(is_preparation_item, (item_type,), answer),
    ensures
        answer <==> item_type@ == "tempered_whetstone"@ || item_type@ == "warding_salts"@
            || item_type@ == "rescue_line"@,
{
}

} // verus!
