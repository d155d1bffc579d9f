//! Laws on the names under which a fight is kept while it waits.

use crate::boss_store::PlayerKey;
use crate::combat::{Combatant, MechanicStatusEffect, PetAssistView};
use crate::duel::{
    assist_of, blocked_of, carried_prep_of, conditions_of, defence_of, effects_of, gear_of,
    offence_of, parse_risk, recovery_of, relics_of, round_of, skipped_of, trophies_of, RiskTier,
};
use crate::duel_row::{
    duel_of, option_of, options_of, prompt_of, rounds_of, row_obstacle, row_of, DuelRowView,
    DuelView, PromptView,
};
use crate::json::{ints_of, JsonView};
use vstd::prelude::*;

verus! {

proof fn lemma_fight_words()
    ensures
        "player"@.len() == 6,
        "boss"@.len() == 4,
        "burn"@.len() == 4,
        "silence"@.len() == 7,
        "bleed"@.len() == 5,
        "frostbite"@.len() == 9,
        "reveal"@.len() == 6,
        "player"@[0] != "reveal"@[0],
        "boss"@[1] != "burn"@[1],
{
    reveal_strlit("player");
    reveal_strlit("boss");
    reveal_strlit("burn");
    reveal_strlit("silence");
    reveal_strlit("bleed");
    reveal_strlit("frostbite");
    reveal_strlit("reveal");
}

/// The conditions of a fight, each under its own name.
pub proof fn law_conditions_by_name(tree: JsonView)
    ensures
        ({
            let read = conditions_of(tree);
            &&& tree.text_at("skip_next_round_for"@) == Some("player"@)
                ==> read.skip_next_round_for == Some(Combatant::Player)
            &&& tree.text_at("skip_next_round_for"@) == Some("boss"@)
                ==> read.skip_next_round_for == Some(Combatant::Boss)
            &&& tree.uint_at("burn_rounds_remaining"@) matches Some(count) ==> count <= 255
                ==> read.burn_rounds_remaining == count
            &&& tree.uint_at("burn_rounds_remaining"@) is None ==> read.burn_rounds_remaining == 0
            &&& tree.uint_at("bleed_rounds_remaining"@) matches Some(count) ==> count <= 255
                ==> read.bleed_rounds_remaining == count
            &&& tree.uint_at("bleed_rounds_remaining"@) is None ==> read.bleed_rounds_remaining == 0
            &&& read.silenced_next_round <==> tree.bool_at("silenced_next_round"@) == Some(true)
            &&& read.frostbite_next_round <==> tree.bool_at("frostbite_next_round"@) == Some(true)
            &&& read.boss_exposed_next_round
                <==> tree.bool_at("boss_exposed_next_round"@) == Some(true)
        }),
{
    lemma_fight_words();
}

/// The trophies of a fight, each under its own name.
pub proof fn law_trophies_by_name(tree: JsonView)
    ensures
        ({
            let read = trophies_of(tree);
            &&& tree.int_at("trophy_start_hp"@) matches Some(value)
                ==> i32::MIN <= value <= i32::MAX ==> (read.start_hp matches Some(kept)
                && kept == value)
            &&& tree.int_at("trophy_start_hp"@) is None ==> read.start_hp is None
            &&& tree.uint_at("trophy_venom"@) matches Some(count) ==> count <= 255
                ==> read.venom_rounds == count
            &&& tree.uint_at("trophy_venom"@) is None ==> read.venom_rounds == 0
            &&& read.lifesteal <==> tree.bool_at("trophy_lifesteal"@) == Some(true)
            &&& read.regrowth <==> tree.bool_at("trophy_regrowth"@) == Some(true)
            &&& read.forewarned <==> tree.bool_at("trophy_forewarned"@) == Some(true)
            &&& read.laststand <==> tree.bool_at("trophy_laststand"@) == Some(true)
        }),
{
    lemma_fight_words();
}

/// The relics of a fight, each under its own name.
pub proof fn law_relics_by_name(tree: JsonView)
    ensures
        ({
            let read = relics_of(tree);
            &&& tree.uint_at("relic_berserk_rage"@) matches Some(count) ==> count <= 255
                ==> (read.berserk_rage matches Some(kept) && kept == count)
            &&& tree.uint_at("relic_berserk_rage"@) is None ==> read.berserk_rage is None
            &&& read.double_hit <==> tree.bool_at("relic_double_hit"@) == Some(true)
            &&& read.deaths_door <==> tree.bool_at("relic_deaths_door"@) == Some(true)
            &&& read.paper_crane <==> tree.bool_at("relic_paper_crane"@) == Some(true)
            &&& read.bottled_quake <==> tree.bool_at("relic_bottled_quake"@) == Some(true)
        }),
{
    lemma_fight_words();
}

/// The gear of a fight, each under its own name.
pub proof fn law_gear_by_name(tree: JsonView)
    ensures
        ({
            let read = gear_of(tree);
            &&& read.reflect_first_hit <==> tree.bool_at("gear_reflect_first_hit"@) == Some(true)
            &&& read.block_first_status <==> tree.bool_at("gear_block_first_status"@) == Some(true)
            &&& read.springheel_counter <==> tree.bool_at("gear_springheel_counter"@) == Some(true)
            &&& read.block_first_skip <==> tree.bool_at("gear_block_first_skip"@) == Some(true)
            &&& read.heal_first_crit <==> tree.bool_at("gear_heal_first_crit"@) == Some(true)
            &&& read.reroll_first_miss <==> tree.bool_at("gear_reroll_first_miss"@) == Some(true)
        }),
{
    lemma_fight_words();
}

/// The effects that a fight blocked, each under its own name.
pub proof fn law_blocked_by_name(tree: JsonView)
    ensures
        ({
            let read = blocked_of(tree);
            &&& tree.text_at("paper_crane_blocked"@) == Some("burn"@) ==> read.paper_crane == Some(
                MechanicStatusEffect::Burn,
            )
            &&& tree.text_at("paper_crane_blocked"@) == Some("silence"@)
                ==> read.paper_crane == Some(
                MechanicStatusEffect::Silence,
            )
            &&& tree.text_at("paper_crane_blocked"@) == Some("bleed"@) ==> read.paper_crane == Some(
                MechanicStatusEffect::Bleed,
            )
            &&& tree.text_at("paper_crane_blocked"@) == Some("frostbite"@)
                ==> read.paper_crane == Some(
                MechanicStatusEffect::Frostbite,
            )
            &&& tree.text_at("paper_crane_blocked"@) == Some("reveal"@)
                ==> read.paper_crane == Some(
                MechanicStatusEffect::Reveal,
            )
            &&& tree.text_at("nullweave_blocked"@) == Some("burn"@) ==> read.nullweave == Some(
                MechanicStatusEffect::Burn,
            )
            &&& tree.text_at("nullweave_blocked"@) == Some("silence"@) ==> read.nullweave == Some(
                MechanicStatusEffect::Silence,
            )
            &&& tree.text_at("nullweave_blocked"@) == Some("bleed"@) ==> read.nullweave == Some(
                MechanicStatusEffect::Bleed,
            )
            &&& tree.text_at("nullweave_blocked"@) == Some("frostbite"@) ==> read.nullweave == Some(
                MechanicStatusEffect::Frostbite,
            )
            &&& tree.text_at("nullweave_blocked"@) == Some("reveal"@) ==> read.nullweave == Some(
                MechanicStatusEffect::Reveal,
            )
            &&& read.anchor_boots <==> tree.bool_at("anchor_boots_blocked"@) == Some(true)
        }),
{
    lemma_fight_words();
}

/// The blows of a round, each under its own name.
pub proof fn law_offence_by_name(tree: JsonView)
    ensures
        ({
            let read = offence_of(tree);
            &&& read.venom <==> tree.bool_at("venom"@) == Some(true)
            &&& read.bottled_quake <==> tree.bool_at("bottled_quake"@) == Some(true)
            &&& read.laststand <==> tree.bool_at("laststand"@) == Some(true)
            &&& read.double_hit <==> tree.bool_at("double_hit"@) == Some(true)
            &&& read.red_thread_reroll <==> tree.bool_at("red_thread_reroll"@) == Some(true)
        }),
{
    lemma_fight_words();
}

/// The defence of a round, each under its own name.
pub proof fn law_defence_by_name(tree: JsonView)
    ensures
        ({
            let read = defence_of(tree);
            &&& read.deaths_door <==> tree.bool_at("deaths_door"@) == Some(true)
            &&& read.forewarned <==> tree.bool_at("forewarned"@) == Some(true)
            &&& read.briarplate_reflect <==> tree.bool_at("briarplate_reflect"@) == Some(true)
            &&& read.springheel_counter <==> tree.bool_at("springheel_counter"@) == Some(true)
        }),
{
    lemma_fight_words();
}

/// The recovery of a round, each under its own name.
pub proof fn law_recovery_by_name(tree: JsonView)
    ensures
        ({
            let read = recovery_of(tree);
            &&& read.blood_locket_heal <==> tree.bool_at("blood_locket_heal"@) == Some(true)
            &&& read.lifesteal <==> tree.bool_at("lifesteal"@) == Some(true)
            &&& read.regrowth <==> tree.bool_at("regrowth"@) == Some(true)
        }),
{
    lemma_fight_words();
}

/// The turns that a round skipped, each under its own name.
pub proof fn law_skipped_by_name(tree: JsonView)
    ensures
        ({
            let read = skipped_of(tree);
            &&& read.player <==> tree.bool_at("skipped_player"@) == Some(true)
            &&& read.boss <==> tree.bool_at("skipped_boss"@) == Some(true)
        }),
{
    lemma_fight_words();
}

/// The effects of a fight are read from its conditions, trophies, relics, gear and
/// blocks, and from the pet, the idol and the item that it names.
pub proof fn law_effects_by_name(tree: JsonView)
    ensures
        ({
            let read = effects_of(tree);
            &&& read.conditions == conditions_of(tree) && read.trophies == trophies_of(tree)
            &&& read.relics == relics_of(tree) && read.gear == gear_of(tree)
            &&& read.blocked == blocked_of(tree)
            &&& read.pet_assist == assist_of(tree.get("pet_boss_assist"@))
            &&& read.shifting_idol_bonus == tree.text_at("shifting_idol_bonus"@)
            &&& read.boss_preparation == carried_prep_of(tree.get("boss_prep"@))
        }),
{
}

/// A pet that helps is read with its name, its species and its bonus, and an item
/// with its kind and whether it was used.
pub proof fn law_helpers_by_name(tree: JsonView, bonus: i64)
    requires
        tree.int_at("bonus_pct"@) == Some(bonus),
        i32::MIN <= bonus <= i32::MAX,
    ensures
        tree.text_at("pet_name"@) matches Some(pet_name) ==> tree.text_at("species_id"@) matches
            Some(species_id) ==> tree.text_at("species_name"@) matches Some(species_name)
            ==> assist_of(Some(tree)) == Some(
            PetAssistView { pet_name, species_id, species_name, bonus_percent: bonus as i32 },
        ),
        tree.text_at("pet_name"@) is None ==> assist_of(Some(tree)) is None,
        assist_of(None) is None && carried_prep_of(None) is None,
        tree.text_at("item_type"@) matches Some(item_type) ==> (carried_prep_of(Some(tree)) matches
            Some(prep) && prep.item_type == item_type && prep.used == (tree.bool_at("used"@)
            == Some(true))),
{
}

/// A round is read with its number, the health of both sides, who hit, the pet and
/// the log of its effects.
pub proof fn law_round_by_name(tree: JsonView, round: u64, player_hp: i64, boss_hp: i64)
    requires
        tree.uint_at("round"@) == Some(round),
        round <= 255,
        tree.int_at("player_hp"@) == Some(player_hp),
        tree.int_at("boss_hp"@) == Some(boss_hp),
        i32::MIN <= player_hp <= i32::MAX,
        i32::MIN <= boss_hp <= i32::MAX,
    ensures
        round_of(tree) matches Some(read) && {
            &&& read.round == round && read.player_hp == player_hp && read.boss_hp == boss_hp
            &&& read.player_hit <==> tree.bool_at("player_hit"@) == Some(true)
            &&& read.boss_hit == tree.bool_at("boss_hit"@)
            &&& read.pet_assist == assist_of(tree.get("pet_assist"@))
            &&& tree.int_at("pet_assist_damage"@) matches Some(damage) ==> i32::MIN <= damage
                <= i32::MAX ==> read.pet_assist_damage == damage
            &&& read.effect_log.critical <==> tree.bool_at("crit"@) == Some(true)
            &&& tree.uint_at("berserk_bonus"@) matches Some(bonus) ==> bonus <= 255
                ==> read.effect_log.berserk_bonus == bonus
            &&& read.effect_log.offence == offence_of(tree)
            &&& read.effect_log.defence == defence_of(tree)
            &&& read.effect_log.recovery == recovery_of(tree)
            &&& read.effect_log.skipped == skipped_of(tree)
        },
{
}

/// Rounds are read in their order, and what is no round is passed over.
pub proof fn law_rounds_in_order(items: Seq<JsonView>, item: JsonView)
    ensures
        rounds_of(Seq::empty()).len() == 0,
        round_of(item) matches Some(round) ==> rounds_of(items.push(item)) == rounds_of(
            items,
        ).push(round),
        round_of(item) is None ==> rounds_of(items.push(item)) == rounds_of(items),
{
    assert(items.push(item).drop_last() =~= items);
}

/// A question is read with its mechanic, its title, its text, its options in order
/// and the safe one.
pub proof fn law_prompt_by_name(tree: JsonView, items: Seq<JsonView>, safe: u64)
    requires
        tree.get("options"@) == Some(JsonView::Array(items)),
        tree.text_at("mechanic_id"@) is Some,
        tree.text_at("title"@) is Some,
        tree.text_at("description"@) is Some,
        tree.uint_at("safe_option_idx"@) == Some(safe),
        safe <= usize::MAX,
    ensures
        prompt_of(tree) matches Some(read) && {
            &&& Some(read.mechanic_id) == tree.text_at("mechanic_id"@)
            &&& Some(read.prompt_title) == tree.text_at("title"@)
            &&& Some(read.prompt_description) == tree.text_at("description"@)
            &&& read.safe_option_index == safe && read.options == options_of(items)
        },
{
}

/// An option is read with its label and its place, the place in the list where it
/// names none.
pub proof fn law_option_by_name(tree: JsonView, place: usize, label: Seq<char>)
    requires
        tree.text_at("label"@) == Some(label),
    ensures
        option_of(tree, place as int) matches Some(option) && option.label == label && (
        tree.uint_at("option_index"@) is None ==> option.option_index == place) && (tree.uint_at(
            "option_index"@,
        ) matches Some(index) ==> index <= usize::MAX ==> option.option_index == index),
{
}

/// The words for the risks.
pub proof fn law_risks_by_word(word: &str, read: Result<RiskTier, String>, risk: RiskTier, name: &str)
    requires
        call_ensures(parse_risk, (word,), read),
        name@ == crate::duel::word_of_risk(risk),
    ensures
        word@ == "cautious"@ ==> read == Ok::<RiskTier, String>(RiskTier::Cautious),
        word@ == "bold"@ ==> read == Ok::<RiskTier, String>(RiskTier::Bold),
        word@ == "reckless"@ ==> read == Ok::<RiskTier, String>(RiskTier::Reckless),
        word@ != "cautious"@ && word@ != "bold"@ && word@ != "reckless"@ ==> read is Err,
        risk == RiskTier::Cautious ==> name@ == "cautious"@,
        risk == RiskTier::Bold ==> name@ == "bold"@,
        risk == RiskTier::Reckless ==> name@ == "reckless"@,
{
    lemma_risk_words();
}

proof fn lemma_risk_words()
    ensures
        "cautious"@.len() == 8,
        "bold"@.len() == 4,
        "reckless"@.len() == 8,
        "cautious"@[0] != "reckless"@[0],
{
    reveal_strlit("cautious");
    reveal_strlit("bold");
    reveal_strlit("reckless");
}

/// A waiting duel keeps its numbers in the columns of its row and counts from now.
pub proof fn law_row_keeps_the_duel(key: PlayerKey, duel: DuelView, now: i64)
    ensures
        ({
            let row = row_of(key, duel, now);
            &&& row.key == key && row.boss_id == duel.boss_id && row.boundary == duel.boundary
            &&& row.mechanic_id == duel.mechanic_id && row.wager == duel.wager
            &&& row.player_hp == duel.player_hp && row.boss_hp == duel.boss_hp
            &&& row.player_damage == duel.player_damage && row.boss_damage == duel.boss_damage
            &&& row.critical_bonus == duel.critical_bonus && row.round_num == duel.round_num
            &&& row.echo_applied == duel.echo_applied && row.echo_killer_id == duel.echo_killer_id
            &&& row.created_at == now && row.last_interaction_at == now
            &&& duel.risk_tier == RiskTier::Cautious ==> row.risk_tier == "cautious"@
            &&& duel.risk_tier == RiskTier::Bold ==> row.risk_tier == "bold"@
            &&& duel.risk_tier == RiskTier::Reckless ==> row.risk_tier == "reckless"@
        }),
{
}

/// What a waiting duel is read from beside its columns.
pub proof fn law_status_by_name(
    row: DuelRowView,
    status: JsonView,
    rounds: Option<JsonView>,
    prompt: Option<JsonView>,
    fallback: PromptView,
    chance: JsonView,
    payout: JsonView,
)
    requires
        row_obstacle(row, true) is None,
    ensures
        ({
            let duel = duel_of(row, status, rounds, prompt, fallback, chance, payout);
            &&& duel.boss_id == row.boss_id && duel.boundary == row.boundary
            &&& duel.mechanic_id == row.mechanic_id && duel.wager == row.wager
            &&& duel.player_hp == row.player_hp && duel.boss_hp == row.boss_hp
            &&& duel.player_damage == row.player_damage && duel.boss_damage == row.boss_damage
            &&& duel.critical_bonus == row.critical_bonus && duel.round_num == row.round_num
            &&& duel.echo_applied == row.echo_applied
            &&& duel.echo_killer_id == row.echo_killer_id && duel.effects == effects_of(status)
            &&& status.int_at("attempts_this_fight"@) matches Some(count) ==> i32::MIN <= count
                <= i32::MAX ==> duel.attempts_this_fight == count
            &&& status.int_at("boss_hp_max"@) matches Some(most) ==> 1 <= most <= i32::MAX
                ==> duel.boss_hp_max == most
            &&& status.int_at("starting_boss_hp"@) matches Some(hp) ==> i32::MIN <= hp <= i32::MAX
                ==> duel.starting_boss_hp == hp
            &&& status.get("initial_win_chance"@) matches Some(JsonView::Int(value))
                ==> duel.initial_win_chance == JsonView::Int(value)
            &&& status.get("multiplier"@) matches Some(JsonView::Int(value))
                ==> duel.payout_multiplier == JsonView::Int(value)
            &&& status.get("initial_win_chance"@) is None ==> duel.initial_win_chance == chance
            &&& status.get("multiplier"@) is None ==> duel.payout_multiplier == payout
            &&& duel.forced_no_wager_phase <==> status.bool_at("forced_no_wager_phase"@) == Some(
                true,
            )
            &&& duel.gear_snapshot.armor_id == status.int_at("armor_snapshot_id"@)
            &&& status.get("gear_snapshot_ids"@) matches Some(JsonView::Array(items))
                ==> duel.gear_snapshot.gear_ids == ints_of(items)
            &&& prompt is None ==> duel.pending_prompt == fallback
        }),
{
}

} // verus!
