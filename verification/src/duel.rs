//! Fights that wait for an answer, kept in a row until it comes.




use crate::combat::{
    BlockedEffects, BossPreparationState, CombatEffects, Combatant, Conditions, EffectsView,
    GearEffects, MechanicStatusEffect, PetAssist, PetAssistView, PreparationView, RelicEffects,
    TrophyEffects,
};
use crate::json::{
    lemma_with_is_plain, lemma_withs_are_plain, object, optional_text, Json, JsonView,
};
use crate::progress::{narrow, narrowed};
use crate::text::{borrow_text, join2, own_text, same_text, str_view};
use vstd::prelude::*;

verus! {

/// How much a fighter dares.
#[derive(Clone, Copy, Debug, PartialEq, Eq, Structural)]
pub enum RiskTier {
    Cautious,
    Bold,
    Reckless,
}

/// The word that a risk is written as.
pub open spec fn word_of_risk(risk: RiskTier) -> Seq<char> {
    match risk {
        RiskTier::Cautious => "cautious"@,
        RiskTier::Bold => "bold"@,
        RiskTier::Reckless => "reckless"@,
    }
}

/// The risk that a word means.
pub open spec fn risk_of_word(word: Seq<char>) -> Option<RiskTier> {
    if word == "cautious"@ {
        Some(RiskTier::Cautious)
    } else if word == "bold"@ {
        Some(RiskTier::Bold)
    } else if word == "reckless"@ {
        Some(RiskTier::Reckless)
    } else {
        None
    }
}

/// Names a risk.
pub fn risk_name(risk: RiskTier) -> (name: &'static str)
    ensures
        name@ == word_of_risk(risk),
{
    match risk {
        RiskTier::Cautious => "cautious",
        RiskTier::Bold => "bold",
        RiskTier::Reckless => "reckless",
    }
}

/// The message about a word that means no risk.
pub open spec fn bad_risk(word: Seq<char>) -> Seq<char> {
    "paused duel has invalid risk tier "@ + word
}

/// Reads a risk.
pub fn parse_risk(word: &str) -> (risk: Result<RiskTier, String>)
    ensures
        match risk {
            Ok(risk) => risk_of_word(word@) == Some(risk),
            Err(message) => risk_of_word(word@) is None && message@ == bad_risk(word@),
        },
{
    if same_text(word, "cautious") {
        Ok(RiskTier::Cautious)
    } else if same_text(word, "bold") {
        Ok(RiskTier::Bold)
    } else if same_text(word, "reckless") {
        Ok(RiskTier::Reckless)
    } else {
        Err(join2("paused duel has invalid risk tier ", word))
    }
}

/// A risk reads back from its name.
pub proof fn law_risk_reads_back(risk: RiskTier)
    ensures
        risk_of_word(word_of_risk(risk)) == Some(risk),
{
    reveal_strlit("cautious");
    reveal_strlit("bold");
    reveal_strlit("reckless");
    assert("cautious"@.len() == 8);
    assert("bold"@.len() == 4);
    assert("reckless"@.len() == 8);
    assert("cautious"@[0] != "reckless"@[0]);
}

/// How one side of a fight is written.
pub open spec fn combatant_tree(combatant: Option<Combatant>) -> JsonView {
    match combatant {
        Some(Combatant::Player) => JsonView::Text("player"@),
        Some(Combatant::Boss) => JsonView::Text("boss"@),
        None => JsonView::Null,
    }
}

/// The side of a fight that a word means.
pub open spec fn combatant_of(word: Option<Seq<char>>) -> Option<Combatant> {
    match word {
        Some(word) => if word == "player"@ {
            Some(Combatant::Player)
        } else if word == "boss"@ {
            Some(Combatant::Boss)
        } else {
            None
        },
        None => None,
    }
}

fn write_combatant(combatant: Option<Combatant>) -> (tree: Json)
    ensures
        tree@ == combatant_tree(combatant),
{
    match combatant {
        Some(Combatant::Player) => Json::from_text("player"),
        Some(Combatant::Boss) => Json::from_text("boss"),
        None => Json::Null,
    }
}

fn read_combatant(word: Option<&str>) -> (combatant: Option<Combatant>)
    ensures
        combatant == combatant_of(str_view(word)),
{
    match word {
        Some(word) => {
            if same_text(word, "player") {
                Some(Combatant::Player)
            } else if same_text(word, "boss") {
                Some(Combatant::Boss)
            } else {
                None
            }
        },
        None => None,
    }
}

/// How a lasting effect is written.
pub open spec fn effect_tree(effect: Option<MechanicStatusEffect>) -> JsonView {
    match effect {
        Some(MechanicStatusEffect::Burn) => JsonView::Text("burn"@),
        Some(MechanicStatusEffect::Silence) => JsonView::Text("silence"@),
        Some(MechanicStatusEffect::Bleed) => JsonView::Text("bleed"@),
        Some(MechanicStatusEffect::Frostbite) => JsonView::Text("frostbite"@),
        Some(MechanicStatusEffect::Reveal) => JsonView::Text("reveal"@),
        None => JsonView::Null,
    }
}

/// The lasting effect that a word means.
pub open spec fn effect_of(word: Option<Seq<char>>) -> Option<MechanicStatusEffect> {
    match word {
        Some(word) => if word == "burn"@ {
            Some(MechanicStatusEffect::Burn)
        } else if word == "silence"@ {
            Some(MechanicStatusEffect::Silence)
        } else if word == "bleed"@ {
            Some(MechanicStatusEffect::Bleed)
        } else if word == "frostbite"@ {
            Some(MechanicStatusEffect::Frostbite)
        } else if word == "reveal"@ {
            Some(MechanicStatusEffect::Reveal)
        } else {
            None
        },
        None => None,
    }
}

fn write_effect(effect: Option<MechanicStatusEffect>) -> (tree: Json)
    ensures
        tree@ == effect_tree(effect),
{
    match effect {
        Some(MechanicStatusEffect::Burn) => Json::from_text("burn"),
        Some(MechanicStatusEffect::Silence) => Json::from_text("silence"),
        Some(MechanicStatusEffect::Bleed) => Json::from_text("bleed"),
        Some(MechanicStatusEffect::Frostbite) => Json::from_text("frostbite"),
        Some(MechanicStatusEffect::Reveal) => Json::from_text("reveal"),
        None => Json::Null,
    }
}

fn read_effect(word: Option<&str>) -> (effect: Option<MechanicStatusEffect>)
    ensures
        effect == effect_of(str_view(word)),
{
    match word {
        Some(word) => {
            if same_text(word, "burn") {
                Some(MechanicStatusEffect::Burn)
            } else if same_text(word, "silence") {
                Some(MechanicStatusEffect::Silence)
            } else if same_text(word, "bleed") {
                Some(MechanicStatusEffect::Bleed)
            } else if same_text(word, "frostbite") {
                Some(MechanicStatusEffect::Frostbite)
            } else if same_text(word, "reveal") {
                Some(MechanicStatusEffect::Reveal)
            } else {
                None
            }
        },
        None => None,
    }
}

/// A side of a fight and a lasting effect read back from how they are written.
pub proof fn law_words_read_back(
    combatant: Option<Combatant>,
    effect: Option<MechanicStatusEffect>,
)
    ensures
        combatant_of(combatant_tree(combatant).text_value()) == combatant,
        effect_of(effect_tree(effect).text_value()) == effect,
{
    reveal_strlit("player");
    reveal_strlit("boss");
    reveal_strlit("burn");
    reveal_strlit("silence");
    reveal_strlit("bleed");
    reveal_strlit("frostbite");
    reveal_strlit("reveal");
    assert("player"@.len() == 6);
    assert("boss"@.len() == 4);
    assert("burn"@.len() == 4);
    assert("silence"@.len() == 7);
    assert("bleed"@.len() == 5);
    assert("frostbite"@.len() == 9);
    assert("reveal"@.len() == 6);
}

/// A small count read from a tree, zero where it is none.
pub open spec fn small(value: Option<u64>) -> u8 {
    match value {
        Some(value) => if value <= u8::MAX {
            value as u8
        } else {
            0
        },
        None => 0,
    }
}

/// A small count read from a tree, if it is one.
pub open spec fn small_option(value: Option<u64>) -> Option<u8> {
    match value {
        Some(value) => if value <= u8::MAX {
            Some(value as u8)
        } else {
            None
        },
        None => None,
    }
}

fn read_small(value: Option<u64>) -> (count: u8)
    ensures
        count == small(value),
{
    match value {
        Some(value) => {
            if value <= 255 {
                value as u8
            } else {
                0
            }
        },
        None => 0,
    }
}

fn read_small_option(value: Option<u64>) -> (count: Option<u8>)
    ensures
        count == small_option(value),
{
    match value {
        Some(value) => {
            if value <= 255 {
                Some(value as u8)
            } else {
                None
            }
        },
        None => None,
    }
}

/// A flag read from a tree, false where it is none.
pub open spec fn flag(value: Option<bool>) -> bool {
    value == Some(true)
}

pub(crate) fn read_flag(value: Option<bool>) -> (set: bool)
    ensures
        set == flag(value),
{
    match value {
        Some(set) => set,
        None => false,
    }
}

/// A small count to write, if there is one.
pub open spec fn small_tree(value: Option<u8>) -> JsonView {
    match value {
        Some(value) => JsonView::Int(value as i64),
        None => JsonView::Null,
    }
}

/// A number to write, if there is one.
pub open spec fn narrow_tree(value: Option<i32>) -> JsonView {
    match value {
        Some(value) => JsonView::Int(value as i64),
        None => JsonView::Null,
    }
}

fn write_small(value: Option<u8>) -> (tree: Json)
    ensures
        tree@ == small_tree(value),
{
    match value {
        Some(value) => Json::from_i64(value as i64),
        None => Json::Null,
    }
}

fn write_narrow(value: Option<i32>) -> (tree: Json)
    ensures
        tree@ == narrow_tree(value),
{
    match value {
        Some(value) => Json::from_i64(value as i64),
        None => Json::Null,
    }
}

/// A tree with what a boss mechanic did written to it.
pub open spec fn conditions_tree(tree: JsonView, conditions: Conditions) -> JsonView {
    tree
        .with("skip_next_round_for"@, combatant_tree(conditions.skip_next_round_for))
        .with("burn_rounds_remaining"@, JsonView::Int(conditions.burn_rounds_remaining as i64))
        .with("bleed_rounds_remaining"@, JsonView::Int(conditions.bleed_rounds_remaining as i64))
        .with("silenced_next_round"@, JsonView::Bool(conditions.silenced_next_round))
        .with("frostbite_next_round"@, JsonView::Bool(conditions.frostbite_next_round))
        .with("boss_exposed_next_round"@, JsonView::Bool(conditions.boss_exposed_next_round))
}

/// A tree read as what a boss mechanic did.
pub open spec fn conditions_of(tree: JsonView) -> Conditions {
    Conditions {
        skip_next_round_for: combatant_of(tree.text_at("skip_next_round_for"@)),
        burn_rounds_remaining: small(tree.uint_at("burn_rounds_remaining"@)),
        bleed_rounds_remaining: small(tree.uint_at("bleed_rounds_remaining"@)),
        silenced_next_round: flag(tree.bool_at("silenced_next_round"@)),
        frostbite_next_round: flag(tree.bool_at("frostbite_next_round"@)),
        boss_exposed_next_round: flag(tree.bool_at("boss_exposed_next_round"@)),
    }
}

/// Whether a field belongs to what a boss mechanic did.
pub open spec fn conditions_field(key: Seq<char>) -> bool {
    ||| key == "skip_next_round_for"@
    ||| key == "burn_rounds_remaining"@
    ||| key == "bleed_rounds_remaining"@
    ||| key == "silenced_next_round"@
    ||| key == "frostbite_next_round"@
    ||| key == "boss_exposed_next_round"@
}

fn write_conditions(tree: &mut Json, conditions: Conditions)
    ensures
        final(tree)@ == conditions_tree(old(tree)@, conditions),
{
    tree.set("skip_next_round_for", write_combatant(conditions.skip_next_round_for));
    tree.set("burn_rounds_remaining", Json::from_i64(conditions.burn_rounds_remaining as i64));
    tree.set("bleed_rounds_remaining", Json::from_i64(conditions.bleed_rounds_remaining as i64));
    tree.set("silenced_next_round", Json::Bool(conditions.silenced_next_round));
    tree.set("frostbite_next_round", Json::Bool(conditions.frostbite_next_round));
    tree.set("boss_exposed_next_round", Json::Bool(conditions.boss_exposed_next_round));
}

fn read_conditions(tree: &Json) -> (conditions: Conditions)
    ensures
        conditions == conditions_of(tree@),
{
    Conditions {
        skip_next_round_for: read_combatant(tree.text_at("skip_next_round_for")),
        burn_rounds_remaining: read_small(tree.uint_at("burn_rounds_remaining")),
        bleed_rounds_remaining: read_small(tree.uint_at("bleed_rounds_remaining")),
        silenced_next_round: read_flag(tree.bool_at("silenced_next_round")),
        frostbite_next_round: read_flag(tree.bool_at("frostbite_next_round")),
        boss_exposed_next_round: read_flag(tree.bool_at("boss_exposed_next_round")),
    }
}

/// A tree with what trophies do written to it.
pub open spec fn trophies_tree(tree: JsonView, trophies: TrophyEffects) -> JsonView {
    tree
        .with("trophy_start_hp"@, narrow_tree(trophies.start_hp))
        .with("trophy_venom"@, JsonView::Int(trophies.venom_rounds as i64))
        .with("trophy_lifesteal"@, JsonView::Bool(trophies.lifesteal))
        .with("trophy_regrowth"@, JsonView::Bool(trophies.regrowth))
        .with("trophy_forewarned"@, JsonView::Bool(trophies.forewarned))
        .with("trophy_laststand"@, JsonView::Bool(trophies.laststand))
}

/// A tree read as what trophies do.
pub open spec fn trophies_of(tree: JsonView) -> TrophyEffects {
    TrophyEffects {
        start_hp: narrowed(tree.int_at("trophy_start_hp"@)),
        venom_rounds: small(tree.uint_at("trophy_venom"@)),
        lifesteal: flag(tree.bool_at("trophy_lifesteal"@)),
        regrowth: flag(tree.bool_at("trophy_regrowth"@)),
        forewarned: flag(tree.bool_at("trophy_forewarned"@)),
        laststand: flag(tree.bool_at("trophy_laststand"@)),
    }
}

/// Whether a field belongs to what trophies do.
pub open spec fn trophies_field(key: Seq<char>) -> bool {
    ||| key == "trophy_start_hp"@
    ||| key == "trophy_venom"@
    ||| key == "trophy_lifesteal"@
    ||| key == "trophy_regrowth"@
    ||| key == "trophy_forewarned"@
    ||| key == "trophy_laststand"@
}

fn write_trophies(tree: &mut Json, trophies: TrophyEffects)
    ensures
        final(tree)@ == trophies_tree(old(tree)@, trophies),
{
    tree.set("trophy_start_hp", write_narrow(trophies.start_hp));
    tree.set("trophy_venom", Json::from_i64(trophies.venom_rounds as i64));
    tree.set("trophy_lifesteal", Json::Bool(trophies.lifesteal));
    tree.set("trophy_regrowth", Json::Bool(trophies.regrowth));
    tree.set("trophy_forewarned", Json::Bool(trophies.forewarned));
    tree.set("trophy_laststand", Json::Bool(trophies.laststand));
}

fn read_trophies(tree: &Json) -> (trophies: TrophyEffects)
    ensures
        trophies == trophies_of(tree@),
{
    TrophyEffects {
        start_hp: narrow(tree.int_at("trophy_start_hp")),
        venom_rounds: read_small(tree.uint_at("trophy_venom")),
        lifesteal: read_flag(tree.bool_at("trophy_lifesteal")),
        regrowth: read_flag(tree.bool_at("trophy_regrowth")),
        forewarned: read_flag(tree.bool_at("trophy_forewarned")),
        laststand: read_flag(tree.bool_at("trophy_laststand")),
    }
}

/// A tree with what relics do written to it.
pub open spec fn relics_tree(tree: JsonView, relics: RelicEffects) -> JsonView {
    tree
        .with("relic_berserk_rage"@, small_tree(relics.berserk_rage))
        .with("relic_double_hit"@, JsonView::Bool(relics.double_hit))
        .with("relic_deaths_door"@, JsonView::Bool(relics.deaths_door))
        .with("relic_paper_crane"@, JsonView::Bool(relics.paper_crane))
        .with("relic_bottled_quake"@, JsonView::Bool(relics.bottled_quake))
}

/// A tree read as what relics do.
pub open spec fn relics_of(tree: JsonView) -> RelicEffects {
    RelicEffects {
        berserk_rage: small_option(tree.uint_at("relic_berserk_rage"@)),
        double_hit: flag(tree.bool_at("relic_double_hit"@)),
        deaths_door: flag(tree.bool_at("relic_deaths_door"@)),
        paper_crane: flag(tree.bool_at("relic_paper_crane"@)),
        bottled_quake: flag(tree.bool_at("relic_bottled_quake"@)),
    }
}

/// Whether a field belongs to what relics do.
pub open spec fn relics_field(key: Seq<char>) -> bool {
    ||| key == "relic_berserk_rage"@
    ||| key == "relic_double_hit"@
    ||| key == "relic_deaths_door"@
    ||| key == "relic_paper_crane"@
    ||| key == "relic_bottled_quake"@
}

fn write_relics(tree: &mut Json, relics: RelicEffects)
    ensures
        final(tree)@ == relics_tree(old(tree)@, relics),
{
    tree.set("relic_berserk_rage", write_small(relics.berserk_rage));
    tree.set("relic_double_hit", Json::Bool(relics.double_hit));
    tree.set("relic_deaths_door", Json::Bool(relics.deaths_door));
    tree.set("relic_paper_crane", Json::Bool(relics.paper_crane));
    tree.set("relic_bottled_quake", Json::Bool(relics.bottled_quake));
}

fn read_relics(tree: &Json) -> (relics: RelicEffects)
    ensures
        relics == relics_of(tree@),
{
    RelicEffects {
        berserk_rage: read_small_option(tree.uint_at("relic_berserk_rage")),
        double_hit: read_flag(tree.bool_at("relic_double_hit")),
        deaths_door: read_flag(tree.bool_at("relic_deaths_door")),
        paper_crane: read_flag(tree.bool_at("relic_paper_crane")),
        bottled_quake: read_flag(tree.bool_at("relic_bottled_quake")),
    }
}

/// A tree with what gear does written to it.
pub open spec fn gear_tree(tree: JsonView, gear: GearEffects) -> JsonView {
    tree
        .with("gear_reflect_first_hit"@, JsonView::Bool(gear.reflect_first_hit))
        .with("gear_block_first_status"@, JsonView::Bool(gear.block_first_status))
        .with("gear_springheel_counter"@, JsonView::Bool(gear.springheel_counter))
        .with("gear_block_first_skip"@, JsonView::Bool(gear.block_first_skip))
        .with("gear_heal_first_crit"@, JsonView::Bool(gear.heal_first_crit))
        .with("gear_reroll_first_miss"@, JsonView::Bool(gear.reroll_first_miss))
}

/// A tree read as what gear does.
pub open spec fn gear_of(tree: JsonView) -> GearEffects {
    GearEffects {
        reflect_first_hit: flag(tree.bool_at("gear_reflect_first_hit"@)),
        block_first_status: flag(tree.bool_at("gear_block_first_status"@)),
        springheel_counter: flag(tree.bool_at("gear_springheel_counter"@)),
        block_first_skip: flag(tree.bool_at("gear_block_first_skip"@)),
        heal_first_crit: flag(tree.bool_at("gear_heal_first_crit"@)),
        reroll_first_miss: flag(tree.bool_at("gear_reroll_first_miss"@)),
    }
}

/// Whether a field belongs to what gear does.
pub open spec fn gear_field(key: Seq<char>) -> bool {
    ||| key == "gear_reflect_first_hit"@
    ||| key == "gear_block_first_status"@
    ||| key == "gear_springheel_counter"@
    ||| key == "gear_block_first_skip"@
    ||| key == "gear_heal_first_crit"@
    ||| key == "gear_reroll_first_miss"@
}

fn write_gear(tree: &mut Json, gear: GearEffects)
    ensures
        final(tree)@ == gear_tree(old(tree)@, gear),
{
    tree.set("gear_reflect_first_hit", Json::Bool(gear.reflect_first_hit));
    tree.set("gear_block_first_status", Json::Bool(gear.block_first_status));
    tree.set("gear_springheel_counter", Json::Bool(gear.springheel_counter));
    tree.set("gear_block_first_skip", Json::Bool(gear.block_first_skip));
    tree.set("gear_heal_first_crit", Json::Bool(gear.heal_first_crit));
    tree.set("gear_reroll_first_miss", Json::Bool(gear.reroll_first_miss));
}

fn read_gear(tree: &Json) -> (gear: GearEffects)
    ensures
        gear == gear_of(tree@),
{
    GearEffects {
        reflect_first_hit: read_flag(tree.bool_at("gear_reflect_first_hit")),
        block_first_status: read_flag(tree.bool_at("gear_block_first_status")),
        springheel_counter: read_flag(tree.bool_at("gear_springheel_counter")),
        block_first_skip: read_flag(tree.bool_at("gear_block_first_skip")),
        heal_first_crit: read_flag(tree.bool_at("gear_heal_first_crit")),
        reroll_first_miss: read_flag(tree.bool_at("gear_reroll_first_miss")),
    }
}

/// A tree with what was kept off written to it.
pub open spec fn blocked_tree(tree: JsonView, blocked: BlockedEffects) -> JsonView {
    tree
        .with("paper_crane_blocked"@, effect_tree(blocked.paper_crane))
        .with("nullweave_blocked"@, effect_tree(blocked.nullweave))
        .with("anchor_boots_blocked"@, JsonView::Bool(blocked.anchor_boots))
}

/// A tree read as what was kept off.
pub open spec fn blocked_of(tree: JsonView) -> BlockedEffects {
    BlockedEffects {
        paper_crane: effect_of(tree.text_at("paper_crane_blocked"@)),
        nullweave: effect_of(tree.text_at("nullweave_blocked"@)),
        anchor_boots: flag(tree.bool_at("anchor_boots_blocked"@)),
    }
}

/// Whether a field belongs to what was kept off.
pub open spec fn blocked_field(key: Seq<char>) -> bool {
    ||| key == "paper_crane_blocked"@
    ||| key == "nullweave_blocked"@
    ||| key == "anchor_boots_blocked"@
}

fn write_blocked(tree: &mut Json, blocked: BlockedEffects)
    ensures
        final(tree)@ == blocked_tree(old(tree)@, blocked),
{
    tree.set("paper_crane_blocked", write_effect(blocked.paper_crane));
    tree.set("nullweave_blocked", write_effect(blocked.nullweave));
    tree.set("anchor_boots_blocked", Json::Bool(blocked.anchor_boots));
}

fn read_blocked(tree: &Json) -> (blocked: BlockedEffects)
    ensures
        blocked == blocked_of(tree@),
{
    BlockedEffects {
        paper_crane: read_effect(tree.text_at("paper_crane_blocked")),
        nullweave: read_effect(tree.text_at("nullweave_blocked")),
        anchor_boots: read_flag(tree.bool_at("anchor_boots_blocked")),
    }
}

/// How a helping pet is written.
pub open spec fn assist_tree(assist: Option<PetAssistView>) -> JsonView {
    match assist {
        Some(assist) => object().with("pet_name"@, JsonView::Text(assist.pet_name)).with(
            "species_id"@,
            JsonView::Text(assist.species_id),
        ).with("species_name"@, JsonView::Text(assist.species_name)).with(
            "bonus_pct"@,
            JsonView::Int(assist.bonus_percent as i64),
        ),
        None => JsonView::Null,
    }
}

/// The helping pet that a tree holds.
pub open spec fn assist_of(tree: Option<JsonView>) -> Option<PetAssistView> {
    match tree {
        Some(tree) => {
            let bonus = narrowed(
                match tree.get("bonus_pct"@) {
                    Some(bonus) => bonus.int_value(),
                    None => tree.int_at("bonus_percent"@),
                },
            );
            if tree.text_at("pet_name"@) is Some && tree.text_at("species_id"@) is Some
                && tree.text_at("species_name"@) is Some && bonus is Some {
                Some(
                    PetAssistView {
                        pet_name: tree.text_at("pet_name"@)->0,
                        species_id: tree.text_at("species_id"@)->0,
                        species_name: tree.text_at("species_name"@)->0,
                        bonus_percent: bonus->0,
                    },
                )
            } else {
                None
            }
        },
        None => None,
    }
}

/// The view of an optional helping pet.
pub open spec fn assist_view(assist: Option<PetAssist>) -> Option<PetAssistView> {
    match assist {
        Some(assist) => Some(assist@),
        None => None,
    }
}

fn write_assist(assist: &Option<PetAssist>) -> (tree: Json)
    ensures
        tree@ == assist_tree(assist_view(*assist)),
{
    match assist {
        Some(assist) => {
            let mut tree = Json::empty_object();
            tree.set("pet_name", Json::from_text(assist.pet_name.as_str()));
            tree.set("species_id", Json::from_text(assist.species_id.as_str()));
            tree.set("species_name", Json::from_text(assist.species_name.as_str()));
            tree.set("bonus_pct", Json::from_i64(assist.bonus_percent as i64));
            tree
        },
        None => Json::Null,
    }
}

/// Reads the helping pet that a tree holds.
pub fn parse_pet_assist(tree: Option<&Json>) -> (assist: Option<PetAssist>)
    ensures
        assist_view(assist) == assist_of(
            match tree {
                Some(tree) => Some(tree@),
                None => None,
            },
        ),
{
    let tree = match tree {
        Some(tree) => tree,
        None => {
            return None;
        },
    };
    let bonus = narrow(
        match tree.get("bonus_pct") {
            Some(bonus) => bonus.as_i64(),
            None => tree.int_at("bonus_percent"),
        },
    );
    match (tree.text_at("pet_name"), tree.text_at("species_id"), tree.text_at("species_name"), bonus) {
        (Some(pet_name), Some(species_id), Some(species_name), Some(bonus_percent)) => Some(
            PetAssist {
                pet_name: pet_name.to_owned(),
                species_id: species_id.to_owned(),
                species_name: species_name.to_owned(),
                bonus_percent,
            },
        ),
        _ => None,
    }
}

/// How a prepared item is written.
pub open spec fn carried_prep_tree(prep: Option<PreparationView>) -> JsonView {
    match prep {
        Some(prep) => object().with("item_type"@, JsonView::Text(prep.item_type)).with(
            "used"@,
            JsonView::Bool(prep.used),
        ),
        None => JsonView::Null,
    }
}

/// The prepared item that a tree holds.
pub open spec fn carried_prep_of(tree: Option<JsonView>) -> Option<PreparationView> {
    match tree {
        Some(tree) => match tree.text_at("item_type"@) {
            Some(item_type) => Some(
                PreparationView { item_type, used: flag(tree.bool_at("used"@)) },
            ),
            None => None,
        },
        None => None,
    }
}

/// The view of an optional prepared item.
pub open spec fn carried_prep_view(prep: Option<BossPreparationState>) -> Option<PreparationView> {
    match prep {
        Some(prep) => Some(prep@),
        None => None,
    }
}

fn write_carried_prep(prep: &Option<BossPreparationState>) -> (tree: Json)
    ensures
        tree@ == carried_prep_tree(carried_prep_view(*prep)),
{
    match prep {
        Some(prep) => {
            let mut tree = Json::empty_object();
            tree.set("item_type", Json::from_text(prep.item_type.as_str()));
            tree.set("used", Json::Bool(prep.used));
            tree
        },
        None => Json::Null,
    }
}

/// Reads the prepared item that a tree holds.
pub fn parse_boss_preparation(tree: Option<&Json>) -> (prep: Option<BossPreparationState>)
    ensures
        carried_prep_view(prep) == carried_prep_of(
            match tree {
                Some(tree) => Some(tree@),
                None => None,
            },
        ),
{
    match tree {
        Some(tree) => match tree.text_at("item_type") {
            Some(item_type) => Some(
                BossPreparationState {
                    item_type: item_type.to_owned(),
                    used: read_flag(tree.bool_at("used")),
                },
            ),
            None => None,
        },
        None => None,
    }
}

/// A helping pet and a prepared item read back from how they are written.
pub proof fn law_carried_reads_back(
    assist: Option<PetAssistView>,
    prep: Option<PreparationView>,
)
    ensures
        assist_of(Some(assist_tree(assist))) == assist,
        carried_prep_of(Some(carried_prep_tree(prep))) == prep,
{
    lemma_carried_words();
}

/// The fields of a pet and of a prepared item differ.
proof fn lemma_carried_words()
    ensures
        "pet_name"@.len() == 8,
        "species_id"@.len() == 10,
        "species_name"@.len() == 12,
        "bonus_pct"@.len() == 9,
        "bonus_percent"@.len() == 13,
        "item_type"@.len() == 9,
        "used"@.len() == 4,
        "bonus_pct"@[0] != "item_type"@[0],
{
    reveal_strlit("pet_name");
    reveal_strlit("species_id");
    reveal_strlit("species_name");
    reveal_strlit("bonus_pct");
    reveal_strlit("bonus_percent");
    reveal_strlit("item_type");
    reveal_strlit("used");
}

/// A tree with all effects of a fight written to it.
pub open spec fn effects_tree(tree: JsonView, effects: EffectsView) -> JsonView {
    let tree = conditions_tree(tree, effects.conditions);
    let tree = tree.with("pet_boss_assist"@, assist_tree(effects.pet_assist)).with(
        "shifting_idol_bonus"@,
        optional_text(effects.shifting_idol_bonus),
    ).with("boss_prep"@, carried_prep_tree(effects.boss_preparation));
    let tree = trophies_tree(tree, effects.trophies);
    let tree = relics_tree(tree, effects.relics);
    let tree = gear_tree(tree, effects.gear);
    blocked_tree(tree, effects.blocked)
}

/// A tree read as the effects of a fight.
pub open spec fn effects_of(tree: JsonView) -> EffectsView {
    EffectsView {
        conditions: conditions_of(tree),
        pet_assist: assist_of(tree.get("pet_boss_assist"@)),
        shifting_idol_bonus: tree.text_at("shifting_idol_bonus"@),
        boss_preparation: carried_prep_of(tree.get("boss_prep"@)),
        trophies: trophies_of(tree),
        relics: relics_of(tree),
        gear: gear_of(tree),
        blocked: blocked_of(tree),
    }
}

pub(crate) fn write_effects(tree: &mut Json, effects: &CombatEffects)
    ensures
        final(tree)@ == effects_tree(old(tree)@, effects@),
{
    write_conditions(tree, effects.conditions);
    tree.set("pet_boss_assist", write_assist(&effects.pet_assist));
    tree.set(
        "shifting_idol_bonus",
        Json::from_optional_text(borrow_text(&effects.shifting_idol_bonus)),
    );
    tree.set("boss_prep", write_carried_prep(&effects.boss_preparation));
    write_trophies(tree, effects.trophies);
    write_relics(tree, effects.relics);
    write_gear(tree, effects.gear);
    write_blocked(tree, effects.blocked);
}

pub(crate) fn read_effects(tree: &Json) -> (effects: CombatEffects)
    ensures
        effects@ == effects_of(tree@),
{
    CombatEffects {
        conditions: read_conditions(tree),
        pet_assist: parse_pet_assist(tree.get("pet_boss_assist")),
        shifting_idol_bonus: own_text(tree.text_at("shifting_idol_bonus")),
        boss_preparation: parse_boss_preparation(tree.get("boss_prep")),
        trophies: read_trophies(tree),
        relics: read_relics(tree),
        gear: read_gear(tree),
        blocked: read_blocked(tree),
    }
}

/// The fields of the effects differ.
proof fn lemma_effect_words()
    ensures
        "skip_next_round_for"@.len() == 19,
        "burn_rounds_remaining"@.len() == 21,
        "bleed_rounds_remaining"@.len() == 22,
        "silenced_next_round"@.len() == 19,
        "frostbite_next_round"@.len() == 20,
        "boss_exposed_next_round"@.len() == 23,
        "pet_boss_assist"@.len() == 15,
        "shifting_idol_bonus"@.len() == 19,
        "boss_prep"@.len() == 9,
        "trophy_start_hp"@.len() == 15,
        "trophy_venom"@.len() == 12,
        "trophy_lifesteal"@.len() == 16,
        "trophy_regrowth"@.len() == 15,
        "trophy_forewarned"@.len() == 17,
        "trophy_laststand"@.len() == 16,
        "relic_berserk_rage"@.len() == 18,
        "relic_double_hit"@.len() == 16,
        "relic_deaths_door"@.len() == 17,
        "relic_paper_crane"@.len() == 17,
        "relic_bottled_quake"@.len() == 19,
        "gear_reflect_first_hit"@.len() == 22,
        "gear_block_first_status"@.len() == 23,
        "gear_springheel_counter"@.len() == 23,
        "gear_block_first_skip"@.len() == 21,
        "gear_heal_first_crit"@.len() == 20,
        "gear_reroll_first_miss"@.len() == 22,
        "paper_crane_blocked"@.len() == 19,
        "nullweave_blocked"@.len() == 17,
        "anchor_boots_blocked"@.len() == 20,
        "skip_next_round_for"@[1] != "silenced_next_round"@[1],
        "skip_next_round_for"@[1] != "shifting_idol_bonus"@[1],
        "skip_next_round_for"@[0] != "relic_bottled_quake"@[0],
        "skip_next_round_for"@[0] != "paper_crane_blocked"@[0],
        "burn_rounds_remaining"@[0] != "gear_block_first_skip"@[0],
        "bleed_rounds_remaining"@[0] != "gear_reflect_first_hit"@[0],
        "bleed_rounds_remaining"@[0] != "gear_reroll_first_miss"@[0],
        "silenced_next_round"@[1] != "shifting_idol_bonus"@[1],
        "silenced_next_round"@[0] != "relic_bottled_quake"@[0],
        "silenced_next_round"@[0] != "paper_crane_blocked"@[0],
        "frostbite_next_round"@[0] != "gear_heal_first_crit"@[0],
        "frostbite_next_round"@[0] != "anchor_boots_blocked"@[0],
        "boss_exposed_next_round"@[0] != "gear_block_first_status"@[0],
        "boss_exposed_next_round"@[0] != "gear_springheel_counter"@[0],
        "pet_boss_assist"@[0] != "trophy_start_hp"@[0],
        "pet_boss_assist"@[0] != "trophy_regrowth"@[0],
        "shifting_idol_bonus"@[0] != "relic_bottled_quake"@[0],
        "shifting_idol_bonus"@[0] != "paper_crane_blocked"@[0],
        "trophy_start_hp"@[7] != "trophy_regrowth"@[7],
        "trophy_lifesteal"@[8] != "trophy_laststand"@[8],
        "trophy_lifesteal"@[0] != "relic_double_hit"@[0],
        "trophy_forewarned"@[0] != "relic_deaths_door"@[0],
        "trophy_forewarned"@[0] != "relic_paper_crane"@[0],
        "trophy_forewarned"@[0] != "nullweave_blocked"@[0],
        "trophy_laststand"@[0] != "relic_double_hit"@[0],
        "relic_deaths_door"@[6] != "relic_paper_crane"@[6],
        "relic_deaths_door"@[0] != "nullweave_blocked"@[0],
        "relic_paper_crane"@[0] != "nullweave_blocked"@[0],
        "relic_bottled_quake"@[0] != "paper_crane_blocked"@[0],
        "gear_reflect_first_hit"@[7] != "gear_reroll_first_miss"@[7],
        "gear_block_first_status"@[5] != "gear_springheel_counter"@[5],
        "gear_heal_first_crit"@[0] != "anchor_boots_blocked"@[0],
{
    reveal_strlit("skip_next_round_for");
    reveal_strlit("burn_rounds_remaining");
    reveal_strlit("bleed_rounds_remaining");
    reveal_strlit("silenced_next_round");
    reveal_strlit("frostbite_next_round");
    reveal_strlit("boss_exposed_next_round");
    reveal_strlit("pet_boss_assist");
    reveal_strlit("shifting_idol_bonus");
    reveal_strlit("boss_prep");
    reveal_strlit("trophy_start_hp");
    reveal_strlit("trophy_venom");
    reveal_strlit("trophy_lifesteal");
    reveal_strlit("trophy_regrowth");
    reveal_strlit("trophy_forewarned");
    reveal_strlit("trophy_laststand");
    reveal_strlit("relic_berserk_rage");
    reveal_strlit("relic_double_hit");
    reveal_strlit("relic_deaths_door");
    reveal_strlit("relic_paper_crane");
    reveal_strlit("relic_bottled_quake");
    reveal_strlit("gear_reflect_first_hit");
    reveal_strlit("gear_block_first_status");
    reveal_strlit("gear_springheel_counter");
    reveal_strlit("gear_block_first_skip");
    reveal_strlit("gear_heal_first_crit");
    reveal_strlit("gear_reroll_first_miss");
    reveal_strlit("paper_crane_blocked");
    reveal_strlit("nullweave_blocked");
    reveal_strlit("anchor_boots_blocked");
}

proof fn lemma_conditions_read_back(tree: JsonView, conditions: Conditions)
    requires
        tree is Object,
    ensures
        conditions_of(conditions_tree(tree, conditions)) == conditions,
        conditions_tree(tree, conditions) is Object,
        forall|key: Seq<char>|
            !conditions_field(key) ==> #[trigger] conditions_tree(tree, conditions).get(key) == tree.get(key),
{
    lemma_effect_words();
    law_words_read_back(conditions.skip_next_round_for, None);
}

proof fn lemma_trophies_read_back(tree: JsonView, trophies: TrophyEffects)
    requires
        tree is Object,
    ensures
        trophies_of(trophies_tree(tree, trophies)) == trophies,
        trophies_tree(tree, trophies) is Object,
        forall|key: Seq<char>|
            !trophies_field(key) ==> #[trigger] trophies_tree(tree, trophies).get(key) == tree.get(key),
{
    lemma_effect_words();
}

proof fn lemma_relics_read_back(tree: JsonView, relics: RelicEffects)
    requires
        tree is Object,
    ensures
        relics_of(relics_tree(tree, relics)) == relics,
        relics_tree(tree, relics) is Object,
        forall|key: Seq<char>|
            !relics_field(key) ==> #[trigger] relics_tree(tree, relics).get(key) == tree.get(key),
{
    lemma_effect_words();
}

proof fn lemma_gear_read_back(tree: JsonView, gear: GearEffects)
    requires
        tree is Object,
    ensures
        gear_of(gear_tree(tree, gear)) == gear,
        gear_tree(tree, gear) is Object,
        forall|key: Seq<char>|
            !gear_field(key) ==> #[trigger] gear_tree(tree, gear).get(key) == tree.get(key),
{
    lemma_effect_words();
}

proof fn lemma_blocked_read_back(tree: JsonView, blocked: BlockedEffects)
    requires
        tree is Object,
    ensures
        blocked_of(blocked_tree(tree, blocked)) == blocked,
        blocked_tree(tree, blocked) is Object,
        forall|key: Seq<char>|
            !blocked_field(key) ==> #[trigger] blocked_tree(tree, blocked).get(key) == tree.get(key),
{
    lemma_effect_words();
    law_words_read_back(None, blocked.paper_crane);
    law_words_read_back(None, blocked.nullweave);
}

proof fn lemma_conditions_agree(a: JsonView, b: JsonView)
    requires
        forall|key: Seq<char>| conditions_field(key) ==> #[trigger] a.get(key) == b.get(key),
    ensures
        conditions_of(a) == conditions_of(b),
{
    assert(a.get("skip_next_round_for"@) == b.get("skip_next_round_for"@));
    assert(a.get("burn_rounds_remaining"@) == b.get("burn_rounds_remaining"@));
    assert(a.get("bleed_rounds_remaining"@) == b.get("bleed_rounds_remaining"@));
    assert(a.get("silenced_next_round"@) == b.get("silenced_next_round"@));
    assert(a.get("frostbite_next_round"@) == b.get("frostbite_next_round"@));
    assert(a.get("boss_exposed_next_round"@) == b.get("boss_exposed_next_round"@));
}

proof fn lemma_trophies_agree(a: JsonView, b: JsonView)
    requires
        forall|key: Seq<char>| trophies_field(key) ==> #[trigger] a.get(key) == b.get(key),
    ensures
        trophies_of(a) == trophies_of(b),
{
    assert(a.get("trophy_start_hp"@) == b.get("trophy_start_hp"@));
    assert(a.get("trophy_venom"@) == b.get("trophy_venom"@));
    assert(a.get("trophy_lifesteal"@) == b.get("trophy_lifesteal"@));
    assert(a.get("trophy_regrowth"@) == b.get("trophy_regrowth"@));
    assert(a.get("trophy_forewarned"@) == b.get("trophy_forewarned"@));
    assert(a.get("trophy_laststand"@) == b.get("trophy_laststand"@));
}

proof fn lemma_relics_agree(a: JsonView, b: JsonView)
    requires
        forall|key: Seq<char>| relics_field(key) ==> #[trigger] a.get(key) == b.get(key),
    ensures
        relics_of(a) == relics_of(b),
{
    assert(a.get("relic_berserk_rage"@) == b.get("relic_berserk_rage"@));
    assert(a.get("relic_double_hit"@) == b.get("relic_double_hit"@));
    assert(a.get("relic_deaths_door"@) == b.get("relic_deaths_door"@));
    assert(a.get("relic_paper_crane"@) == b.get("relic_paper_crane"@));
    assert(a.get("relic_bottled_quake"@) == b.get("relic_bottled_quake"@));
}

proof fn lemma_gear_agree(a: JsonView, b: JsonView)
    requires
        forall|key: Seq<char>| gear_field(key) ==> #[trigger] a.get(key) == b.get(key),
    ensures
        gear_of(a) == gear_of(b),
{
    assert(a.get("gear_reflect_first_hit"@) == b.get("gear_reflect_first_hit"@));
    assert(a.get("gear_block_first_status"@) == b.get("gear_block_first_status"@));
    assert(a.get("gear_springheel_counter"@) == b.get("gear_springheel_counter"@));
    assert(a.get("gear_block_first_skip"@) == b.get("gear_block_first_skip"@));
    assert(a.get("gear_heal_first_crit"@) == b.get("gear_heal_first_crit"@));
    assert(a.get("gear_reroll_first_miss"@) == b.get("gear_reroll_first_miss"@));
}

proof fn lemma_blocked_agree(a: JsonView, b: JsonView)
    requires
        forall|key: Seq<char>| blocked_field(key) ==> #[trigger] a.get(key) == b.get(key),
    ensures
        blocked_of(a) == blocked_of(b),
{
    assert(a.get("paper_crane_blocked"@) == b.get("paper_crane_blocked"@));
    assert(a.get("nullweave_blocked"@) == b.get("nullweave_blocked"@));
    assert(a.get("anchor_boots_blocked"@) == b.get("anchor_boots_blocked"@));
}

proof fn lemma_conditions_apart(key: Seq<char>)
    requires
        conditions_field(key),
    ensures
        !trophies_field(key),
        !relics_field(key),
        !gear_field(key),
        !blocked_field(key),
        key != "pet_boss_assist"@,
        key != "shifting_idol_bonus"@,
        key != "boss_prep"@,
{
    lemma_effect_words();
}

proof fn lemma_trophies_apart(key: Seq<char>)
    requires
        trophies_field(key),
    ensures
        !conditions_field(key),
        !relics_field(key),
        !gear_field(key),
        !blocked_field(key),
        key != "pet_boss_assist"@,
        key != "shifting_idol_bonus"@,
        key != "boss_prep"@,
{
    lemma_effect_words();
}

proof fn lemma_relics_apart(key: Seq<char>)
    requires
        relics_field(key),
    ensures
        !conditions_field(key),
        !trophies_field(key),
        !gear_field(key),
        !blocked_field(key),
        key != "pet_boss_assist"@,
        key != "shifting_idol_bonus"@,
        key != "boss_prep"@,
{
    lemma_effect_words();
}

proof fn lemma_gear_apart(key: Seq<char>)
    requires
        gear_field(key),
    ensures
        !conditions_field(key),
        !trophies_field(key),
        !relics_field(key),
        !blocked_field(key),
        key != "pet_boss_assist"@,
        key != "shifting_idol_bonus"@,
        key != "boss_prep"@,
{
    lemma_effect_words();
}

proof fn lemma_carried_apart()
    ensures
        !conditions_field("pet_boss_assist"@),
        !conditions_field("shifting_idol_bonus"@),
        !conditions_field("boss_prep"@),
        !trophies_field("pet_boss_assist"@),
        !trophies_field("shifting_idol_bonus"@),
        !trophies_field("boss_prep"@),
        !relics_field("pet_boss_assist"@),
        !relics_field("shifting_idol_bonus"@),
        !relics_field("boss_prep"@),
        !gear_field("pet_boss_assist"@),
        !gear_field("shifting_idol_bonus"@),
        !gear_field("boss_prep"@),
        !blocked_field("pet_boss_assist"@),
        !blocked_field("shifting_idol_bonus"@),
        !blocked_field("boss_prep"@),
        "pet_boss_assist"@ != "shifting_idol_bonus"@,
        "pet_boss_assist"@ != "boss_prep"@,
        "shifting_idol_bonus"@ != "boss_prep"@,
{
    lemma_effect_words();
}

proof fn lemma_assemble(
    effects: EffectsView,
    t1: JsonView,
    t2: JsonView,
    t3: JsonView,
    t4: JsonView,
    t5: JsonView,
    t6: JsonView,
)
    requires
        t1 is Object,
        conditions_of(t1) == effects.conditions,
        t2 == t1.with("pet_boss_assist"@, assist_tree(effects.pet_assist)).with(
            "shifting_idol_bonus"@,
            optional_text(effects.shifting_idol_bonus),
        ).with("boss_prep"@, carried_prep_tree(effects.boss_preparation)),
        trophies_of(t3) == effects.trophies,
        relics_of(t4) == effects.relics,
        gear_of(t5) == effects.gear,
        blocked_of(t6) == effects.blocked,
        forall|key: Seq<char>| !trophies_field(key) ==> #[trigger] t3.get(key) == t2.get(key),
        forall|key: Seq<char>| !relics_field(key) ==> #[trigger] t4.get(key) == t3.get(key),
        forall|key: Seq<char>| !gear_field(key) ==> #[trigger] t5.get(key) == t4.get(key),
        forall|key: Seq<char>| !blocked_field(key) ==> #[trigger] t6.get(key) == t5.get(key),
    ensures
        effects_of(t6) == effects,
{
    assert forall|key: Seq<char>| conditions_field(key) implies #[trigger] t6.get(key) == t1.get(
        key,
    ) by {
        lemma_conditions_apart(key);
        assert(t6.get(key) == t5.get(key));
        assert(t5.get(key) == t4.get(key));
        assert(t4.get(key) == t3.get(key));
        assert(t3.get(key) == t2.get(key));
        assert(t2.get(key) == t1.get(key));
    }
    lemma_conditions_agree(t6, t1);
    assert forall|key: Seq<char>| trophies_field(key) implies #[trigger] t6.get(key) == t3.get(
        key,
    ) by {
        lemma_trophies_apart(key);
        assert(t6.get(key) == t5.get(key));
        assert(t5.get(key) == t4.get(key));
        assert(t4.get(key) == t3.get(key));
    }
    lemma_trophies_agree(t6, t3);
    assert forall|key: Seq<char>| relics_field(key) implies #[trigger] t6.get(key) == t4.get(
        key,
    ) by {
        lemma_relics_apart(key);
        assert(t6.get(key) == t5.get(key));
        assert(t5.get(key) == t4.get(key));
    }
    lemma_relics_agree(t6, t4);
    assert forall|key: Seq<char>| gear_field(key) implies #[trigger] t6.get(key) == t5.get(key) by {
        lemma_gear_apart(key);
        assert(t6.get(key) == t5.get(key));
    }
    lemma_gear_agree(t6, t5);
    lemma_carried_apart();
    lemma_through(t2, t3, t4, t5, t6, "pet_boss_assist"@);
    lemma_through(t2, t3, t4, t5, t6, "shifting_idol_bonus"@);
    lemma_through(t2, t3, t4, t5, t6, "boss_prep"@);
    law_carried_reads_back(effects.pet_assist, effects.boss_preparation);
    assert(t2.get("pet_boss_assist"@) == Some(assist_tree(effects.pet_assist)));
    assert(t2.get("shifting_idol_bonus"@) == Some(optional_text(effects.shifting_idol_bonus)));
    assert(t2.get("boss_prep"@) == Some(carried_prep_tree(effects.boss_preparation)));
    assert(effects_of(t6) =~= effects);
}

proof fn lemma_through(
    t2: JsonView,
    t3: JsonView,
    t4: JsonView,
    t5: JsonView,
    t6: JsonView,
    key: Seq<char>,
)
    requires
        !trophies_field(key),
        !relics_field(key),
        !gear_field(key),
        !blocked_field(key),
        forall|key: Seq<char>| !trophies_field(key) ==> #[trigger] t3.get(key) == t2.get(key),
        forall|key: Seq<char>| !relics_field(key) ==> #[trigger] t4.get(key) == t3.get(key),
        forall|key: Seq<char>| !gear_field(key) ==> #[trigger] t5.get(key) == t4.get(key),
        forall|key: Seq<char>| !blocked_field(key) ==> #[trigger] t6.get(key) == t5.get(key),
    ensures
        t6.get(key) == t2.get(key),
{
    assert(t6.get(key) == t5.get(key));
    assert(t5.get(key) == t4.get(key));
    assert(t4.get(key) == t3.get(key));
    assert(t3.get(key) == t2.get(key));
}

/// The effects of a fight read back from the tree they are written to, and the
/// other fields of that tree stay as they were.
pub proof fn law_effects_read_back(tree: JsonView, effects: EffectsView, key: Seq<char>)
    requires
        tree is Object,
        !effects_field(key),
    ensures
        effects_of(effects_tree(tree, effects)) == effects,
        effects_tree(tree, effects).get(key) == tree.get(key),
        effects_tree(tree, effects) is Object,
{
    lemma_effects_frame(tree, effects);
}

/// Two trees that agree on the fields of the effects hold the same effects.
pub proof fn lemma_effects_agree(a: JsonView, b: JsonView)
    requires
        forall|key: Seq<char>| effects_field(key) ==> #[trigger] a.get(key) == b.get(key),
    ensures
        effects_of(a) == effects_of(b),
{
    lemma_conditions_agree(a, b);
    lemma_trophies_agree(a, b);
    lemma_relics_agree(a, b);
    lemma_gear_agree(a, b);
    lemma_blocked_agree(a, b);
    assert(a.get("pet_boss_assist"@) == b.get("pet_boss_assist"@));
    assert(a.get("shifting_idol_bonus"@) == b.get("shifting_idol_bonus"@));
    assert(a.get("boss_prep"@) == b.get("boss_prep"@));
}

/// The effects of a fight read back from the tree they are written to, and every
/// other field of that tree stays as it was.
pub proof fn lemma_effects_frame(tree: JsonView, effects: EffectsView)
    requires
        tree is Object,
    ensures
        effects_of(effects_tree(tree, effects)) == effects,
        effects_tree(tree, effects) is Object,
        forall|key: Seq<char>|
            !effects_field(key) ==> #[trigger] effects_tree(tree, effects).get(key) == tree.get(key),
{
    let t1 = conditions_tree(tree, effects.conditions);
    lemma_conditions_read_back(tree, effects.conditions);
    let t2 = t1.with("pet_boss_assist"@, assist_tree(effects.pet_assist)).with(
        "shifting_idol_bonus"@,
        optional_text(effects.shifting_idol_bonus),
    ).with("boss_prep"@, carried_prep_tree(effects.boss_preparation));
    let t3 = trophies_tree(t2, effects.trophies);
    lemma_trophies_read_back(t2, effects.trophies);
    let t4 = relics_tree(t3, effects.relics);
    lemma_relics_read_back(t3, effects.relics);
    let t5 = gear_tree(t4, effects.gear);
    lemma_gear_read_back(t4, effects.gear);
    let t6 = blocked_tree(t5, effects.blocked);
    lemma_blocked_read_back(t5, effects.blocked);
    lemma_assemble(effects, t1, t2, t3, t4, t5, t6);
    assert forall|key: Seq<char>| !effects_field(key) implies #[trigger] t6.get(key) == tree.get(
        key,
    ) by {
        lemma_through(t2, t3, t4, t5, t6, key);
        assert(t2.get(key) == t1.get(key));
        assert(t1.get(key) == tree.get(key));
    }
}

/// Whether a field belongs to the effects of a fight.
pub open spec fn effects_field(key: Seq<char>) -> bool {
    ||| conditions_field(key)
    ||| key == "pet_boss_assist"@
    ||| key == "shifting_idol_bonus"@
    ||| key == "boss_prep"@
    ||| trophies_field(key)
    ||| relics_field(key)
    ||| gear_field(key)
    ||| blocked_field(key)
}

/// Strikes of the player that told.
#[derive(Clone, Copy, Debug, PartialEq, Eq, Structural)]
pub struct OffenceLog {
    pub venom: bool,
    pub bottled_quake: bool,
    pub laststand: bool,
    pub double_hit: bool,
    pub red_thread_reroll: bool,
}

/// Strikes of the boss that were met.
#[derive(Clone, Copy, Debug, PartialEq, Eq, Structural)]
pub struct DefenceLog {
    pub deaths_door: bool,
    pub forewarned: bool,
    pub briarplate_reflect: bool,
    pub springheel_counter: bool,
}

/// Health that came back.
#[derive(Clone, Copy, Debug, PartialEq, Eq, Structural)]
pub struct RecoveryLog {
    pub blood_locket_heal: bool,
    pub lifesteal: bool,
    pub regrowth: bool,
}

/// Sides that lost their turn.
#[derive(Clone, Copy, Debug, PartialEq, Eq, Structural)]
pub struct SkippedLog {
    pub player: bool,
    pub boss: bool,
}

/// What happened in a round besides the blows.
#[derive(Clone, Copy, Debug, PartialEq, Eq, Structural)]
pub struct RoundEffectLog {
    pub critical: bool,
    pub berserk_bonus: u8,
    pub offence: OffenceLog,
    pub defence: DefenceLog,
    pub recovery: RecoveryLog,
    pub skipped: SkippedLog,
}

/// One round of a fight.
#[derive(Debug, PartialEq, Eq)]
pub struct RoundRecord {
    pub round: u8,
    pub player_hp: i32,
    pub boss_hp: i32,
    pub player_hit: bool,
    /// Whether the boss hit, if it struck.
    pub boss_hit: Option<bool>,
    pub pet_assist: Option<PetAssist>,
    pub pet_assist_damage: i32,
    pub effect_log: RoundEffectLog,
}

/// What a [`RoundRecord`] holds.
#[verifier::ext_equal]
pub struct RoundView {
    pub round: u8,
    pub player_hp: i32,
    pub boss_hp: i32,
    pub player_hit: bool,
    pub boss_hit: Option<bool>,
    pub pet_assist: Option<PetAssistView>,
    pub pet_assist_damage: i32,
    pub effect_log: RoundEffectLog,
}

impl View for RoundRecord {
    type V = RoundView;

    open spec fn view(&self) -> RoundView {
        RoundView {
            round: self.round,
            player_hp: self.player_hp,
            boss_hp: self.boss_hp,
            player_hit: self.player_hit,
            boss_hit: self.boss_hit,
            pet_assist: assist_view(self.pet_assist),
            pet_assist_damage: self.pet_assist_damage,
            effect_log: self.effect_log,
        }
    }
}

impl Clone for RoundRecord {
    fn clone(&self) -> (copy: RoundRecord)
        ensures
            copy == *self,
    {
        RoundRecord {
            round: self.round,
            player_hp: self.player_hp,
            boss_hp: self.boss_hp,
            player_hit: self.player_hit,
            boss_hit: self.boss_hit,
            pet_assist: match &self.pet_assist {
                Some(x) => Some(x.clone()),
                None => None,
            },
            pet_assist_damage: self.pet_assist_damage,
            effect_log: self.effect_log,
        }
    }
}

impl Default for RoundEffectLog {
    /// Nothing happened.
    fn default() -> (log: RoundEffectLog)
        ensures
            log == quiet_log(),
    {
        RoundEffectLog {
            critical: false,
            berserk_bonus: 0,
            offence: OffenceLog {
                venom: false,
                bottled_quake: false,
                laststand: false,
                double_hit: false,
                red_thread_reroll: false,
            },
            defence: DefenceLog {
                deaths_door: false,
                forewarned: false,
                briarplate_reflect: false,
                springheel_counter: false,
            },
            recovery: RecoveryLog {
                blood_locket_heal: false,
                lifesteal: false,
                regrowth: false,
            },
            skipped: SkippedLog {
                player: false,
                boss: false,
            },
        }
    }
}

/// The log of a round in which nothing happened.
pub open spec fn quiet_log() -> RoundEffectLog {
    RoundEffectLog {
        critical: false,
        berserk_bonus: 0,
        offence: OffenceLog {
            venom: false,
            bottled_quake: false,
            laststand: false,
            double_hit: false,
            red_thread_reroll: false,
        },
        defence: DefenceLog {
            deaths_door: false,
            forewarned: false,
            briarplate_reflect: false,
            springheel_counter: false,
        },
        recovery: RecoveryLog {
            blood_locket_heal: false,
            lifesteal: false,
            regrowth: false,
        },
        skipped: SkippedLog {
            player: false,
            boss: false,
        },
    }
}

/// A tree with a flag written to it when it is set.
pub open spec fn with_flag(tree: JsonView, key: Seq<char>, set: bool) -> JsonView {
    if set {
        tree.with(key, JsonView::Bool(true))
    } else {
        tree
    }
}

fn write_flag(tree: &mut Json, key: &str, set: bool)
    ensures
        final(tree)@ == with_flag(old(tree)@, key@, set),
{
    if set {
        tree.set(key, Json::Bool(true));
    }
}

/// Whether the boss hit, as it is written.
pub open spec fn boss_hit_tree(hit: Option<bool>) -> JsonView {
    match hit {
        Some(hit) => JsonView::Bool(hit),
        None => JsonView::Null,
    }
}

/// A number read from a tree, zero where it is none.
pub open spec fn narrow_or_zero(value: Option<i64>) -> i32 {
    match narrowed(value) {
        Some(value) => value,
        None => 0,
    }
}

pub(crate) fn read_narrow_or_zero(value: Option<i64>) -> (read: i32)
    ensures
        read == narrow_or_zero(value),
{
    match narrow(value) {
        Some(value) => value,
        None => 0,
    }
}

/// A tree with a part of the log of a round written to it.
pub open spec fn offence_tree(tree: JsonView, offence: OffenceLog) -> JsonView {
    let tree = with_flag(tree, "venom"@, offence.venom);
    let tree = with_flag(tree, "bottled_quake"@, offence.bottled_quake);
    let tree = with_flag(tree, "laststand"@, offence.laststand);
    let tree = with_flag(tree, "double_hit"@, offence.double_hit);
    with_flag(tree, "red_thread_reroll"@, offence.red_thread_reroll)
}

/// The part of the log of a round that a tree holds.
pub open spec fn offence_of(tree: JsonView) -> OffenceLog {
    OffenceLog {
        venom: flag(tree.bool_at("venom"@)),
        bottled_quake: flag(tree.bool_at("bottled_quake"@)),
        laststand: flag(tree.bool_at("laststand"@)),
        double_hit: flag(tree.bool_at("double_hit"@)),
        red_thread_reroll: flag(tree.bool_at("red_thread_reroll"@)),
    }
}

/// Whether a field belongs to this part of the log.
pub open spec fn offence_field(key: Seq<char>) -> bool {
    ||| key == "venom"@
    ||| key == "bottled_quake"@
    ||| key == "laststand"@
    ||| key == "double_hit"@
    ||| key == "red_thread_reroll"@
}

fn write_offence(tree: &mut Json, offence: OffenceLog)
    ensures
        final(tree)@ == offence_tree(old(tree)@, offence),
{
    write_flag(tree, "venom", offence.venom);
    write_flag(tree, "bottled_quake", offence.bottled_quake);
    write_flag(tree, "laststand", offence.laststand);
    write_flag(tree, "double_hit", offence.double_hit);
    write_flag(tree, "red_thread_reroll", offence.red_thread_reroll);
}

fn read_offence(tree: &Json) -> (offence: OffenceLog)
    ensures
        offence == offence_of(tree@),
{
    OffenceLog {
        venom: read_flag(tree.bool_at("venom")),
        bottled_quake: read_flag(tree.bool_at("bottled_quake")),
        laststand: read_flag(tree.bool_at("laststand")),
        double_hit: read_flag(tree.bool_at("double_hit")),
        red_thread_reroll: read_flag(tree.bool_at("red_thread_reroll")),
    }
}

/// A tree with a part of the log of a round written to it.
pub open spec fn defence_tree(tree: JsonView, defence: DefenceLog) -> JsonView {
    let tree = with_flag(tree, "deaths_door"@, defence.deaths_door);
    let tree = with_flag(tree, "forewarned"@, defence.forewarned);
    let tree = with_flag(tree, "briarplate_reflect"@, defence.briarplate_reflect);
    with_flag(tree, "springheel_counter"@, defence.springheel_counter)
}

/// The part of the log of a round that a tree holds.
pub open spec fn defence_of(tree: JsonView) -> DefenceLog {
    DefenceLog {
        deaths_door: flag(tree.bool_at("deaths_door"@)),
        forewarned: flag(tree.bool_at("forewarned"@)),
        briarplate_reflect: flag(tree.bool_at("briarplate_reflect"@)),
        springheel_counter: flag(tree.bool_at("springheel_counter"@)),
    }
}

/// Whether a field belongs to this part of the log.
pub open spec fn defence_field(key: Seq<char>) -> bool {
    ||| key == "deaths_door"@
    ||| key == "forewarned"@
    ||| key == "briarplate_reflect"@
    ||| key == "springheel_counter"@
}

fn write_defence(tree: &mut Json, defence: DefenceLog)
    ensures
        final(tree)@ == defence_tree(old(tree)@, defence),
{
    write_flag(tree, "deaths_door", defence.deaths_door);
    write_flag(tree, "forewarned", defence.forewarned);
    write_flag(tree, "briarplate_reflect", defence.briarplate_reflect);
    write_flag(tree, "springheel_counter", defence.springheel_counter);
}

fn read_defence(tree: &Json) -> (defence: DefenceLog)
    ensures
        defence == defence_of(tree@),
{
    DefenceLog {
        deaths_door: read_flag(tree.bool_at("deaths_door")),
        forewarned: read_flag(tree.bool_at("forewarned")),
        briarplate_reflect: read_flag(tree.bool_at("briarplate_reflect")),
        springheel_counter: read_flag(tree.bool_at("springheel_counter")),
    }
}

/// A tree with a part of the log of a round written to it.
pub open spec fn recovery_tree(tree: JsonView, recovery: RecoveryLog) -> JsonView {
    let tree = with_flag(tree, "blood_locket_heal"@, recovery.blood_locket_heal);
    let tree = with_flag(tree, "lifesteal"@, recovery.lifesteal);
    with_flag(tree, "regrowth"@, recovery.regrowth)
}

/// The part of the log of a round that a tree holds.
pub open spec fn recovery_of(tree: JsonView) -> RecoveryLog {
    RecoveryLog {
        blood_locket_heal: flag(tree.bool_at("blood_locket_heal"@)),
        lifesteal: flag(tree.bool_at("lifesteal"@)),
        regrowth: flag(tree.bool_at("regrowth"@)),
    }
}

/// Whether a field belongs to this part of the log.
pub open spec fn recovery_field(key: Seq<char>) -> bool {
    ||| key == "blood_locket_heal"@
    ||| key == "lifesteal"@
    ||| key == "regrowth"@
}

fn write_recovery(tree: &mut Json, recovery: RecoveryLog)
    ensures
        final(tree)@ == recovery_tree(old(tree)@, recovery),
{
    write_flag(tree, "blood_locket_heal", recovery.blood_locket_heal);
    write_flag(tree, "lifesteal", recovery.lifesteal);
    write_flag(tree, "regrowth", recovery.regrowth);
}

fn read_recovery(tree: &Json) -> (recovery: RecoveryLog)
    ensures
        recovery == recovery_of(tree@),
{
    RecoveryLog {
        blood_locket_heal: read_flag(tree.bool_at("blood_locket_heal")),
        lifesteal: read_flag(tree.bool_at("lifesteal")),
        regrowth: read_flag(tree.bool_at("regrowth")),
    }
}

/// A tree with a part of the log of a round written to it.
pub open spec fn skipped_tree(tree: JsonView, skipped: SkippedLog) -> JsonView {
    let tree = with_flag(tree, "skipped_player"@, skipped.player);
    with_flag(tree, "skipped_boss"@, skipped.boss)
}

/// The part of the log of a round that a tree holds.
pub open spec fn skipped_of(tree: JsonView) -> SkippedLog {
    SkippedLog {
        player: flag(tree.bool_at("skipped_player"@)),
        boss: flag(tree.bool_at("skipped_boss"@)),
    }
}

/// Whether a field belongs to this part of the log.
pub open spec fn skipped_field(key: Seq<char>) -> bool {
    ||| key == "skipped_player"@
    ||| key == "skipped_boss"@
}

fn write_skipped(tree: &mut Json, skipped: SkippedLog)
    ensures
        final(tree)@ == skipped_tree(old(tree)@, skipped),
{
    write_flag(tree, "skipped_player", skipped.player);
    write_flag(tree, "skipped_boss", skipped.boss);
}

fn read_skipped(tree: &Json) -> (skipped: SkippedLog)
    ensures
        skipped == skipped_of(tree@),
{
    SkippedLog {
        player: read_flag(tree.bool_at("skipped_player")),
        boss: read_flag(tree.bool_at("skipped_boss")),
    }
}

/// What is written of every round.
pub open spec fn blows_tree(record: RoundView) -> JsonView {
    object().with("round"@, JsonView::Int(record.round as i64)).with(
        "player_hp"@,
        JsonView::Int(record.player_hp as i64),
    ).with("boss_hp"@, JsonView::Int(record.boss_hp as i64)).with(
        "player_hit"@,
        JsonView::Bool(record.player_hit),
    ).with("boss_hit"@, boss_hit_tree(record.boss_hit)).with(
        "pet_assist"@,
        assist_tree(record.pet_assist),
    ).with("pet_assist_damage"@, JsonView::Int(record.pet_assist_damage as i64)).with(
        "crit"@,
        JsonView::Bool(record.effect_log.critical),
    )
}

/// How a round is written. Of the log only what happened is.
pub open spec fn round_tree(record: RoundView) -> JsonView {
    let tree = blows_tree(record);
    let tree = offence_tree(tree, record.effect_log.offence);
    let tree = defence_tree(tree, record.effect_log.defence);
    let tree = recovery_tree(tree, record.effect_log.recovery);
    let tree = skipped_tree(tree, record.effect_log.skipped);
    if record.effect_log.berserk_bonus > 0 {
        tree.with("berserk_bonus"@, JsonView::Int(record.effect_log.berserk_bonus as i64))
    } else {
        tree
    }
}

/// The round that a tree holds; a tree without a round number holds none.
pub open spec fn round_of(tree: JsonView) -> Option<RoundView> {
    match small_option(tree.uint_at("round"@)) {
        Some(round) => Some(
            RoundView {
                round,
                player_hp: narrow_or_zero(tree.int_at("player_hp"@)),
                boss_hp: narrow_or_zero(tree.int_at("boss_hp"@)),
                player_hit: flag(tree.bool_at("player_hit"@)),
                boss_hit: tree.bool_at("boss_hit"@),
                pet_assist: assist_of(tree.get("pet_assist"@)),
                pet_assist_damage: narrow_or_zero(tree.int_at("pet_assist_damage"@)),
                effect_log: RoundEffectLog {
                    critical: flag(tree.bool_at("crit"@)),
                    berserk_bonus: small(tree.uint_at("berserk_bonus"@)),
                    offence: offence_of(tree),
                    defence: defence_of(tree),
                    recovery: recovery_of(tree),
                    skipped: skipped_of(tree),
                },
            },
        ),
        None => None,
    }
}

/// Writes a round.
pub fn round_record_json(record: &RoundRecord) -> (tree: Json)
    ensures
        tree@ == round_tree(record@),
{
    let mut tree = Json::empty_object();
    tree.set("round", Json::from_i64(record.round as i64));
    tree.set("player_hp", Json::from_i64(record.player_hp as i64));
    tree.set("boss_hp", Json::from_i64(record.boss_hp as i64));
    tree.set("player_hit", Json::Bool(record.player_hit));
    let boss_hit = match record.boss_hit {
        Some(hit) => Json::Bool(hit),
        None => Json::Null,
    };
    tree.set("boss_hit", boss_hit);
    tree.set("pet_assist", write_assist(&record.pet_assist));
    tree.set("pet_assist_damage", Json::from_i64(record.pet_assist_damage as i64));
    tree.set("crit", Json::Bool(record.effect_log.critical));
    write_offence(&mut tree, record.effect_log.offence);
    write_defence(&mut tree, record.effect_log.defence);
    write_recovery(&mut tree, record.effect_log.recovery);
    write_skipped(&mut tree, record.effect_log.skipped);
    if record.effect_log.berserk_bonus > 0 {
        tree.set("berserk_bonus", Json::from_i64(record.effect_log.berserk_bonus as i64));
    }
    tree
}

/// The view of an optional round.
pub open spec fn round_view(record: Option<RoundRecord>) -> Option<RoundView> {
    match record {
        Some(record) => Some(record@),
        None => None,
    }
}

pub(crate) fn read_round(tree: &Json) -> (record: Option<RoundRecord>)
    ensures
        round_view(record) == round_of(tree@),
{
    match read_small_option(tree.uint_at("round")) {
        Some(round) => Some(
            RoundRecord {
                round,
                player_hp: read_narrow_or_zero(tree.int_at("player_hp")),
                boss_hp: read_narrow_or_zero(tree.int_at("boss_hp")),
                player_hit: read_flag(tree.bool_at("player_hit")),
                boss_hit: tree.bool_at("boss_hit"),
                pet_assist: parse_pet_assist(tree.get("pet_assist")),
                pet_assist_damage: read_narrow_or_zero(tree.int_at("pet_assist_damage")),
                effect_log: RoundEffectLog {
                    critical: read_flag(tree.bool_at("crit")),
                    berserk_bonus: read_small(tree.uint_at("berserk_bonus")),
                    offence: read_offence(tree),
                    defence: read_defence(tree),
                    recovery: read_recovery(tree),
                    skipped: read_skipped(tree),
                },
            },
        ),
        None => None,
    }
}

/// The fields of a round differ.
proof fn lemma_round_words()
    ensures
        "round"@.len() == 5,
        "player_hp"@.len() == 9,
        "boss_hp"@.len() == 7,
        "player_hit"@.len() == 10,
        "boss_hit"@.len() == 8,
        "pet_assist"@.len() == 10,
        "pet_assist_damage"@.len() == 17,
        "crit"@.len() == 4,
        "venom"@.len() == 5,
        "bottled_quake"@.len() == 13,
        "laststand"@.len() == 9,
        "double_hit"@.len() == 10,
        "red_thread_reroll"@.len() == 17,
        "deaths_door"@.len() == 11,
        "forewarned"@.len() == 10,
        "briarplate_reflect"@.len() == 18,
        "springheel_counter"@.len() == 18,
        "blood_locket_heal"@.len() == 17,
        "lifesteal"@.len() == 9,
        "regrowth"@.len() == 8,
        "skipped_player"@.len() == 14,
        "skipped_boss"@.len() == 12,
        "berserk_bonus"@.len() == 13,
        "round"@[0] != "venom"@[0],
        "player_hp"@[0] != "laststand"@[0],
        "player_hp"@[0] != "lifesteal"@[0],
        "player_hit"@[1] != "pet_assist"@[1],
        "player_hit"@[0] != "double_hit"@[0],
        "player_hit"@[0] != "forewarned"@[0],
        "boss_hit"@[0] != "regrowth"@[0],
        "pet_assist"@[0] != "double_hit"@[0],
        "pet_assist"@[0] != "forewarned"@[0],
        "pet_assist_damage"@[0] != "red_thread_reroll"@[0],
        "pet_assist_damage"@[0] != "blood_locket_heal"@[0],
        "bottled_quake"@[1] != "berserk_bonus"@[1],
        "laststand"@[1] != "lifesteal"@[1],
        "double_hit"@[0] != "forewarned"@[0],
        "red_thread_reroll"@[0] != "blood_locket_heal"@[0],
        "briarplate_reflect"@[0] != "springheel_counter"@[0],
{
    reveal_strlit("round");
    reveal_strlit("player_hp");
    reveal_strlit("boss_hp");
    reveal_strlit("player_hit");
    reveal_strlit("boss_hit");
    reveal_strlit("pet_assist");
    reveal_strlit("pet_assist_damage");
    reveal_strlit("crit");
    reveal_strlit("venom");
    reveal_strlit("bottled_quake");
    reveal_strlit("laststand");
    reveal_strlit("double_hit");
    reveal_strlit("red_thread_reroll");
    reveal_strlit("deaths_door");
    reveal_strlit("forewarned");
    reveal_strlit("briarplate_reflect");
    reveal_strlit("springheel_counter");
    reveal_strlit("blood_locket_heal");
    reveal_strlit("lifesteal");
    reveal_strlit("regrowth");
    reveal_strlit("skipped_player");
    reveal_strlit("skipped_boss");
    reveal_strlit("berserk_bonus");
}

proof fn lemma_offence_read_back(tree: JsonView, offence: OffenceLog)
    requires
        tree is Object,
        forall|key: Seq<char>| offence_field(key) ==> #[trigger] tree.get(key) is None,
    ensures
        offence_of(offence_tree(tree, offence)) == offence,
        offence_tree(tree, offence) is Object,
        forall|key: Seq<char>|
            !offence_field(key) ==> #[trigger] offence_tree(tree, offence).get(key) == tree.get(key),
{
    lemma_round_words();
    assert(tree.get("venom"@) is None);
    assert(tree.get("bottled_quake"@) is None);
    assert(tree.get("laststand"@) is None);
    assert(tree.get("double_hit"@) is None);
    assert(tree.get("red_thread_reroll"@) is None);
}

proof fn lemma_offence_agree(a: JsonView, b: JsonView)
    requires
        forall|key: Seq<char>| offence_field(key) ==> #[trigger] a.get(key) == b.get(key),
    ensures
        offence_of(a) == offence_of(b),
{
    assert(a.get("venom"@) == b.get("venom"@));
    assert(a.get("bottled_quake"@) == b.get("bottled_quake"@));
    assert(a.get("laststand"@) == b.get("laststand"@));
    assert(a.get("double_hit"@) == b.get("double_hit"@));
    assert(a.get("red_thread_reroll"@) == b.get("red_thread_reroll"@));
}

proof fn lemma_offence_apart(key: Seq<char>)
    requires
        offence_field(key),
    ensures
        !defence_field(key),
        !recovery_field(key),
        !skipped_field(key),
        !blows_field(key),
        key != "berserk_bonus"@,
{
    lemma_round_words();
}

proof fn lemma_defence_read_back(tree: JsonView, defence: DefenceLog)
    requires
        tree is Object,
        forall|key: Seq<char>| defence_field(key) ==> #[trigger] tree.get(key) is None,
    ensures
        defence_of(defence_tree(tree, defence)) == defence,
        defence_tree(tree, defence) is Object,
        forall|key: Seq<char>|
            !defence_field(key) ==> #[trigger] defence_tree(tree, defence).get(key) == tree.get(key),
{
    lemma_round_words();
    assert(tree.get("deaths_door"@) is None);
    assert(tree.get("forewarned"@) is None);
    assert(tree.get("briarplate_reflect"@) is None);
    assert(tree.get("springheel_counter"@) is None);
}

proof fn lemma_defence_agree(a: JsonView, b: JsonView)
    requires
        forall|key: Seq<char>| defence_field(key) ==> #[trigger] a.get(key) == b.get(key),
    ensures
        defence_of(a) == defence_of(b),
{
    assert(a.get("deaths_door"@) == b.get("deaths_door"@));
    assert(a.get("forewarned"@) == b.get("forewarned"@));
    assert(a.get("briarplate_reflect"@) == b.get("briarplate_reflect"@));
    assert(a.get("springheel_counter"@) == b.get("springheel_counter"@));
}

proof fn lemma_defence_apart(key: Seq<char>)
    requires
        defence_field(key),
    ensures
        !offence_field(key),
        !recovery_field(key),
        !skipped_field(key),
        !blows_field(key),
        key != "berserk_bonus"@,
{
    lemma_round_words();
}

proof fn lemma_recovery_read_back(tree: JsonView, recovery: RecoveryLog)
    requires
        tree is Object,
        forall|key: Seq<char>| recovery_field(key) ==> #[trigger] tree.get(key) is None,
    ensures
        recovery_of(recovery_tree(tree, recovery)) == recovery,
        recovery_tree(tree, recovery) is Object,
        forall|key: Seq<char>|
            !recovery_field(key) ==> #[trigger] recovery_tree(tree, recovery).get(key) == tree.get(key),
{
    lemma_round_words();
    assert(tree.get("blood_locket_heal"@) is None);
    assert(tree.get("lifesteal"@) is None);
    assert(tree.get("regrowth"@) is None);
}

proof fn lemma_recovery_agree(a: JsonView, b: JsonView)
    requires
        forall|key: Seq<char>| recovery_field(key) ==> #[trigger] a.get(key) == b.get(key),
    ensures
        recovery_of(a) == recovery_of(b),
{
    assert(a.get("blood_locket_heal"@) == b.get("blood_locket_heal"@));
    assert(a.get("lifesteal"@) == b.get("lifesteal"@));
    assert(a.get("regrowth"@) == b.get("regrowth"@));
}

proof fn lemma_recovery_apart(key: Seq<char>)
    requires
        recovery_field(key),
    ensures
        !offence_field(key),
        !defence_field(key),
        !skipped_field(key),
        !blows_field(key),
        key != "berserk_bonus"@,
{
    lemma_round_words();
}

proof fn lemma_skipped_read_back(tree: JsonView, skipped: SkippedLog)
    requires
        tree is Object,
        forall|key: Seq<char>| skipped_field(key) ==> #[trigger] tree.get(key) is None,
    ensures
        skipped_of(skipped_tree(tree, skipped)) == skipped,
        skipped_tree(tree, skipped) is Object,
        forall|key: Seq<char>|
            !skipped_field(key) ==> #[trigger] skipped_tree(tree, skipped).get(key) == tree.get(key),
{
    lemma_round_words();
    assert(tree.get("skipped_player"@) is None);
    assert(tree.get("skipped_boss"@) is None);
}

proof fn lemma_skipped_agree(a: JsonView, b: JsonView)
    requires
        forall|key: Seq<char>| skipped_field(key) ==> #[trigger] a.get(key) == b.get(key),
    ensures
        skipped_of(a) == skipped_of(b),
{
    assert(a.get("skipped_player"@) == b.get("skipped_player"@));
    assert(a.get("skipped_boss"@) == b.get("skipped_boss"@));
}

proof fn lemma_skipped_apart(key: Seq<char>)
    requires
        skipped_field(key),
    ensures
        !offence_field(key),
        !defence_field(key),
        !recovery_field(key),
        !blows_field(key),
        key != "berserk_bonus"@,
{
    lemma_round_words();
}

/// Whether a field is written of every round.
pub open spec fn blows_field(key: Seq<char>) -> bool {
    ||| key == "round"@
    ||| key == "player_hp"@
    ||| key == "boss_hp"@
    ||| key == "player_hit"@
    ||| key == "boss_hit"@
    ||| key == "pet_assist"@
    ||| key == "pet_assist_damage"@
    ||| key == "crit"@
}

proof fn lemma_blows_apart(key: Seq<char>)
    requires
        blows_field(key) || key == "berserk_bonus"@,
    ensures
        !offence_field(key),
        !defence_field(key),
        !recovery_field(key),
        !skipped_field(key),
        blows_field(key) ==> key != "berserk_bonus"@,
{
    lemma_round_words();
}

proof fn lemma_blows(record: RoundView)
    ensures
        blows_tree(record) is Object,
        forall|key: Seq<char>| !blows_field(key) ==> #[trigger] blows_tree(record).get(key) is None,
        blows_tree(record).get("round"@) == Some(JsonView::Int(record.round as i64)),
        blows_tree(record).get("player_hp"@) == Some(JsonView::Int(record.player_hp as i64)),
        blows_tree(record).get("boss_hp"@) == Some(JsonView::Int(record.boss_hp as i64)),
        blows_tree(record).get("player_hit"@) == Some(JsonView::Bool(record.player_hit)),
        blows_tree(record).get("boss_hit"@) == Some(boss_hit_tree(record.boss_hit)),
        blows_tree(record).get("pet_assist"@) == Some(assist_tree(record.pet_assist)),
        blows_tree(record).get("pet_assist_damage"@) == Some(
            JsonView::Int(record.pet_assist_damage as i64),
        ),
        blows_tree(record).get("crit"@) == Some(JsonView::Bool(record.effect_log.critical)),
{
    lemma_round_words();
}

proof fn lemma_round_assemble(
    record: RoundView,
    t0: JsonView,
    t1: JsonView,
    t2: JsonView,
    t3: JsonView,
    t4: JsonView,
    t5: JsonView,
)
    requires
        t0.get("round"@) == Some(JsonView::Int(record.round as i64)),
        t0.get("player_hp"@) == Some(JsonView::Int(record.player_hp as i64)),
        t0.get("boss_hp"@) == Some(JsonView::Int(record.boss_hp as i64)),
        t0.get("player_hit"@) == Some(JsonView::Bool(record.player_hit)),
        t0.get("boss_hit"@) == Some(boss_hit_tree(record.boss_hit)),
        t0.get("pet_assist"@) == Some(assist_tree(record.pet_assist)),
        t0.get("pet_assist_damage"@) == Some(JsonView::Int(record.pet_assist_damage as i64)),
        t0.get("crit"@) == Some(JsonView::Bool(record.effect_log.critical)),
        offence_of(t1) == record.effect_log.offence,
        defence_of(t2) == record.effect_log.defence,
        recovery_of(t3) == record.effect_log.recovery,
        skipped_of(t4) == record.effect_log.skipped,
        small(t5.uint_at("berserk_bonus"@)) == record.effect_log.berserk_bonus,
        forall|key: Seq<char>| !offence_field(key) ==> #[trigger] t1.get(key) == t0.get(key),
        forall|key: Seq<char>| !defence_field(key) ==> #[trigger] t2.get(key) == t1.get(key),
        forall|key: Seq<char>| !recovery_field(key) ==> #[trigger] t3.get(key) == t2.get(key),
        forall|key: Seq<char>| !skipped_field(key) ==> #[trigger] t4.get(key) == t3.get(key),
        forall|key: Seq<char>| key != "berserk_bonus"@ ==> #[trigger] t5.get(key) == t4.get(key),
    ensures
        round_of(t5) == Some(record),
{
    assert forall|key: Seq<char>| offence_field(key) implies #[trigger] t5.get(key) == t1.get(
        key,
    ) by {
        lemma_offence_apart(key);
        assert(t5.get(key) == t4.get(key));
        assert(t4.get(key) == t3.get(key));
        assert(t3.get(key) == t2.get(key));
        assert(t2.get(key) == t1.get(key));
    }
    lemma_offence_agree(t5, t1);
    assert forall|key: Seq<char>| defence_field(key) implies #[trigger] t5.get(key) == t2.get(
        key,
    ) by {
        lemma_defence_apart(key);
        assert(t5.get(key) == t4.get(key));
        assert(t4.get(key) == t3.get(key));
        assert(t3.get(key) == t2.get(key));
    }
    lemma_defence_agree(t5, t2);
    assert forall|key: Seq<char>| recovery_field(key) implies #[trigger] t5.get(key) == t3.get(
        key,
    ) by {
        lemma_recovery_apart(key);
        assert(t5.get(key) == t4.get(key));
        assert(t4.get(key) == t3.get(key));
    }
    lemma_recovery_agree(t5, t3);
    assert forall|key: Seq<char>| skipped_field(key) implies #[trigger] t5.get(key) == t4.get(
        key,
    ) by {
        lemma_skipped_apart(key);
        assert(t5.get(key) == t4.get(key));
    }
    lemma_skipped_agree(t5, t4);
    assert forall|key: Seq<char>| blows_field(key) implies #[trigger] t5.get(key) == t0.get(key) by {
        lemma_blows_apart(key);
        assert(t5.get(key) == t4.get(key));
        assert(t4.get(key) == t3.get(key));
        assert(t3.get(key) == t2.get(key));
        assert(t2.get(key) == t1.get(key));
        assert(t1.get(key) == t0.get(key));
    }
    law_carried_reads_back(record.pet_assist, None);
    assert(t5.get("round"@) == t0.get("round"@));
    assert(t5.get("player_hp"@) == t0.get("player_hp"@));
    assert(t5.get("boss_hp"@) == t0.get("boss_hp"@));
    assert(t5.get("player_hit"@) == t0.get("player_hit"@));
    assert(t5.get("boss_hit"@) == t0.get("boss_hit"@));
    assert(t5.get("pet_assist"@) == t0.get("pet_assist"@));
    assert(t5.get("pet_assist_damage"@) == t0.get("pet_assist_damage"@));
    assert(t5.get("crit"@) == t0.get("crit"@));
    assert(round_of(t5)->0 =~= record);
}

/// A round reads back from how it is written.
pub proof fn law_round_reads_back(record: RoundView)
    ensures
        round_of(round_tree(record)) == Some(record),
{
    let log = record.effect_log;
    let t0 = blows_tree(record);
    lemma_blows(record);
    assert forall|key: Seq<char>| offence_field(key) implies #[trigger] t0.get(key) is None by {
        lemma_offence_apart(key);
    }
    let t1 = offence_tree(t0, log.offence);
    lemma_offence_read_back(t0, log.offence);
    assert forall|key: Seq<char>| defence_field(key) implies #[trigger] t1.get(key) is None by {
        lemma_defence_apart(key);
        assert(t1.get(key) == t0.get(key));
    }
    let t2 = defence_tree(t1, log.defence);
    lemma_defence_read_back(t1, log.defence);
    assert forall|key: Seq<char>| recovery_field(key) implies #[trigger] t2.get(key) is None by {
        lemma_recovery_apart(key);
        assert(t2.get(key) == t1.get(key));
        assert(t1.get(key) == t0.get(key));
    }
    let t3 = recovery_tree(t2, log.recovery);
    lemma_recovery_read_back(t2, log.recovery);
    assert forall|key: Seq<char>| skipped_field(key) implies #[trigger] t3.get(key) is None by {
        lemma_skipped_apart(key);
        assert(t3.get(key) == t2.get(key));
        assert(t2.get(key) == t1.get(key));
        assert(t1.get(key) == t0.get(key));
    }
    let t4 = skipped_tree(t3, log.skipped);
    lemma_skipped_read_back(t3, log.skipped);
    let t5 = round_tree(record);
    assert(small(t5.uint_at("berserk_bonus"@)) == log.berserk_bonus) by {
        lemma_blows_apart("berserk_bonus"@);
        lemma_round_words();
        assert(t4.get("berserk_bonus"@) == t3.get("berserk_bonus"@));
        assert(t3.get("berserk_bonus"@) == t2.get("berserk_bonus"@));
        assert(t2.get("berserk_bonus"@) == t1.get("berserk_bonus"@));
        assert(t1.get("berserk_bonus"@) == t0.get("berserk_bonus"@));
    }
    assert forall|key: Seq<char>| key != "berserk_bonus"@ implies #[trigger] t5.get(key) == t4.get(
        key,
    ) by {}
    lemma_round_assemble(record, t0, t1, t2, t3, t4, t5);
}

/// A helping pet is written without fractions.
proof fn lemma_assist_is_plain(assist: Option<PetAssistView>)
    ensures
        assist_tree(assist).is_plain(1),
        assist_tree(assist).is_plain(2),
{
    lemma_withs_are_plain(1);
    lemma_withs_are_plain(2);
}

proof fn lemma_conditions_are_plain(tree: JsonView, conditions: Conditions)
    requires
        tree.is_plain(3),
    ensures
        conditions_tree(tree, conditions).is_plain(3),
{
    lemma_withs_are_plain(3);
}

proof fn lemma_trophies_are_plain(tree: JsonView, trophies: TrophyEffects)
    requires
        tree.is_plain(3),
    ensures
        trophies_tree(tree, trophies).is_plain(3),
{
    lemma_withs_are_plain(3);
}

proof fn lemma_relics_are_plain(tree: JsonView, relics: RelicEffects)
    requires
        tree.is_plain(3),
    ensures
        relics_tree(tree, relics).is_plain(3),
{
    lemma_withs_are_plain(3);
}

proof fn lemma_gear_is_plain(tree: JsonView, gear: GearEffects)
    requires
        tree.is_plain(3),
    ensures
        gear_tree(tree, gear).is_plain(3),
{
    lemma_withs_are_plain(3);
}

proof fn lemma_blocked_is_plain(tree: JsonView, blocked: BlockedEffects)
    requires
        tree.is_plain(3),
    ensures
        blocked_tree(tree, blocked).is_plain(3),
{
    lemma_withs_are_plain(3);
}

/// The effects of a fight are written without fractions.
pub proof fn lemma_effects_are_plain(effects: EffectsView)
    ensures
        effects_tree(object(), effects).is_plain(3),
{
    lemma_withs_are_plain(3);
    lemma_assist_is_plain(effects.pet_assist);
    assert(carried_prep_tree(effects.boss_preparation).is_plain(2)) by {
        lemma_withs_are_plain(2);
    }
    let t1 = conditions_tree(object(), effects.conditions);
    lemma_conditions_are_plain(object(), effects.conditions);
    let t2 = t1.with("pet_boss_assist"@, assist_tree(effects.pet_assist)).with(
        "shifting_idol_bonus"@,
        optional_text(effects.shifting_idol_bonus),
    ).with("boss_prep"@, carried_prep_tree(effects.boss_preparation));
    assert(t2.is_plain(3));
    let t3 = trophies_tree(t2, effects.trophies);
    lemma_trophies_are_plain(t2, effects.trophies);
    let t4 = relics_tree(t3, effects.relics);
    lemma_relics_are_plain(t3, effects.relics);
    let t5 = gear_tree(t4, effects.gear);
    lemma_gear_is_plain(t4, effects.gear);
    lemma_blocked_is_plain(t5, effects.blocked);
}

proof fn lemma_blows_are_plain(record: RoundView)
    ensures
        blows_tree(record).is_plain(3),
{
    lemma_withs_are_plain(3);
    lemma_assist_is_plain(record.pet_assist);
}

proof fn lemma_flag_is_plain(tree: JsonView, key: Seq<char>, set: bool)
    requires
        tree.is_plain(3),
    ensures
        with_flag(tree, key, set).is_plain(3),
{
    lemma_with_is_plain(tree, key, JsonView::Bool(true), 3);
}

proof fn lemma_offence_is_plain(tree: JsonView, offence: OffenceLog)
    requires
        tree.is_plain(3),
    ensures
        offence_tree(tree, offence).is_plain(3),
{
    let a = with_flag(tree, "venom"@, offence.venom);
    lemma_flag_is_plain(tree, "venom"@, offence.venom);
    let b = with_flag(a, "bottled_quake"@, offence.bottled_quake);
    lemma_flag_is_plain(a, "bottled_quake"@, offence.bottled_quake);
    let c = with_flag(b, "laststand"@, offence.laststand);
    lemma_flag_is_plain(b, "laststand"@, offence.laststand);
    let d = with_flag(c, "double_hit"@, offence.double_hit);
    lemma_flag_is_plain(c, "double_hit"@, offence.double_hit);
    lemma_flag_is_plain(d, "red_thread_reroll"@, offence.red_thread_reroll);
}

proof fn lemma_defence_is_plain(tree: JsonView, defence: DefenceLog)
    requires
        tree.is_plain(3),
    ensures
        defence_tree(tree, defence).is_plain(3),
{
    let a = with_flag(tree, "deaths_door"@, defence.deaths_door);
    lemma_flag_is_plain(tree, "deaths_door"@, defence.deaths_door);
    let b = with_flag(a, "forewarned"@, defence.forewarned);
    lemma_flag_is_plain(a, "forewarned"@, defence.forewarned);
    let c = with_flag(b, "briarplate_reflect"@, defence.briarplate_reflect);
    lemma_flag_is_plain(b, "briarplate_reflect"@, defence.briarplate_reflect);
    lemma_flag_is_plain(c, "springheel_counter"@, defence.springheel_counter);
}

proof fn lemma_recovery_is_plain(tree: JsonView, recovery: RecoveryLog)
    requires
        tree.is_plain(3),
    ensures
        recovery_tree(tree, recovery).is_plain(3),
{
    let a = with_flag(tree, "blood_locket_heal"@, recovery.blood_locket_heal);
    lemma_flag_is_plain(tree, "blood_locket_heal"@, recovery.blood_locket_heal);
    let b = with_flag(a, "lifesteal"@, recovery.lifesteal);
    lemma_flag_is_plain(a, "lifesteal"@, recovery.lifesteal);
    lemma_flag_is_plain(b, "regrowth"@, recovery.regrowth);
}

proof fn lemma_skipped_is_plain(tree: JsonView, skipped: SkippedLog)
    requires
        tree.is_plain(3),
    ensures
        skipped_tree(tree, skipped).is_plain(3),
{
    let a = with_flag(tree, "skipped_player"@, skipped.player);
    lemma_flag_is_plain(tree, "skipped_player"@, skipped.player);
    lemma_flag_is_plain(a, "skipped_boss"@, skipped.boss);
}

/// A round is written without fractions.
pub proof fn lemma_round_is_plain(record: RoundView)
    ensures
        round_tree(record).is_plain(3),
{
    let t1 = blows_tree(record);
    lemma_blows_are_plain(record);
    let t2 = offence_tree(t1, record.effect_log.offence);
    lemma_offence_is_plain(t1, record.effect_log.offence);
    let t3 = defence_tree(t2, record.effect_log.defence);
    lemma_defence_is_plain(t2, record.effect_log.defence);
    let t4 = recovery_tree(t3, record.effect_log.recovery);
    lemma_recovery_is_plain(t3, record.effect_log.recovery);
    let t5 = skipped_tree(t4, record.effect_log.skipped);
    lemma_skipped_is_plain(t4, record.effect_log.skipped);
    lemma_with_is_plain(
        t5,
        "berserk_bonus"@,
        JsonView::Int(record.effect_log.berserk_bonus as i64),
        3,
    );
}

} // verus!
