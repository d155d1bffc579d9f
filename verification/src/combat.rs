//! What a fighter brings into a boss fight: relics, gear, cheers and light.

use crate::arith::{nearest32, sat_add32};
use crate::json::{json_of_text, lemma_agrees_at, parse_json, tree_view, tree_views, Json, JsonView};
use crate::text::{copy_text, same_text, str_view, text_is, text_view, texts};
use vstd::prelude::*;

verus! {

/// One side of a fight.
#[derive(Clone, Copy, Debug, PartialEq, Eq, Structural)]
pub enum Combatant {
    Player,
    Boss,
}

/// A lasting effect of a boss mechanic.
#[derive(Clone, Copy, Debug, PartialEq, Eq, Structural)]
pub enum MechanicStatusEffect {
    Burn,
    Silence,
    Bleed,
    Frostbite,
    Reveal,
}

/// A pet that helps in a fight.
#[derive(Debug, PartialEq, Eq)]
pub struct PetAssist {
    pub pet_name: String,
    pub species_id: String,
    pub species_name: String,
    pub bonus_percent: i32,
}

/// What a [`PetAssist`] holds.
#[verifier::ext_equal]
pub struct PetAssistView {
    pub pet_name: Seq<char>,
    pub species_id: Seq<char>,
    pub species_name: Seq<char>,
    pub bonus_percent: i32,
}

impl View for PetAssist {
    type V = PetAssistView;

    open spec fn view(&self) -> PetAssistView {
        PetAssistView {
            pet_name: self.pet_name@,
            species_id: self.species_id@,
            species_name: self.species_name@,
            bonus_percent: self.bonus_percent,
        }
    }
}

impl Clone for PetAssist {
    fn clone(&self) -> (copy: PetAssist)
        ensures
            copy == *self,
    {
        PetAssist {
            pet_name: self.pet_name.clone(),
            species_id: self.species_id.clone(),
            species_name: self.species_name.clone(),
            bonus_percent: self.bonus_percent,
        }
    }
}

/// An item that was prepared for a boss.
#[derive(Debug, PartialEq, Eq)]
pub struct BossPreparationState {
    pub item_type: String,
    pub used: bool,
}

/// What a [`BossPreparationState`] holds.
#[verifier::ext_equal]
pub struct PreparationView {
    pub item_type: Seq<char>,
    pub used: bool,
}

impl View for BossPreparationState {
    type V = PreparationView;

    open spec fn view(&self) -> PreparationView {
        PreparationView {
            item_type: self.item_type@,
            used: self.used,
        }
    }
}

impl Clone for BossPreparationState {
    fn clone(&self) -> (copy: BossPreparationState)
        ensures
            copy == *self,
    {
        BossPreparationState {
            item_type: self.item_type.clone(),
            used: self.used,
        }
    }
}

/// What a boss mechanic did to the next rounds.
#[derive(Clone, Copy, Debug, PartialEq, Eq)]
pub struct Conditions {
    pub skip_next_round_for: Option<Combatant>,
    pub burn_rounds_remaining: u8,
    pub bleed_rounds_remaining: u8,
    pub silenced_next_round: bool,
    pub frostbite_next_round: bool,
    pub boss_exposed_next_round: bool,
}

/// What trophies do in a fight.
#[derive(Clone, Copy, Debug, PartialEq, Eq)]
pub struct TrophyEffects {
    pub start_hp: Option<i32>,
    pub venom_rounds: u8,
    pub lifesteal: bool,
    pub regrowth: bool,
    pub forewarned: bool,
    pub laststand: bool,
}

/// What relics do in a fight.
#[derive(Clone, Copy, Debug, PartialEq, Eq)]
pub struct RelicEffects {
    pub berserk_rage: Option<u8>,
    pub double_hit: bool,
    pub deaths_door: bool,
    pub paper_crane: bool,
    pub bottled_quake: bool,
}

/// What unique gear does in a fight.
#[derive(Clone, Copy, Debug, PartialEq, Eq)]
pub struct GearEffects {
    pub reflect_first_hit: bool,
    pub block_first_status: bool,
    pub springheel_counter: bool,
    pub block_first_skip: bool,
    pub heal_first_crit: bool,
    pub reroll_first_miss: bool,
}

/// What relics and gear have kept off.
#[derive(Clone, Copy, Debug, PartialEq, Eq)]
pub struct BlockedEffects {
    pub paper_crane: Option<MechanicStatusEffect>,
    pub nullweave: Option<MechanicStatusEffect>,
    pub anchor_boots: bool,
}

/// Everything that lasts from round to round of a fight.
#[derive(Debug, PartialEq, Eq)]
pub struct CombatEffects {
    pub conditions: Conditions,
    pub pet_assist: Option<PetAssist>,
    pub shifting_idol_bonus: Option<String>,
    pub boss_preparation: Option<BossPreparationState>,
    pub trophies: TrophyEffects,
    pub relics: RelicEffects,
    pub gear: GearEffects,
    pub blocked: BlockedEffects,
}

/// What a [`CombatEffects`] holds.
#[verifier::ext_equal]
pub struct EffectsView {
    pub conditions: Conditions,
    pub pet_assist: Option<PetAssistView>,
    pub shifting_idol_bonus: Option<Seq<char>>,
    pub boss_preparation: Option<PreparationView>,
    pub trophies: TrophyEffects,
    pub relics: RelicEffects,
    pub gear: GearEffects,
    pub blocked: BlockedEffects,
}

impl View for CombatEffects {
    type V = EffectsView;

    open spec fn view(&self) -> EffectsView {
        EffectsView {
            conditions: self.conditions,
            pet_assist: match self.pet_assist { Some(x) => Some(x@), None => None },
            shifting_idol_bonus: text_view(self.shifting_idol_bonus),
            boss_preparation: match self.boss_preparation { Some(x) => Some(x@), None => None },
            trophies: self.trophies,
            relics: self.relics,
            gear: self.gear,
            blocked: self.blocked,
        }
    }
}

impl Clone for CombatEffects {
    fn clone(&self) -> (copy: CombatEffects)
        ensures
            copy == *self,
    {
        CombatEffects {
            conditions: self.conditions,
            pet_assist: match &self.pet_assist {
                Some(x) => Some(x.clone()),
                None => None,
            },
            shifting_idol_bonus: copy_text(&self.shifting_idol_bonus),
            boss_preparation: match &self.boss_preparation {
                Some(x) => Some(x.clone()),
                None => None,
            },
            trophies: self.trophies,
            relics: self.relics,
            gear: self.gear,
            blocked: self.blocked,
        }
    }
}

/// The effects at the start of a fight without relics or gear.
pub open spec fn no_effects() -> EffectsView {
    EffectsView {
        conditions: Conditions {
            skip_next_round_for: None,
            burn_rounds_remaining: 0,
            bleed_rounds_remaining: 0,
            silenced_next_round: false,
            frostbite_next_round: false,
            boss_exposed_next_round: false,
        },
        pet_assist: None,
        shifting_idol_bonus: None,
        boss_preparation: None,
        trophies: TrophyEffects {
            start_hp: None,
            venom_rounds: 0,
            lifesteal: false,
            regrowth: false,
            forewarned: false,
            laststand: false,
        },
        relics: RelicEffects {
            berserk_rage: None,
            double_hit: false,
            deaths_door: false,
            paper_crane: false,
            bottled_quake: false,
        },
        gear: GearEffects {
            reflect_first_hit: false,
            block_first_status: false,
            springheel_counter: false,
            block_first_skip: false,
            heal_first_crit: false,
            reroll_first_miss: false,
        },
        blocked: BlockedEffects {
            paper_crane: None,
            nullweave: None,
            anchor_boots: false,
        },
    }
}

impl Default for CombatEffects {
    /// The effects at the start of a fight without relics or gear.
    fn default() -> (effects: CombatEffects)
        ensures
            effects@ == no_effects(),
    {
        CombatEffects {
            conditions: Conditions {
                skip_next_round_for: None,
                burn_rounds_remaining: 0,
                bleed_rounds_remaining: 0,
                silenced_next_round: false,
                frostbite_next_round: false,
                boss_exposed_next_round: false,
            },
            pet_assist: None,
            shifting_idol_bonus: None,
            boss_preparation: None,
            trophies: TrophyEffects {
                start_hp: None,
                venom_rounds: 0,
                lifesteal: false,
                regrowth: false,
                forewarned: false,
                laststand: false,
            },
            relics: RelicEffects {
                berserk_rage: None,
                double_hit: false,
                deaths_door: false,
                paper_crane: false,
                bottled_quake: false,
            },
            gear: GearEffects {
                reflect_first_hit: false,
                block_first_status: false,
                springheel_counter: false,
                block_first_skip: false,
                heal_first_crit: false,
                reroll_first_miss: false,
            },
            blocked: BlockedEffects {
                paper_crane: None,
                nullweave: None,
                anchor_boots: false,
            },
        }
    }
}

/// Whether an effect of relics, trophies or gear is at work.
pub open spec fn attempt_effect(effects: EffectsView) -> bool {
    ||| effects.trophies.venom_rounds > 0
    ||| effects.relics.berserk_rage is Some
    ||| effects.trophies.lifesteal
    ||| effects.trophies.regrowth
    ||| effects.trophies.forewarned
    ||| effects.trophies.laststand
    ||| effects.relics.double_hit
    ||| effects.relics.deaths_door
    ||| effects.relics.paper_crane
    ||| effects.relics.bottled_quake
    ||| effects.gear.reflect_first_hit
    ||| effects.gear.block_first_status
    ||| effects.gear.springheel_counter
    ||| effects.gear.block_first_skip
    ||| effects.gear.heal_first_crit
    ||| effects.gear.reroll_first_miss
}

/// Tells whether an effect of relics, trophies or gear is at work.
pub fn has_attempt_effect(effects: &CombatEffects) -> (answer: bool)
    ensures
        answer == attempt_effect(effects@),
{
    effects.trophies.venom_rounds > 0 || effects.relics.berserk_rage.is_some()
        || effects.trophies.lifesteal
        || effects.trophies.regrowth
        || effects.trophies.forewarned
        || effects.trophies.laststand
        || effects.relics.double_hit
        || effects.relics.deaths_door
        || effects.relics.paper_crane
        || effects.relics.bottled_quake
        || effects.gear.reflect_first_hit
        || effects.gear.block_first_status
        || effects.gear.springheel_counter
        || effects.gear.block_first_skip
        || effects.gear.heal_first_crit
        || effects.gear.reroll_first_miss
}

/// Whether a list of relics has one.
pub open spec fn relic_worn(relics: Seq<Seq<char>>, id: Seq<char>) -> bool {
    exists|i: int| 0 <= i < relics.len() && #[trigger] relics[i] == id
}

/// Tells whether a list of relics has one.
pub fn wears_relic(relics: &Vec<String>, id: &str) -> (answer: bool)
    ensures
        answer == relic_worn(texts(relics@), id@),
{
    let ghost worn = texts(relics@);
    let mut i: usize = 0;
    while i < relics.len()
        invariant
            i <= relics.len(),
            worn == texts(relics@),
            forall|j: int| 0 <= j < i ==> #[trigger] worn[j] != id@,
        decreases relics.len() - i,
    {
        assert(worn[i as int] == relics@[i as int]@);
        if same_text(relics[i].as_str(), id) {
            return true;
        }
        i = i + 1;
    }
    false
}

/// What the trophies that are worn do.
pub open spec fn trophy_effects(relics: Seq<Seq<char>>, start_hp: Option<i32>) -> TrophyEffects {
    TrophyEffects {
        start_hp,
        venom_rounds: if relic_worn(relics, "weeping_fang"@) {
            4
        } else {
            0
        },
        lifesteal: relic_worn(relics, "runebitten_shard"@),
        regrowth: relic_worn(relics, "aching_spine"@),
        forewarned: relic_worn(relics, "listening_shard"@),
        laststand: relic_worn(relics, "hateborn_ember"@),
    }
}

/// What the relics that are worn do.
pub open spec fn relic_effects(relics: Seq<Seq<char>>) -> RelicEffects {
    RelicEffects {
        berserk_rage: if relic_worn(relics, "berserkers_mark"@) {
            Some(0)
        } else {
            None
        },
        double_hit: relic_worn(relics, "gamblers_edge"@),
        deaths_door: relic_worn(relics, "deaths_door"@),
        paper_crane: relic_worn(relics, "paper_crane"@),
        bottled_quake: relic_worn(relics, "bottled_quake"@),
    }
}

fn read_trophies(relics: &Vec<String>, start_hp: Option<i32>) -> (effects: TrophyEffects)
    ensures
        effects == trophy_effects(texts(relics@), start_hp),
{
    TrophyEffects {
        start_hp,
        venom_rounds: if wears_relic(relics, "weeping_fang") {
            4
        } else {
            0
        },
        lifesteal: wears_relic(relics, "runebitten_shard"),
        regrowth: wears_relic(relics, "aching_spine"),
        forewarned: wears_relic(relics, "listening_shard"),
        laststand: wears_relic(relics, "hateborn_ember"),
    }
}

fn read_relics(relics: &Vec<String>) -> (effects: RelicEffects)
    ensures
        effects == relic_effects(texts(relics@)),
{
    RelicEffects {
        berserk_rage: if wears_relic(relics, "berserkers_mark") {
            Some(0)
        } else {
            None
        },
        double_hit: wears_relic(relics, "gamblers_edge"),
        deaths_door: wears_relic(relics, "deaths_door"),
        paper_crane: wears_relic(relics, "paper_crane"),
        bottled_quake: wears_relic(relics, "bottled_quake"),
    }
}

/// The effects with the relics that are worn at work.
pub open spec fn with_relics(effects: EffectsView, relics: Seq<Seq<char>>) -> EffectsView {
    EffectsView {
        trophies: trophy_effects(relics, effects.trophies.start_hp),
        relics: relic_effects(relics),
        ..effects
    }
}

/// Puts the relics that are worn to work.
pub fn apply_relics(effects: &mut CombatEffects, relics: &Vec<String>)
    ensures
        final(effects)@ == with_relics(old(effects)@, texts(relics@)),
{
    effects.trophies = read_trophies(relics, effects.trophies.start_hp);
    effects.relics = read_relics(relics);
}

/// Where a piece of gear is worn.
#[derive(Clone, Copy, Debug, PartialEq, Eq, Structural)]
pub enum GearSlot {
    Weapon,
    Armor,
    Boots,
    Amulet,
    Ring,
    Relic,
}

/// A piece of gear.
#[derive(Debug, PartialEq, Eq)]
pub struct GearPiece {
    pub slot: GearSlot,
    pub equipped: bool,
    pub durability: i64,
    /// The effect of a unique piece.
    pub effect_id: Option<String>,
}

/// What a [`GearPiece`] holds.
#[verifier::ext_equal]
pub struct PieceView {
    pub slot: GearSlot,
    pub equipped: bool,
    pub durability: i64,
    pub effect_id: Option<Seq<char>>,
}

impl View for GearPiece {
    type V = PieceView;

    open spec fn view(&self) -> PieceView {
        PieceView {
            slot: self.slot,
            equipped: self.equipped,
            durability: self.durability,
            effect_id: text_view(self.effect_id),
        }
    }
}

impl Clone for GearPiece {
    fn clone(&self) -> (copy: GearPiece)
        ensures
            copy == *self,
    {
        GearPiece {
            slot: self.slot,
            equipped: self.equipped,
            durability: self.durability,
            effect_id: copy_text(&self.effect_id),
        }
    }
}

/// What a list of gear holds.
pub open spec fn piece_views(gear: Seq<GearPiece>) -> Seq<PieceView> {
    gear.map_values(|x: GearPiece| x@)
}

/// The piece that is worn in a slot: the last equipped one.
pub open spec fn worn_piece(gear: Seq<PieceView>, slot: GearSlot) -> Option<PieceView>
    decreases gear.len(),
{
    if gear.len() == 0 {
        None
    } else if gear.last().equipped && gear.last().slot == slot {
        Some(gear.last())
    } else {
        worn_piece(gear.drop_last(), slot)
    }
}

/// Finds the piece that is worn in a slot.
pub fn find_worn<'a>(gear: &'a Vec<GearPiece>, slot: GearSlot) -> (piece: Option<&'a GearPiece>)
    ensures
        worn_piece(piece_views(gear@), slot) == (match piece {
            Some(piece) => Some(piece@),
            None => None,
        }),
{
    let ghost views = piece_views(gear@);
    let mut i: usize = gear.len();
    assert(views.subrange(0, i as int) =~= views);
    while i > 0
        invariant
            i <= gear.len(),
            views == piece_views(gear@),
            worn_piece(views, slot) == worn_piece(views.subrange(0, i as int), slot),
        decreases i,
    {
        i = i - 1;
        proof {
            let last = views.subrange(0, i + 1);
            assert(last.drop_last() =~= views.subrange(0, i as int));
            assert(last.last() == gear@[i as int]@);
        }
        if gear[i].equipped && gear[i].slot == slot {
            return Some(&gear[i]);
        }
    }
    None
}

/// Whether an unbroken piece with an effect is worn in a slot.
pub open spec fn effect_in_slot(gear: Seq<PieceView>, slot: GearSlot, effect: Seq<char>) -> bool {
    match worn_piece(gear, slot) {
        Some(piece) => piece.durability > 0 && piece.effect_id == Some(effect),
        None => false,
    }
}

/// Whether an unbroken piece with an effect is worn.
#[verifier::opaque]
pub open spec fn gear_effect(gear: Seq<PieceView>, effect: Seq<char>) -> bool {
    ||| effect_in_slot(gear, GearSlot::Weapon, effect)
    ||| effect_in_slot(gear, GearSlot::Armor, effect)
    ||| effect_in_slot(gear, GearSlot::Boots, effect)
    ||| effect_in_slot(gear, GearSlot::Amulet, effect)
    ||| effect_in_slot(gear, GearSlot::Ring, effect)
}

fn slot_has_effect(gear: &Vec<GearPiece>, slot: GearSlot, effect: &str) -> (answer: bool)
    ensures
        answer == effect_in_slot(piece_views(gear@), slot, effect@),
{
    match find_worn(gear, slot) {
        Some(piece) => piece.durability > 0 && text_is(&piece.effect_id, effect),
        None => false,
    }
}

/// Tells whether an unbroken piece with an effect is worn.
pub fn wears_effect(gear: &Vec<GearPiece>, effect: &str) -> (answer: bool)
    ensures
        answer == gear_effect(piece_views(gear@), effect@),
{
    reveal(gear_effect);
    slot_has_effect(gear, GearSlot::Weapon, effect) || slot_has_effect(
        gear,
        GearSlot::Armor,
        effect,
    ) || slot_has_effect(gear, GearSlot::Boots, effect) || slot_has_effect(
        gear,
        GearSlot::Amulet,
        effect,
    ) || slot_has_effect(gear, GearSlot::Ring, effect)
}

/// What the gear that is worn does, added to what is at work.
pub open spec fn gear_effects(effects: GearEffects, gear: Seq<PieceView>) -> GearEffects {
    GearEffects {
        reflect_first_hit: effects.reflect_first_hit || gear_effect(gear, "reflect_first_hit"@),
        block_first_status: effects.block_first_status || gear_effect(gear, "block_first_status"@),
        springheel_counter: effects.springheel_counter || gear_effect(gear, "springheel_counter"@),
        block_first_skip: effects.block_first_skip || gear_effect(gear, "block_first_skip"@),
        heal_first_crit: effects.heal_first_crit || gear_effect(gear, "heal_first_crit"@),
        reroll_first_miss: effects.reroll_first_miss || gear_effect(gear, "reroll_first_miss"@),
    }
}

/// The effects with the gear that is worn at work.
pub open spec fn with_gear(effects: EffectsView, gear: Seq<PieceView>) -> EffectsView {
    EffectsView { gear: gear_effects(effects.gear, gear), ..effects }
}

fn read_gear(effects: GearEffects, gear: &Vec<GearPiece>) -> (armed: GearEffects)
    ensures
        armed == gear_effects(effects, piece_views(gear@)),
{
    GearEffects {
        reflect_first_hit: effects.reflect_first_hit || wears_effect(gear, "reflect_first_hit"),
        block_first_status: effects.block_first_status || wears_effect(gear, "block_first_status"),
        springheel_counter: effects.springheel_counter || wears_effect(gear, "springheel_counter"),
        block_first_skip: effects.block_first_skip || wears_effect(gear, "block_first_skip"),
        heal_first_crit: effects.heal_first_crit || wears_effect(gear, "heal_first_crit"),
        reroll_first_miss: effects.reroll_first_miss || wears_effect(gear, "reroll_first_miss"),
    }
}

/// Puts the gear that is worn to work.
pub fn apply_gear(effects: &mut CombatEffects, gear: &Vec<GearPiece>)
    ensures
        final(effects)@ == with_gear(old(effects)@, piece_views(gear@)),
{
    effects.gear = read_gear(effects.gear, gear);
}

/// An artifact in a collection.
#[derive(Debug, PartialEq, Eq)]
pub struct EquippedArtifact {
    pub artifact_id: String,
    pub is_relic: bool,
    pub equipped: bool,
}

/// What a [`EquippedArtifact`] holds.
#[verifier::ext_equal]
pub struct EquippedArtifactView {
    pub artifact_id: Seq<char>,
    pub is_relic: bool,
    pub equipped: bool,
}

impl View for EquippedArtifact {
    type V = EquippedArtifactView;

    open spec fn view(&self) -> EquippedArtifactView {
        EquippedArtifactView {
            artifact_id: self.artifact_id@,
            is_relic: self.is_relic,
            equipped: self.equipped,
        }
    }
}

impl Clone for EquippedArtifact {
    fn clone(&self) -> (copy: EquippedArtifact)
        ensures
            copy == *self,
    {
        EquippedArtifact {
            artifact_id: self.artifact_id.clone(),
            is_relic: self.is_relic,
            equipped: self.equipped,
        }
    }
}

/// What a collection of artifacts holds.
pub open spec fn collection_views(artifacts: Seq<EquippedArtifact>) -> Seq<EquippedArtifactView> {
    artifacts.map_values(|x: EquippedArtifact| x@)
}

/// The relics that are worn, in the order of the collection.
pub open spec fn worn_relics(artifacts: Seq<EquippedArtifactView>) -> Seq<Seq<char>>
    decreases artifacts.len(),
{
    if artifacts.len() == 0 {
        Seq::empty()
    } else if artifacts.last().is_relic && artifacts.last().equipped {
        worn_relics(artifacts.drop_last()).push(artifacts.last().artifact_id)
    } else {
        worn_relics(artifacts.drop_last())
    }
}

/// Lists the relics that are worn.
pub fn list_worn_relics(artifacts: &Vec<EquippedArtifact>) -> (relics: Vec<String>)
    ensures
        texts(relics@) == worn_relics(collection_views(artifacts@)),
{
    let ghost views = collection_views(artifacts@);
    let mut relics: Vec<String> = Vec::new();
    assert(texts(relics@) =~= Seq::empty());
    let mut i: usize = 0;
    while i < artifacts.len()
        invariant
            i <= artifacts.len(),
            views == collection_views(artifacts@),
            texts(relics@) == worn_relics(views.subrange(0, i as int)),
        decreases artifacts.len() - i,
    {
        proof {
            let next = views.subrange(0, i + 1);
            assert(next.drop_last() =~= views.subrange(0, i as int));
            assert(next.last() == artifacts@[i as int]@);
        }
        if artifacts[i].is_relic && artifacts[i].equipped {
            let ghost before = texts(relics@);
            relics.push(artifacts[i].artifact_id.clone());
            assert(texts(relics@) =~= before.push(artifacts@[i as int].artifact_id@));
        }
        i = i + 1;
    }
    assert(views.subrange(0, i as int) =~= views);
    relics
}

/// Whether a cheer still counts.
pub open spec fn cheer_counts(cheer: JsonView, now: i64) -> bool {
    match cheer.int_at("expires_at"@) {
        Some(expires_at) => expires_at > now,
        None => false,
    }
}

/// The cheers of a list that still count, in their order.
pub open spec fn counting_cheers(cheers: Seq<JsonView>, now: i64) -> Seq<JsonView>
    decreases cheers.len(),
{
    if cheers.len() == 0 {
        Seq::empty()
    } else if cheer_counts(cheers.last(), now) {
        counting_cheers(cheers.drop_last(), now).push(cheers.last())
    } else {
        counting_cheers(cheers.drop_last(), now)
    }
}

/// Cheers that are kept nest as deep as they did.
proof fn lemma_counting_nests(cheers: Seq<JsonView>, now: i64, levels: nat)
    requires
        forall|i: int| 0 <= i < cheers.len() ==> (#[trigger] cheers[i]).nests(levels),
    ensures
        forall|i: int|
            0 <= i < counting_cheers(cheers, now).len() ==> (#[trigger] counting_cheers(
                cheers,
                now,
            )[i]).nests(levels),
    decreases cheers.len(),
{
    if cheers.len() > 0 {
        let rest = cheers.drop_last();
        assert forall|i: int| 0 <= i < rest.len() implies (#[trigger] rest[i]).nests(levels) by {
            assert(rest[i] == cheers[i]);
        }
        lemma_counting_nests(rest, now, levels);
        let (kept, all) = (counting_cheers(rest, now), counting_cheers(cheers, now));
        assert forall|i: int| 0 <= i < all.len() implies (#[trigger] all[i]).nests(levels) by {
            if i < kept.len() {
                assert(all[i] == kept[i]);
            } else {
                assert(all[i] == cheers[cheers.len() - 1]);
            }
        }
    }
}

/// A cheer at the end of a list is kept where it counts.
pub proof fn lemma_counting_push(cheers: Seq<JsonView>, cheer: JsonView, now: i64)
    ensures
        counting_cheers(cheers.push(cheer), now) == (if cheer_counts(cheer, now) {
            counting_cheers(cheers, now).push(cheer)
        } else {
            counting_cheers(cheers, now)
        }),
{
    assert(cheers.push(cheer).drop_last() =~= cheers);
}

/// Cheers that count later count now: leaving the others out first changes
/// nothing.
pub proof fn lemma_counting_again(cheers: Seq<JsonView>, now: i64, later: i64)
    requires
        now <= later,
    ensures
        counting_cheers(counting_cheers(cheers, now), later) == counting_cheers(cheers, later),
    decreases cheers.len(),
{
    if cheers.len() > 0 {
        let rest = cheers.drop_last();
        lemma_counting_again(rest, now, later);
        lemma_counting_push(counting_cheers(rest, now), cheers.last(), later);
    }
}

/// As many cheers count of one list as of another that agrees with it place by
/// place.
pub proof fn lemma_counting_agrees(
    cheers: Seq<JsonView>,
    others: Seq<JsonView>,
    now: i64,
    levels: nat,
)
    requires
        cheers.len() == others.len(),
        forall|i: int| 0 <= i < cheers.len() ==> (#[trigger] cheers[i]).agrees(others[i], levels),
    ensures
        counting_cheers(cheers, now).len() == counting_cheers(others, now).len(),
    decreases cheers.len(),
{
    if cheers.len() > 0 {
        let (rest, left) = (cheers.drop_last(), others.drop_last());
        assert forall|i: int| 0 <= i < rest.len() implies (#[trigger] rest[i]).agrees(
            left[i],
            levels,
        ) by {
            assert(rest[i] == cheers[i] && left[i] == others[i]);
        }
        lemma_counting_agrees(rest, left, now, levels);
        let last = cheers.len() - 1;
        assert(cheers[last].agrees(others[last], levels));
        lemma_agrees_at(cheers.last(), others.last(), "expires_at"@, levels);
    }
}

/// The cheers that a column lists.
pub open spec fn listed_cheers(column: Option<Seq<char>>) -> Seq<JsonView> {
    match column {
        Some(text) => match json_of_text(text) {
            Some(JsonView::Array(items)) => items,
            _ => Seq::empty(),
        },
        None => Seq::empty(),
    }
}

/// The cheers of a column that still count.
pub open spec fn active_cheers(column: Option<Seq<char>>, now: i64) -> Seq<JsonView> {
    counting_cheers(listed_cheers(column), now)
}

/// Reads the cheers of a column that still count.
pub fn parse_active_cheers(column: Option<&str>, now: i64) -> (cheers: Vec<Json>)
    ensures
        tree_views(cheers@) == active_cheers(str_view(column), now),
        JsonView::Array(active_cheers(str_view(column), now)).nests(127),
{
    let mut kept: Vec<Json> = Vec::new();
    let listed = match column {
        Some(text) => match parse_json(text) {
            Some(Json::Array(items)) => items,
            _ => Vec::new(),
        },
        None => Vec::new(),
    };
    let ghost views = tree_views(listed@);
    assert(views =~= listed_cheers(str_view(column)));
    proof {
        crate::json::lemma_views_index(listed@);
        lemma_counting_nests(views, now, 126);
    }
    let mut i: usize = 0;
    while i < listed.len()
        invariant
            i <= listed.len(),
            views.len() == listed.len(),
            forall|j: int| 0 <= j < listed.len() ==> #[trigger] views[j] == tree_view(listed@[j]),
            tree_views(kept@) == counting_cheers(views.subrange(0, i as int), now),
        decreases listed.len() - i,
    {
        proof {
            let next = views.subrange(0, i + 1);
            assert(next.drop_last() =~= views.subrange(0, i as int));
            assert(next.last() == views[i as int]);
        }
        let counts = match listed[i].int_at("expires_at") {
            Some(expires_at) => expires_at > now,
            None => false,
        };
        if counts {
            let cheer = listed[i].clone();
            let ghost before = kept@;
            kept.push(cheer);
            assert(kept@.drop_last() =~= before);
        }
        i = i + 1;
    }
    assert(views.subrange(0, i as int) =~= views);
    kept
}

/// The parts of a text between separators, at least one.
pub open spec fn parts(text: Seq<char>, separator: char) -> Seq<Seq<char>>
    decreases text.len(),
{
    if text.len() == 0 {
        seq![Seq::empty()]
    } else {
        let before = parts(text.drop_last(), separator);
        if text.last() == separator {
            before.push(Seq::empty())
        } else {
            before.update(before.len() - 1, before.last().push(text.last()))
        }
    }
}

proof fn lemma_parts_not_empty(text: Seq<char>, separator: char)
    ensures
        parts(text, separator).len() > 0,
    decreases text.len(),
{
    if text.len() > 0 {
        lemma_parts_not_empty(text.drop_last(), separator);
    }
}

/// Splits a text at separators.
pub fn split(text: &str, separator: char) -> (list: Vec<String>)
    ensures
        texts(list@) == parts(text@, separator),
{
    let length = text.unicode_len();
    let mut done: Vec<String> = Vec::new();
    let mut start: usize = 0;
    let mut i: usize = 0;
    assert(text@.subrange(0, 0) =~= Seq::empty());
    assert(texts(done@).push(text@.subrange(0, 0)) =~= seq![Seq::<char>::empty()]);
    while i < length
        invariant
            start <= i <= length,
            length == text@.len(),
            texts(done@).push(text@.subrange(start as int, i as int)) == parts(
                text@.subrange(0, i as int),
                separator,
            ),
        decreases length - i,
    {
        let c = text.get_char(i);
        let ghost seen = text@.subrange(0, i as int);
        let ghost next = text@.subrange(0, i + 1);
        let ghost open = text@.subrange(start as int, i as int);
        let ghost before = texts(done@);
        proof {
            lemma_parts_not_empty(seen, separator);
            assert(next.drop_last() =~= seen);
            assert(next.last() == c);
            assert(before.push(open).last() == open);
        }
        if c == separator {
            done.push(text.substring_char(start, i).to_owned());
            start = i + 1;
            proof {
                assert(texts(done@) =~= before.push(open));
                assert(text@.subrange(start as int, i + 1) =~= Seq::empty());
            }
        } else {
            proof {
                assert(text@.subrange(start as int, i + 1) =~= open.push(c));
                assert(before.push(open).update(before.len() as int, open.push(c)) =~= before.push(
                    open.push(c),
                ));
            }
        }
        i = i + 1;
    }
    assert(text@.subrange(0, length as int) =~= text@);
    let ghost before = texts(done@);
    let ghost open = text@.subrange(start as int, length as int);
    done.push(text.substring_char(start, length).to_owned());
    assert(texts(done@) =~= before.push(open));
    done
}

/// The stats that a pinnacle relic rolled, as its identifier spells them behind
/// its first two parts.
pub open spec fn relic_stats(artifact_id: Seq<char>) -> Seq<Seq<char>> {
    let all = parts(artifact_id, ':');
    if all.len() >= 3 && all[0] == "pinnacle"@ {
        all.subrange(3, all.len() as int)
    } else {
        Seq::empty()
    }
}

/// How often a list has a stat.
pub open spec fn occurrences(list: Seq<Seq<char>>, stat: Seq<char>) -> nat
    decreases list.len(),
{
    if list.len() == 0 {
        0
    } else if list.last() == stat {
        occurrences(list.drop_last(), stat) + 1
    } else {
        occurrences(list.drop_last(), stat)
    }
}

/// How often the pinnacle relics among those worn rolled a stat.
pub open spec fn stat_total(relics: Seq<Seq<char>>, stat: Seq<char>) -> nat
    decreases relics.len(),
{
    if relics.len() == 0 {
        0
    } else {
        stat_total(relics.drop_last(), stat) + occurrences(relic_stats(relics.last()), stat)
    }
}

fn add_occurrences(start: i32, list: &Vec<String>, from: usize, stat: &str) -> (sum: i32)
    requires
        from <= list.len(),
    ensures
        sum == nearest32(
            start + occurrences(texts(list@).subrange(from as int, list.len() as int), stat@),
        ),
{
    let ghost rest = texts(list@).subrange(from as int, list.len() as int);
    let mut sum: i32 = start;
    let mut i: usize = from;
    assert(rest.subrange(0, 0) =~= Seq::empty());
    while i < list.len()
        invariant
            from <= i <= list.len(),
            rest == texts(list@).subrange(from as int, list.len() as int),
            sum == nearest32(start + occurrences(rest.subrange(0, i - from), stat@)),
        decreases list.len() - i,
    {
        proof {
            let next = rest.subrange(0, i - from + 1);
            assert(next.drop_last() =~= rest.subrange(0, i - from));
            assert(next.last() == list@[i as int]@);
        }
        if same_text(list[i].as_str(), stat) {
            sum = sat_add32(sum, 1);
        }
        i = i + 1;
    }
    assert(rest.subrange(0, i - from) =~= rest);
    sum
}

/// Adds up, from a start, how often the pinnacle relics among those worn rolled
/// a stat.
pub fn add_stat(start: i32, relics: &Vec<String>, stat: &str) -> (sum: i32)
    ensures
        sum == nearest32(start + stat_total(texts(relics@), stat@)),
{
    let ghost worn = texts(relics@);
    let mut sum: i32 = start;
    let mut i: usize = 0;
    assert(worn.subrange(0, 0) =~= Seq::empty());
    while i < relics.len()
        invariant
            i <= relics.len(),
            worn == texts(relics@),
            sum == nearest32(start + stat_total(worn.subrange(0, i as int), stat@)),
        decreases relics.len() - i,
    {
        proof {
            let next = worn.subrange(0, i + 1);
            assert(next.drop_last() =~= worn.subrange(0, i as int));
            assert(next.last() == relics@[i as int]@);
        }
        let all = split(relics[i].as_str(), ':');
        proof {
            assert(texts(all@)[0] == all@[0]@) by {
                lemma_parts_not_empty(relics@[i as int]@, ':');
                assert(texts(all@).len() == all.len());
            }
            assert(texts(all@).len() == all.len());
        }
        if all.len() >= 3 && same_text(all[0].as_str(), "pinnacle") {
            sum = add_occurrences(sum, &all, 3, stat);
        }
        i = i + 1;
    }
    assert(worn.subrange(0, i as int) =~= worn);
    sum
}

} // verus!
