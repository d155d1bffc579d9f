//! Items that are prepared for a boss, and what a fighter brings into the fight.

use crate::arith::{nearest32, sat_add32, sat_mul32, toward_zero};
use crate::boss_store::{BossRecordView, DigBossRuntimeSnapshot};
use crate::combat::{
    active_cheers, add_stat, apply_gear, apply_relics, parse_active_cheers, piece_views, relic_worn,
    stat_total, wears_relic, with_gear, with_relics, BossPreparationState, CombatEffects,
    EffectsView, GearPiece, PieceView, PreparationView,
};
use crate::condition::column_tree;
use crate::inventory::{record_views, InventoryItemRecord, RecordView};
use crate::json::{
    column_object, json_of_text, lemma_edits_nest, object, parse_json, read_json, read_object,
    reads_back, render_json, text_of_json, Json, JsonView,
};
use crate::progress::progress_complaint;
use crate::text::{borrow_text, int_text, integer_text, join2, same_text, str_view, texts};
use vstd::prelude::*;

verus! {

/// Whether an item can be prepared for a boss.
pub open spec fn preparation_item(item_type: Seq<char>) -> bool {
    item_type == "tempered_whetstone"@ || item_type == "warding_salts"@ || item_type
        == "rescue_line"@
}

/// Tells whether an item can be prepared for a boss.
pub fn is_preparation_item(item_type: &str) -> (answer: bool)
    ensures
        answer == preparation_item(item_type@),
{
    same_text(item_type, "tempered_whetstone") || same_text(item_type, "warding_salts")
        || same_text(item_type, "rescue_line")
}

/// What a finished attempt does with the prepared item of a boundary.
#[derive(Clone, Copy, Debug, PartialEq, Eq, Structural)]
pub enum BossPreparationMutation {
    Preserve,
    MarkUsed { boundary: i32 },
    Clear { boundary: i32 },
}

/// A tree whose entry at a boundary was replaced.
pub open spec fn with_boundary(tree: JsonView, boundary: i32, entry: JsonView) -> JsonView {
    tree.with(int_text(boundary as int), entry)
}

/// The entry at a boundary, when it is an object.
pub open spec fn boundary_entry(tree: JsonView, boundary: i32) -> Option<JsonView> {
    match tree.get(int_text(boundary as int)) {
        Some(entry) => if entry is Object {
            Some(entry)
        } else {
            None
        },
        None => None,
    }
}

/// An entry whose prepared item is marked as used.
pub open spec fn prep_used(entry: JsonView) -> JsonView {
    match entry.get("active_prep"@) {
        Some(prep) => if prep is Object {
            entry.with("active_prep"@, prep.with("used"@, JsonView::Bool(true)))
        } else {
            entry
        },
        None => entry,
    }
}

/// The progress column after a change of the prepared item, or nothing where
/// the column is not JSON. A boundary without an entry leaves the column as it
/// is.
pub open spec fn prepared_column(
    column: Option<Seq<char>>,
    mutation: BossPreparationMutation,
) -> Option<Option<Seq<char>>> {
    match column {
        None => Some(None),
        Some(text) => match mutation {
            BossPreparationMutation::Preserve => Some(column),
            BossPreparationMutation::MarkUsed { boundary } => match json_of_text(text) {
                None => None,
                Some(tree) => match boundary_entry(tree, boundary) {
                    None => Some(column),
                    Some(entry) => Some(
                        Some(text_of_json(with_boundary(tree, boundary, prep_used(entry)))),
                    ),
                },
            },
            BossPreparationMutation::Clear { boundary } => match json_of_text(text) {
                None => None,
                Some(tree) => match boundary_entry(tree, boundary) {
                    None => Some(column),
                    Some(entry) => Some(
                        Some(
                            text_of_json(
                                with_boundary(tree, boundary, entry.without("active_prep"@)),
                            ),
                        ),
                    ),
                },
            },
        },
    }
}

/// The tree that a change of the prepared item writes, where it writes one.
pub open spec fn prepared_tree(column: Option<Seq<char>>, mutation: BossPreparationMutation)
    -> Option<JsonView> {
    match (column_tree(column), mutation) {
        (Some(tree), BossPreparationMutation::MarkUsed { boundary }) => match boundary_entry(
            tree,
            boundary,
        ) {
            Some(entry) => Some(with_boundary(tree, boundary, prep_used(entry))),
            None => None,
        },
        (Some(tree), BossPreparationMutation::Clear { boundary }) => match boundary_entry(
            tree,
            boundary,
        ) {
            Some(entry) => Some(with_boundary(tree, boundary, entry.without("active_prep"@))),
            None => None,
        },
        _ => None,
    }
}

/// Changes the prepared item in a progress column. A column that is written
/// reads back.
pub fn apply_preparation_mutation(column: Option<String>, mutation: BossPreparationMutation)
    -> (changed: Result<Option<String>, String>)
    ensures
        match changed {
            Ok(text) => prepared_column(crate::text::text_view(column), mutation) == Some(
                crate::text::text_view(text),
            ),
            Err(message) => prepared_column(crate::text::text_view(column), mutation) is None
                && message@ == progress_complaint(crate::text::text_view(column)->0),
        },
        changed matches Ok(Some(text)) ==> prepared_tree(
            crate::text::text_view(column),
            mutation,
        ) matches Some(tree) ==> reads_back(text@, tree),
{
    let text = match column {
        Some(text) => text,
        None => {
            return Ok(None);
        },
    };
    let (boundary, clear): (i32, bool) = match mutation {
        BossPreparationMutation::Preserve => {
            return Ok(Some(text));
        },
        BossPreparationMutation::MarkUsed { boundary } => (boundary, false),
        BossPreparationMutation::Clear { boundary } => (boundary, true),
    };
    let mut tree = match read_json(text.as_str()) {
        Ok(tree) => tree,
        Err(words) => {
            return Err(join2("boss_progress JSON is invalid: ", words.as_str()));
        },
    };
    proof {
        lemma_edits_nest(127);
        lemma_edits_nest(126);
        lemma_edits_nest(125);
    }
    let key = integer_text(boundary as i64);
    let mut entry = match tree.get(key.as_str()) {
        Some(entry) => {
            if !entry.is_object() {
                return Ok(Some(text));
            }
            entry.clone()
        },
        None => {
            return Ok(Some(text));
        },
    };
    if clear {
        entry.unset("active_prep");
    } else {
        let used = match entry.get("active_prep") {
            Some(prep) => {
                if prep.is_object() {
                    let mut prep = prep.clone();
                    prep.set("used", Json::Bool(true));
                    Some(prep)
                } else {
                    None
                }
            },
            None => None,
        };
        match used {
            Some(prep) => {
                entry.set("active_prep", prep);
            },
            None => {},
        }
    }
    tree.set(key.as_str(), entry);
    Ok(Some(render_json(tree)))
}

/// Whether a preparation stands ready at a boundary.
pub open spec fn stands_ready(tree: JsonView, boundary: i32) -> bool {
    match boundary_entry(tree, boundary) {
        None => false,
        Some(entry) => match entry.get("active_prep"@) {
            None => false,
            Some(prep) => match prep.text_at("item_type"@) {
                Some(item_type) => preparation_item(item_type),
                None => false,
            },
        },
    }
}

/// The first of the queued rows that can be prepared.
pub open spec fn first_preparation(queued: Seq<RecordView>) -> Option<RecordView>
    decreases queued.len(),
{
    if queued.len() == 0 {
        None
    } else {
        match first_preparation(queued.drop_last()) {
            Some(record) => Some(record),
            None => if preparation_item(queued.last().item_type) {
                Some(queued.last())
            } else {
                None
            },
        }
    }
}

/// The tree of a prepared item.
pub open spec fn fresh_prep(item_type: Seq<char>) -> JsonView {
    object().with("item_type"@, JsonView::Text(item_type)).with("used"@, JsonView::Bool(false))
}

/// What stands at a boundary as an object: an entry, or a bare status made one.
pub open spec fn entry_object(tree: JsonView, boundary: i32) -> JsonView {
    match tree.get(int_text(boundary as int)) {
        None => object().with("status"@, JsonView::Text("active"@)),
        Some(entry) => if entry is Object {
            entry
        } else {
            object().with(
                "status"@,
                JsonView::Text(
                    match entry.text_value() {
                        Some(word) => word,
                        None => "active"@,
                    },
                ),
            )
        },
    }
}

/// A progress object with an item prepared at a boundary.
pub open spec fn with_prep(tree: JsonView, boundary: i32, item_type: Seq<char>) -> JsonView {
    with_boundary(
        tree,
        boundary,
        entry_object(tree, boundary).with("active_prep"@, fresh_prep(item_type)),
    )
}

/// What has to be done to prepare an item.
#[derive(Debug, PartialEq, Eq)]
pub enum PreparationStep {
    /// An item stands ready, or none is queued.
    Nothing,
    /// A queued item is to be consumed and the column written.
    Activate { item_id: i64, item_type: String, boss_progress_json: String },
}

fn choose_preparation<'a>(queued: &'a Vec<InventoryItemRecord>) -> (chosen: Option<
    &'a InventoryItemRecord,
>)
    ensures
        first_preparation(record_views(queued@)) == (match chosen {
            Some(record) => Some(record@),
            None => None,
        }),
        chosen matches Some(record) ==> preparation_item(record@.item_type),
{
    let ghost views = record_views(queued@);
    let mut i: usize = 0;
    while i < queued.len()
        invariant
            i <= queued.len(),
            views == record_views(queued@),
            first_preparation(views.subrange(0, i as int)) is None,
        decreases queued.len() - i,
    {
        proof {
            let next = views.subrange(0, i + 1);
            assert(next.drop_last() =~= views.subrange(0, i as int));
            assert(next.last() == queued@[i as int]@);
        }
        if is_preparation_item(queued[i].item_type.as_str()) {
            proof {
                lemma_first_stays(views, i + 1);
            }
            return Some(&queued[i]);
        }
        i = i + 1;
    }
    assert(views.subrange(0, i as int) =~= views);
    None
}

proof fn lemma_first_stays(queued: Seq<RecordView>, n: int)
    requires
        0 <= n <= queued.len(),
        first_preparation(queued.subrange(0, n)) is Some,
    ensures
        first_preparation(queued) == first_preparation(queued.subrange(0, n)),
    decreases queued.len(),
{
    if n == queued.len() {
        assert(queued.subrange(0, n) =~= queued);
    } else {
        assert(queued.drop_last().subrange(0, n) =~= queued.subrange(0, n));
        lemma_first_stays(queued.drop_last(), n);
    }
}

/// Plans which queued item is prepared at a boundary. A column that holds no
/// object counts as empty.
pub fn plan_activation(
    column: Option<&str>,
    boundary: i32,
    queued: &Vec<InventoryItemRecord>,
) -> (step: PreparationStep)
    ensures
        ({
            let tree = column_object(str_view(column));
            let chosen = first_preparation(record_views(queued@));
            match step {
                PreparationStep::Nothing => stands_ready(tree, boundary) || chosen is None,
                PreparationStep::Activate { item_id, item_type, boss_progress_json } => {
                    &&& !stands_ready(tree, boundary)
                    &&& chosen matches Some(record)
                    &&& item_id == record.id
                    &&& item_type@ == record.item_type
                    &&& boss_progress_json@ == text_of_json(
                        with_prep(tree, boundary, record.item_type),
                    )
                    &&& reads_back(
                        boss_progress_json@,
                        with_prep(tree, boundary, record.item_type),
                    )
                },
            }
        }),
{
    let mut tree = read_object(column);
    proof {
        lemma_edits_nest(127);
        lemma_edits_nest(126);
        lemma_edits_nest(125);
    }
    let key = integer_text(boundary as i64);
    let ready = match tree.get(key.as_str()) {
        Some(entry) => {
            if entry.is_object() {
                match entry.get("active_prep") {
                    Some(prep) => match prep.text_at("item_type") {
                        Some(item_type) => is_preparation_item(item_type),
                        None => false,
                    },
                    None => false,
                }
            } else {
                false
            }
        },
        None => false,
    };
    if ready {
        return PreparationStep::Nothing;
    }
    let chosen = match choose_preparation(queued) {
        Some(record) => record,
        None => {
            return PreparationStep::Nothing;
        },
    };
    let mut entry = read_entry_object(&tree, boundary);
    let mut prep = Json::empty_object();
    prep.set("item_type", Json::from_text(chosen.item_type.as_str()));
    prep.set("used", Json::Bool(false));
    entry.set("active_prep", prep);
    tree.set(key.as_str(), entry);
    PreparationStep::Activate {
        item_id: chosen.id,
        item_type: chosen.item_type.clone(),
        boss_progress_json: render_json(tree),
    }
}

/// Reads what stands at a boundary as an object.
pub fn read_entry_object(tree: &Json, boundary: i32) -> (entry: Json)
    ensures
        entry@ == entry_object(tree@, boundary),
        entry@ is Object,
{
    let key = integer_text(boundary as i64);
    let mut word = "active".to_owned();
    match tree.get(key.as_str()) {
        Some(entry) => {
            if entry.is_object() {
                return entry.clone();
            }
            match entry.as_text() {
                Some(text) => {
                    word = text.to_owned();
                },
                None => {},
            }
        },
        None => {},
    }
    let mut entry = Json::empty_object();
    entry.set("status", Json::from_text(word.as_str()));
    entry
}

/// How the store answered the activation of an item.
#[derive(Clone, Copy, Debug, PartialEq, Eq, Structural)]
pub enum DigBossPreparationActivationOutcome {
    Applied,
    Conflict,
    ItemUnavailable,
    MissingPlayer,
    MissingTunnel,
}

/// What follows from the answer to a step of the store.
#[derive(Clone, Copy, Debug, PartialEq, Eq, Structural)]
pub enum StoreStep {
    Done,
    /// The record changed meanwhile: read it and decide again.
    Retry,
    MissingTunnel,
}

/// Decides what follows from the answer to an activation.
pub fn after_activation(outcome: DigBossPreparationActivationOutcome) -> (step: StoreStep)
    ensures
        step == (match outcome {
            DigBossPreparationActivationOutcome::Applied => StoreStep::Done,
            DigBossPreparationActivationOutcome::Conflict => StoreStep::Retry,
            DigBossPreparationActivationOutcome::ItemUnavailable => StoreStep::Retry,
            DigBossPreparationActivationOutcome::MissingPlayer => StoreStep::MissingTunnel,
            DigBossPreparationActivationOutcome::MissingTunnel => StoreStep::MissingTunnel,
        }),
{
    match outcome {
        DigBossPreparationActivationOutcome::Applied => StoreStep::Done,
        DigBossPreparationActivationOutcome::Conflict => StoreStep::Retry,
        DigBossPreparationActivationOutcome::ItemUnavailable => StoreStep::Retry,
        DigBossPreparationActivationOutcome::MissingPlayer => StoreStep::MissingTunnel,
        DigBossPreparationActivationOutcome::MissingTunnel => StoreStep::MissingTunnel,
    }
}

/// The item that stands prepared at a boundary of a progress column.
pub open spec fn active_preparation(column: Option<Seq<char>>, boundary: i32) -> Option<
    PreparationView,
> {
    match column {
        None => None,
        Some(text) => match json_of_text(text) {
            None => None,
            Some(tree) => prep_in_tree(tree, boundary),
        },
    }
}

/// The item that stands prepared at a boundary of a progress tree. Older
/// columns name it under `item`.
pub open spec fn prep_in_tree(tree: JsonView, boundary: i32) -> Option<PreparationView> {
    match tree.get(int_text(boundary as int)) {
        None => None,
        Some(entry) => match entry.get("active_prep"@) {
            None => None,
            Some(prep) => {
                let named = match prep.get("item_type"@) {
                    Some(item) => Some(item),
                    None => prep.get("item"@),
                };
                match named {
                    Some(JsonView::Text(item_type)) => Some(
                        PreparationView {
                            item_type,
                            used: prep.bool_at("used"@) == Some(true),
                        },
                    ),
                    _ => None,
                }
            },
        },
    }
}

/// Reads the item that stands prepared at a boundary.
pub fn read_active_preparation(column: Option<&str>, boundary: i32) -> (prep: Option<
    BossPreparationState,
>)
    ensures
        active_preparation(str_view(column), boundary) == (match prep {
            Some(prep) => Some(prep@),
            None => None,
        }),
{
    let text = match column {
        Some(text) => text,
        None => {
            return None;
        },
    };
    let tree = match parse_json(text) {
        Some(tree) => tree,
        None => {
            return None;
        },
    };
    let key = integer_text(boundary as i64);
    match tree.get(key.as_str()) {
        None => None,
        Some(entry) => match entry.get("active_prep") {
            None => None,
            Some(prep) => {
                let named = match prep.get("item_type") {
                    Some(item) => Some(item),
                    None => prep.get("item"),
                };
                match named {
                    Some(Json::Text(item_type)) => Some(
                        BossPreparationState {
                            item_type: item_type.clone(),
                            used: match prep.bool_at("used") {
                                Some(flag) => flag,
                                None => false,
                            },
                        },
                    ),
                    _ => None,
                }
            },
        },
    }
}

/// What a fight starts from.
#[derive(Debug)]
pub struct CombatBase {
    /// Health and damage of the player with their gear.
    pub player_hp: i32,
    pub player_damage: i32,
    pub effects: CombatEffects,
    pub relics: Vec<String>,
    pub gear: Vec<GearPiece>,
    /// The light to use where the record has none in range.
    pub luminosity: i32,
}

/// What a fighter brings into a fight, as far as it is counted in whole numbers.
#[derive(Debug)]
pub struct PreparedCombat {
    pub player_hp: i32,
    pub player_damage: i32,
    pub effects: CombatEffects,
    pub luminosity: i32,
    /// Cheers that count, at most three.
    pub cheers: usize,
    /// How often relics raise the hit chance.
    pub hit_bonuses: i32,
    /// How often relics lower the hit chance of the boss.
    pub boss_hit_cuts: i32,
    /// Whether a relic raises damage by its own share.
    pub hollow_fang: bool,
    pub shifting_idol: bool,
    /// Damage that a prepared item adds on top.
    pub player_damage_after_phase_delta: i32,
    pub boss_preparation: Option<BossPreparationState>,
}

/// The light that a fight is fought in.
pub open spec fn fight_luminosity(record: Option<BossRecordView>, otherwise: i32) -> i32 {
    match record {
        Some(record) => if i32::MIN <= record.luminosity <= i32::MAX {
            record.luminosity as i32
        } else {
            otherwise
        },
        None => otherwise,
    }
}

/// The number of cheers that count.
pub open spec fn fight_cheers(record: Option<BossRecordView>, now: i64) -> int {
    match record {
        Some(record) => {
            let count = active_cheers(record.cheer_data_json, now).len() as int;
            if count > 3 {
                3
            } else {
                count
            }
        },
        None => 0,
    }
}

/// The item that a record has prepared.
pub open spec fn fight_preparation(record: Option<BossRecordView>, boundary: i32) -> Option<
    PreparationView,
> {
    match record {
        Some(record) => active_preparation(record.boss_progress_json, boundary),
        None => None,
    }
}

/// The damage that pinnacle relics add at a depth.
pub open spec fn relic_damage(relics: Seq<Seq<char>>, boundary: i32) -> i32 {
    nearest32(
        nearest32(stat_total(relics, "dmg_plus_per_100"@) as int) * toward_zero(
            boundary as int,
            100,
        ),
    )
}

/// The effects that a fight starts with.
pub open spec fn armed_effects(
    effects: EffectsView,
    relics: Seq<Seq<char>>,
    gear: Seq<PieceView>,
) -> EffectsView {
    with_gear(with_relics(effects, relics), gear)
}

/// Works out what a fighter brings into a fight. The rolled stats of pinnacle
/// relics count only at the pinnacle.
pub fn prepare_combat(
    base: CombatBase,
    record: Option<&DigBossRuntimeSnapshot>,
    boundary: i32,
    pinnacle_depth: i32,
    now: i64,
) -> (prepared: PreparedCombat)
    ensures
        ({
            let relics = texts(base.relics@);
            let pinnacle = boundary == pinnacle_depth;
            let view = match record {
                Some(record) => Some(record@),
                None => None,
            };
            &&& prepared.player_hp == (if pinnacle {
                nearest32(base.player_hp + stat_total(relics, "hp_plus_1"@))
            } else {
                base.player_hp
            })
            &&& prepared.player_damage == (if pinnacle {
                nearest32(base.player_damage + relic_damage(relics, boundary))
            } else {
                base.player_damage
            })
            &&& prepared.effects@ == armed_effects(
                base.effects@,
                relics,
                piece_views(base.gear@),
            )
            &&& prepared.luminosity == fight_luminosity(view, base.luminosity)
            &&& prepared.cheers == fight_cheers(view, now)
            &&& prepared.hit_bonuses == (if pinnacle {
                nearest32(stat_total(relics, "hit_plus_002"@) as int)
            } else {
                0
            })
            &&& prepared.boss_hit_cuts == (if pinnacle {
                nearest32(stat_total(relics, "boss_hit_minus"@) as int)
            } else {
                0
            })
            &&& prepared.hollow_fang == relic_worn(relics, "hollow_fang"@)
            &&& prepared.shifting_idol == relic_worn(relics, "shifting_idol"@)
            &&& prepared.player_damage_after_phase_delta == (if fight_preparation(
                view,
                boundary,
            ) matches Some(prep) && prep.item_type == "tempered_whetstone"@ {
                1int
            } else {
                0
            })
            &&& fight_preparation(view, boundary) == (match prepared.boss_preparation {
                Some(prep) => Some(prep@),
                None => None,
            })
        }),
{
    let pinnacle = boundary == pinnacle_depth;
    let mut player_hp = base.player_hp;
    let mut player_damage = base.player_damage;
    let mut hit_bonuses: i32 = 0;
    let mut boss_hit_cuts: i32 = 0;
    if pinnacle {
        player_hp = add_stat(base.player_hp, &base.relics, "hp_plus_1");
        hit_bonuses = add_stat(0, &base.relics, "hit_plus_002");
        boss_hit_cuts = add_stat(0, &base.relics, "boss_hit_minus");
        let stacks = add_stat(0, &base.relics, "dmg_plus_per_100");
        let hundreds = crate::arith::div_toward_zero(boundary as i64, 100) as i32;
        player_damage = sat_add32(base.player_damage, sat_mul32(stacks, hundreds));
    }
    let mut effects = base.effects;
    apply_relics(&mut effects, &base.relics);
    apply_gear(&mut effects, &base.gear);
    let mut luminosity = base.luminosity;
    let mut cheers: usize = 0;
    let mut boss_preparation: Option<BossPreparationState> = None;
    match record {
        Some(record) => {
            if -2_147_483_648 <= record.luminosity && record.luminosity <= 2_147_483_647 {
                luminosity = record.luminosity as i32;
            }
            let counting = parse_active_cheers(borrow_text(&record.cheer_data_json), now);
            proof {
                crate::json::lemma_views_index(counting@);
            }
            cheers =
            if counting.len() > 3 {
                3
            } else {
                counting.len()
            };
            boss_preparation =
            read_active_preparation(borrow_text(&record.boss_progress_json), boundary);
        },
        None => {},
    }
    let whetted = match &boss_preparation {
        Some(prep) => same_text(prep.item_type.as_str(), "tempered_whetstone"),
        None => false,
    };
    PreparedCombat {
        player_hp,
        player_damage,
        effects,
        luminosity,
        cheers,
        hit_bonuses,
        boss_hit_cuts,
        hollow_fang: wears_relic(&base.relics, "hollow_fang"),
        shifting_idol: wears_relic(&base.relics, "shifting_idol"),
        player_damage_after_phase_delta: if whetted {
            1
        } else {
            0
        },
        boss_preparation,
    }
}

/// An item that was prepared stands ready, unused, so that preparing again has
/// nothing to do.
pub proof fn law_prepared_item_stands_ready(tree: JsonView, boundary: i32, item_type: Seq<char>)
    requires
        tree is Object,
        preparation_item(item_type),
    ensures
        stands_ready(with_prep(tree, boundary, item_type), boundary),
        prep_in_tree(with_prep(tree, boundary, item_type), boundary) == Some(
            PreparationView { item_type, used: false },
        ),
{
    reveal_strlit("item_type");
    reveal_strlit("used");
    assert("item_type"@.len() == 9);
    assert("used"@.len() == 4);
    assert(entry_object(tree, boundary) is Object);
}

/// Marking the prepared item as used keeps the item and every other field of the
/// boundary; clearing it leaves none.
pub proof fn law_used_item_stays_until_cleared(entry: JsonView, item_type: Seq<char>, key: Seq<char>)
    requires
        entry is Object,
        entry.get("active_prep"@) == Some(fresh_prep(item_type)),
        key != "active_prep"@,
    ensures
        prep_used(entry).get("active_prep"@) matches Some(prep) && prep.text_at("item_type"@)
            == Some(item_type) && prep.bool_at("used"@) == Some(true),
        prep_used(entry).get(key) == entry.get(key),
        entry.without("active_prep"@).get("active_prep"@) is None,
        entry.without("active_prep"@).get(key) == entry.get(key),
{
    reveal_strlit("item_type");
    reveal_strlit("used");
    assert("item_type"@.len() == 9);
    assert("used"@.len() == 4);
}

} // verus!
