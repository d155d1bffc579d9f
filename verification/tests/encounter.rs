//! Meeting bosses, wagering on them, and the service around it.

use cama_dig::boss_error::{BossServiceError, DigBossRuntimeError};
use cama_dig::boss_service::{
    collect_warnings, colour_of_land, composed_failure, current_boundary, drop_slot, drops_loot,
    gear_presentation_name, list_droppable, mana_counts, pet_can_assist, pick_drop,
    require_pinnacle, untaxed_profit, withhold_vanity, CatalogueArtifact, DigBossRuntimeConfig,
    DigBossRuntimeRequest, DigBossRuntimeResult, DigBossRuntimeService, DigBossVanityTaxPort,
    NoDigBossVanityTax, SqliteBossCombatPreparation, SqliteBossPreparationActivation,
};
use cama_dig::boss_store::{DigBossRuntimeSnapshot, PlayerKey};
use cama_dig::combat::GearSlot;
use cama_dig::duel::RiskTier;
use cama_dig::encounter::{
    after_cheer, check_cheer, cheerer_tunnel_name, count_cheers, dialogue_slot, encounter_key,
    encounter_phase, pick_line, plan_cheer, plan_encounter_seen, plan_retreat, show_encounter,
    tell_retreat, CarriedWager, DialogueSlot, DigBossCheerCommitOutcome, EncounterSource,
    CHEER_DURATION_SECONDS,
};
use cama_dig::json::parse_json;
use cama_dig::progress::{parse_boss_progress, BossProgress};
use cama_dig::wager::{
    clear_carried_wager_json, forfeits_wager, plan_abandon, resolve_pinnacle_wager,
    resolve_start_wager, stake_needs_wallet,
};

const NOW: i64 = 1_900_000_000;

fn record(progress: &str) -> DigBossRuntimeSnapshot {
    DigBossRuntimeSnapshot {
        balance: 100,
        depth: 24,
        max_depth: 30,
        prestige_level: 2,
        luminosity: 130,
        last_lum_update_at: None,
        last_dig_at: None,
        boss_attempts: 0,
        boss_progress_json: Some(progress.to_owned()),
        stinger_curse_json: None,
        cheer_data_json: None,
        stat_points: 5,
        stat_boss_awards_json: None,
        pinnacle_boss_id: None,
        pinnacle_phase: 2,
        pinnacle_hp_remaining: None,
        pinnacle_last_engaged_at: None,
    }
}

fn progress(column: &str) -> BossProgress {
    match parse_boss_progress(Some(column)) {
        Ok(progress) => progress,
        Err(_) => panic!("not JSON"),
    }
}

fn kept<T, E>(answer: Result<T, E>) -> T {
    match answer {
        Ok(value) => value,
        Err(_) => panic!("an error came back"),
    }
}

fn told<T>(answer: Result<T, DigBossRuntimeError>) -> String {
    match answer {
        Ok(_) => panic!("an error was due"),
        Err(error) => error.message().expect("a message"),
    }
}

#[test]
fn bosses_are_met_in_their_phase() {
    let column = r#"{"25":"phase1_defeated","50":{"status":"phase2_defeated","last_engaged_at":77}}"#;
    let state = record(column);
    let read = progress(column);
    assert_eq!(encounter_phase(false, &state, &read, 25), 2);
    assert_eq!(encounter_phase(false, &state, &read, 50), 3);
    assert_eq!(encounter_phase(false, &state, &read, 75), 1);
    assert_eq!(encounter_phase(true, &state, &read, 300), 2);
    assert_eq!(encounter_key(Some(column), false, 50, 300, 3), "77");
    assert_eq!(encounter_key(Some(column), true, 300, 300, 2), "");
}

fn source(is_pinnacle: bool) -> EncounterSource {
    EncounterSource {
        boundary: 25,
        boss_id: "grothak".to_owned(),
        boss_name: "Grothak".to_owned(),
        dialogue: "Hm.".to_owned(),
        is_pinnacle,
        phase: 1,
        regular_wager: false,
        carried: Some(CarriedWager { wager: 8, risk_tier: RiskTier::Bold }),
        lanterns: 0,
        has_great_lantern: false,
        encounter_key: "77".to_owned(),
    }
}

#[test]
fn encounters_are_shown() {
    let shown = kept(show_encounter(source(false), &record("{}")));
    assert_eq!(shown.luminosity, 100);
    assert_eq!((shown.carried_wager, shown.wager_allowed), (Some(8), false));
    assert!(!shown.has_scout_lantern);
    let mut far = record("{}");
    far.prestige_level = i64::MAX;
    assert!(told(show_encounter(source(false), &far)).starts_with("Dig boss infrastructure failed: "));
    assert!(kept(show_encounter(source(true), &far)).wager_allowed);
}

#[test]
fn bosses_speak_by_how_they_were_left() {
    let slot = |outcome: &str| {
        let column =
            format!(r#"{{"25":{{"status":"active","first_meet_seen":true,"last_outcome":"{outcome}"}}}}"#);
        dialogue_slot(false, 1, &progress(&column), 25)
    };
    assert_eq!(slot("defeated"), DialogueSlot::AfterDefeat);
    assert_eq!(slot("retreat"), DialogueSlot::AfterRetreat);
    assert_eq!(slot("close_win"), DialogueSlot::AfterCloseWin);
    assert_eq!(slot("scout"), DialogueSlot::AfterScout);
    assert_eq!(slot("tea"), DialogueSlot::FirstMeet);
    assert_eq!(dialogue_slot(false, 2, &progress("{}"), 25), DialogueSlot::Phase);
    assert_eq!(dialogue_slot(true, 2, &progress("{}"), 25), DialogueSlot::FirstMeet);
    let lines = vec!["a".to_owned(), "b".to_owned()];
    assert_eq!((pick_line(&lines, 0), pick_line(&lines, 9)), ("a".to_owned(), "b".to_owned()));
    assert_eq!(pick_line(&Vec::new(), 0), "A fearsome guardian blocks your path!");
}

#[test]
fn meetings_are_marked_once() {
    let written = plan_encounter_seen(Some(r#"{"25":"active"}"#), 25, "grothak").expect("new");
    assert_eq!(
        written,
        r#"{"25":{"boss_id":"grothak","first_meet_seen":true,"status":"active"}}"#
    );
    assert!(plan_encounter_seen(Some(&written), 25, "grothak").is_none());
    assert!(plan_encounter_seen(Some(&written), 25, "other").is_some());
}

#[test]
fn retreats_cost_blocks_and_half_the_carried_wager() {
    let column = r#"{"25":{"carried_risk_tier":"bold","carried_wager":9,"status":"active"}}"#;
    let plan = plan_retreat(&record(column), 25, Some(9), 7);
    assert_eq!((plan.block_loss, plan.forfeit), (3, 4));
    assert_eq!((plan.proposed.depth, plan.proposed.balance), (21, 96));
    let told = kept(tell_retreat(25, &plan));
    assert_eq!((told.new_depth, told.actual_balance_delta), (21, -4));
    let tree = parse_json(plan.proposed.boss_progress_json.as_deref().expect("progress"))
        .expect("JSON");
    let entry = tree.get("25").expect("an entry");
    assert_eq!(entry.text_at("last_outcome"), Some("retreat"));
    assert!(entry.get("carried_wager").is_none());
    assert!(tell_retreat(i64::MAX, &plan).is_err());
}

#[test]
fn cheers_are_limited() {
    assert_eq!(told(check_cheer(7, 7)), "You can't cheer for yourself.");
    assert_eq!(
        told(plan_cheer(7, 8, false, None, None, NOW)),
        "That player is not at a boss boundary."
    );
    assert_eq!(
        told(plan_cheer(7, 8, true, Some(NOW - 40), None, NOW)),
        "Cheer cooldown (5s remaining)."
    );
    let first = kept(plan_cheer(7, 8, true, Some(NOW - 45), None, NOW));
    let second = kept(plan_cheer(5, 8, true, None, Some(&first), NOW));
    let third = kept(plan_cheer(6, 8, true, None, Some(&second), NOW));
    assert_eq!(count_cheers(&third, NOW), 3);
    assert_eq!(
        told(plan_cheer(4, 8, true, None, Some(&third), NOW)),
        "Boss already at full cheer boost (3/3)."
    );
    assert_eq!(count_cheers(&third, NOW + CHEER_DURATION_SECONDS), 0);
    assert_eq!(cheerer_tunnel_name(-7), "Miner -7");
    assert_eq!(after_cheer(DigBossCheerCommitOutcome::Applied), Ok(true));
    assert_eq!(after_cheer(DigBossCheerCommitOutcome::Conflict), Ok(false));
    assert_eq!(
        told(after_cheer(DigBossCheerCommitOutcome::MissingTarget)),
        "That player doesn't have a tunnel."
    );
    assert_eq!(
        after_cheer(DigBossCheerCommitOutcome::MissingCheerer),
        Err(DigBossRuntimeError::Policy(BossServiceError::MissingTunnel))
    );
}

#[test]
fn an_accepted_cheer_is_counted() {
    let column = format!(
        r#"[{{"expires_at":{}}},{{"expires_at":{},"note":0.1}},{{"expires_at":1.5}}]"#,
        NOW,
        NOW + 5
    );
    assert_eq!(count_cheers(&column, NOW), 1);
    let written = kept(plan_cheer(7, 8, true, None, Some(&column), NOW));
    assert_eq!(count_cheers(&written, NOW), 2);
    assert_eq!(count_cheers(&written, NOW + 5), 1);
    assert_eq!(count_cheers(&written, NOW + CHEER_DURATION_SECONDS - 1), 1);
    assert_eq!(count_cheers(&written, NOW + CHEER_DURATION_SECONDS), 0);
}

#[test]
fn only_a_new_wager_asks_for_the_wallet() {
    assert!(stake_needs_wallet(true, false, 1, 50));
    assert!(stake_needs_wallet(true, false, 50, 50));
    assert!(!stake_needs_wallet(true, false, 0, 50));
    assert!(!stake_needs_wallet(true, false, 51, 50));
    assert!(!stake_needs_wallet(true, false, -1, 50));
    assert!(!stake_needs_wallet(true, true, 1, 50));
    assert!(!stake_needs_wallet(false, false, 1, 50));
}

#[test]
fn regular_wagers_are_covered_and_halved_by_the_curse() {
    let plain = kept(resolve_start_wager(9, true, false, 9));
    assert_eq!((plain.effective, plain.consumes_curse), (9, false));
    let cursed = kept(resolve_start_wager(9, true, true, 5));
    assert_eq!((cursed.effective, cursed.consumes_curse), (5, true));
    assert_eq!(
        resolve_start_wager(-1, true, false, 9),
        Err(DigBossRuntimeError::Policy(BossServiceError::NegativeWager))
    );
    assert_eq!(
        resolve_start_wager(1, false, false, 9),
        Err(DigBossRuntimeError::Policy(BossServiceError::WagerNotAllowed))
    );
    assert_eq!(
        resolve_start_wager(10, true, false, 9),
        Err(DigBossRuntimeError::Policy(BossServiceError::InsufficientBalance {
            wager: 10,
            balance: 9
        }))
    );
}

#[test]
fn pinnacle_wagers_are_capped_or_carried() {
    let carried = Some(CarriedWager { wager: 80, risk_tier: RiskTier::Reckless });
    let stake = kept(resolve_pinnacle_wager(true, carried, RiskTier::Bold, 1, 50, true, 0));
    assert_eq!((stake.wager, stake.carried), (80, true));
    assert_eq!(stake.risk_tier, RiskTier::Reckless);
    assert_eq!(
        told(resolve_pinnacle_wager(true, None, RiskTier::Bold, 51, 50, false, 100)),
        "Boss wagers cannot exceed 50 JC (received 51)."
    );
    assert_eq!(kept(resolve_pinnacle_wager(true, None, RiskTier::Bold, 0, 50, true, -5)).wager, 0);
    assert_eq!(
        resolve_pinnacle_wager(false, None, RiskTier::Bold, 0, 50, false, 1),
        Err(DigBossRuntimeError::Policy(BossServiceError::NotAtBossBoundary))
    );
}

#[test]
fn abandoned_fights_forfeit_what_the_wallet_covers() {
    let column = r#"{"25":{"carried_wager":9,"note":1,"status":"active"}}"#;
    let plan = kept(plan_abandon(&record(column), 140, 25, "grothak"));
    assert_eq!((plan.wager_forfeit, plan.proposed.balance), (100, 0));
    assert_eq!(
        plan.proposed.boss_progress_json.as_deref(),
        Some(r#"{"25":{"note":1,"status":"active"}}"#)
    );
    assert_eq!(
        plan.detail,
        r#"{"abandoned_duel":true,"boss_id":"grothak","boundary":25,"wager_forfeit":100}"#
    );
    assert!(plan_abandon(&record("{"), 1, 25, "grothak").is_err());
    assert!(forfeits_wager(1) && !forfeits_wager(-1));
    assert_eq!(clear_carried_wager_json(None, 25), Ok(None));
    assert_eq!(
        clear_carried_wager_json(Some("{"), 25),
        Err(DigBossRuntimeError::Infrastructure(
            "EOF while parsing an object at line 1 column 1".to_owned()
        ))
    );
}

/// Takes a tenth.
struct Tithe;

impl DigBossVanityTaxPort for Tithe {
    fn calculate_tax(&self, _discord_id: i64, _guild_id: i64, gross_profit: i64) -> i64 {
        gross_profit / 10
    }
}

#[test]
fn profits_are_taxed_by_the_port() {
    let key = DigBossRuntimeRequest { discord_id: 7, guild_id: 9, now: NOW }.player_key();
    assert_eq!(key, PlayerKey { player_id: 7, guild_id: 9 });
    let plain = DigBossRuntimeService::<NoDigBossVanityTax>::sqlite(DigBossRuntimeConfig::new(
        "dig.db", 4,
    ));
    assert_eq!(plain.config().pet_hunger_decay_per_day, 4);
    let left = untaxed_profit(&plain, key, 100, 90, 10);
    assert_eq!((left.penalized, left.penalty_applied, left.vanity_tax), (90, 10, 0));
    let taxed = plain.with_vanity_tax(Tithe).apply_penalty(key, 100, 90, 10);
    assert_eq!((taxed.penalized, taxed.vanity_tax), (80, 10));
    assert_eq!(withhold_vanity(5, 0, 9).penalized, 0);
    assert_eq!(withhold_vanity(5, 0, -9).vanity_tax, 0);
}

#[test]
fn errors_are_handed_over_once() {
    let mut activation = SqliteBossPreparationActivation::new("dig.db");
    assert_eq!(activation.database_path(), "dig.db");
    assert_eq!(activation.take_error(), None);
    activation.fail("locked");
    assert_eq!(activation.take_error().as_deref(), Some("locked"));
    assert_eq!(activation.take_error(), None);
    let mut preparation = SqliteBossCombatPreparation::new("dig.db", 3);
    assert_eq!((preparation.database_path(), preparation.hunger_decay()), ("dig.db", 3));
    preparation.fail("gone");
    assert_eq!(preparation.take_error().as_deref(), Some("gone"));
    assert!(composed_failure(None, None).is_none());
    assert_eq!(
        composed_failure(Some("a".to_owned()), Some("b".to_owned())),
        Some(DigBossRuntimeError::Infrastructure("a".to_owned()))
    );
}

#[test]
fn results_carry_their_warnings_and_forfeits() {
    let warnings = collect_warnings(
        vec!["economy".to_owned()],
        &vec!["bankruptcy".to_owned()],
        Some("gear".to_owned()),
        None,
    );
    assert_eq!(warnings, ["economy", "bankruptcy", "gear"]);
    let mut result = DigBossRuntimeResult::plain(1, Some(4), warnings);
    result.note_abandoned(Some(3), 12, vec![8]);
    let (renamed, before) = result.with_outcome("won");
    assert_eq!((renamed.outcome, before), ("won", 1));
    assert_eq!((renamed.action_id, renamed.abandoned_action_id), (Some(4), Some(3)));
    assert_eq!(renamed.abandoned_wager_forfeit, 12);
}

#[test]
fn boundaries_are_required() {
    assert_eq!(
        current_boundary(None),
        Err(DigBossRuntimeError::Policy(BossServiceError::NotAtBossBoundary))
    );
    assert_eq!(current_boundary(Some(25)), Ok(25));
    assert!(current_boundary(Some(i64::MAX)).is_err());
    assert_eq!(require_pinnacle(Some(300), 300), Ok(()));
    assert!(require_pinnacle(Some(25), 300).is_err());
}

#[test]
fn drops_come_from_what_may_drop() {
    let artifact = |id: &str, is_relic: bool, trophy: bool, min_prestige: i64| CatalogueArtifact {
        id: id.to_owned(),
        name: id.to_owned(),
        rarity: "rare".to_owned(),
        is_relic,
        trophy,
        min_prestige,
    };
    let catalogue = vec![
        artifact("a", true, false, 1),
        artifact("b", true, true, 1),
        artifact("c", true, false, 3),
        artifact("d", false, false, 1),
        artifact("e", true, false, 2),
        artifact("f", true, false, 0),
    ];
    assert_eq!(list_droppable(&catalogue, 2, &Vec::new()), [0, 4]);
    assert_eq!(list_droppable(&catalogue, 2, &vec!["a".to_owned()]), [4]);
    assert_eq!(pick_drop(&vec![0, 4], 3), Some(4));
    assert_eq!(pick_drop(&Vec::new(), 3), None);
    assert_eq!(drop_slot(5), GearSlot::Armor);
    assert!(drops_loot(true, true, false) && !drops_loot(true, true, true));
    assert_eq!(gear_presentation_name(4, None, None), "Gear #4");
    assert_eq!(gear_presentation_name(4, None, Some("Iron Boots")), "Iron Boots");
    assert_eq!(gear_presentation_name(4, Some("Anchors"), Some("Iron Boots")), "Anchors");
}

#[test]
fn mana_and_pets_count_on_their_day() {
    assert_eq!(colour_of_land("Island"), Some("Blue"));
    assert_eq!(colour_of_land("Lake"), None);
    assert!(mana_counts("2024-01-01", "2024-01-01", false));
    assert!(!mana_counts("2024-01-01", "2024-01-01", true));
    assert!(!mana_counts("2024-01-01", "2024-01-02", false));
    assert!(pet_can_assist(true, 10, 10) && !pet_can_assist(true, 9, 10));
    assert!(!pet_can_assist(false, 10, 10));
}

#[test]
fn meeting_a_boss_again_shows_the_same() {
    let column = r#"{"25":{"status":"phase1_defeated","odds":0.25,"carried_wager":40,
        "carried_risk_tier":"bold","last_engaged_at":5},"50":"defeated"}"#;
    let mut met = record(column);
    let stored = plan_encounter_seen(met.boss_progress_json.as_deref(), 25, "grothak")
        .expect("a first meeting is stored");
    let before = progress(column);
    let after = progress(&stored);
    let phase = encounter_phase(false, &met, &before, 25);
    let name = encounter_key(Some(column), false, 25, 350, phase);
    met.boss_progress_json = Some(stored.clone());
    assert_eq!((phase, encounter_phase(false, &met, &after, 25)), (2, 2));
    assert_eq!(encounter_key(Some(&stored), false, 25, 350, phase), name);
    let tree = parse_json(&stored).expect("JSON");
    let entry = tree.get("25").expect("an entry");
    assert_eq!(entry.bool_at("first_meet_seen"), Some(true));
    assert_eq!(entry.text_at("boss_id"), Some("grothak"));
    assert_eq!(entry.int_at("carried_wager"), Some(40));
    assert_eq!(entry.text_at("carried_risk_tier"), Some("bold"));
    assert_eq!(tree.text_at("50"), Some("defeated"));
    assert!(plan_encounter_seen(Some(&stored), 25, "grothak").is_none());
}

#[test]
fn a_retreat_carries_nothing_and_keeps_the_status() {
    let column = r#"{"25":{"status":"phase1_defeated","carried_wager":40,
        "carried_risk_tier":"bold"},"50":"defeated"}"#;
    let plan = plan_retreat(&record(column), 25, Some(40), 2);
    let stored = plan.proposed.boss_progress_json.expect("progress");
    let tree = parse_json(&stored).expect("JSON");
    let entry = tree.get("25").expect("an entry");
    assert!(entry.get("carried_wager").is_none() && entry.get("carried_risk_tier").is_none());
    assert_eq!(entry.text_at("last_outcome"), Some("retreat"));
    assert_eq!(entry.bool_at("first_meet_seen"), Some(true));
    assert_eq!(entry.text_at("status"), Some("phase1_defeated"));
    assert_eq!(tree.text_at("50"), Some("defeated"));
}
