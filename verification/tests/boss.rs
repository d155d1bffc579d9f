//! What is kept of bosses: progress, curses, preparations, gear and revisions.

use cama_dig::boss_store::{
    same_loaded, same_record, BossSnapshotCache, DigBossRuntimeSnapshot, LoadedBossSnapshot,
    PlayerKey,
};
use cama_dig::boss_tunnel::{
    after_commit, boss_audit_detail, narrow_i32, plan_commit, state_from_tunnel,
    echo_from_store, tunnel_from_snapshot, BossAuditRecord, CommitOutcome, EchoRecord, FightCommit,
    FightPlanError, RepositoryError, StoredEcho,
};
use cama_dig::combat::{
    add_stat, apply_gear, apply_relics, find_worn, has_attempt_effect, list_worn_relics,
    parse_active_cheers, split, wears_effect, wears_relic, CombatEffects, EquippedArtifact,
    GearPiece, GearSlot,
};
use cama_dig::curse::{merge_stinger_curse, parse_stinger_curse, StingerCurseState};
use cama_dig::inventory::InventoryItemRecord;
use cama_dig::json::parse_json;
use cama_dig::preparation::{
    after_activation, apply_preparation_mutation, is_preparation_item, plan_activation,
    prepare_combat, read_active_preparation, read_entry_object, BossPreparationMutation,
    CombatBase, DigBossPreparationActivationOutcome, PreparationStep, StoreStep,
};
use cama_dig::progress::{
    merge_boss_progress, narrow, parse_boss_progress, parse_status, set_optional_i64,
    set_optional_string, status_for_boundary, status_for_boundary_raw, status_name, BossProgress,
    BossProgressEntry, BossProgressValue, BossStatus,
};

const NOW: i64 = 1_900_000_000;

fn record() -> DigBossRuntimeSnapshot {
    DigBossRuntimeSnapshot {
        balance: 100,
        depth: 24,
        max_depth: 30,
        prestige_level: 2,
        luminosity: 80,
        last_lum_update_at: None,
        last_dig_at: Some(NOW - 60),
        boss_attempts: 3,
        boss_progress_json: Some(r#"{"25":{"status":"active","boss_id":"grothak","note":1}}"#.to_owned()),
        stinger_curse_json: None,
        cheer_data_json: None,
        stat_points: 5,
        stat_boss_awards_json: None,
        pinnacle_boss_id: None,
        pinnacle_phase: 1,
        pinnacle_hp_remaining: None,
        pinnacle_last_engaged_at: None,
    }
}

fn loaded() -> LoadedBossSnapshot {
    LoadedBossSnapshot { snapshot: record(), lantern_ids: vec![5, 6], has_great_lantern: false }
}

fn entry(status: BossStatus) -> BossProgressEntry {
    BossProgressEntry {
        status,
        boss_id: Some("grothak".to_owned()),
        hp_remaining: Some(7),
        hp_max: Some(9),
        last_engaged_at: Some(NOW),
        last_outcome: Some("defeated".to_owned()),
        first_meet_seen: true,
        pending_phase_event_id: None,
    }
}

fn kept<T, E>(answer: Result<T, E>) -> T {
    match answer {
        Ok(value) => value,
        Err(_) => panic!("an error came back"),
    }
}

fn words(list: &[&str]) -> Vec<String> {
    list.iter().map(|word| (*word).to_owned()).collect()
}

#[test]
fn boss_progress_flat_and_nested_shapes_both_parse() {
    let progress = kept(parse_boss_progress(Some(
        r#"{"25":"defeated","50":{"status":"phase1_defeated","hp_remaining":4},"75":7}"#,
    )));
    assert_eq!(status_for_boundary(&progress, 25), BossStatus::Defeated);
    assert_eq!(status_for_boundary(&progress, 50), BossStatus::PhaseOneDefeated);
    assert_eq!(status_for_boundary(&progress, 100), BossStatus::Active);
    assert!(parse_boss_progress(Some("{")).is_err());
    assert!(kept(parse_boss_progress(None)).get("25").is_none());
    assert_eq!(
        status_for_boundary_raw(Some(r#"{"25":{"status":"defeated"}}"#), 25),
        BossStatus::Defeated
    );
    assert_eq!(status_for_boundary_raw(Some("nonsense"), 25), BossStatus::Active);
}

#[test]
fn statuses_have_names_that_read_back() {
    for status in [
        BossStatus::Active,
        BossStatus::PhaseOneDefeated,
        BossStatus::PhaseTwoDefeated,
        BossStatus::Defeated,
    ] {
        assert_eq!(parse_status(status_name(status)), status);
    }
    assert_eq!(parse_status("unheard of"), BossStatus::Active);
    assert_eq!(narrow(Some(i64::MAX)), None);
    assert_eq!(narrow(Some(-4)), Some(-4));
}

#[test]
fn progress_is_written_over_its_column() {
    let mut progress = BossProgress::new();
    progress.set("25", BossProgressValue::Entry(entry(BossStatus::PhaseTwoDefeated)));
    let column = r#"{"25":{"note":1,"status":"active"},"50":"defeated"}"#;
    let merged = merge_boss_progress(Some(column), &progress);
    let tree = parse_json(&merged).expect("JSON");
    assert_eq!(tree.get("25").and_then(|entry| entry.int_at("note")), Some(1));
    assert_eq!(tree.get("25").and_then(|entry| entry.int_at("hp_remaining")), Some(7));
    let back = kept(parse_boss_progress(Some(&merged)));
    assert_eq!(status_for_boundary(&back, 25), BossStatus::PhaseTwoDefeated);
    assert_eq!(status_for_boundary(&back, 50), BossStatus::Defeated);
    match back.get("25") {
        Some(BossProgressValue::Entry(read)) => assert_eq!(*read, entry(BossStatus::PhaseTwoDefeated)),
        _ => panic!("no entry"),
    }
}

#[test]
fn optional_fields_are_set_or_dropped() {
    let mut tree = parse_json(r#"{"a":"x","b":1}"#).expect("JSON");
    set_optional_string(&mut tree, "a", None);
    set_optional_i64(&mut tree, "b", Some(2));
    set_optional_string(&mut tree, "c", Some("y"));
    assert!(tree.get("a").is_none());
    assert_eq!(tree.int_at("b"), Some(2));
    assert_eq!(tree.text_at("c"), Some("y"));
}

#[test]
fn curses_read_back_and_leave_other_fields() {
    let curse = StingerCurseState {
        halve_next_wager: true,
        no_scout_next_dig: false,
        drain_next_reward: true,
        boss_id: Some("grothak".to_owned()),
    };
    let merged = merge_stinger_curse(Some(r#"{"since":4,"no_scout_next_dig":true}"#), &curse)
        .expect("something to keep");
    assert_eq!(parse_stinger_curse(Some(&merged)), curse);
    assert_eq!(parse_json(&merged).and_then(|tree| tree.int_at("since")), Some(4));
    let none = parse_stinger_curse(None);
    assert!(merge_stinger_curse(Some("{}"), &none).is_none());
}

#[test]
fn relics_and_gear_take_effect() {
    let mut effects = CombatEffects::default();
    assert!(!has_attempt_effect(&effects));
    apply_relics(&mut effects, &words(&["paper_crane"]));
    assert!(wears_relic(&words(&["a", "paper_crane"]), "paper_crane"));
    assert!(!wears_relic(&words(&["a"]), "paper_crane"));
    let piece = |slot: GearSlot, durability: i64, effect: &str| GearPiece {
        slot,
        equipped: true,
        durability,
        effect_id: Some(effect.to_owned()),
    };
    let gear = vec![
        piece(GearSlot::Armor, 0, "reflect_first_hit"),
        piece(GearSlot::Boots, 4, "block_first_skip"),
    ];
    assert!(find_worn(&gear, GearSlot::Armor).is_some_and(|piece| piece.durability == 0));
    assert!(find_worn(&gear, GearSlot::Weapon).is_none());
    assert!(wears_effect(&gear, "block_first_skip"));
    assert!(!wears_effect(&gear, "reflect_first_hit"));
    apply_gear(&mut effects, &gear);
    assert!(effects.relics.paper_crane && !effects.relics.double_hit);
    assert!(effects.gear.block_first_skip && !effects.gear.reflect_first_hit);
    assert!(has_attempt_effect(&effects));
    let artifact = |id: &str, is_relic: bool, equipped: bool| EquippedArtifact {
        artifact_id: id.to_owned(),
        is_relic,
        equipped,
    };
    assert_eq!(
        list_worn_relics(&vec![
            artifact("a", true, true),
            artifact("b", false, true),
            artifact("c", true, false),
        ]),
        ["a"]
    );
}

#[test]
fn pinnacle_relics_name_their_stats() {
    assert_eq!(split("pinnacle:hp_plus_1:dmg", ':'), ["pinnacle", "hp_plus_1", "dmg"]);
    assert_eq!(split("", ':'), [""]);
    assert_eq!(add_stat(5, &words(&["plain"]), "hp_plus_1"), 5);
}

#[test]
fn cheers_count_while_they_last() {
    let column = r#"[{"expires_at":1900000001},{"expires_at":1900000000},{"x":1}]"#;
    assert_eq!(parse_active_cheers(Some(column), NOW).len(), 1);
    assert!(parse_active_cheers(Some("{}"), NOW).is_empty());
    assert!(parse_active_cheers(None, NOW).is_empty());
}

#[test]
fn an_unchanged_record_keeps_its_revision() {
    let key = PlayerKey { player_id: 7, guild_id: 9 };
    let mut cache = BossSnapshotCache::new();
    let first = cache.remember(key, loaded());
    assert_eq!(cache.remember(key, loaded()), first);
    let mut other = loaded();
    other.snapshot.balance = 99;
    assert!(!same_loaded(&other, &loaded()));
    assert!(!same_record(&other.snapshot, &record()));
    let second = cache.remember(key, other);
    assert_ne!(second, first);
    assert_eq!(cache.expected(key, first).map(|kept| kept.snapshot.balance), Some(100));
    assert_eq!(cache.expected(key, second).map(|kept| kept.snapshot.balance), Some(99));
    cache.invalidate(key);
    assert_eq!(cache.expected(key, second).map(|kept| kept.snapshot.balance), Some(99));
    let third = cache.remember(key, loaded());
    assert!(third > second);
    let stranger = PlayerKey { player_id: 8, guild_id: 9 };
    assert!(cache.expected(stranger, first).is_none());
}

#[test]
fn prepared_items_stand_ready_are_used_and_cleared() {
    assert!(is_preparation_item("warding_salts"));
    assert!(!is_preparation_item("torch"));
    let queued = vec![
        InventoryItemRecord { id: 1, item_type: "torch".to_owned(), queued: true },
        InventoryItemRecord { id: 2, item_type: "rescue_line".to_owned(), queued: true },
        InventoryItemRecord { id: 3, item_type: "warding_salts".to_owned(), queued: true },
    ];
    let column = r#"{"25":"active"}"#;
    let written = match plan_activation(Some(column), 25, &queued) {
        PreparationStep::Activate { item_id, item_type, boss_progress_json } => {
            assert_eq!((item_id, item_type.as_str()), (2, "rescue_line"));
            boss_progress_json
        }
        PreparationStep::Nothing => panic!("an item was queued"),
    };
    assert!(matches!(plan_activation(Some(&written), 25, &queued), PreparationStep::Nothing));
    let ready = read_active_preparation(Some(&written), 25).expect("prepared");
    assert_eq!((ready.item_type.as_str(), ready.used), ("rescue_line", false));
    let used = kept(apply_preparation_mutation(
        Some(written),
        BossPreparationMutation::MarkUsed { boundary: 25 },
    ));
    assert!(read_active_preparation(used.as_deref(), 25).is_some_and(|prep| prep.used));
    let cleared = kept(apply_preparation_mutation(
        used,
        BossPreparationMutation::Clear { boundary: 25 },
    ));
    assert!(read_active_preparation(cleared.as_deref(), 25).is_none());
    assert!(apply_preparation_mutation(
        Some("{".to_owned()),
        BossPreparationMutation::Clear { boundary: 25 }
    )
    .is_err());
    assert_eq!(
        kept(apply_preparation_mutation(Some("{".to_owned()), BossPreparationMutation::Preserve)),
        Some("{".to_owned())
    );
    let tree = parse_json(column).expect("JSON");
    assert_eq!(read_entry_object(&tree, 25).text_at("status"), Some("active"));
    assert_eq!(read_entry_object(&tree, 50).text_at("status"), Some("active"));
}

#[test]
fn activations_are_tried_again_or_given_up() {
    assert_eq!(after_activation(DigBossPreparationActivationOutcome::Applied), StoreStep::Done);
    assert_eq!(after_activation(DigBossPreparationActivationOutcome::Conflict), StoreStep::Retry);
    assert_eq!(after_activation(DigBossPreparationActivationOutcome::ItemUnavailable), StoreStep::Retry);
    assert_eq!(after_activation(DigBossPreparationActivationOutcome::MissingPlayer), StoreStep::MissingTunnel);
    assert_eq!(after_activation(DigBossPreparationActivationOutcome::MissingTunnel), StoreStep::MissingTunnel);
}

fn combat_base(relics: &[&str]) -> CombatBase {
    CombatBase {
        player_hp: 5,
        player_damage: 2,
        effects: CombatEffects::default(),
        relics: words(relics),
        gear: Vec::new(),
        luminosity: 80,
    }
}

#[test]
fn combat_is_prepared_from_the_record() {
    let mut stored = record();
    stored.cheer_data_json = Some(r#"[{"expires_at":1900000001}]"#.to_owned());
    let prepared = prepare_combat(combat_base(&[]), Some(&stored), 25, 300, NOW);
    assert_eq!((prepared.player_hp, prepared.player_damage), (5, 2));
    assert_eq!(prepared.cheers, 1);
    assert!(prepared.boss_preparation.is_none());
    let bare = prepare_combat(combat_base(&[]), None, 25, 300, NOW);
    assert_eq!(bare.cheers, 0);
}

#[test]
fn a_tunnel_is_read_and_written_back_unchanged() {
    let tunnel = kept(tunnel_from_snapshot(&loaded(), 4));
    assert_eq!((tunnel.depth, tunnel.lanterns, tunnel.revision), (24, 2, 4));
    let state = state_from_tunnel(&record(), &tunnel);
    assert_eq!(state.depth, 24);
    assert_eq!(state.balance, 100);
    let tree = parse_json(state.boss_progress_json.as_deref().expect("progress")).expect("JSON");
    assert_eq!(tree.get("25").and_then(|entry| entry.int_at("note")), Some(1));
    let mut deep = loaded();
    deep.snapshot.depth = i64::MAX;
    assert!(tunnel_from_snapshot(&deep, 4).is_err());
    assert_eq!(narrow_i32(7, "depth"), Ok(7));
    assert!(narrow_i32(i64::MIN, "depth").is_err());
}

fn commit(lanterns: u32) -> FightCommit {
    let mut next_tunnel = kept(tunnel_from_snapshot(&loaded(), 4));
    next_tunnel.lanterns = lanterns;
    next_tunnel.depth = 26;
    next_tunnel.balance = 130;
    FightCommit {
        next_tunnel,
        preparation_mutation: BossPreparationMutation::Preserve,
        audit: Some(BossAuditRecord {
            boss_id: "grothak".to_owned(),
            boundary: 25,
            won: true,
            jc_delta: 30,
            depth_after: 26,
        }),
        echo: Some(EchoRecord {
            boss_id: "grothak".to_owned(),
            boundary: 25,
            killer_id: 7,
            weakened_until: NOW + 60,
        }),
        vanity_tax: 2,
    }
}

#[test]
fn echoes_are_stored_and_read_back() {
    let echo = commit(2).echo.expect("an echo");
    let stored = kept(plan_commit(Some(&loaded()), &commit(2))).echo.expect("an echo");
    assert_eq!((stored.depth, stored.killer_id), (25, 7));
    assert_eq!(echo_from_store(stored), echo);
    let deep = StoredEcho {
        boss_id: "grothak".to_owned(),
        depth: i64::MAX,
        killer_id: 7,
        weakened_until: 0,
    };
    assert_eq!(echo_from_store(deep).boundary, i32::MAX);
    let mut silent = commit(2);
    silent.echo = None;
    assert!(kept(plan_commit(Some(&loaded()), &silent)).echo.is_none());
}

#[test]
fn columns_that_are_not_json_are_turned_away_in_words() {
    let words = "boss_progress JSON is invalid: EOF while parsing an object at line 1 column 1";
    assert_eq!(parse_boss_progress(Some("{")).err().as_deref(), Some(words));
    let mutation = BossPreparationMutation::Clear { boundary: 25 };
    let changed = apply_preparation_mutation(Some("{".to_owned()), mutation);
    assert_eq!(changed.err().as_deref(), Some(words));
    let mut broken = loaded();
    broken.snapshot.boss_progress_json = Some("{".to_owned());
    assert_eq!(tunnel_from_snapshot(&broken, 4).err().as_deref(), Some(words));
    let mut ledger = loaded();
    ledger.snapshot.stat_boss_awards_json = Some("[".to_owned());
    assert!(plan_commit(Some(&ledger), &commit(2)).is_ok());
    let mut cleared = commit(2);
    let beaten = BossProgressValue::Legacy(BossStatus::Defeated);
    cleared.next_tunnel.boss_progress.set("25", beaten);
    match plan_commit(Some(&ledger), &cleared) {
        Err(FightPlanError::Broken(words)) => {
            assert_eq!(words, "EOF while parsing a list at line 1 column 1");
        }
        _ => panic!("the ledger is not JSON"),
    }
}

#[test]
fn fights_are_committed_against_what_was_loaded() {
    let plan = kept(plan_commit(Some(&loaded()), &commit(2)));
    assert_eq!((plan.proposed.depth, plan.proposed.balance), (26, 130));
    assert_eq!(plan.spent_lantern, None);
    let detail = parse_json(plan.detail.as_deref().expect("an audit")).expect("JSON");
    assert_eq!(detail.text_at("boss_id"), Some("grothak"));
    assert_eq!(kept(plan_commit(Some(&loaded()), &commit(1))).spent_lantern, Some(5));
    assert!(matches!(plan_commit(None, &commit(2)), Err(FightPlanError::Conflict)));
    assert!(matches!(after_commit(CommitOutcome::Applied, None, false), Ok(())));
    assert!(matches!(
        after_commit(CommitOutcome::Conflict, None, false),
        Err(RepositoryError::Conflict)
    ));
    assert!(matches!(
        after_commit(CommitOutcome::MissingTunnel, None, false),
        Err(RepositoryError::MissingTunnel)
    ));
    let audit = BossAuditRecord {
        boss_id: "x".to_owned(),
        boundary: 25,
        won: false,
        jc_delta: -4,
        depth_after: 12,
    };
    let told = parse_json(&boss_audit_detail(&audit, 0)).expect("JSON");
    assert_eq!(told.bool_at("won"), Some(false));
}

#[test]
fn progress_and_curses_read_back_whatever_fractions_a_column_has() {
    let column = r#"{"25":{"status":"phase1_defeated","boss_id":"grothak","odds":0.1,
        "list":[1,2.5]},"50":"defeated","rest":{"deep":[{"x":1e300}]}}"#;
    let progress = parse_boss_progress(Some(column)).expect("progress");
    let merged = merge_boss_progress(Some(column), &progress);
    let back = parse_boss_progress(Some(&merged)).expect("progress");
    assert_eq!(status_for_boundary(&back, 25), BossStatus::PhaseOneDefeated);
    assert_eq!(status_for_boundary(&back, 50), BossStatus::Defeated);
    assert_eq!(merge_boss_progress(Some(&merged), &back), merged);
    let tree = parse_json(&merged).expect("JSON");
    let kept = tree.get("25").and_then(|entry| entry.get("list"));
    assert!(kept.is_some() && tree.get("rest").is_some());
    assert_eq!(merge_boss_progress(Some("  "), &BossProgress::new()), "{}");
    let curse = StingerCurseState {
        halve_next_wager: true,
        no_scout_next_dig: false,
        drain_next_reward: true,
        boss_id: Some("grothak".to_owned()),
    };
    let merged = merge_stinger_curse(Some(r#"{"rate":0.5}"#), &curse).expect("a curse");
    assert_eq!(parse_stinger_curse(Some(&merged)), curse);
}

#[test]
fn a_tunnel_that_is_written_back_reads_again_as_it_was() {
    let mut loaded = loaded();
    loaded.snapshot.boss_progress_json = Some(
        r#"{"25":{"status":"active","boss_id":"grothak","odds":0.3},"50":"defeated"}"#.to_owned(),
    );
    loaded.snapshot.stinger_curse_json =
        Some(r#"{"halve_next_wager":true,"rate":0.25}"#.to_owned());
    let tunnel = kept(tunnel_from_snapshot(&loaded, 4));
    let written = state_from_tunnel(&loaded.snapshot, &tunnel);
    let again = LoadedBossSnapshot { snapshot: written, ..loaded };
    let back = kept(tunnel_from_snapshot(&again, 4));
    assert_eq!(back.stinger_curse, tunnel.stinger_curse);
    assert_eq!((back.depth, back.balance, back.lanterns), (tunnel.depth, tunnel.balance, 2));
    for boundary in [25, 50, 75] {
        assert_eq!(
            status_for_boundary(&back.boss_progress, boundary),
            status_for_boundary(&tunnel.boss_progress, boundary)
        );
    }
}
