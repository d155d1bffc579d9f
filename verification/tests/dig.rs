//! Digging: admission, light, settlement and the store behind them.

use cama_dig::actions::{
    admin_depth, admin_outcome, bosses_defeated, flex_data, plan_help, plan_respec, seed_for,
    tunnel_info, DigAdminMutationOutcome, RespecPlan,
};
use cama_dig::admission::{
    auto_buy_selections, begin_dig, charge_dig, cooldown_after_mana, cooldown_before_stamina,
    paid_dig_count, pass_boundary, refresh_staged, DigAdmission, DigCharge, StagedDig,
};
use cama_dig::cave_in::{
    apply_cave_in, cave_in_branch, cave_in_detail, raise_cave_loss, reinforced_cave_loss,
    satchel_index, settle_cave_loss, CaveIn, CaveInBranch,
};
use cama_dig::condition::{
    injury_reduces_advance, injury_slows_cooldown, prestige_perk_contains, tick_effect, tick_injury,
};
use cama_dig::first_dig::{first_dig_pet_bonus, settle_first_dig, BossGate, FirstDigReport};
use cama_dig::json::{parse_json, render_json, Json};
use cama_dig::light::{
    apply_luminosity_refill, base_luminosity_drain, deep_luminosity_drain_bonus, Light,
    LUMINOSITY_DEEP_DRAIN_START_DEPTH,
};
use cama_dig::loot::{next_artifact_id, DigRuntimeLootRepository, RepositoryError};
use cama_dig::outcome::{DigRuntimeOutcome, DigRuntimeRequest};
use cama_dig::report::{
    confirm_outcome, delivery_target, dig_progressive_tip, layer_event_percent, luminosity_event_tenths,
    void_bait_used,
};
use cama_dig::settlement::{
    add_prospectors_streak, apply_state, apply_withholding, compose_jc, defeated_boundaries,
    next_cavein_free_streak, pay_medical_bill, tax_dig, tunnel_state, withhold, DigOutcome,
    DigRuntimeVanityTaxPort, JcCorruption, NoDigRuntimeLowPriorityTax, NoDigRuntimeVanityTax,
};
use cama_dig::snapshot::{
    DigRuntimeArtifact, DigRuntimeInventoryItem, DigRuntimeSnapshot, DigRuntimeTunnel,
};
use cama_dig::store::{
    DigRuntimeCommit, DigRuntimeStoreError, DigSlowDripClaim, InMemoryDigRuntimeStore,
};
use cama_dig::streak::{date_gap, next_daily_streak};
use cama_dig::upkeep::{
    consumed_item_ids, credit_refund, equipped_relics, fall_to, reinforce, settle_light,
};
use cama_dig::version::DigRuntimeVersion;

const NOW: i64 = 1_700_000_000;

/// One below the hard wall.
const CAP: i64 = 500;

fn request(paid: bool) -> DigRuntimeRequest {
    DigRuntimeRequest { discord_id: 7, guild_id: 9, now: NOW, paid, forced_event: false }
}

fn words(list: &[&str]) -> Vec<String> {
    list.iter().map(|word| (*word).to_owned()).collect()
}

/// A snapshot with a tunnel that was dug before.
fn dug(depth: i64, balance: i64) -> DigRuntimeSnapshot {
    let mut snapshot = DigRuntimeSnapshot::fresh(7, 9, balance, NOW);
    let mut tunnel = DigRuntimeTunnel::new(7, 9, NOW);
    tunnel.depth = depth;
    tunnel.max_depth = depth;
    tunnel.total_digs = 1;
    tunnel.last_dig_at = Some(NOW - 7_200);
    snapshot.tunnel = Some(tunnel);
    snapshot
}

fn staged(snapshot: DigRuntimeSnapshot) -> StagedDig {
    match begin_dig(snapshot, request(false), false, Vec::new()) {
        DigAdmission::Admitted(staged) => staged,
        DigAdmission::Answered(outcome) => panic!("not admitted: {:?}", outcome.error),
    }
}

fn plain_outcome() -> DigOutcome {
    DigOutcome {
        depth_after: 12,
        advance: 2,
        jc_earned: 40,
        cave_in: false,
        boss_encounter: None,
        milestone_bonus: 0,
        streak_bonus: 0,
        bankruptcy_penalty: 0,
        gross_jc: 40,
        economy_adjusted_jc: 40,
        mana_yield_tax: 0,
        vanity_tax: 0,
        low_priority_tax: 0,
    }
}

struct Drain {
    returned: i64,
    persisted: i64,
}

fn drain_at(layer_drain: i64, depth: i64) -> Drain {
    let returned = base_luminosity_drain(layer_drain, 0, depth);
    let light = Light::drain(100, returned);
    Drain { returned, persisted: 100 - light.level }
}

#[test]
fn test_drain_at_cap_is_double() {
    let depth = CAP - 1;
    let drain = drain_at(10, depth);
    let expected = 10 + deep_luminosity_drain_bonus(depth);
    assert_eq!(deep_luminosity_drain_bonus(depth), 7);
    assert_eq!(expected, 17);
    assert_eq!(drain.returned, expected);
    assert_eq!(drain.persisted, expected);
}

#[test]
fn test_drain_at_start_depth_matches_base() {
    let depth = LUMINOSITY_DEEP_DRAIN_START_DEPTH;
    let drain = drain_at(10, depth);
    let expected = 10;
    assert_eq!(deep_luminosity_drain_bonus(depth), 0);
    assert_eq!(drain.returned, expected);
    assert_eq!(drain.persisted, expected);
}

#[test]
fn test_drain_below_start_depth_unchanged() {
    let depth = LUMINOSITY_DEEP_DRAIN_START_DEPTH - 100;
    let drain = drain_at(7, depth);
    let expected = 7;
    assert_eq!(deep_luminosity_drain_bonus(depth), 0);
    assert_eq!(drain.returned, expected);
    assert_eq!(drain.persisted, expected);
}

#[test]
fn test_drain_increases_monotonically() {
    let drains: Vec<Drain> = [350_i64, 400, 450].into_iter().map(|depth| drain_at(10, depth)).collect();
    let returned: Vec<i64> = drains.iter().map(|drain| drain.returned).collect();
    let persisted: Vec<i64> = drains.iter().map(|drain| drain.persisted).collect();
    assert_eq!(returned, [10, 12, 15]);
    assert_eq!(persisted, returned);
    assert!(returned.windows(2).all(|pair| pair[0] < pair[1]), "{returned:?}");
}

/// `before` is what stamina works on and `after` what thirteen of it leaves,
/// which is handed in.
fn stamina_cooldown_boundary(mutation_bonus: i64, before: i64, after: i64) {
    let last_dig_at = 1_900_083_000;
    let mut snapshot = dug(10, 100);
    if let Some(tunnel) = snapshot.tunnel.as_mut() {
        tunnel.stat_stamina = 13;
        tunnel.last_dig_at = Some(last_dig_at);
    }
    assert_eq!(cooldown_before_stamina(None, mutation_bonus), before);
    assert_eq!(cooldown_after_mana(after, 0), after);
    match charge_dig(&snapshot, false, false, 1, 0) {
        DigCharge::Answered(blocked) => {
            assert!(!blocked.success);
            assert_eq!(blocked.cooldown_remaining, 1);
        }
        DigCharge::Charged { .. } => panic!("the cooldown has not passed"),
    }
    match charge_dig(&snapshot, false, false, 0, 0) {
        DigCharge::Answered(_) => panic!("the cooldown has passed"),
        DigCharge::Charged { active, cost } => {
            assert!(!active);
            assert_eq!(cost, 0);
        }
    }
}

#[test]
fn sqlite_stamina_thirteen_caps_cooldown_after_mutations_plain() {
    stamina_cooldown_boundary(0, 3_600, 1_800);
}

#[test]
fn sqlite_stamina_thirteen_caps_cooldown_after_mutations_restless() {
    stamina_cooldown_boundary(3_600, 7_200, 3_600);
}

/// A first dig that rolled an advance, committed.
fn first_dig_of(advance: i64) -> (DigRuntimeOutcome, InMemoryDigRuntimeStore) {
    let snapshot = DigRuntimeSnapshot::fresh(7, 9, 100, NOW);
    let mut store = InMemoryDigRuntimeStore::new(snapshot);
    let staged = match begin_dig(
        store.snapshot().expect("a snapshot"),
        request(false),
        false,
        Vec::new(),
    ) {
        DigAdmission::Admitted(staged) => staged,
        DigAdmission::Answered(_) => panic!("a first dig is admitted"),
    };
    assert!(staged.first_dig);
    let mut state = tunnel_state(&staged.current, None, &Vec::new(), &Vec::new());
    state.depth += advance;
    state.total_digs += 1;
    state.last_dig_at = Some(NOW);
    state.balance += 3;
    let settlement = settle_first_dig(
        &staged.base,
        staged.current,
        state,
        FirstDigReport {
            today: "2023-11-14".to_owned(),
            now: NOW,
            jc_earned: 3,
            gate: BossGate { advance, depth_after: advance, boss_encounter: None },
            pet_work_claim: None,
            pet_dig_bonus: 0,
            pet_name: None,
            minigame_scaled_jc: 3,
            economy_adjusted_jc: 3,
            economy_multiplier: Json::from_i64(1),
            mutation_names: Vec::new(),
        },
    );
    let mut outcome = settlement.outcome;
    let receipt = store.commit(settlement.commit).expect("first dig should commit");
    confirm_outcome(&mut outcome, &receipt);
    (outcome, store)
}

#[test]
fn first_dig_is_atomic_and_deterministic() {
    for rolled in 3..=7 {
        let (outcome, _) = first_dig_of(rolled);
        assert_eq!((outcome.advance, outcome.depth_after), (rolled, rolled));
        assert!((3..=7).contains(&outcome.advance));
        assert_eq!(first_dig_of(rolled).0.advance, outcome.advance);
    }
    let (outcome, store) = first_dig_of(5);
    assert!(outcome.success);
    assert!(outcome.first_dig);
    assert_eq!(outcome.balance_after, 103);
    let current = store.current().expect("snapshot remains available");
    let tunnel = current.tunnel.as_ref();
    assert_eq!(tunnel.map(|tunnel| tunnel.total_digs), Some(1));
    assert_eq!(tunnel.map(|tunnel| tunnel.last_dig_at), Some(Some(1_700_000_000)));
    assert_eq!(tunnel.map(|tunnel| tunnel.streak_days), Some(1));
}

fn still_commit(expected: DigRuntimeVersion, next: DigRuntimeSnapshot) -> DigRuntimeCommit {
    DigRuntimeCommit {
        expected,
        next,
        consumed_item_ids: Vec::new(),
        pet_work_claim: None,
        consume_overgrowth: false,
        depth_before: 0,
        depth_after: 1,
        jc_delta: 1,
        vanity_tax: 0,
        low_priority_tax: 0,
        balance_cost: 0,
        action_type: "dig".to_owned(),
        detail: "{}".to_owned(),
        now: 1_700_000_001,
    }
}

#[test]
fn stale_snapshot_is_rejected_by_cas() {
    let snapshot = DigRuntimeSnapshot::fresh(7, 9, 100, NOW);
    let mut store = InMemoryDigRuntimeStore::new(snapshot.clone());
    let mut next = snapshot.clone();
    let mut tunnel = DigRuntimeTunnel::new(7, 9, NOW);
    tunnel.depth = 5;
    next.tunnel = Some(tunnel);
    store
        .commit(still_commit(DigRuntimeVersion::from(&snapshot), next.clone()))
        .expect("first commit");
    let stale = still_commit(DigRuntimeVersion::from(&snapshot), snapshot);
    assert!(matches!(store.commit(stale), Err(DigRuntimeStoreError::Conflict)));
    assert_eq!(store.current(), Some(next));
}

#[test]
fn test_dig_at_cap_is_rejected() {
    let mut snapshot = dug(CAP, 100);
    if let Some(tunnel) = snapshot.tunnel.as_mut() {
        tunnel.luminosity = 77;
        tunnel.last_dig_at = Some(0);
    }
    let before = snapshot.clone();
    let result = match pass_boundary(staged(snapshot), &None, None, CAP, Vec::new()) {
        DigAdmission::Answered(outcome) => outcome,
        DigAdmission::Admitted(_) => panic!("the wall is reached"),
    };
    assert!(!result.success);
    assert!(result.error.as_deref().is_some_and(|message| message.contains("prestige cap")));
    assert_eq!(result.depth_before, CAP);
    assert_eq!(result.depth_after, CAP);
    assert_eq!(result.jc_earned, 0);
    assert_eq!(result.balance_after, before.balance);
    assert_eq!(result.luminosity_after, 77);
}

#[test]
fn test_dig_one_below_cap_allowed() {
    match pass_boundary(staged(dug(CAP - 1, 100)), &None, None, CAP, Vec::new()) {
        DigAdmission::Admitted(staged) => assert!(!staged.first_dig),
        DigAdmission::Answered(outcome) => panic!("{:?}", outcome.error),
    }
}

#[test]
fn test_parked_boss_reopens_after_slow_drip_before_cooldown() {
    let mut snapshot = dug(24, 100);
    if let Some(tunnel) = snapshot.tunnel.as_mut() {
        tunnel.boss_progress = r#"{"25":"active"}"#.to_owned();
        tunnel.last_dig_at = Some(NOW - 10);
    }
    let claim = DigSlowDripClaim {
        claim_date: "2023-11-14".to_owned(),
        gross_jc: 5,
        credit_jc: 3,
        claimed_before: 0,
        claimed_after: 5,
        anchor_before: NOW - 600,
        expected_last_claim_at: NOW - 600,
        claimed_at: NOW,
    };
    let outcome = match pass_boundary(staged(snapshot), &Some(claim), Some(25), CAP, Vec::new()) {
        DigAdmission::Answered(outcome) => outcome,
        DigAdmission::Admitted(_) => panic!("the boss waits"),
    };
    assert!(outcome.success);
    assert_eq!(outcome.boss_boundary, Some(25));
    assert_eq!(outcome.advance, 0);
    assert_eq!(outcome.jc_earned, 0);
    assert_eq!(outcome.balance_after, 103);
}

#[test]
fn flex_projection_normalizes_boss_shapes_titles_and_prestige_badge() {
    let boundaries = vec![25, 50, 75, 100, 150, 200, 275];
    let mut tunnel = DigRuntimeTunnel::new(-9_004, 42, NOW);
    tunnel.tunnel_name = "The Test Shaft".to_owned();
    tunnel.depth = 205;
    tunnel.total_digs = 123;
    tunnel.total_jc_earned = 456;
    tunnel.prestige_level = 8;
    tunnel.streak_days = 9;
    tunnel.boss_progress = r#"{"25":"defeated","50":{"status":"defeated"},"75":"defeated","100":{"status":"defeated"},"150":"defeated","200":"defeated","275":{"status":"defeated"}}"#.to_owned();
    let flex = flex_data(&tunnel, &boundaries, "Frozen Core");
    assert_eq!(flex.tunnel_name, "The Test Shaft");
    assert_eq!(flex.depth, 205);
    assert_eq!(flex.total_digs, 123);
    assert_eq!(flex.total_jc_earned, 456);
    assert_eq!(flex.prestige_level, 8);
    assert_eq!(flex.prestige_emoji, "⭐⭐⭐⭐⭐");
    assert_eq!(flex.titles, ["Boss Slayer"]);
    assert_eq!(flex.streak, 9);
    assert_eq!(flex.layer, "Frozen Core");

    tunnel.boss_progress = r#"{"25":"defeated"}"#.to_owned();
    let partial = flex_data(&tunnel, &boundaries, "Frozen Core");
    assert!(partial.titles.is_empty());
    let missing: Option<DigRuntimeTunnel> = None;
    assert!(missing.map(|tunnel| flex_data(&tunnel, &boundaries, "Frozen Core").depth).is_none());
}

#[test]
fn admin_changes_report_missing_tunnels() {
    assert_eq!(admin_outcome(1), DigAdminMutationOutcome::Applied);
    assert_eq!(admin_outcome(0), DigAdminMutationOutcome::MissingTunnel);
    assert_eq!(admin_depth(12), 12);
    assert_eq!(admin_depth(-3), 0);
}

#[test]
fn injuries_tick_and_slow_the_cooldown() {
    let reduced = r#"{"type":"reduced_advance","digs_remaining":1}"#;
    let slower = r#"{"type":"slower_cooldown","digs_remaining":1}"#;
    assert!(injury_reduces_advance(Some(reduced)));
    assert!(!injury_reduces_advance(Some(slower)));
    assert!(injury_slows_cooldown(Some(slower)));
    assert!(!injury_slows_cooldown(None));
    assert_eq!(cooldown_before_stamina(Some(slower), 0), 6 * 3_600);
    assert_eq!(cooldown_before_stamina(Some(reduced), 0), 3_600);
    let mut tunnel = DigRuntimeTunnel::new(7, 9, NOW);
    tunnel.injury_state = Some(reduced.to_owned());
    assert!(tick_injury(&mut tunnel));
    assert_eq!(tunnel.injury_state, None);
    tunnel.injury_state = Some(r#"{"type":"slower_cooldown","digs_remaining":3}"#.to_owned());
    assert!(!tick_injury(&mut tunnel));
    let left = parse_json(tunnel.injury_state.as_deref().expect("still injured")).expect("JSON");
    assert_eq!(left.int_at("digs_remaining"), Some(2));
    assert_eq!(left.text_at("type"), Some("slower_cooldown"));
}

#[test]
fn effects_count_down_and_end() {
    let raw = r#"{"digs_remaining":2,"effect":{"jc":1}}"#;
    let next = tick_effect(Some(raw), 2).expect("one dig is left");
    assert_eq!(next, r#"{"digs_remaining":1,"effect":{"jc":1}}"#);
    assert_eq!(tick_effect(Some(&next), 1), None);
}

#[test]
fn perks_are_looked_up_in_their_list() {
    assert!(prestige_perk_contains(r#"["deep_sight","dark_adaptation"]"#, "deep_sight"));
    assert!(!prestige_perk_contains(r#"["dark_adaptation"]"#, "deep_sight"));
    assert!(!prestige_perk_contains("not json", "deep_sight"));
}

#[test]
fn light_refills_by_the_day_and_follows_its_hooks() {
    let mut tunnel = DigRuntimeTunnel::new(7, 9, NOW);
    tunnel.luminosity = 10;
    tunnel.last_lum_update_at = Some(NOW - 86_400);
    apply_luminosity_refill(&mut tunnel, NOW);
    assert_eq!(tunnel.luminosity, 30);
    assert_eq!(tunnel.last_lum_update_at, Some(NOW));
    apply_luminosity_refill(&mut tunnel, NOW);
    assert_eq!(tunnel.luminosity, 30);
    let light = Light::drain(30, 1).torch(true);
    assert_eq!(light, Light { level: 79, drained: 1 });
    let light = Light::drain(100, 20).spore_cloak(true).surcharge(true, 5).curse(4);
    assert_eq!(light, Light { level: 81, drained: 19 });
    let light = light.deep_sight(true).hard_hat(true);
    assert_eq!(light.level, 75);
    settle_light(&mut tunnel, light, Some("2023-11-14".to_owned()));
    assert_eq!(tunnel.luminosity, 75);
    assert_eq!(tunnel.lantern_stub_date.as_deref(), Some("2023-11-14"));
    settle_light(&mut tunnel, light, None);
    assert_eq!(tunnel.lantern_stub_date.as_deref(), Some("2023-11-14"));
}

#[test]
fn streaks_grow_by_consecutive_days() {
    let mut tunnel = DigRuntimeTunnel::new(7, 9, NOW);
    assert_eq!(next_daily_streak(&tunnel, "2023-11-14"), 1);
    tunnel.streak_days = 4;
    tunnel.streak_last_date = Some("2023-11-13".to_owned());
    assert_eq!(next_daily_streak(&tunnel, "2023-11-14"), 5);
    assert_eq!(next_daily_streak(&tunnel, "2023-11-13"), 4);
    assert_eq!(next_daily_streak(&tunnel, "2023-11-20"), 1);
    assert_eq!(date_gap("2024-02-28", "2024-03-01"), Some(2));
    assert_eq!(date_gap("yesterday", "2024-03-01"), None);
}

#[test]
fn cooldowns_and_prices_gate_a_dig() {
    let snapshot = dug(10, 5);
    match charge_dig(&snapshot, false, true, 60, 8) {
        DigCharge::Answered(outcome) => assert_eq!(
            outcome.error.as_deref(),
            Some("Paid dig costs 8 JC but you only have 5 JC.")
        ),
        DigCharge::Charged { .. } => panic!("too expensive"),
    }
    match charge_dig(&snapshot, false, true, 60, 5) {
        DigCharge::Charged { active, cost } => assert_eq!((active, cost), (true, 5)),
        DigCharge::Answered(_) => panic!("covered"),
    }
    match charge_dig(&snapshot, false, false, 60, 5) {
        DigCharge::Answered(outcome) => {
            assert_eq!(outcome.error.as_deref(), Some("Dig on cooldown (60s remaining)."))
        }
        DigCharge::Charged { .. } => panic!("too early"),
    }
    assert_eq!(cooldown_after_mana(3_600, 30), 3_570);
    assert_eq!(cooldown_after_mana(10, 30), 0);
    let mut tunnel = DigRuntimeTunnel::new(7, 9, NOW);
    tunnel.paid_dig_date = Some("2023-11-14".to_owned());
    tunnel.paid_digs_today = 3;
    assert_eq!(paid_dig_count(&tunnel, "2023-11-14"), 3);
    assert_eq!(paid_dig_count(&tunnel, "2023-11-15"), 0);
}

#[test]
fn unregistered_players_are_answered() {
    let mut snapshot = dug(10, 5);
    snapshot.registered = false;
    match begin_dig(snapshot, request(false), false, Vec::new()) {
        DigAdmission::Answered(outcome) => assert!(!outcome.success),
        DigAdmission::Admitted(_) => panic!("nobody to dig"),
    }
    match begin_dig(dug(10, 5), request(false), true, Vec::new()) {
        DigAdmission::Answered(outcome) => assert_eq!(
            outcome.error.as_deref(),
            Some("Choose your route before digging again.")
        ),
        DigAdmission::Admitted(_) => panic!("a route is to be chosen"),
    }
}

#[test]
fn wanted_items_are_bought_before_a_dig() {
    let mut tunnel = DigRuntimeTunnel::new(7, 9, NOW);
    tunnel.auto_buy_hard_hat = true;
    tunnel.auto_buy_torch = true;
    tunnel.luminosity = 50;
    let wanted = auto_buy_selections(&tunnel);
    assert_eq!(wanted.len(), 2);
    assert_eq!((wanted[0].item_type.as_str(), wanted[0].price), ("hard_hat", 8));
    assert_eq!((wanted[1].item_type.as_str(), wanted[1].price), ("torch", 6));
    tunnel.luminosity = 51;
    assert_eq!(auto_buy_selections(&tunnel).len(), 1);
    tunnel.luminosity = 100;
    for boundary in [25, 50, 75, 100, 150, 200, 275, 350] {
        for (depth, wanted) in [(-2, 1), (-1, 2), (0, 2), (1, 1)] {
            tunnel.depth = boundary + depth;
            assert_eq!(auto_buy_selections(&tunnel).len(), wanted, "{}", tunnel.depth);
        }
    }
    let refreshed = refresh_staged(staged(dug(10, 50)), dug(10, 40));
    assert_eq!(refreshed.current.balance, 40);
}

#[test]
fn state_of_a_tunnel_is_read_and_written() {
    let mut snapshot = dug(30, 50);
    if let Some(tunnel) = snapshot.tunnel.as_mut() {
        tunnel.boss_progress =
            r#"{"50":{"status":"active"},"25":{"status":"defeated"},"x":{"status":"defeated"}}"#
                .to_owned();
    }
    snapshot.inventory.push(DigRuntimeInventoryItem {
        id: 1,
        item_type: "torch".to_owned(),
        queued: true,
    });
    let mut state = tunnel_state(&snapshot, Some(4), &words(&["torch"]), &Vec::new());
    assert_eq!(state.depth, 30);
    assert_eq!(state.balance, 46);
    assert_eq!(state.queued_consumables, ["torch"]);
    assert_eq!(state.defeated_bosses, [25]);
    state.depth = 33;
    state.balance = 60;
    apply_state(&mut snapshot, &state, "2023-11-14", true, 14);
    assert_eq!(snapshot.balance, 60);
    let tunnel = snapshot.tunnel.expect("a tunnel");
    assert_eq!((tunnel.depth, tunnel.total_jc_earned), (33, 14));
    assert_eq!(tunnel.paid_dig_date.as_deref(), Some("2023-11-14"));
    assert_eq!(defeated_boundaries(&parse_json("[]")), Vec::<i64>::new());
}

#[test]
fn rewards_are_composed_and_taxed() {
    assert_eq!(compose_jc(10, 2, false, 1, JcCorruption::Penalty(0), false), 13);
    assert_eq!(compose_jc(10, 2, true, 1, JcCorruption::Penalty(0), false), 14);
    assert_eq!(compose_jc(10, 2, false, 1, JcCorruption::Penalty(20), false), 0);
    assert_eq!(compose_jc(10, 2, false, 1, JcCorruption::DoubleHalf, false), 12);
    assert_eq!(compose_jc(10, 2, false, 1, JcCorruption::Fixed(4), false), 4);
    assert_eq!(compose_jc(10, 2, false, 1, JcCorruption::Fixed(4), true), 0);
    assert_eq!(next_cavein_free_streak(4), 5);
    assert_eq!(add_prospectors_streak(10, false, 3), 10);
    let held = withhold(40, 0, 12, 50);
    assert_eq!((held.vanity_tax, held.low_priority_tax), (12, 28));
    let mut state = tunnel_state(&dug(10, 100), None, &Vec::new(), &Vec::new());
    state.balance = 140;
    let mut outcome = plain_outcome();
    apply_withholding(&mut state, &mut outcome, held);
    assert_eq!((outcome.jc_earned, state.balance), (0, 100));
    let mut outcome = plain_outcome();
    state.balance = 140;
    tax_dig(
        &NoDigRuntimeVanityTax,
        &NoDigRuntimeLowPriorityTax,
        7,
        9,
        &mut state,
        &mut outcome,
    );
    assert_eq!((outcome.jc_earned, state.balance), (40, 140));
    assert_eq!(NoDigRuntimeVanityTax.calculate_tax(7, 9, 40), 0);
}

#[test]
fn medical_bills_take_what_there_is() {
    let mut state = tunnel_state(&dug(10, 5), None, &Vec::new(), &Vec::new());
    let mut outcome = plain_outcome();
    assert_eq!(pay_medical_bill(&mut state, &mut outcome, 9), 5);
    assert_eq!((state.balance, outcome.jc_earned), (0, 35));
    assert_eq!(pay_medical_bill(&mut state, &mut outcome, 9), 0);
    credit_refund(&mut state, 4);
    assert_eq!(state.balance, 4);
    fall_to(&mut state, &mut outcome, 3);
    assert_eq!((state.depth, outcome.depth_after, outcome.advance), (3, 3, 0));
}

#[test]
fn cave_in_losses_are_raised_halved_and_absorbed() {
    assert_eq!(raise_cave_loss(4, 1, 2, None), 7);
    assert_eq!(raise_cave_loss(4, 1, 2, Some(5)), 5);
    assert_eq!(reinforced_cave_loss(20, true), 8);
    assert_eq!(reinforced_cave_loss(20, false), 20);
    let spared = settle_cave_loss(6, 0, false, 1, 0);
    assert!(spared.absorbed);
    assert_eq!(spared.loss, 0);
    let hit = settle_cave_loss(6, 0, false, 0, 0);
    assert!(!hit.absorbed);
    assert_eq!(hit.loss, 6);
    assert_eq!(cave_in_branch("stun", &dug(10, 5)), CaveInBranch::Stun);
    assert!(satchel_index(7, 3) < 3);
}

#[test]
fn a_cushioned_cave_in_costs_nothing() {
    let mut snapshot = dug(10, 5);
    if let Some(tunnel) = snapshot.tunnel.as_mut() {
        tunnel.grappling_hook_charges = 2;
    }
    let mut consumed = Vec::new();
    apply_cave_in(&mut snapshot, &mut consumed, &CaveIn::Cushioned);
    assert_eq!(snapshot.balance, 5);
    assert_eq!(snapshot.tunnel.as_ref().map(|tunnel| tunnel.depth), Some(10));
    let told = cave_in_detail(&CaveIn::Cushioned, 0, "", 0);
    assert_eq!(
        told.text_at("message"),
        Some("Cave-in! Your grappling line snapped taut and absorbed the impact.")
    );
}

#[test]
fn queued_boss_items_outlast_a_dig() {
    let kinds = ["hard_hat", "grappling_hook", "void_bait", "reinforcement", "tempered_whetstone"];
    let items: Vec<DigRuntimeInventoryItem> = kinds
        .iter()
        .enumerate()
        .map(|(place, kind)| DigRuntimeInventoryItem {
            id: place as i64 + 1,
            item_type: (*kind).to_owned(),
            queued: true,
        })
        .collect();
    assert_eq!(consumed_item_ids(&items, &words(&kinds)), [1, 2, 3, 4]);
    let mut tunnel = DigRuntimeTunnel::new(7, 9, NOW);
    reinforce(&mut tunnel, NOW, 48 * 3_600);
    assert_eq!(tunnel.reinforced_until, NOW + 172_800);
    reinforce(&mut tunnel, NOW - 100, 10);
    assert_eq!(tunnel.reinforced_until, NOW + 172_800);
}

#[test]
fn worn_relics_are_listed() {
    let relic = |id: i64, name: &str, is_relic: bool, equipped: bool| DigRuntimeArtifact {
        id,
        artifact_id: name.to_owned(),
        is_relic,
        equipped,
    };
    let owned = vec![
        relic(1, "spore_cloak", true, true),
        relic(2, "magma_heart", true, false),
        relic(3, "old_map", false, true),
    ];
    assert_eq!(equipped_relics(&owned), ["spore_cloak"]);
    assert_eq!(next_artifact_id(&owned), 4);
}

#[test]
fn the_loot_repository_stages_purchases() {
    let mut loot = DigRuntimeLootRepository::new(dug(10, 20));
    assert!(loot.has_tunnel());
    let id = loot.atomic_buy_item("torch", 6, true).expect("affordable");
    assert_eq!(loot.balance(), 14);
    assert_eq!(loot.inventory(7, 9, &words(&["torch"])).len(), 1);
    assert!(loot.atomic_buy_item("dynamite", 50, false).is_err());
    let before = loot.tunnel().expect("a tunnel");
    loot.atomic_commit_dig(before, &vec![id]).expect("the row is there");
    assert!(loot.snapshot().inventory.is_empty());
    assert_eq!(loot.add_artifact("old_map", false), 1);
    assert_eq!(loot.into_snapshot().artifacts.len(), 1);
}

#[test]
fn seeds_depend_on_the_paid_flag_and_the_secret() {
    let free = seed_for(request(false), 11);
    let paid = seed_for(request(true), 11);
    assert_ne!(free, paid);
    assert_ne!(free, seed_for(request(false), 12));
    assert_eq!(free, seed_for(request(false), 11));
}

#[test]
fn events_become_likelier_in_the_dark() {
    assert_eq!(luminosity_event_tenths(0), 30);
    assert_eq!(luminosity_event_tenths(100), 10);
    assert!(layer_event_percent("Dirt") > 0);
    assert!(void_bait_used(false, 1, &Vec::new()));
    assert!(void_bait_used(false, 0, &words(&["void_bait"])));
    assert!(!void_bait_used(true, 1, &Vec::new()));
    assert!(!dig_progressive_tip(10, 3).is_empty());
}

#[test]
fn helping_and_resetting_are_planned() {
    let plan = plan_help(Some((10, 12)), 5);
    assert_eq!(plan.depths, Some((11, 12)));
    assert_eq!(
        plan.message,
        "You steadied <@5>'s tunnel and helped them reach depth **11**."
    );
    assert_eq!(plan_help(None, 5).depths, None);
    match plan_respec(Some(60), Some((2, 1, 2)), "JC") {
        RespecPlan::Reset { returned_points, detail } => {
            assert_eq!(returned_points, 5);
            let detail = parse_json(&detail).expect("JSON");
            assert_eq!(detail.int_at("cost"), Some(50));
        }
        RespecPlan::Answer(message) => panic!("{message}"),
    }
    match plan_respec(Some(49), Some((2, 1, 2)), "JC") {
        RespecPlan::Answer(message) => {
            assert_eq!(message, "Respec costs 50 JC; your balance is 49.")
        }
        RespecPlan::Reset { .. } => panic!("too expensive"),
    }
    let info = tunnel_info(dug(10, 5).tunnel.as_ref().expect("a tunnel"));
    assert_eq!((info.depth, info.total_digs), (10, 1));
    assert!(bosses_defeated(&parse_json(r#"{"25":"defeated"}"#), &vec![25]));
}

#[test]
fn a_blocked_outcome_reports_no_change() {
    let snapshot = dug(10, 5);
    let outcome = DigRuntimeOutcome::blocked(&snapshot, "no".to_owned(), 3, 60);
    assert!(!outcome.success);
    assert_eq!((outcome.depth_before, outcome.depth_after), (10, 10));
    assert_eq!((outcome.balance_after, outcome.advance, outcome.jc_earned), (5, 0, 0));
    assert_eq!(first_dig_pet_bonus(9, 5, 3), 3);
    assert_eq!(first_dig_pet_bonus(7, 5, 3), 2);
}

#[test]
fn versions_follow_what_is_stored() {
    let snapshot = dug(10, 5);
    assert_eq!(DigRuntimeVersion::from(&snapshot), DigRuntimeVersion::of(&snapshot.clone()));
    let mut other = snapshot.clone();
    other.balance = 6;
    assert_ne!(DigRuntimeVersion::of(&snapshot), DigRuntimeVersion::of(&other));
    let mut held = snapshot.clone();
    held.inventory.push(DigRuntimeInventoryItem {
        id: 1,
        item_type: "torch".to_owned(),
        queued: false,
    });
    assert_ne!(DigRuntimeVersion::of(&snapshot), DigRuntimeVersion::of(&held));
}

#[test]
fn store_errors_speak() {
    assert_eq!(
        DigRuntimeStoreError::Sqlite("disk full".to_owned()).message(),
        DigRuntimeStoreError::Sqlite("disk full".to_owned()).message()
    );
    assert!(DigRuntimeStoreError::MissingQueuedItem(4).message().contains('4'));
}

#[test]
fn json_keeps_what_it_reads() {
    let text = r#"{"a":[1,2.5,"x",null,true],"b":{"c":-3}}"#;
    let tree = parse_json(text).expect("JSON");
    assert_eq!(tree.get("b").and_then(|inner| inner.int_at("c")), Some(-3));
    assert_eq!(render_json(tree), text);
    assert!(parse_json("{").is_none());
    let big = parse_json(r#"{"n":18446744073709551615}"#).expect("JSON");
    assert_eq!(big.int_at("n"), None);
    assert_eq!(big.uint_at("n"), Some(u64::MAX));
}

#[test]
fn gifted_relic_is_taken_off() {
    let mut snapshot = DigRuntimeSnapshot::fresh(7, 9, 0, 0);
    snapshot.artifacts.push(DigRuntimeArtifact {
        id: 4,
        artifact_id: "old_map".to_owned(),
        is_relic: false,
        equipped: true,
    });
    snapshot.artifacts.push(DigRuntimeArtifact {
        id: 5,
        artifact_id: "magma_heart".to_owned(),
        is_relic: true,
        equipped: true,
    });
    let mut loot = DigRuntimeLootRepository::new(snapshot);
    assert_eq!(loot.atomic_gift_relic(4), Err(RepositoryError::InvalidArtifact));
    assert_eq!(loot.atomic_gift_relic(6), Err(RepositoryError::InvalidArtifact));
    assert_eq!(loot.atomic_gift_relic(5), Ok(()));
    let left = loot.into_snapshot();
    assert!(left.artifacts[0].equipped);
    assert!(!left.artifacts[1].equipped);
    assert!(left.artifacts[1].is_relic);
}

#[test]
fn result_is_delivered_to_the_owner_of_the_tunnel() {
    let mut snapshot = DigRuntimeSnapshot::fresh(7, 9, 0, 0);
    assert_eq!(delivery_target(&snapshot), (7, 9));
    snapshot.tunnel = None;
    assert_eq!(delivery_target(&snapshot), (0, 0));
}
