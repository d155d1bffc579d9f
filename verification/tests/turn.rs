//! Whole digs, from admission to the commit.

use cama_dig::actions::{plan_respec, respec_done_message, RespecPlan};
use cama_dig::admission::{
    begin_dig, charge_dig, cooldown_after_mana, cooldown_of, DigAdmission, DigCharge,
};
use cama_dig::cave_in::{
    cave_in_branch, cave_in_detail, fall_kind, is_insured, is_reinforced, lengthened,
    raise_cave_loss, reinforced_cave_loss, settle_cave_loss, CaveIn, CaveInBranch, FallKind,
};
use cama_dig::condition::{injury_reduces_advance, injury_slows_cooldown};
use cama_dig::first_dig::{settle_first_dig, BossGate, FirstDigReport};
use cama_dig::json::{parse_json, Json};
use cama_dig::light::{apply_luminosity_refill, base_luminosity_drain, Light};
use cama_dig::loot::{any_queued_kind, DigRuntimeLootRepository};
use cama_dig::outcome::DigRuntimeRequest;
use cama_dig::report::{confirm_outcome, event_comes_up, AutoBuyPurchase, DigReport};
use cama_dig::settlement::{
    answer_mana, begin_mana, jc_corruption, tunnel_state, ArtifactDrop, DigCarry, DigOutcome,
    DigRuntimeVanityTaxPort, JcCorruption, ManaRates, ManaStep, NoDigRuntimeLowPriorityTax,
    NoDigRuntimeVanityTax,
};
use cama_dig::snapshot::{
    DigRuntimeArtifact, DigRuntimeGear, DigRuntimeInventoryItem, DigRuntimeSnapshot,
    DigRuntimeTunnel,
};
use cama_dig::store::{DigRuntimeStoreError, InMemoryDigRuntimeStore};
use cama_dig::turn::{
    close_dig, conclude_dig, finish_dig, make_ready, seeks_artifact, strike, take_pet_help,
    Aftermath, EventDraw, RuledDig,
};
use cama_dig::upkeep::consumed_item_ids;

const NOW: i64 = 1_900_000_000;

fn request(paid: bool) -> DigRuntimeRequest {
    DigRuntimeRequest { discord_id: 7, guild_id: 9, now: NOW, paid, forced_event: false }
}

fn words(list: &[&str]) -> Vec<String> {
    list.iter().map(|word| (*word).to_owned()).collect()
}

fn dug(depth: i64, balance: i64, last_dig_at: Option<i64>) -> DigRuntimeSnapshot {
    let mut snapshot = DigRuntimeSnapshot::fresh(7, 9, balance, NOW);
    let mut tunnel = DigRuntimeTunnel::new(7, 9, NOW);
    tunnel.depth = depth;
    tunnel.max_depth = depth;
    tunnel.total_digs = 1;
    tunnel.last_dig_at = last_dig_at;
    snapshot.tunnel = Some(tunnel);
    snapshot
}

fn tunnel(snapshot: &DigRuntimeSnapshot) -> &DigRuntimeTunnel {
    snapshot.tunnel.as_ref().expect("a tunnel")
}

fn tunnel_mut(snapshot: &mut DigRuntimeSnapshot) -> &mut DigRuntimeTunnel {
    snapshot.tunnel.as_mut().expect("a tunnel")
}

/// The outcome of an ordinary dig.
fn plain(depth_before: i64, advance: i64, jc_earned: i64) -> DigOutcome {
    DigOutcome {
        depth_after: depth_before + advance,
        advance,
        jc_earned,
        cave_in: false,
        boss_encounter: None,
        milestone_bonus: 0,
        streak_bonus: 0,
        bankruptcy_penalty: 0,
        gross_jc: jc_earned,
        economy_adjusted_jc: jc_earned,
        mana_yield_tax: 0,
        vanity_tax: 0,
        low_priority_tax: 0,
    }
}

/// A dig that the outcome rules settled on top of a snapshot.
fn rule(staged: &DigRuntimeSnapshot, paid_cost: Option<i64>, outcome: DigOutcome) -> RuledDig {
    let mut state = tunnel_state(staged, paid_cost, &Vec::new(), &Vec::new());
    state.depth = outcome.depth_after;
    state.max_depth = state.max_depth.max(state.depth);
    state.total_digs += 1;
    state.last_dig_at = Some(NOW);
    state.balance += outcome.jc_earned;
    RuledDig { state, outcome }
}

fn carry(paid: bool) -> DigCarry {
    DigCarry {
        today: "2030-03-17".to_owned(),
        paid,
        streak_days: 1,
        free_run: 1,
        found: None,
        curses: None,
        buffs: None,
        curse_remaining: None,
        buff_remaining: 0,
        catastrophic: false,
    }
}

fn report(outcome: DigOutcome, balance_before: i64, paid_cost: i64) -> DigReport {
    DigReport {
        request: request(paid_cost > 0),
        tunnel_name: "Deep Ledger".to_owned(),
        depth_before: 10,
        balance_before,
        outcome,
        paid: paid_cost > 0,
        paid_cost,
        block_loss: 0,
        cave_in_detail: None,
        event_id: None,
        artifact_id: None,
        items_used: Vec::new(),
        consumed_item_ids: Vec::new(),
        pet_work_claim: None,
        pet_dig_bonus: 0,
        pet_name: None,
        overgrowth: false,
        mana_paid_cave_refund: 0,
        helltide_tax: 0,
        economy_multiplier: Json::from_i64(1),
        auto_purchases: Vec::new(),
        slow_drip: None,
        luminosity_drained: 0,
        corruption_description: None,
        mutation_names: Vec::new(),
        weather: None,
    }
}

fn no_event() -> EventDraw {
    EventDraw {
        sonar_active: false,
        preview_included: false,
        rolled_under: false,
        selected: None,
        preview: None,
    }
}

#[test]
fn paid_dig_debits_exactly_once_and_records_a_distinct_cost_ledger_entry() {
    let base = dug(10, 100, Some(1_700_000_000));
    match charge_dig(&base, false, true, 3_599, 3) {
        DigCharge::Charged { active, cost } => assert_eq!((active, cost), (true, 3)),
        DigCharge::Answered(outcome) => panic!("{:?}", outcome.error),
    }
    let mut dig = rule(&base, Some(3), plain(10, 2, 5));
    let next = finish_dig(
        &NoDigRuntimeVanityTax,
        &NoDigRuntimeLowPriorityTax,
        request(true),
        base.clone(),
        &mut dig,
        &carry(true),
    );
    let concluded = conclude_dig(&base, next, no_event(), report(dig.outcome, base.balance, 3));
    let commit = concluded.settlement.commit;
    assert_eq!(commit.balance_cost, 3);
    assert_eq!(commit.jc_delta, 2);
    let mut outcome = concluded.settlement.outcome;
    let mut store = InMemoryDigRuntimeStore::new(base);
    let receipt = store.commit(commit).expect("paid dig transaction");
    confirm_outcome(&mut outcome, &receipt);
    assert!(outcome.success);
    assert_eq!(outcome.paid_dig_cost, 3);
    let stored = store.current().expect("stored");
    assert_eq!(stored.balance, 100 - outcome.paid_dig_cost + outcome.jc_earned);
    assert_eq!(stored.balance, outcome.balance_after);
    assert_eq!(tunnel(&stored).paid_digs_today, 1);
}

#[test]
fn free_dig_commits_for_a_player_with_negative_balance() {
    let base = dug(10, -100, Some(1_700_000_000));
    match charge_dig(&base, false, false, 0, 5) {
        DigCharge::Charged { active, cost } => assert_eq!((active, cost), (false, 0)),
        DigCharge::Answered(outcome) => panic!("{:?}", outcome.error),
    }
    let mut dig = rule(&base, None, plain(10, 2, 5));
    let next = finish_dig(
        &NoDigRuntimeVanityTax,
        &NoDigRuntimeLowPriorityTax,
        request(false),
        base.clone(),
        &mut dig,
        &carry(false),
    );
    let concluded = conclude_dig(&base, next, no_event(), report(dig.outcome, base.balance, 0));
    let mut outcome = concluded.settlement.outcome;
    let mut store = InMemoryDigRuntimeStore::new(base);
    let receipt = store.commit(concluded.settlement.commit).expect("free dig while indebted");
    confirm_outcome(&mut outcome, &receipt);
    assert!(outcome.success);
    assert_eq!(outcome.paid_dig_cost, 0);
    let stored = store.current().expect("stored");
    assert_eq!((stored.balance, tunnel(&stored).total_digs), (outcome.balance_after, 2));
}

/// Takes half.
struct Half;

impl DigRuntimeVanityTaxPort for Half {
    fn calculate_tax(&self, _discord_id: i64, _guild_id: i64, gross_profit: i64) -> i64 {
        gross_profit / 2
    }
}

#[test]
fn sqlite_normal_dig_applies_vanity_tax_to_gross_and_audits_net() {
    assert_eq!(Half.calculate_tax(60_111, 60_112, 6), 3);
    let base = dug(76, 100, Some(NOW - 7_200));
    let mut control = rule(&base, None, plain(76, 2, 6));
    finish_dig(
        &NoDigRuntimeVanityTax,
        &NoDigRuntimeLowPriorityTax,
        request(false),
        base.clone(),
        &mut control,
        &carry(false),
    );
    let mut taxable = rule(&base, None, plain(76, 2, 6));
    let next = finish_dig(
        &Half,
        &NoDigRuntimeLowPriorityTax,
        request(false),
        base.clone(),
        &mut taxable,
        &carry(false),
    );
    let expected_tax = control.outcome.jc_earned / 2;
    assert!(expected_tax > 0);
    assert_eq!(taxable.outcome.vanity_tax, expected_tax);
    assert_eq!(taxable.outcome.jc_earned, control.outcome.jc_earned - expected_tax);
    assert_eq!(next.balance, 100 + taxable.outcome.jc_earned);
    let concluded = conclude_dig(&base, next, no_event(), report(taxable.outcome, 100, 0));
    let detail = parse_json(&concluded.settlement.commit.detail).expect("JSON");
    assert_eq!(detail.int_at("vanity_tax"), Some(expected_tax));
    assert_eq!(concluded.settlement.commit.jc_delta, taxable.outcome.jc_earned);
    assert_eq!(concluded.settlement.commit.vanity_tax, expected_tax);
}

#[test]
fn sqlite_first_dig_is_exempt_from_vanity_tax() {
    let base = DigRuntimeSnapshot::fresh(60_113, 60_114, 100, NOW);
    let staged = match begin_dig(base, request(false), false, Vec::new()) {
        DigAdmission::Admitted(staged) => staged,
        DigAdmission::Answered(outcome) => panic!("{:?}", outcome.error),
    };
    let state = tunnel_state(&staged.current, None, &Vec::new(), &Vec::new());
    let settled = settle_first_dig(&staged.base, staged.current, state, first_report("2030-04-01"));
    assert!(settled.outcome.success);
    assert!(settled.outcome.first_dig);
    assert_eq!(settled.outcome.vanity_tax, 0);
    assert_eq!(settled.commit.vanity_tax, 0);
}

fn first_report(today: &str) -> FirstDigReport {
    FirstDigReport {
        today: today.to_owned(),
        now: NOW,
        jc_earned: 3,
        gate: BossGate { advance: 5, depth_after: 5, boss_encounter: None },
        pet_work_claim: None,
        pet_dig_bonus: 0,
        pet_name: None,
        minigame_scaled_jc: 3,
        economy_adjusted_jc: 3,
        economy_multiplier: Json::from_i64(1),
        mutation_names: Vec::new(),
    }
}

#[test]
fn sqlite_first_dig_requires_unstarted_tunnel_and_persists_streak() {
    let mut partial = dug(0, 100, Some(NOW - 1));
    tunnel_mut(&mut partial).total_digs = 0;
    let staged = match begin_dig(partial.clone(), request(false), false, Vec::new()) {
        DigAdmission::Admitted(staged) => staged,
        DigAdmission::Answered(outcome) => panic!("{:?}", outcome.error),
    };
    assert!(!staged.first_dig);
    match charge_dig(&staged.current, staged.first_dig, false, 3_599, 3) {
        DigCharge::Answered(outcome) => assert!(!outcome.success && !outcome.first_dig),
        DigCharge::Charged { .. } => panic!("the cooldown has not passed"),
    }
    tunnel_mut(&mut partial).last_dig_at = None;
    let staged = match begin_dig(partial, request(false), false, Vec::new()) {
        DigAdmission::Admitted(staged) => staged,
        DigAdmission::Answered(outcome) => panic!("{:?}", outcome.error),
    };
    assert!(staged.first_dig);
    let mut state = tunnel_state(&staged.current, None, &Vec::new(), &Vec::new());
    state.total_digs += 1;
    let first = settle_first_dig(&staged.base, staged.current, state, first_report("2030-03-17"));
    assert!(first.outcome.success && first.outcome.first_dig);
    let stored = tunnel(&first.commit.next);
    assert_eq!(
        (stored.total_digs, stored.streak_days, stored.streak_last_date.as_deref()),
        (1, 1, Some("2030-03-17"))
    );
}

#[test]
fn sqlite_forest_mana_makes_free_dig_ready_at_exact_3570_seconds() {
    let now = 1_900_080_000;
    let snapshot = dug(10, 100, Some(now - 3_570));
    let remaining = |cooldown: i64| (now - 3_570 + cooldown - now).max(0);
    let control = cooldown_after_mana(cooldown_of(false, 0), 0);
    match charge_dig(&snapshot, false, false, remaining(control), 3) {
        DigCharge::Answered(blocked) => {
            assert!(!blocked.success);
            assert_eq!(blocked.cooldown_remaining, 30);
        }
        DigCharge::Charged { .. } => panic!("thirty seconds are left"),
    }
    let forest = cooldown_after_mana(cooldown_of(false, 0), 30);
    match charge_dig(&snapshot, false, false, remaining(forest), 3) {
        DigCharge::Charged { active, .. } => assert!(!active),
        DigCharge::Answered(outcome) => panic!("{:?}", outcome.error),
    }
}

#[test]
fn sqlite_reduced_injury_ticks_and_slower_cooldown_does_not_halve_advance() {
    let reduced = r#"{"type":"reduced_advance","digs_remaining":1}"#;
    let slower = r#"{"type":"slower_cooldown","digs_remaining":1}"#;
    let mut injured = dug(10, 100, Some(NOW - 7_200));
    tunnel_mut(&mut injured).injury_state = Some(reduced.to_owned());
    assert!(injury_reduces_advance(Some(reduced)));
    assert!(make_ready(&mut injured, NOW));
    assert_eq!(tunnel(&injured).injury_state, None);
    assert_eq!(cooldown_of(injury_slows_cooldown(Some(slower)), 0), 21_600);
    // What a curse makes of a slowed cooldown, and an hour later is left of it.
    let cooldown = 27_000;
    let remaining = 23_400;
    let mut slowed = dug(10, 100, Some(NOW - 3_600));
    tunnel_mut(&mut slowed).injury_state = Some(slower.to_owned());
    match charge_dig(&slowed, false, false, remaining, 3) {
        DigCharge::Answered(blocked) => {
            assert!(!blocked.success);
            assert_eq!(blocked.cooldown_remaining, 13 * 30 * 60);
        }
        DigCharge::Charged { .. } => panic!("the cooldown has not passed"),
    }
    assert_eq!(cooldown, 15 * 3_600 / 2);
    assert!(!make_ready(&mut slowed, NOW));
}

#[test]
fn sqlite_luminosity_refill_updates_timestamp_and_applies_torch_after_drain() {
    let mut snapshot = dug(10, 100, Some(NOW - 7_200));
    let stored = tunnel_mut(&mut snapshot);
    stored.luminosity = 10;
    stored.last_lum_update_at = Some(NOW - 86_400);
    apply_luminosity_refill(stored, NOW);
    assert_eq!(stored.last_lum_update_at, Some(NOW));
    // 10 and one day's 20-point refill, less the drain of Dirt, then 50 for the torch.
    let light = Light::drain(stored.luminosity, base_luminosity_drain(0, 0, 10)).torch(true);
    assert!(light.level >= 60, "torch must be applied after the drain: {}", light.level);
}

#[test]
fn sqlite_queued_charges_stack_and_boss_prep_items_are_not_consumed() {
    let kinds = ["hard_hat", "grappling_hook", "void_bait", "reinforcement", "tempered_whetstone"];
    let mut snapshot = dug(10, 100, Some(NOW - 7_200));
    for (place, kind) in kinds.iter().enumerate() {
        snapshot.inventory.push(DigRuntimeInventoryItem {
            id: place as i64 + 1,
            item_type: (*kind).to_owned(),
            queued: true,
        });
    }
    tunnel_mut(&mut snapshot).hard_hat_charges = 2;
    tunnel_mut(&mut snapshot).grappling_hook_charges = 4;
    tunnel_mut(&mut snapshot).void_bait_digs = 2;
    let mut used = consumed_item_ids(&snapshot.inventory, &words(&kinds));
    assert_eq!(used, [1, 2, 3, 4]);
    // The loot rules add what each item brings; the dig uses a hard hat at once.
    let mut loot = DigRuntimeLootRepository::new(snapshot);
    let Some(mut state) = loot.tunnel() else { panic!("a tunnel was due") };
    state.hard_hat_charges += 3 - 1;
    state.grappling_hook_charges += 5;
    state.void_bait_digs += 3 - 1;
    assert!(loot.atomic_commit_dig(state, &used).is_ok());
    let mut snapshot = loot.into_snapshot();
    let lost = strike(&mut snapshot, &mut used, &None, &words(&kinds[..4]), NOW, 172_800);
    assert!(lost.is_empty());
    assert_eq!(used, [1, 2, 3, 4]);
    let dug = tunnel(&snapshot);
    assert_eq!(dug.hard_hat_charges, 4);
    assert_eq!(dug.grappling_hook_charges, 9);
    assert!(dug.void_bait_digs >= 4);
    assert!(dug.reinforced_until > NOW);
    let left: Vec<&str> = snapshot.inventory.iter().map(|item| item.item_type.as_str()).collect();
    assert_eq!(left, ["tempered_whetstone"]);
}

#[test]
fn sqlite_queued_grapple_and_hard_hat_are_visible_to_cave_consequences() {
    // Dirt has no ordinary drain: 40 and 50 for the torch, less 10 for the hard hat.
    let light = Light::drain(40, base_luminosity_drain(0, 0, 10)).torch(true).hard_hat(true);
    assert_eq!(light.level, 80);
    let mut grapple = dug(180, 100, Some(NOW - 7_200));
    tunnel_mut(&mut grapple).grappling_hook_charges = 5;
    let settled = settle_cave_loss(12, 0, false, tunnel(&grapple).grappling_hook_charges, 0);
    assert!(settled.absorbed);
    let cave_in = Some(CaveIn::Cushioned);
    let lost = strike(&mut grapple, &mut Vec::new(), &cave_in, &Vec::new(), NOW, 172_800);
    let detail = cave_in_detail(&CaveIn::Cushioned, settled.loss, &lost, 0);
    assert_eq!(detail.text_at("type"), Some("cushioned"));
    assert_eq!(detail.int_at("block_loss"), Some(0));
    assert_eq!(tunnel(&grapple).depth, 180);
    assert_eq!(tunnel(&grapple).grappling_hook_charges, 4);
}

#[test]
fn sqlite_queued_reinforcement_does_not_cap_current_cave_loss() {
    let mut snapshot = dug(180, 100, Some(NOW - 7_200));
    let rolled = raise_cave_loss(14, 0, 0, None);
    let loss = reinforced_cave_loss(rolled, tunnel(&snapshot).reinforced_until > NOW);
    let cave_in = Some(CaveIn::Stun { digs: 2 });
    let used = words(&["reinforcement"]);
    let lost = strike(&mut snapshot, &mut Vec::new(), &cave_in, &used, NOW, 172_800);
    let detail = cave_in_detail(&CaveIn::Stun { digs: 2 }, loss, &lost, 0);
    assert!(detail.int_at("block_loss").unwrap_or(0) > 8);
    assert!(tunnel(&snapshot).reinforced_until > NOW);
    assert!(reinforced_cave_loss(rolled, true) <= 8);
}

#[test]
fn a_pickaxe_of_the_sixth_tier_takes_a_quarter_off_the_drain() {
    let sixth = Light::drain(100, base_luminosity_drain(10, 6, 300));
    let none = Light::drain(100, base_luminosity_drain(10, 0, 300));
    assert_eq!((sixth.level, none.level), (92, 90));
}

#[test]
fn sqlite_catastrophic_cave_in_does_not_resurrect_cleared_multidig_buff() {
    let buff = r#"{"digs_remaining":2,"effect":{"advance_bonus":2}}"#;
    let mut staged = dug(240, 100, Some(NOW - 7_200));
    tunnel_mut(&mut staged).temp_buffs = Some(buff.to_owned());
    let base = staged.clone();
    let disaster = CaveIn::Catastrophic {
        depth_after: 225,
        insurance_saved: false,
        total_loss: 15,
        stun_digs: 2,
        gear: Vec::new(),
        gear_broken: Vec::new(),
    };
    let detail = cave_in_detail(&disaster, 15, "", 0);
    let cave_in = Some(disaster);
    strike(&mut staged, &mut Vec::new(), &cave_in, &Vec::new(), NOW, 172_800);
    let mut fallen = plain(240, -4, 0);
    fallen.cave_in = true;
    let mut dig = rule(&staged, None, fallen);
    let paid = close_dig(&mut dig, Aftermath { fall: Some(225), bill: 30, refund: 0 });
    assert_eq!(paid, 30);
    let mut carried = carry(false);
    carried.buffs = Some(buff.to_owned());
    carried.buff_remaining = 2;
    carried.catastrophic = true;
    let next = finish_dig(
        &Half,
        &NoDigRuntimeLowPriorityTax,
        request(false),
        staged,
        &mut dig,
        &carried,
    );
    let mut told = report(dig.outcome, base.balance, 0);
    told.cave_in_detail = Some(detail);
    told.block_loss = 15;
    let outcome = conclude_dig(&base, next.clone(), no_event(), told).settlement.outcome;
    let detail = parse_json(outcome.cave_in_detail.as_deref().expect("catastrophic detail"))
        .expect("catastrophic detail JSON");
    assert!(outcome.cave_in);
    assert_eq!(detail.text_at("type"), Some("catastrophic"));
    assert_eq!(detail.int_at("depth_after"), Some(225));
    assert_eq!(outcome.depth_after, 225);
    assert_eq!(outcome.vanity_tax, 0);
    assert_eq!(
        tunnel(&next).temp_buffs,
        None,
        "the generic duration decrement must not recreate a catastrophic-cleared buff"
    );
}

#[test]
fn boss_progress_flat_vs_nested_shapes_both_parse_correctly() {
    let mut flat = DigRuntimeTunnel::new(111, 222, NOW);
    flat.boss_progress = r#"{"25":"defeated","50":"defeated","75":"active"}"#.to_owned();
    let mut nested = DigRuntimeTunnel::new(111, 222, NOW);
    nested.boss_progress =
        r#"{"25":{"status":"defeated"},"50":{"status":"defeated"},"75":{"status":"active"}}"#
            .to_owned();
    let state_of = |tunnel: DigRuntimeTunnel| {
        let mut snapshot = DigRuntimeSnapshot::fresh(111, 222, 0, NOW);
        snapshot.tunnel = Some(tunnel);
        tunnel_state(&snapshot, None, &Vec::new(), &Vec::new())
    };
    let flat = state_of(flat);
    let nested = state_of(nested);
    assert_eq!(
        flat.depth, 0,
        "player at depth 0 with 25,50 defeated should not yet reach boss boundary"
    );
    assert_eq!(flat.defeated_bosses, [25, 50]);
    assert_eq!(
        (flat.depth, flat.defeated_bosses),
        (nested.depth, nested.defeated_bosses),
        "flat and nested boss_progress shapes should parse to identical state"
    );
}

#[test]
fn test_miner_respec_records_sink_context_and_action() {
    match plan_respec(Some(100), Some((2, 1, 7)), "JC") {
        RespecPlan::Reset { returned_points, detail } => {
            assert_eq!(returned_points, 10);
            let detail = parse_json(&detail).expect("action detail");
            assert_eq!(detail.int_at("cost"), Some(50));
            assert_eq!(detail.int_at("returned_points"), Some(10));
            let before = detail.get("previous_stats").expect("stats");
            assert_eq!(before.int_at("strength"), Some(2));
            assert_eq!(before.int_at("smarts"), Some(1));
            assert_eq!(before.int_at("stamina"), Some(7));
        }
        RespecPlan::Answer(message) => panic!("{message}"),
    }
    assert!(respec_done_message("JC").contains("Respec complete"));
    match plan_respec(Some(50), Some((0, 0, 0)), "JC") {
        RespecPlan::Answer(message) => assert!(message.contains("allocated S points")),
        RespecPlan::Reset { .. } => panic!("there is nothing to reset"),
    }
}

#[test]
fn pets_help_up_to_the_first_boss() {
    let base = dug(20, 100, Some(NOW - 7_200));
    let offer = |blocks: i64| rule(&base, None, plain(20, 2 + blocks, 5));
    let mut met = plain(20, 4, 5);
    met.boss_encounter = Some(25);
    let helped = vec![offer(1), rule(&base, None, met), offer(3)];
    let (taken, blocks) = take_pet_help(offer(0), helped);
    assert_eq!((taken.outcome.boss_encounter, blocks), (Some(25), 2));
    let mut buried = plain(20, 0, 0);
    buried.cave_in = true;
    let (kept, blocks) = take_pet_help(rule(&base, None, buried), vec![offer(1)]);
    assert_eq!((kept.outcome.cave_in, blocks), (true, 0));
    let (last, blocks) = take_pet_help(offer(0), vec![offer(1), offer(2)]);
    assert_eq!((last.outcome.advance, blocks), (4, 2));
}

#[test]
fn a_sonar_swallows_one_event() {
    let mut base = dug(20, 100, Some(NOW - 7_200));
    tunnel_mut(&mut base).sonar_skip_pending = true;
    let draw = EventDraw {
        sonar_active: true,
        preview_included: false,
        rolled_under: true,
        selected: Some("crystal_garden".to_owned()),
        preview: None,
    };
    let outcome = plain(20, 2, 5);
    let skipped = conclude_dig(&base, base.clone(), draw, report(outcome, 100, 0));
    assert!(skipped.sonar_skipped);
    assert_eq!((skipped.event, skipped.preview.as_deref()), (None, Some("crystal_garden")));
    assert!(!tunnel(&skipped.settlement.commit.next).sonar_skip_pending);
    let draw = EventDraw {
        sonar_active: false,
        preview_included: true,
        rolled_under: true,
        selected: Some("crystal_garden".to_owned()),
        preview: Some("old_shrine".to_owned()),
    };
    let happens = conclude_dig(&base, base.clone(), draw, report(outcome, 100, 0));
    assert_eq!(happens.settlement.outcome.event_id.as_deref(), Some("crystal_garden"));
    assert_eq!(happens.preview.as_deref(), Some("old_shrine"));
    assert_eq!(tunnel(&happens.settlement.commit.next).current_run_events, 1);
}

#[test]
fn a_cave_in_meets_no_event() {
    assert!(event_comes_up(false, false, true));
    assert!(event_comes_up(false, true, false));
    assert!(!event_comes_up(false, false, false));
    assert!(!event_comes_up(true, true, true));
    let mut base = dug(20, 100, Some(NOW - 7_200));
    tunnel_mut(&mut base).sonar_skip_pending = true;
    let drawn = |sonar_active: bool, rolled_under: bool| EventDraw {
        sonar_active,
        preview_included: false,
        rolled_under,
        selected: Some("crystal_garden".to_owned()),
        preview: None,
    };
    for sonar_active in [false, true] {
        let mut told = report(DigOutcome { cave_in: true, ..plain(20, 0, 5) }, 100, 0);
        told.request.forced_event = true;
        let concluded = conclude_dig(&base, base.clone(), drawn(sonar_active, true), told);
        assert!(concluded.event.is_none() && concluded.preview.is_none());
        assert!(!concluded.sonar_skipped);
        let outcome = &concluded.settlement.outcome;
        assert!(outcome.event_id.is_none() && !outcome.forced_event_consumed);
        assert_eq!(outcome.jc_earned, 0);
        let stored = tunnel(&concluded.settlement.commit.next);
        assert!(stored.sonar_skip_pending);
        assert_eq!(stored.current_run_events, 0);
    }
    let told = report(plain(20, 2, 5), 100, 0);
    let missed = conclude_dig(&base, base.clone(), drawn(false, false), told);
    assert!(missed.event.is_none());
    let mut told = report(plain(20, 2, 5), 100, 0);
    told.request.forced_event = true;
    let forced = conclude_dig(&base, base.clone(), drawn(false, false), told).settlement.outcome;
    assert_eq!(forced.event_id.as_deref(), Some("crystal_garden"));
    assert!(forced.forced_event_consumed);
}

#[test]
fn a_fall_is_cushioned_before_it_is_a_catastrophe() {
    assert_eq!(fall_kind(true, true), FallKind::Cushioned);
    assert_eq!(fall_kind(false, true), FallKind::Catastrophic);
    assert_eq!(fall_kind(false, false), FallKind::Ordinary);
    assert!(is_reinforced(NOW + 1, NOW) && !is_reinforced(NOW, NOW));
    assert!(is_insured(Some(NOW + 1), NOW));
    assert!(!is_insured(Some(NOW), NOW) && !is_insured(None, NOW));
    assert_eq!(lengthened(2, 3), Some(5));
    assert_eq!(lengthened(2, -3), Some(-1));
    assert_eq!(lengthened(1, i64::MAX), None);
}

#[test]
fn a_fixed_reward_goes_before_an_odd_coin_and_a_penalty() {
    assert_eq!(jc_corruption(Some(3), true, 4), JcCorruption::Fixed(3));
    assert_eq!(jc_corruption(None, true, 4), JcCorruption::DoubleHalf);
    assert_eq!(jc_corruption(None, false, 4), JcCorruption::Penalty(4));
    assert_eq!(jc_corruption(None, false, -4), JcCorruption::Penalty(0));
}

#[test]
fn the_tithe_comes_before_the_blue_tax() {
    let both = ManaRates { tithe: true, blue_tax: true };
    let step = begin_mana(10, both);
    assert_eq!(step, ManaStep::Tithe(10));
    let step = answer_mana(step, both, 3);
    assert_eq!(step, ManaStep::BlueTax(7));
    assert_eq!(answer_mana(step, both, 2), ManaStep::Settled(5));
    assert_eq!(answer_mana(ManaStep::Tithe(10), both, 30), ManaStep::Settled(0));
    assert_eq!(answer_mana(ManaStep::Tithe(10), both, -3), ManaStep::BlueTax(10));
    let taxed = ManaRates { tithe: false, blue_tax: true };
    assert_eq!(begin_mana(10, taxed), ManaStep::BlueTax(10));
    assert_eq!(begin_mana(0, both), ManaStep::Settled(0));
    let tithed = ManaRates { tithe: true, blue_tax: false };
    assert_eq!(answer_mana(begin_mana(10, tithed), tithed, 4), ManaStep::Settled(6));
}

#[test]
fn only_a_queued_torch_lights_the_way() {
    let row = |queued: bool, kind: &str| DigRuntimeInventoryItem {
        id: 1,
        item_type: kind.to_owned(),
        queued,
    };
    assert!(any_queued_kind(&vec![row(false, "torch"), row(true, "torch")], "torch"));
    assert!(!any_queued_kind(&vec![row(false, "torch"), row(true, "lantern")], "torch"));
    assert!(!any_queued_kind(&Vec::new(), "torch"));
}

#[test]
fn purchases_are_audited() {
    let base = dug(20, 100, Some(NOW - 7_200));
    let mut told = report(plain(20, 2, 5), 100, 0);
    told.auto_purchases = vec![AutoBuyPurchase {
        item_type: "torch".to_owned(),
        status: "purchased".to_owned(),
        cost: 6,
        item_id: Some(3),
    }];
    let commit = conclude_dig(&base, base.clone(), no_event(), told).settlement.commit;
    let detail = parse_json(&commit.detail).expect("JSON");
    let purchases = detail.get("auto_purchases").and_then(|list| list.as_items()).expect("a list");
    assert_eq!(purchases[0].int_at("cost"), Some(6));
    assert_eq!(purchases[0].text_at("status"), Some("purchased"));
}

/// A cave-in that cost blocks, closed and taxed on top of a snapshot.
fn caved(
    base: &DigRuntimeSnapshot,
    cave_in: CaveIn,
    depth_after: i64,
    loss: i64,
    charge: Option<i64>,
    aftermath: Aftermath,
) -> (DigRuntimeSnapshot, DigReport) {
    let mut staged = base.clone();
    let catastrophic = matches!(cave_in, CaveIn::Catastrophic { .. });
    let struck = Some(cave_in);
    let lost = strike(&mut staged, &mut Vec::new(), &struck, &Vec::new(), NOW, 172_800);
    let mut outcome = plain(tunnel(base).depth, 0, 0);
    outcome.depth_after = depth_after;
    outcome.cave_in = true;
    let mut dig = rule(&staged, charge, outcome);
    let cost = close_dig(&mut dig, aftermath);
    let mut carried = carry(charge.is_some());
    carried.catastrophic = catastrophic;
    let next = finish_dig(
        &Half,
        &NoDigRuntimeLowPriorityTax,
        request(charge.is_some()),
        staged,
        &mut dig,
        &carried,
    );
    let mut told = report(dig.outcome, base.balance, charge.unwrap_or(0));
    told.block_loss = loss;
    told.mana_paid_cave_refund = aftermath.refund;
    told.cave_in_detail = struck.as_ref().map(|cave_in| cave_in_detail(cave_in, loss, &lost, cost));
    (next, told)
}

#[test]
fn sqlite_pet_work_cave_in_does_not_consume_the_offer() {
    let base = dug(10, 100, Some(0));
    let mut buried = plain(10, 0, 0);
    buried.cave_in = true;
    let offered: Vec<RuledDig> =
        (1..=12).map(|blocks| rule(&base, None, plain(10, blocks, 0))).collect();
    let (kept, pet_dig_bonus) = take_pet_help(rule(&base, None, buried), offered);
    assert!(kept.outcome.cave_in);
    assert_eq!(pet_dig_bonus, 0);
}

#[test]
fn sqlite_blue_paid_cave_refund_is_atomic_and_not_counted_as_dig_income() {
    for (refund, balance_after, audit_delta) in [(0, 97, 0), (1, 98, 1)] {
        let mut base = dug(10, 100, Some(NOW - 1));
        let stored = tunnel_mut(&mut base);
        stored.grappling_hook_charges = 1;
        stored.total_jc_earned = 25;
        stored.current_run_jc = 9;
        let aftermath = Aftermath { fall: None, bill: 0, refund };
        let (next, told) = caved(&base, CaveIn::Cushioned, 10, 0, Some(3), aftermath);
        let settlement = conclude_dig(&base, next, no_event(), told).settlement;
        let mut store = InMemoryDigRuntimeStore::new(base);
        let mut outcome = settlement.outcome;
        let commit = settlement.commit;
        assert_eq!(commit.jc_delta, audit_delta);
        assert_eq!(commit.balance_cost, 3);
        let detail = parse_json(&commit.detail).expect("paid-cave detail JSON");
        assert_eq!(detail.int_at("mana_paid_cave_refund"), Some(refund));
        confirm_outcome(&mut outcome, &store.commit(commit).expect("paid cave"));
        assert!(outcome.cave_in);
        assert_eq!(outcome.paid_dig_cost, 3);
        assert_eq!(outcome.jc_earned, 0);
        assert_eq!(outcome.balance_after, balance_after);
        let stored = store.current().expect("stored");
        assert_eq!((tunnel(&stored).total_jc_earned, tunnel(&stored).current_run_jc), (25, 9));
    }
}

#[test]
fn test_catastrophic_overrides_to_milestone() {
    let base = dug(240, 10_000, Some(NOW - 7_200));
    let disaster = CaveIn::Catastrophic {
        depth_after: 225,
        insurance_saved: false,
        total_loss: 15,
        stun_digs: 3,
        gear: Vec::new(),
        gear_broken: Vec::new(),
    };
    let aftermath = Aftermath { fall: Some(225), bill: 120, refund: 0 };
    let (next, told) = caved(&base, disaster, 226, 14, None, aftermath);
    let settlement = conclude_dig(&base, next, no_event(), told).settlement;
    let outcome = settlement.outcome;
    let detail = parse_json(outcome.cave_in_detail.as_deref().expect("milestone cave detail"))
        .expect("milestone cave detail JSON");
    assert!(outcome.success && outcome.cave_in);
    assert_eq!(detail.text_at("type"), Some("catastrophic"));
    assert_eq!(detail.int_at("depth_after"), Some(225));
    assert_eq!(detail.int_at("block_loss"), Some(15));
    assert_eq!(detail.bool_at("insurance_saved"), Some(false));
    let jc_lost = detail.int_at("jc_lost").expect("milestone JC loss");
    assert_eq!(jc_lost, 120);
    assert!(!detail.text_at("message").unwrap_or("{jc_lost}").contains("{jc_lost}"));
    assert_eq!(outcome.depth_after, 225);
    // The audit keeps the loss that was rolled, not the depth that was lost.
    let action = parse_json(&settlement.commit.detail).expect("action detail");
    assert_eq!(action.int_at("block_loss"), Some(14));
    assert_eq!(action.get("cave_in_detail").and_then(|told| told.int_at("block_loss")), Some(15));
    assert_eq!(settlement.commit.jc_delta, -jc_lost);
    let stored = &settlement.commit.next;
    assert_eq!(tunnel(stored).depth, 225);
    assert_eq!(tunnel(stored).temp_buffs, None);
    assert_eq!(tunnel(stored).cavein_free_streak, 0);
    let injury = parse_json(tunnel(stored).injury_state.as_deref().expect("an injury"))
        .expect("injury JSON");
    assert_eq!(injury.text_at("type"), Some("slower_cooldown"));
    assert_eq!(stored.balance, 10_000 - jc_lost);
}

#[test]
fn test_insurance_protects_catastrophic_depth() {
    let mut base = dug(240, 10_000, Some(NOW - 7_200));
    tunnel_mut(&mut base).insured_until = Some(NOW + 86_400);
    let disaster = CaveIn::Catastrophic {
        depth_after: 223,
        insurance_saved: true,
        total_loss: 17,
        stun_digs: 3,
        gear: Vec::new(),
        gear_broken: Vec::new(),
    };
    let aftermath = Aftermath { fall: Some(223), bill: 50, refund: 0 };
    let (next, told) = caved(&base, disaster, 223, 17, None, aftermath);
    let settlement = conclude_dig(&base, next, no_event(), told).settlement;
    let outcome = settlement.outcome;
    let detail = parse_json(outcome.cave_in_detail.as_deref().expect("insured cave detail"))
        .expect("insured cave detail JSON");
    assert_eq!(detail.text_at("type"), Some("catastrophic"));
    assert_eq!(detail.bool_at("insurance_saved"), Some(true));
    assert_eq!(detail.int_at("depth_after"), Some(240 - 17));
    assert_eq!(detail.int_at("block_loss"), Some(17));
    assert_eq!(detail.int_at("jc_lost"), Some(50));
    assert_eq!(outcome.depth_after, 240 - 17);
    assert_eq!(settlement.commit.jc_delta, -50);
    let stored = tunnel(&settlement.commit.next);
    assert_eq!(
        (stored.depth, stored.insured_until, stored.cavein_free_streak),
        (240 - 17, Some(NOW + 86_400), 0)
    );
    assert_eq!(settlement.commit.next.balance, 10_000 - 50);
}

#[test]
fn test_gear_nick_reports_newly_broken_piece() {
    let mut base = dug(180, 10_000, Some(NOW - 7_200));
    let armor = |durability: i64| DigRuntimeGear {
        id: 1,
        slot: "armor".to_owned(),
        tier: 1,
        durability,
        equipped: true,
        acquired_at: NOW - 100,
        source: "shop".to_owned(),
        item_id: None,
    };
    base.gear = vec![armor(1)];
    assert!(matches!(cave_in_branch("gear_nick", &base), CaveInBranch::GearNick));
    let nick = CaveIn::GearNick { gear: vec![armor(0)], gear_broken: words(&["Padded Vest"]) };
    let aftermath = Aftermath { fall: None, bill: 0, refund: 0 };
    let (next, told) = caved(&base, nick, 168, 12, None, aftermath);
    let settlement = conclude_dig(&base, next, no_event(), told).settlement;
    let outcome = settlement.outcome;
    let detail = parse_json(outcome.cave_in_detail.as_deref().expect("gear-nick cave detail"))
        .expect("gear-nick cave detail JSON");
    assert!(outcome.success && outcome.cave_in);
    assert_eq!(detail.text_at("type"), Some("gear_nick"));
    assert_eq!(detail.int_at("block_loss"), Some(12));
    let broken = detail.get("gear_broken").and_then(|list| list.as_items()).expect("a list");
    assert_eq!(broken.len(), 1);
    assert_eq!(broken[0].as_text(), Some("Padded Vest"));
    assert_eq!(outcome.depth_after, 180 - 12);
    assert_eq!(outcome.jc_earned, 0);
    assert_eq!(outcome.balance_after, 10_000);
    let action = parse_json(&settlement.commit.detail).expect("action detail");
    assert_eq!(action.int_at("block_loss"), Some(12));
    let worn = &settlement.commit.next.gear[0];
    assert_eq!((worn.durability, worn.equipped), (0, true));
}

#[test]
fn sqlite_cave_in_does_not_persist_an_artifact() {
    let base = dug(10, 100, Some(NOW - 7_200));
    let aftermath = Aftermath { fall: None, bill: 0, refund: 0 };
    let (next, told) = caved(&base, CaveIn::Stun { digs: 1 }, 8, 2, None, aftermath);
    assert!(!seeks_artifact(&told.outcome, false));
    let outcome = conclude_dig(&base, next.clone(), no_event(), told).settlement.outcome;
    assert!(outcome.success && outcome.cave_in);
    assert_eq!(outcome.artifact_id, None);
    assert_eq!(next.artifacts.len(), 0);
    assert_eq!(tunnel(&next).current_run_artifacts, 0);
    assert!(seeks_artifact(&plain(10, 2, 5), false));
    assert!(!seeks_artifact(&plain(10, 2, 5), true));
}

#[test]
fn sqlite_successful_artifact_persists_and_increments_current_run_artifacts_once() {
    let mut base = dug(55, 100, Some(NOW - 7_200));
    base.artifacts.push(DigRuntimeArtifact {
        id: 1,
        artifact_id: "echo_stone".to_owned(),
        is_relic: true,
        equipped: true,
    });
    let mut dig = rule(&base, None, plain(55, 2, 5));
    let mut carried = carry(false);
    carried.found = Some(ArtifactDrop {
        artifact_id: "mole_claws".to_owned(),
        is_relic: true,
        current_run_artifacts_delta: 1,
    });
    let next = finish_dig(
        &NoDigRuntimeVanityTax,
        &NoDigRuntimeLowPriorityTax,
        request(false),
        base.clone(),
        &mut dig,
        &carried,
    );
    let mut told = report(dig.outcome, 100, 0);
    told.artifact_id = Some("mole_claws".to_owned());
    let settlement = conclude_dig(&base, next, no_event(), told).settlement;
    assert_eq!(settlement.outcome.artifact_id.as_deref(), Some("mole_claws"));
    let mut store = InMemoryDigRuntimeStore::new(base);
    store.commit(settlement.commit).expect("successful artifact Dig");
    let stored = store.current().expect("stored");
    match charge_dig(&stored, false, false, 3_600, 3) {
        DigCharge::Answered(retry) => {
            assert!(!retry.success, "cooldown must prevent a duplicate artifact roll");
        }
        DigCharge::Charged { .. } => panic!("the cooldown has not passed"),
    }
    let found = stored.artifacts.iter().filter(|owned| owned.artifact_id == "mole_claws");
    assert_eq!(found.count(), 1);
    assert_eq!(tunnel(&stored).current_run_artifacts, 1);
}

#[test]
fn sqlite_artifact_commit_conflict_persists_neither_artifact_nor_counter() {
    let snapshot = dug(10, 100, Some(NOW - 7_200));
    let mut moved = snapshot.clone();
    tunnel_mut(&mut moved).depth += 1;
    let mut store = InMemoryDigRuntimeStore::new(moved);
    let mut next = snapshot.clone();
    next.artifacts.push(DigRuntimeArtifact {
        id: 1,
        artifact_id: "mole_claws".to_owned(),
        is_relic: true,
        equipped: false,
    });
    tunnel_mut(&mut next).current_run_artifacts = 1;
    let commit = conclude_dig(&snapshot, next, no_event(), report(plain(10, 1, 0), 100, 0));
    assert!(matches!(
        store.commit(commit.settlement.commit),
        Err(DigRuntimeStoreError::Conflict)
    ));
    let stored = store.current().expect("stored");
    assert_eq!(stored.artifacts.len(), 0);
    assert_eq!(tunnel(&stored).current_run_artifacts, 0);
}
