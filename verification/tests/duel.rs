//! Waiting fights, attempts and the pinnacle.

use cama_dig::attempt::{
    after_answer, after_round, attempt_boss_damage, attempt_number, attempt_player_damage,
    attempt_player_hp, attempt_step, base_numbers, choose_option, consume_event, fresh_boss_hp,
    pending_event_id, plan_pinnacle_lock, scout_lantern, start_effects, tell_answered_round,
    ward_off, whetted_damage, AttemptStep, PhaseEvent, RoundStep,
};
use cama_dig::boss_error::{BossServiceError, DigBossRuntimeError};
use cama_dig::boss_store::{DigBossRuntimeSnapshot, PlayerKey};
use cama_dig::boss_tunnel::CommitOutcome;
use cama_dig::combat::{BossPreparationState, CombatEffects, PetAssist};
use cama_dig::duel::{
    parse_boss_preparation, parse_pet_assist, parse_risk, risk_name, round_record_json,
    RiskTier, RoundEffectLog, RoundRecord,
};
use cama_dig::duel_row::{
    gear_in_status, gear_snapshot_from_paused_row, parse_prompt, parse_round_log, paused_duel_from_row,
    paused_duel_row, prompt_json, GearSnapshot, PausedBossDuel, PendingPrompt, PromptOption,
};
use cama_dig::fight::{
    after_event, after_lantern, after_store, finish_attempt, finish_duel, pause_attempt,
    pinnacle_prompt, require_pinnacle_duel, resume_duel, ward_duel, AnswerEffect, PinnacleAttempt,
};
use cama_dig::json::{parse_json, render_json, Json};
use cama_dig::pinnacle::{
    check_pinnacle, gear_wears_lightly, pinnacle_base_reward, pinnacle_end, pinnacle_phase,
    pinnacle_phase_key, rescue_line_used, resolve_pinnacle_hp, settle_pinnacle, tell_pinnacle,
    wager_forfeit, PinnacleEnd, PinnacleReward, PinnacleRoll, PinnacleSettlementInput,
};

const NOW: i64 = 1_900_000_000;

const DEPTH: i32 = 300;

fn kept<T, E>(answer: Result<T, E>) -> T {
    match answer {
        Ok(value) => value,
        Err(_) => panic!("an error came back"),
    }
}

fn round(number: u8) -> RoundRecord {
    let mut effect_log = RoundEffectLog::default();
    effect_log.critical = true;
    effect_log.recovery.lifesteal = true;
    RoundRecord {
        round: number,
        player_hp: 4,
        boss_hp: 3,
        player_hit: true,
        boss_hit: Some(false),
        pet_assist: Some(PetAssist {
            pet_name: "Moss".to_owned(),
            species_id: "mole".to_owned(),
            species_name: "Mole".to_owned(),
            bonus_percent: 3,
        }),
        pet_assist_damage: 1,
        effect_log,
    }
}

fn prompt() -> PendingPrompt {
    PendingPrompt {
        mechanic_id: "roar".to_owned(),
        prompt_title: "It roars".to_owned(),
        prompt_description: "What now?".to_owned(),
        options: vec![
            PromptOption { option_index: 0, label: "Duck".to_owned() },
            PromptOption { option_index: 1, label: "Run".to_owned() },
        ],
        safe_option_index: 1,
    }
}

fn duel() -> PausedBossDuel {
    PausedBossDuel {
        boss_id: "grothak".to_owned(),
        boundary: 25,
        mechanic_id: "roar".to_owned(),
        risk_tier: RiskTier::Bold,
        wager: 12,
        player_hp: 3,
        boss_hp: 4,
        player_damage: 2,
        boss_damage: 1,
        critical_bonus: 1,
        effects: CombatEffects::default(),
        round_num: 3,
        round_log: vec![round(1), round(2)],
        pending_prompt: prompt(),
        attempts_this_fight: 2,
        initial_win_chance: parse_json("0.25").expect("a number"),
        payout_multiplier: Json::from_i64(2),
        boss_hp_max: 6,
        starting_boss_hp: 5,
        gear_snapshot: GearSnapshot { gear_ids: vec![4, 8], armor_id: Some(8) },
        forced_no_wager_phase: true,
        echo_applied: false,
        echo_killer_id: Some(-3),
    }
}

const KEY: PlayerKey = PlayerKey { player_id: 7, guild_id: 9 };

fn number(value: f64) -> Json {
    Json::Number(serde_json::Number::from_f64(value).expect("a finite number"))
}

#[test]
fn a_row_that_kept_no_chance_has_the_given_ones() {
    let mut row = paused_duel_row(KEY, &duel(), NOW);
    row.status_effects_json = r#"{"multiplier":"none"}"#.to_owned();
    let back = kept(paused_duel_from_row(&row, Some(prompt()), &number(0.5), &number(1.0)));
    assert_eq!(render_json(back.initial_win_chance), "0.5");
    assert_eq!(render_json(back.payout_multiplier), "1.0");
    row.status_effects_json = r#"{"initial_win_chance":1,"multiplier":2.5}"#.to_owned();
    let back = kept(paused_duel_from_row(&row, Some(prompt()), &number(0.5), &number(1.0)));
    assert_eq!(render_json(back.initial_win_chance), "1");
    assert_eq!(render_json(back.payout_multiplier), "2.5");
}

#[test]
fn a_waiting_fight_reads_back_from_its_row() {
    let row = paused_duel_row(KEY, &duel(), NOW);
    assert_eq!((row.boss_id.as_str(), row.risk_tier.as_str()), ("grothak", "bold"));
    let mut fallback = prompt();
    fallback.mechanic_id = "other".to_owned();
    let back = kept(paused_duel_from_row(&row, Some(fallback), &number(0.5), &number(1.0)));
    assert_eq!(back.risk_tier, RiskTier::Bold);
    assert_eq!(back.round_log, duel().round_log);
    assert_eq!(back.pending_prompt, prompt());
    assert_eq!(back.gear_snapshot, duel().gear_snapshot);
    assert_eq!((back.boss_hp_max, back.starting_boss_hp), (6, 5));
    assert_eq!((back.wager, back.attempts_this_fight), (12, 2));
    assert!(back.forced_no_wager_phase && !back.echo_applied);
    assert_eq!(back.echo_killer_id, Some(-3));
    assert_eq!(render_json(back.initial_win_chance), "0.25");
    assert_eq!(gear_snapshot_from_paused_row(&row), duel().gear_snapshot);
    assert_eq!(
        gear_in_status(&parse_json(&row.status_effects_json).expect("JSON")),
        duel().gear_snapshot
    );
}

#[test]
fn a_row_without_a_prompt_falls_back_on_its_mechanic() {
    let mut row = paused_duel_row(KEY, &duel(), NOW);
    row.pending_prompt_json = None;
    assert_eq!(kept(paused_duel_from_row(&row, Some(prompt()), &number(0.5), &number(1.0))).pending_prompt, prompt());
    assert_eq!(
        paused_duel_from_row(&row, None, &number(0.5), &number(1.0)).err().as_deref(),
        Some("paused duel has unknown mechanic roar")
    );
    row.boss_hp = i64::MAX;
    assert!(paused_duel_from_row(&row, Some(prompt()), &number(0.5), &number(1.0)).is_err());
}

#[test]
fn a_prompt_is_read_beside_fractions() {
    let text = render_json(prompt_json(&prompt()));
    let widened = text.replacen('{', r#"{"weight":0.5,"#, 1);
    assert_eq!(parse_prompt(&widened), Some(prompt()));
    let back = parse_json(&widened).map(render_json).expect("JSON");
    assert_eq!(parse_prompt(&back), Some(prompt()));
}

#[test]
fn prompts_and_rounds_read_back() {
    let text = render_json(prompt_json(&prompt()));
    assert_eq!(parse_prompt(&text), Some(prompt()));
    assert!(parse_prompt("{}").is_none());
    let mut far = prompt();
    far.safe_option_index = usize::MAX;
    assert_eq!(parse_prompt(&render_json(prompt_json(&far))), Some(far));
    let older = r#"{"mechanic_id":"m","prompt_title":"t","prompt_description":"d","options":[{"label":"x"}],"safe_option_index":2}"#;
    let read = parse_prompt(older).expect("a prompt");
    assert_eq!((read.prompt_title.as_str(), read.safe_option_index), ("t", 2));
    assert_eq!(read.options[0].option_index, 0);
    let rounds = render_json(Json::Array(vec![round_record_json(&round(4))]));
    assert_eq!(parse_round_log(&rounds), vec![round(4)]);
    assert!(parse_round_log("nonsense").is_empty());
}

#[test]
fn risks_have_names_that_read_back() {
    for risk in [RiskTier::Cautious, RiskTier::Bold, RiskTier::Reckless] {
        assert_eq!(parse_risk(risk_name(risk)), Ok(risk));
    }
    assert!(parse_risk("timid").is_err());
    let assist = parse_json(r#"{"pet_name":"Moss"}"#);
    assert!(parse_pet_assist(assist.as_ref()).is_none());
    assert!(parse_pet_assist(None).is_none());
    let prep = parse_json(r#"{"item_type":"rescue_line","used":true}"#);
    let prep = parse_boss_preparation(prep.as_ref()).expect("prepared");
    assert_eq!((prep.item_type.as_str(), prep.used), ("rescue_line", true));
}

#[test]
fn attempts_start_from_their_numbers() {
    assert_eq!(base_numbers(RiskTier::Cautious).player_hp, 5);
    assert_eq!(base_numbers(RiskTier::Reckless).player_damage, 3);
    let event = PhaseEvent {
        boss_hp_delta: 2,
        boss_damage_delta: 1,
        player_hp_delta: -1,
        player_damage_delta: -1,
    };
    assert_eq!(fresh_boss_hp(4, Some(event)), 6);
    assert_eq!(fresh_boss_hp(4, None), 4);
    assert_eq!(attempt_player_damage(0, None), 1);
    assert_eq!(attempt_player_damage(3, Some(event)), 2);
    assert_eq!(attempt_player_hp(1, Some(event)), 1);
    assert_eq!(attempt_boss_damage(2, 1, false, None), 3);
    assert_eq!(whetted_damage(2, 1), 3);
    assert_eq!(attempt_number(3).ok(), Some(4));
    assert!(attempt_number(i64::MAX).is_err());
}

#[test]
fn attempts_pause_fight_and_end() {
    assert_eq!(attempt_step(3, 3, 1, 1), AttemptStep::Pause);
    assert_eq!(attempt_step(3, 3, 1, 0), AttemptStep::Fight);
    assert_eq!(attempt_step(2, 3, 1, 1), AttemptStep::Fight);
    assert_eq!(after_round(2, 8, None), RoundStep::Next { round: 3 });
    assert_eq!(after_round(8, 8, None), RoundStep::Ended { won: false });
    assert_eq!(after_round(2, 8, Some(true)), RoundStep::Ended { won: true });
    assert_eq!(after_answer(3, 8, 0, 0), RoundStep::Ended { won: true });
    assert_eq!(after_answer(3, 8, 0, 1), RoundStep::Ended { won: false });
    assert_eq!(after_answer(3, 8, 1, 1), RoundStep::Next { round: 4 });
    assert_eq!(after_answer(8, 8, 1, 1), RoundStep::Ended { won: false });
    assert_eq!((choose_option(1, 2, 0), choose_option(2, 2, 0)), (1, 0));
    let told = tell_answered_round(3, -4, 2, &None);
    assert_eq!((told.player_hp, told.boss_hp, told.player_hit), (0, 2, false));
}

#[test]
fn salts_ward_once() {
    let mut prep =
        Some(BossPreparationState { item_type: "warding_salts".to_owned(), used: false });
    assert!(ward_off(&mut prep));
    assert!(prep.as_ref().is_some_and(|item| item.used));
    assert!(!ward_off(&mut prep));
    assert!(!ward_off(&mut None));
}

#[test]
fn attempts_keep_their_starting_health_under_effects() {
    let mut effects = CombatEffects::default();
    start_effects(&mut effects, 5, None, None, None);
    assert_eq!(effects.trophies.start_hp, None);
    effects.trophies.lifesteal = true;
    start_effects(&mut effects, 5, Some("hp".to_owned()), None, None);
    assert_eq!(effects.trophies.start_hp, Some(5));
    assert_eq!(effects.shifting_idol_bonus.as_deref(), Some("hp"));
}

#[test]
fn events_are_used_once() {
    let column = r#"{"300":{"pending_phase_event_id":"quake"},"25":{"pending_phase_event_id":"fog"}}"#;
    assert_eq!(pending_event_id(Some(column), DEPTH).as_deref(), Some("quake"));
    let written = consume_event(Some(column), DEPTH);
    assert_eq!(pending_event_id(Some(&written), DEPTH), None);
    assert_eq!(pending_event_id(Some(&written), 25).as_deref(), Some("fog"));
}

#[test]
fn lanterns_are_needed_to_scout() {
    assert_eq!(scout_lantern(&vec![4, 5], false), Ok(Some(4)));
    assert_eq!(scout_lantern(&vec![4, 5], true), Ok(None));
    assert_eq!(
        scout_lantern(&Vec::new(), false),
        Err(DigBossRuntimeError::Policy(BossServiceError::LanternRequired))
    );
}

fn record() -> DigBossRuntimeSnapshot {
    DigBossRuntimeSnapshot {
        balance: 100,
        depth: 300,
        max_depth: 300,
        prestige_level: 2,
        luminosity: 50,
        last_lum_update_at: None,
        last_dig_at: None,
        boss_attempts: 0,
        boss_progress_json: Some("{}".to_owned()),
        stinger_curse_json: None,
        cheer_data_json: None,
        stat_points: 5,
        stat_boss_awards_json: None,
        pinnacle_boss_id: Some("forgotten_king".to_owned()),
        pinnacle_phase: 1,
        pinnacle_hp_remaining: None,
        pinnacle_last_engaged_at: None,
    }
}

fn attempt(phase: u8, won: bool) -> PinnacleSettlementInput {
    PinnacleSettlementInput {
        boss_id: "forgotten_king".to_owned(),
        phase,
        risk_tier: RiskTier::Cautious,
        wager: 40,
        won,
        close_win: false,
        ending_boss_hp: if won { 0 } else { 3 },
        boss_hp_max: 9,
        starting_boss_hp: 9,
        attempts: 1,
        round_log: Vec::new(),
        boss_preparation: None,
        warding_salts_blocked: false,
    }
}

#[test]
fn the_pinnacle_is_locked_to_a_known_boss() {
    assert!(plan_pinnacle_lock(&record(), true, "other").is_none());
    let plan = plan_pinnacle_lock(&record(), false, "other").expect("a new lock");
    assert_eq!(plan.pinnacle_boss_id.as_deref(), Some("other"));
    assert_eq!(plan.pinnacle_phase, 1);
    let mut far = record();
    far.pinnacle_phase = 9;
    assert_eq!(pinnacle_phase(&far), 3);
    assert_eq!(pinnacle_phase_key(DEPTH, 2), "300:2");
}

#[test]
fn wounded_bosses_recover_a_point_a_day() {
    let progress = parse_json(
        r#"{"300:1":{"hp_remaining":3,"hp_max":9,"last_engaged_at":1900000000}}"#,
    )
    .expect("JSON");
    assert_eq!(resolve_pinnacle_hp(&progress, "300:1", 12, NOW), (3, 9));
    assert_eq!(resolve_pinnacle_hp(&progress, "300:1", 12, NOW + 2 * 86_400), (5, 9));
    assert_eq!(resolve_pinnacle_hp(&progress, "300:1", 12, NOW + 99 * 86_400), (9, 9));
    assert_eq!(resolve_pinnacle_hp(&progress, "300:2", 12, NOW), (12, 12));
    assert_eq!(resolve_pinnacle_hp(&progress, "300:2", 0, NOW), (1, 1));
}

#[test]
fn pinnacle_attempts_end_by_phase() {
    assert_eq!(pinnacle_end(true, 2), PinnacleEnd::NextPhase);
    assert_eq!(pinnacle_end(true, 3), PinnacleEnd::Victory);
    assert_eq!(pinnacle_end(false, 3), PinnacleEnd::Defeat);
    assert_eq!(pinnacle_base_reward(2), 700);
    assert_eq!(pinnacle_base_reward(-1), 500);
    assert_eq!(wager_forfeit(40, 10), 10);
    assert_eq!(wager_forfeit(-40, 10), 0);
    let line = Some(BossPreparationState { item_type: "rescue_line".to_owned(), used: false });
    assert!(rescue_line_used(false, &line) && !rescue_line_used(true, &line));
    assert!(gear_wears_lightly(false, &line) && !gear_wears_lightly(false, &None));
}

#[test]
fn a_defeat_costs_the_wager_and_throws_back() {
    let mut lost = attempt(1, false);
    let roll = PinnacleRoll::Defeat { knockback: 12 };
    let settled =
        kept(settle_pinnacle(&record(), &lost, DEPTH, &roll, Json::from_i64(1), NOW));
    assert_eq!((settled.figures.jc_delta, settled.figures.knockback), (-40, 12));
    assert_eq!(settled.proposed.balance, 60);
    assert_eq!(settled.proposed.depth, 288);
    let told = kept(tell_pinnacle(&lost, &settled, &roll, "The Forgotten King", ""));
    assert!(!told.won);
    assert_eq!(told.new_depth, 288);
    lost.boss_preparation =
        Some(BossPreparationState { item_type: "rescue_line".to_owned(), used: false });
    let softer =
        kept(settle_pinnacle(&record(), &lost, DEPTH, &roll, Json::from_i64(1), NOW));
    assert_eq!(softer.figures.knockback, 6);
    assert!(softer.rescue_line_used);
}

#[test]
fn a_won_phase_leads_on_and_a_won_pinnacle_pays() {
    let won = attempt(1, true);
    let roll = PinnacleRoll::Transition { event_id: "fog".to_owned(), luminosity_delta: -20 };
    let settled =
        kept(settle_pinnacle(&record(), &won, DEPTH, &roll, Json::from_i64(1), NOW));
    assert_eq!(settled.figures.next_phase, 2);
    assert_eq!(settled.proposed.pinnacle_phase, 2);
    assert_eq!(settled.proposed.luminosity, 30);
    assert_eq!(
        pending_event_id(settled.proposed.boss_progress_json.as_deref(), DEPTH).as_deref(),
        Some("fog")
    );
    let mut last = record();
    last.pinnacle_phase = 3;
    let reward = PinnacleReward {
        gross_base: 700,
        scaled_base: 700,
        event_wager: 20,
        penalty_applied: 10,
        vanity_tax: 5,
        penalized: 705,
    };
    let settled = kept(settle_pinnacle(
        &last,
        &attempt(3, true),
        DEPTH,
        &PinnacleRoll::Victory { reward },
        Json::from_i64(1),
        NOW,
    ));
    assert_eq!((settled.figures.payout, settled.figures.gross_payout), (705, 720));
    assert_eq!(settled.proposed.balance, 805);
}

#[test]
fn a_changed_pinnacle_is_not_settled() {
    let mut moved = record();
    moved.pinnacle_phase = 2;
    match check_pinnacle(&moved, &attempt(1, false)) {
        Err(error) => assert_eq!(
            error.message().as_deref(),
            Some("the active pinnacle state is invalid: pinnacle phase or boss changed before settlement")
        ),
        Ok(()) => panic!("the phase changed"),
    }
    assert!(check_pinnacle(&record(), &attempt(1, false)).is_ok());
}

#[test]
fn a_paused_attempt_resumes_and_is_settled() {
    let attempt = PinnacleAttempt {
        boss_id: "forgotten_king".to_owned(),
        phase: 1,
        prompt: prompt(),
        risk_tier: RiskTier::Cautious,
        wager: 40,
        numbers: base_numbers(RiskTier::Cautious),
        effects: CombatEffects {
            boss_preparation: Some(BossPreparationState {
                item_type: "warding_salts".to_owned(),
                used: false,
            }),
            ..CombatEffects::default()
        },
        attempts: 2,
        boss_hp_max: 9,
        starting_boss_hp: 4,
        gear_snapshot: GearSnapshot { gear_ids: vec![4], armor_id: None },
        win_chance: parse_json("0.5").expect("a number"),
        payout_multiplier: Json::from_i64(2),
    };
    let mut waiting = pause_attempt(attempt, DEPTH, 3, vec![round(1), round(2)]);
    assert_eq!((waiting.boundary, waiting.mechanic_id.as_str()), (DEPTH, "roar"));
    let row = paused_duel_row(KEY, &waiting, NOW);
    assert_eq!(require_pinnacle_duel(&row, DEPTH, true), Ok(()));
    match require_pinnacle_duel(&row, DEPTH, false) {
        Err(error) => assert_eq!(
            error.message().as_deref(),
            Some("the active pinnacle state is invalid: paused duel forgotten_king is not a pinnacle encounter")
        ),
        Ok(()) => panic!("an unknown boss"),
    }
    assert!(ward_duel(&mut waiting));
    assert_eq!(resume_duel(&mut waiting, None, 8), RoundStep::Next { round: 4 });
    assert_eq!((waiting.player_hp, waiting.boss_hp), (5, 4));
    assert_eq!(waiting.round_log.len(), 3);
    let hurt = AnswerEffect { player_hp: 0, boss_hp: 4, effects: CombatEffects::default() };
    assert_eq!(resume_duel(&mut waiting, Some(hurt), 8), RoundStep::Ended { won: false });
    let input = finish_duel(waiting, 1, false, true, true);
    assert_eq!((input.wager, input.attempts, input.ending_boss_hp), (40, 2, 4));
    assert!(input.warding_salts_blocked && !input.won);
    assert!(input.boss_preparation.is_none());
}

#[test]
fn a_finished_attempt_is_settled() {
    let attempt = PinnacleAttempt {
        boss_id: "forgotten_king".to_owned(),
        phase: 3,
        prompt: prompt(),
        risk_tier: RiskTier::Bold,
        wager: 0,
        numbers: base_numbers(RiskTier::Bold),
        effects: CombatEffects::default(),
        attempts: 1,
        boss_hp_max: 5,
        starting_boss_hp: 5,
        gear_snapshot: GearSnapshot { gear_ids: Vec::new(), armor_id: None },
        win_chance: Json::Null,
        payout_multiplier: Json::Null,
    };
    let input = finish_attempt(attempt, true, true, vec![round(1)]);
    assert_eq!((input.phase, input.ending_boss_hp, input.round_log.len()), (3, 5, 1));
    assert!(input.won && input.close_win && !input.warding_salts_blocked);
}

#[test]
fn the_store_decides_how_a_change_goes_on() {
    assert_eq!(after_store(CommitOutcome::Applied), Ok(true));
    assert_eq!(after_store(CommitOutcome::Conflict), Ok(false));
    assert_eq!(
        after_store(CommitOutcome::MissingPlayer),
        Err(DigBossRuntimeError::Policy(BossServiceError::MissingTunnel))
    );
    assert_eq!(after_event(CommitOutcome::Applied), Ok(()));
    assert_eq!(
        after_event(CommitOutcome::Conflict),
        Err(DigBossRuntimeError::InvalidPinnacle(
            "phase event changed during attempt preparation".to_owned()
        ))
    );
    assert_eq!(
        after_event(CommitOutcome::MissingTunnel),
        Err(DigBossRuntimeError::Policy(BossServiceError::MissingTunnel))
    );
    assert_eq!(after_lantern(true), Ok(()));
    assert_eq!(
        after_lantern(false),
        Err(DigBossRuntimeError::InvalidPinnacle("Lantern changed during pinnacle scout".to_owned()))
    );
}

#[test]
fn pinnacle_mechanic_spells_out_its_name() {
    let prompt = pinnacle_prompt(
        "mirror_of_ash",
        vec![
            PromptOption { option_index: 0, label: "Hold".to_owned() },
            PromptOption { option_index: 1, label: "Break".to_owned() },
        ],
        1,
    );
    assert_eq!(prompt.mechanic_id, "mirror_of_ash");
    assert_eq!(prompt.prompt_title, "mirror of ash");
    assert_eq!(prompt.prompt_description, "The pinnacle shifts the shape of the fight.");
    assert_eq!(prompt.options.len(), 2);
    assert_eq!(prompt.safe_option_index, 1);
}
