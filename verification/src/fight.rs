//! An attempt at the pinnacle between its rounds: it pauses for an answer,
//! resumes, and is handed over to be settled.

use crate::attempt::{
    after_answer, after_warding, answered_round, resumed_step, salts_ward, tell_answered_round,
    ward_off, BaseNumbers, RoundStep,
};
use crate::boss_error::{BossErrorView, BossServiceError, BossServiceErrorView, DigBossRuntimeError};
use crate::boss_tunnel::CommitOutcome;
use crate::combat::{CombatEffects, EffectsView};
use crate::duel::{RiskTier, RoundRecord, RoundView};
use crate::duel_row::{
    round_views, DigBossPausedDuelRow, DuelView, GearSnapshot, GearSnapshotView, PausedBossDuel,
    OptionView, PendingPrompt, PromptOption, PromptView,
};
use crate::json::{Json, JsonView};
use crate::pinnacle::{PinnacleInputView, PinnacleSettlementInput};
use crate::text::{join3, space_words, spaced};
use vstd::prelude::*;

verus! {

/// An attempt that is under way. Hit chances are kept beside it.
#[derive(Debug)]
pub struct PinnacleAttempt {
    pub boss_id: String,
    pub phase: u8,
    /// What the mechanic of the attempt asks.
    pub prompt: PendingPrompt,
    pub risk_tier: RiskTier,
    pub wager: i64,
    pub numbers: BaseNumbers,
    pub effects: CombatEffects,
    pub attempts: i32,
    pub boss_hp_max: i32,
    pub starting_boss_hp: i32,
    pub gear_snapshot: GearSnapshot,
    pub win_chance: Json,
    pub payout_multiplier: Json,
}

/// What a [`PinnacleAttempt`] holds.
#[verifier::ext_equal]
pub struct AttemptView {
    pub boss_id: Seq<char>,
    pub phase: u8,
    pub prompt: PromptView,
    pub risk_tier: RiskTier,
    pub wager: i64,
    pub numbers: BaseNumbers,
    pub effects: EffectsView,
    pub attempts: i32,
    pub boss_hp_max: i32,
    pub starting_boss_hp: i32,
    pub gear_snapshot: GearSnapshotView,
    pub win_chance: JsonView,
    pub payout_multiplier: JsonView,
}

impl View for PinnacleAttempt {
    type V = AttemptView;

    open spec fn view(&self) -> AttemptView {
        AttemptView {
            boss_id: self.boss_id@,
            phase: self.phase,
            prompt: self.prompt@,
            risk_tier: self.risk_tier,
            wager: self.wager,
            numbers: self.numbers,
            effects: self.effects@,
            attempts: self.attempts,
            boss_hp_max: self.boss_hp_max,
            starting_boss_hp: self.starting_boss_hp,
            gear_snapshot: self.gear_snapshot@,
            win_chance: self.win_chance@,
            payout_multiplier: self.payout_multiplier@,
        }
    }
}

/// What a mechanic of the pinnacle asks: its name spelt out, above one line for
/// all of them.
pub open spec fn pinnacle_question(mechanic_id: Seq<char>, options: Seq<OptionView>, safe: usize)
    -> PromptView {
    PromptView {
        mechanic_id,
        prompt_title: spaced(mechanic_id),
        prompt_description: "The pinnacle shifts the shape of the fight."@,
        options,
        safe_option_index: safe,
    }
}

/// Words the question of a mechanic of the pinnacle.
pub fn pinnacle_prompt(mechanic_id: &str, options: Vec<PromptOption>, safe_option_index: usize)
    -> (prompt: PendingPrompt)
    ensures
        prompt@ == pinnacle_question(
            mechanic_id@,
            options@.map_values(|x: PromptOption| x@),
            safe_option_index,
        ),
{
    PendingPrompt {
        mechanic_id: mechanic_id.to_owned(),
        prompt_title: space_words(mechanic_id),
        prompt_description: "The pinnacle shifts the shape of the fight.".to_owned(),
        options,
        safe_option_index,
    }
}

/// An attempt that waits for the answer to its mechanic. Nobody else's echo
/// weighs on it.
pub open spec fn paused(attempt: AttemptView, depth: i32, round: u8, rounds: Seq<RoundView>)
    -> DuelView {
    DuelView {
        boss_id: attempt.boss_id,
        boundary: depth,
        mechanic_id: attempt.prompt.mechanic_id,
        risk_tier: attempt.risk_tier,
        wager: attempt.wager,
        player_hp: attempt.numbers.player_hp,
        boss_hp: attempt.numbers.boss_hp,
        player_damage: attempt.numbers.player_damage,
        boss_damage: attempt.numbers.boss_damage,
        critical_bonus: attempt.numbers.critical_bonus,
        effects: attempt.effects,
        round_num: round,
        round_log: rounds,
        pending_prompt: attempt.prompt,
        attempts_this_fight: attempt.attempts,
        initial_win_chance: attempt.win_chance,
        payout_multiplier: attempt.payout_multiplier,
        boss_hp_max: attempt.boss_hp_max,
        starting_boss_hp: attempt.starting_boss_hp,
        gear_snapshot: attempt.gear_snapshot,
        forced_no_wager_phase: false,
        echo_applied: false,
        echo_killer_id: None,
    }
}

/// Pauses an attempt in the round of its mechanic.
pub fn pause_attempt(
    attempt: PinnacleAttempt,
    depth: i32,
    round: u8,
    round_log: Vec<RoundRecord>,
) -> (duel: PausedBossDuel)
    ensures
        duel@ == paused(attempt@, depth, round, round_views(round_log@)),
{
    PausedBossDuel {
        boss_id: attempt.boss_id,
        boundary: depth,
        mechanic_id: attempt.prompt.mechanic_id.clone(),
        risk_tier: attempt.risk_tier,
        wager: attempt.wager,
        player_hp: attempt.numbers.player_hp,
        boss_hp: attempt.numbers.boss_hp,
        player_damage: attempt.numbers.player_damage,
        boss_damage: attempt.numbers.boss_damage,
        critical_bonus: attempt.numbers.critical_bonus,
        effects: attempt.effects,
        round_num: round,
        round_log,
        pending_prompt: attempt.prompt,
        attempts_this_fight: attempt.attempts,
        initial_win_chance: attempt.win_chance,
        payout_multiplier: attempt.payout_multiplier,
        boss_hp_max: attempt.boss_hp_max,
        starting_boss_hp: attempt.starting_boss_hp,
        gear_snapshot: attempt.gear_snapshot,
        forced_no_wager_phase: false,
        echo_applied: false,
        echo_killer_id: None,
    }
}

/// A finished attempt as it is handed over to be settled.
pub open spec fn fought(attempt: AttemptView, won: bool, close_win: bool, rounds: Seq<RoundView>)
    -> PinnacleInputView {
    PinnacleInputView {
        boss_id: attempt.boss_id,
        phase: attempt.phase,
        risk_tier: attempt.risk_tier,
        wager: attempt.wager,
        won,
        close_win,
        ending_boss_hp: attempt.numbers.boss_hp,
        boss_hp_max: attempt.boss_hp_max,
        starting_boss_hp: attempt.starting_boss_hp,
        attempts: attempt.attempts,
        round_log: rounds,
        boss_preparation: attempt.effects.boss_preparation,
        warding_salts_blocked: false,
    }
}

/// Hands a finished attempt over to be settled. `close_win` tells whether a win
/// would be a narrow one.
pub fn finish_attempt(
    attempt: PinnacleAttempt,
    won: bool,
    close_win: bool,
    round_log: Vec<RoundRecord>,
) -> (input: PinnacleSettlementInput)
    ensures
        input@ == fought(attempt@, won, close_win, round_views(round_log@)),
{
    PinnacleSettlementInput {
        boss_id: attempt.boss_id,
        phase: attempt.phase,
        risk_tier: attempt.risk_tier,
        wager: attempt.wager,
        won,
        close_win,
        ending_boss_hp: attempt.numbers.boss_hp,
        boss_hp_max: attempt.boss_hp_max,
        starting_boss_hp: attempt.starting_boss_hp,
        attempts: attempt.attempts,
        round_log,
        boss_preparation: attempt.effects.boss_preparation,
        warding_salts_blocked: false,
    }
}

/// Requires that a row holds a fight at the pinnacle. `known` tells whether its
/// boss is one that is fought there.
pub fn require_pinnacle_duel(row: &DigBossPausedDuelRow, depth: i32, known: bool) -> (answer: Result<
    (),
    DigBossRuntimeError,
>)
    ensures
        match answer {
            Ok(_) => row@.boundary == depth && known,
            Err(error) => !(row@.boundary == depth && known) && error@
                == BossErrorView::InvalidPinnacle(
                "paused duel "@ + row@.boss_id + " is not a pinnacle encounter"@,
            ),
        },
{
    if row.boundary == depth as i64 && known {
        Ok(())
    } else {
        Err(
            DigBossRuntimeError::InvalidPinnacle(
                join3("paused duel ", row.boss_id.as_str(), " is not a pinnacle encounter"),
            ),
        )
    }
}

/// A waiting fight in which warding salts met the mechanic.
pub open spec fn warded(duel: DuelView) -> DuelView {
    DuelView {
        effects: EffectsView {
            boss_preparation: after_warding(duel.effects.boss_preparation),
            ..duel.effects
        },
        ..duel
    }
}

/// Lets warding salts meet the mechanic of a waiting fight, and tells whether
/// they kept it off.
pub fn ward_duel(duel: &mut PausedBossDuel) -> (blocked: bool)
    ensures
        blocked == salts_ward(old(duel)@.effects.boss_preparation),
        final(duel)@ == warded(old(duel)@),
{
    let blocked = ward_off(&mut duel.effects.boss_preparation);
    assert(duel@ =~= warded(old(duel)@));
    blocked
}

/// What the answer to a mechanic leaves of both sides.
#[derive(Debug)]
pub struct AnswerEffect {
    pub player_hp: i32,
    pub boss_hp: i32,
    pub effects: CombatEffects,
}

/// What an answer leaves of a waiting fight. Without one the mechanic was kept
/// off and nothing happens.
pub open spec fn answered(duel: DuelView, answer: Option<AnswerEffect>) -> DuelView {
    match answer {
        Some(answer) => DuelView {
            player_hp: answer.player_hp,
            boss_hp: answer.boss_hp,
            effects: answer.effects@,
            ..duel
        },
        None => duel,
    }
}

/// A waiting fight that goes on: the answer took effect, and the round in which
/// it was given is told.
pub open spec fn resumed(duel: DuelView, answer: Option<AnswerEffect>) -> DuelView {
    let after = answered(duel, answer);
    DuelView {
        round_log: after.round_log.push(
            answered_round(
                after.round_num,
                after.player_hp,
                after.boss_hp,
                after.effects.pet_assist,
            ),
        ),
        ..after
    }
}

/// Resumes a waiting fight with an answer, and decides how it goes on.
pub fn resume_duel(
    duel: &mut PausedBossDuel,
    answer: Option<AnswerEffect>,
    last_round: u8,
) -> (step: RoundStep)
    ensures
        final(duel)@ == resumed(old(duel)@, answer),
        step == resumed_step(
            old(duel)@.round_num,
            last_round,
            final(duel)@.player_hp,
            final(duel)@.boss_hp,
        ),
{
    let ghost before = duel@;
    let ghost given = answer;
    match answer {
        Some(effect) => {
            duel.player_hp = effect.player_hp;
            duel.boss_hp = effect.boss_hp;
            duel.effects = effect.effects;
        },
        None => {},
    }
    assert(duel@ =~= answered(before, given));
    let told = tell_answered_round(
        duel.round_num,
        duel.player_hp,
        duel.boss_hp,
        &duel.effects.pet_assist,
    );
    let ghost rounds = round_views(duel.round_log@);
    duel.round_log.push(told);
    assert(round_views(duel.round_log@) =~= rounds.push(told@));
    assert(duel@ =~= resumed(before, given));
    after_answer(duel.round_num, last_round, duel.player_hp, duel.boss_hp)
}

/// A resumed fight that is over, as it is handed over to be settled.
pub open spec fn fought_out(
    duel: DuelView,
    phase: u8,
    won: bool,
    close_win: bool,
    blocked: bool,
) -> PinnacleInputView {
    PinnacleInputView {
        boss_id: duel.boss_id,
        phase,
        risk_tier: duel.risk_tier,
        wager: duel.wager,
        won,
        close_win,
        ending_boss_hp: duel.boss_hp,
        boss_hp_max: duel.boss_hp_max,
        starting_boss_hp: duel.starting_boss_hp,
        attempts: duel.attempts_this_fight,
        round_log: duel.round_log,
        boss_preparation: duel.effects.boss_preparation,
        warding_salts_blocked: blocked,
    }
}

/// Hands a resumed fight that is over over to be settled. `blocked` tells
/// whether warding salts kept its mechanic off.
pub fn finish_duel(
    duel: PausedBossDuel,
    phase: u8,
    won: bool,
    close_win: bool,
    blocked: bool,
) -> (input: PinnacleSettlementInput)
    ensures
        input@ == fought_out(duel@, phase, won, close_win, blocked),
{
    PinnacleSettlementInput {
        boss_id: duel.boss_id,
        phase,
        risk_tier: duel.risk_tier,
        wager: duel.wager,
        won,
        close_win,
        ending_boss_hp: duel.boss_hp,
        boss_hp_max: duel.boss_hp_max,
        starting_boss_hp: duel.starting_boss_hp,
        attempts: duel.attempts_this_fight,
        round_log: duel.round_log,
        boss_preparation: duel.effects.boss_preparation,
        warding_salts_blocked: blocked,
    }
}

/// Decides what follows from the answer of the store: `true` when the change
/// counts, `false` when it is to be decided again.
pub fn after_store(outcome: CommitOutcome) -> (answer: Result<bool, DigBossRuntimeError>)
    ensures
        match outcome {
            CommitOutcome::Applied => answer == Ok::<bool, DigBossRuntimeError>(true),
            CommitOutcome::Conflict => answer == Ok::<bool, DigBossRuntimeError>(false),
            CommitOutcome::MissingPlayer | CommitOutcome::MissingTunnel => answer matches Err(error)
                && error@ == BossErrorView::Policy(BossServiceErrorView::MissingTunnel),
        },
{
    match outcome {
        CommitOutcome::Applied => Ok(true),
        CommitOutcome::Conflict => Ok(false),
        CommitOutcome::MissingPlayer | CommitOutcome::MissingTunnel => Err(
            DigBossRuntimeError::Policy(BossServiceError::MissingTunnel),
        ),
    }
}

/// Decides whether an attempt goes on once its event was to be used up: an event
/// that somebody else changed meanwhile ends it.
pub fn after_event(outcome: CommitOutcome) -> (answer: Result<(), DigBossRuntimeError>)
    ensures
        match outcome {
            CommitOutcome::Applied => answer == Ok::<(), DigBossRuntimeError>(()),
            CommitOutcome::Conflict => answer matches Err(error) && error@
                == BossErrorView::InvalidPinnacle(
                "phase event changed during attempt preparation"@,
            ),
            CommitOutcome::MissingPlayer | CommitOutcome::MissingTunnel => answer matches Err(error)
                && error@ == BossErrorView::Policy(BossServiceErrorView::MissingTunnel),
        },
{
    match outcome {
        CommitOutcome::Applied => Ok(()),
        CommitOutcome::Conflict => Err(
            DigBossRuntimeError::InvalidPinnacle(
                "phase event changed during attempt preparation".to_owned(),
            ),
        ),
        CommitOutcome::MissingPlayer | CommitOutcome::MissingTunnel => Err(
            DigBossRuntimeError::Policy(BossServiceError::MissingTunnel),
        ),
    }
}

/// Decides whether a scout goes on once its lantern was to be used up.
pub fn after_lantern(taken: bool) -> (answer: Result<(), DigBossRuntimeError>)
    ensures
        match answer {
            Ok(_) => taken,
            Err(error) => !taken && error@ == BossErrorView::InvalidPinnacle(
                "Lantern changed during pinnacle scout"@,
            ),
        },
{
    if taken {
        Ok(())
    } else {
        Err(
            DigBossRuntimeError::InvalidPinnacle(
                "Lantern changed during pinnacle scout".to_owned(),
            ),
        )
    }
}

/// A pause costs an attempt nothing: resumed with its mechanic kept off, and
/// over, it is settled as it would have been without the pause, apart from the
/// round that tells of it.
pub proof fn law_pause_costs_nothing(
    attempt: AttemptView,
    depth: i32,
    round: u8,
    rounds: Seq<RoundView>,
    won: bool,
    close_win: bool,
)
    ensures
        ({
            let duel = resumed(paused(attempt, depth, round, rounds), None);
            let through = fought_out(duel, attempt.phase, won, close_win, false);
            let straight = fought(attempt, won, close_win, rounds);
            &&& duel.round_log.drop_last() == rounds
            &&& through == (PinnacleInputView { round_log: duel.round_log, ..straight })
        }),
{
    let duel = resumed(paused(attempt, depth, round, rounds), None);
    assert(duel.round_log.drop_last() =~= rounds);
}

/// A mechanic that warding salts keep off hurts neither side, and they keep off
/// no other.
pub proof fn law_warded_mechanic_hurts_nobody(duel: DuelView)
    requires
        salts_ward(duel.effects.boss_preparation),
    ensures
        resumed(warded(duel), None).player_hp == duel.player_hp,
        resumed(warded(duel), None).boss_hp == duel.boss_hp,
        !salts_ward(resumed(warded(duel), None).effects.boss_preparation),
{
}

} // verus!
