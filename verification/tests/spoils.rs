//! What a fight leaves behind: notices, warnings, and what dropped.

use cama_dig::boss_error::{BossServiceError, DigBossRuntimeError};
use cama_dig::boss_service::{
    finish_composed, BossNotice, CatalogueArtifact, ComposedTroubles, DigBossBrokenGear,
    DigBossRuntimeResult,
};
use cama_dig::boss_store::PlayerKey;
use cama_dig::combat::GearSlot;
use cama_dig::duel_row::{PendingPrompt, PromptOption};
use cama_dig::spoils::{
    enrich_regular_resolution, note_broken_gear, note_gear_drop, note_relic_drop, BrokenGearAnswer,
    FightEnd, GearGrant, RelicAnswer,
};

const KEY: PlayerKey = PlayerKey { player_id: 7, guild_id: 9 };

fn prompt() -> PendingPrompt {
    PendingPrompt {
        mechanic_id: "roar".to_owned(),
        prompt_title: "A roar".to_owned(),
        prompt_description: "It roars.".to_owned(),
        options: vec![PromptOption { option_index: 0, label: "Hide".to_owned() }],
        safe_option_index: 0,
    }
}

fn quiet() -> ComposedTroubles {
    ComposedTroubles {
        record: None,
        activation: None,
        economy: Vec::new(),
        bankruptcy: Vec::new(),
        gear: None,
        preparation: None,
    }
}

fn fought(action_id: Option<i64>) -> DigBossRuntimeResult<u8> {
    DigBossRuntimeResult::plain(3, action_id, vec!["before".to_owned()])
}

fn relic() -> CatalogueArtifact {
    CatalogueArtifact {
        id: "idol".to_owned(),
        name: "Idol".to_owned(),
        rarity: "rare".to_owned(),
        is_relic: true,
        trophy: false,
        min_prestige: 1,
    }
}

fn grant(answer: Result<i64, String>) -> GearGrant {
    GearGrant { slot: GearSlot::Boots, tier: 4, name: "Iron Boots".to_owned(), answer }
}

#[test]
fn a_pause_announces_its_prompt() {
    let paused = DigBossRuntimeResult::paused(1_u8, vec!["w".to_owned()], KEY, "grothak", &prompt());
    assert_eq!(
        paused.notices,
        [BossNotice::PromptReady { key: KEY, boss_id: "grothak".to_owned(), prompt: prompt() }]
    );
    assert_eq!((paused.action_id, paused.warnings.len()), (None, 1));
}

#[test]
fn an_end_announces_who_won_what() {
    let ended = DigBossRuntimeResult::resolved(1_u8, Some(5), Vec::new(), KEY, "grothak", true, -4);
    let notice = BossNotice::Resolved {
        key: KEY,
        boss_id: "grothak".to_owned(),
        won: true,
        jc_delta: -4,
    };
    assert_eq!(ended.notices, [notice]);
    let (recast, outcome) = ended.with_outcome("told");
    assert_eq!((recast.outcome, outcome), ("told", 1));
    assert_eq!((recast.action_id, recast.notices.len()), (Some(5), 1));
}

#[test]
fn a_composed_fight_keeps_its_warnings_in_order() {
    let mut troubles = quiet();
    troubles.economy = vec!["economy".to_owned()];
    troubles.bankruptcy = vec!["bankruptcy".to_owned()];
    troubles.gear = Some("gear".to_owned());
    troubles.preparation = Some("preparation".to_owned());
    let notices = vec![BossNotice::Resolved {
        key: KEY,
        boss_id: "grothak".to_owned(),
        won: false,
        jc_delta: 0,
    }];
    match finish_composed(Ok::<u8, BossServiceError>(8), troubles, Some(2), notices) {
        Ok(result) => {
            assert_eq!((result.outcome, result.action_id), (8, Some(2)));
            assert_eq!(result.warnings, ["economy", "bankruptcy", "gear", "preparation"]);
            assert_eq!(result.notices.len(), 1);
        }
        Err(error) => panic!("{error:?}"),
    }
}

#[test]
fn a_broken_store_goes_before_the_answer_of_a_policy() {
    let mut troubles = quiet();
    troubles.activation = Some("activation".to_owned());
    let answer = finish_composed(
        Err::<u8, BossServiceError>(BossServiceError::MissingTunnel),
        troubles,
        None,
        Vec::new(),
    );
    match answer {
        Err(DigBossRuntimeError::Infrastructure(message)) => assert_eq!(message, "activation"),
        other => panic!("{other:?}"),
    }
    let mut troubles = quiet();
    troubles.record = Some("record".to_owned());
    troubles.activation = Some("activation".to_owned());
    match finish_composed(Ok::<u8, BossServiceError>(8), troubles, None, Vec::new()) {
        Err(DigBossRuntimeError::Infrastructure(message)) => assert_eq!(message, "record"),
        other => panic!("{other:?}"),
    }
    let answer = finish_composed(
        Err::<u8, BossServiceError>(BossServiceError::NoActiveDuel),
        quiet(),
        None,
        Vec::new(),
    );
    assert!(matches!(answer, Err(DigBossRuntimeError::Policy(BossServiceError::NoActiveDuel))));
}

#[test]
fn broken_gear_is_named_or_warned_of() {
    let mut result = fought(Some(1));
    let boots = DigBossBrokenGear { gear_id: 4, name: "Boots".to_owned() };
    note_broken_gear(&mut result, BrokenGearAnswer::Named(vec![boots]));
    assert_eq!(result.broken_gear.len(), 1);
    assert_eq!(result.broken_gear[0].name, "Boots");
    note_broken_gear(&mut result, BrokenGearAnswer::Failed("locked".to_owned()));
    assert_eq!(result.broken_gear.len(), 1);
    assert_eq!(result.warnings, ["before", "boss broken-gear projection failed: locked"]);
}

#[test]
fn gear_that_drops_is_noted_or_warned_of() {
    let mut result = fought(Some(1));
    note_gear_drop(&mut result, grant(Err("full".to_owned())));
    assert!(result.gear_drop.is_none());
    assert_eq!(result.warnings, ["before", "boss gear drop failed: full"]);
    note_gear_drop(&mut result, grant(Ok(12)));
    let drop = result.gear_drop.expect("a drop");
    assert_eq!((drop.gear_id, drop.slot, drop.tier), (12, GearSlot::Boots, 4));
    assert_eq!(drop.name, "Iron Boots");
}

#[test]
fn relics_that_drop_are_noted_or_warned_of() {
    let told = |answer: RelicAnswer| {
        let mut result = fought(Some(1));
        note_relic_drop(&mut result, answer);
        result
    };
    assert_eq!(told(RelicAnswer::Missed).warnings, ["before"]);
    assert_eq!(
        told(RelicAnswer::LostRecord).warnings[1],
        "boss prestige-relic drop lost its tunnel snapshot"
    );
    assert_eq!(
        told(RelicAnswer::RecordFailed("e".to_owned())).warnings[1],
        "boss prestige-relic snapshot failed: e"
    );
    assert_eq!(
        told(RelicAnswer::OwnershipFailed("e".to_owned())).warnings[1],
        "boss prestige-relic ownership failed: e"
    );
    let failed = told(RelicAnswer::Granted { relic: relic(), answer: Err("e".to_owned()) });
    assert_eq!(failed.warnings[1], "boss prestige-relic drop failed: e");
    let owned = told(RelicAnswer::Granted { relic: relic(), answer: Ok(None) });
    assert!(owned.prestige_relic_drop.is_none() && owned.warnings.len() == 1);
    let granted = told(RelicAnswer::Granted { relic: relic(), answer: Ok(Some(31)) });
    let drop = granted.prestige_relic_drop.expect("a drop");
    assert_eq!((drop.database_id, drop.artifact_id.as_str()), (31, "idol"));
    assert_eq!((drop.name.as_str(), drop.rarity.as_str()), ("Idol", "rare"));
}

#[test]
fn only_a_committed_victory_drops_anything() {
    let enriched = |committed: bool, won: bool, phase_changed: bool| {
        let mut result = fought(Some(1));
        enrich_regular_resolution(
            &mut result,
            FightEnd { committed, won, phase_changed },
            BrokenGearAnswer::Failed("locked".to_owned()),
            Some(grant(Ok(12))),
            RelicAnswer::Granted { relic: relic(), answer: Ok(Some(31)) },
        );
        result
    };
    let victory = enriched(true, true, false);
    assert!(victory.gear_drop.is_some() && victory.prestige_relic_drop.is_some());
    for (committed, won, phase_changed) in
        [(false, true, false), (true, false, false), (true, true, true)]
    {
        let none = enriched(committed, won, phase_changed);
        assert!(none.gear_drop.is_none() && none.prestige_relic_drop.is_none());
        assert_eq!(none.warnings, ["before", "boss broken-gear projection failed: locked"]);
    }
}
