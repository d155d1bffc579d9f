//! What the outcome rules are asked, and what a dig is rolled with.

use cama_dig::cave_in::{cave_in_applicability, Applicability};
use cama_dig::light::{answer_hook, begin_hooks, Light, LightAnswer, LightHooks, LightStep};
use cama_dig::outcome::DigRuntimeRequest;
use cama_dig::ruling::{
    outcome_input, roll_modifiers, thick_skin, tithe_event_key, with_mana_tax, with_pet_blocks,
    BonusSources, RulingFacts,
};
use cama_dig::snapshot::{
    DigRuntimeGear, DigRuntimeInventoryItem, DigRuntimeSnapshot, DigRuntimeTunnel,
};

const NOW: i64 = 1_700_000_000;

fn facts(cave_in: bool) -> RulingFacts {
    RulingFacts {
        advance: 4,
        cave_in,
        cave_loss: 9,
        cave_reward: 2,
        rolled_jc: 11,
        composed_jc: 13,
        items_used: vec!["torch".to_owned(), "dynamite".to_owned()],
        forced_event: false,
        buff_millionths: 1_100_000,
        yield_millionths: 1_200_000,
        economy_basis_points: 10_500,
        minigame_millionths: 1_000_000,
        streak_bonus: 5,
        streak_basis_points: 300,
        milestone_basis_points: 400,
        overgrowth: true,
        helltide_tax: -3,
        penalty_games: 2,
        penalty_keep_basis_points: 6_000,
    }
}

fn request() -> DigRuntimeRequest {
    DigRuntimeRequest { discord_id: 7, guild_id: 9, now: NOW, paid: true, forced_event: false }
}

fn sources() -> BonusSources {
    BonusSources {
        route_advance: 1,
        weather_advance: 2,
        curse_advance: -4,
        gear_advance: 3,
        buff_advance: 5,
        route_advance_penalty: Some(2),
        layer_advance_max: 6,
        weather_jc: 1,
        gear_jc: 2,
        curse_jc: -5,
        weather_loss: 3,
        route_loss: 4,
        weather_loss_cap: None,
        route_loss_cap: Some(20),
        storm_negated: false,
        depth: 450,
        active_pickaxe_tier: 6,
        injury_reduces_advance: true,
    }
}

#[test]
fn the_rules_are_asked_about_an_ordinary_dig() {
    let input = outcome_input(&facts(false));
    assert_eq!((input.advance, input.gross_jc, input.pre_cap_jc), (4, 11, Some(13)));
    assert!(input.dynamite && !input.depth_charge && !input.authored_event);
    assert_eq!(input.yield_buff_multiplier_millionths, Some(1_100_000));
    assert_eq!(input.yield_multiplier_millionths, Some(1_200_000));
    assert!(!input.economy_before_positive_scale);
    assert_eq!((input.overgrowth_bonus, input.helltide_tax, input.mana_yield_tax), (10, 0, 0));
    assert_eq!(input.bankruptcy_keep_basis_points, 6_000);
    assert_eq!((input.vanity_tax_basis_points, input.low_priority_tax_basis_points), (0, 0));
    let mut solvent = facts(false);
    solvent.penalty_games = 0;
    assert_eq!(outcome_input(&solvent).bankruptcy_keep_basis_points, 10_000);
}

#[test]
fn the_rules_are_asked_plainly_about_a_cave_in() {
    let input = outcome_input(&facts(true));
    assert_eq!((input.gross_jc, input.cave_in_loss, input.pre_cap_jc), (2, 9, None));
    assert_eq!(input.yield_buff_multiplier_millionths, None);
    assert_eq!(input.yield_multiplier_millionths, None);
    assert!(input.economy_before_positive_scale);
    assert_eq!(input.bankruptcy_keep_basis_points, 10_000);
}

#[test]
fn mana_taxes_and_pets_change_one_thing_each() {
    let input = outcome_input(&facts(false));
    let taxed = with_mana_tax(input, 30, 24);
    assert_eq!(taxed.mana_yield_tax, 6);
    assert_eq!(with_mana_tax(taxed, 0, 0), input);
    let helped = with_pet_blocks(input, 3);
    assert_eq!((helped.advance, helped.authored_event), (7, true));
    assert_eq!(helped.gross_jc, input.gross_jc);
}

#[test]
fn thick_skin_holds_once_a_day() {
    assert!(thick_skin(true, None, "2023-11-14"));
    assert!(thick_skin(true, Some("2023-11-13"), "2023-11-14"));
    assert!(!thick_skin(true, Some("2023-11-14"), "2023-11-14"));
    assert!(!thick_skin(false, None, "2023-11-14"));
}

#[test]
fn a_tithe_is_credited_under_one_key() {
    assert_eq!(tithe_event_key(request(), Some("abc")), "dig-interaction:abc");
    assert_eq!(tithe_event_key(request(), None), "dig-request:9:7:1700000000:1:0");
}

#[test]
fn bonuses_add_up() {
    let modifiers = roll_modifiers(sources());
    assert_eq!((modifiers.advance_bonus, modifiers.advance_max), (7, Some(4)));
    assert_eq!((modifiers.jc_bonus, modifiers.cave_in_loss_bonus), (-2, 7));
    assert_eq!(modifiers.cave_in_loss_cap, Some(20));
    assert_eq!(modifiers.luminosity_drain_bonus, 5);
    assert!(modifiers.luminosity_pickaxe_reduction && modifiers.injury_reduces_advance);
    let mut sheltered = sources();
    sheltered.storm_negated = true;
    sheltered.weather_loss_cap = Some(8);
    sheltered.route_advance_penalty = Some(9);
    sheltered.active_pickaxe_tier = 5;
    let modifiers = roll_modifiers(sheltered);
    assert_eq!((modifiers.cave_in_loss_bonus, modifiers.cave_in_loss_cap), (0, Some(8)));
    assert_eq!(modifiers.advance_max, Some(1));
    assert!(!modifiers.luminosity_pickaxe_reduction);
}

#[test]
fn a_cave_in_can_take_what_is_there() {
    let mut snapshot = DigRuntimeSnapshot::fresh(7, 9, 100, NOW);
    snapshot.tunnel = None;
    let nothing = Applicability { items: false, gear: false, light: false, hard_hat: false };
    assert_eq!(cave_in_applicability(&snapshot), nothing);
    let mut tunnel = DigRuntimeTunnel::new(7, 9, NOW);
    tunnel.luminosity = 1;
    tunnel.hard_hat_charges = 1;
    snapshot.tunnel = Some(tunnel);
    snapshot.inventory.push(DigRuntimeInventoryItem {
        id: 1,
        item_type: "torch".to_owned(),
        queued: false,
    });
    let piece = |durability: i64, equipped: bool| DigRuntimeGear {
        id: 1,
        slot: "weapon".to_owned(),
        tier: 6,
        durability,
        equipped,
        acquired_at: NOW,
        source: "shop".to_owned(),
        item_id: None,
    };
    snapshot.gear = vec![piece(0, true), piece(20, false)];
    let worn_out = Applicability { items: true, gear: false, light: true, hard_hat: true };
    assert_eq!(cave_in_applicability(&snapshot), worn_out);
    snapshot.gear.push(piece(1, true));
    assert!(cave_in_applicability(&snapshot).gear);
}

#[test]
fn hooks_on_light_run_in_order() {
    let hooks = LightHooks {
        torch: true,
        spore_cloak: true,
        curse: 3,
        deep_sight: true,
        hard_hat: true,
    };
    let step = begin_hooks(Light { level: 20, drained: 10 }, hooks);
    assert_eq!(step, LightStep::Ascension(Light { level: 75, drained: 5 }));
    let step = answer_hook(step, hooks, LightAnswer { applies: true, amount: 2 });
    assert_eq!(step, LightStep::Weather(Light { level: 73, drained: 7 }));
    let step = answer_hook(step, hooks, LightAnswer { applies: false, amount: 9 });
    assert_eq!(step, LightStep::LanternStub(Light { level: 70, drained: 10 }));
    let settled = answer_hook(step, hooks, LightAnswer { applies: true, amount: 80 });
    let without_hat = LightHooks { hard_hat: false, ..hooks };
    let bare = answer_hook(step, without_hat, LightAnswer { applies: true, amount: 80 });
    assert_eq!(bare, LightStep::Settled(Light { level: 82, drained: 10 }));
    assert_eq!(settled, LightStep::Settled(Light { level: 72, drained: 10 }));
    assert_eq!(answer_hook(settled, hooks, LightAnswer { applies: true, amount: 1 }), settled);
}
