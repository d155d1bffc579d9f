//! What the outcome rules are asked about a dig.

use crate::arith::{larger, max_of, nearest, sat_add, sat_sub};
use crate::light::{deep_drain, deep_luminosity_drain_bonus};
use crate::loot::list_has;
use crate::outcome::DigRuntimeRequest;
use crate::text::{int_text, integer_text, join2, join5, same_text, str_view, texts};
use vstd::prelude::*;

verus! {

/// Basis points that make a whole.
pub const WHOLE_BASIS_POINTS: i64 = 10_000;

/// What an overgrown tunnel adds to a dig.
pub const OVERGROWTH_BONUS: i64 = 10;

/// What is known of a dig before the outcome rules run.
#[derive(Debug)]
pub struct RulingFacts {
    pub advance: i64,
    pub cave_in: bool,
    pub cave_loss: i64,
    /// Coins that the rubble of a cave-in gave.
    pub cave_reward: i64,
    /// Coins that an ordinary dig rolled.
    pub rolled_jc: i64,
    /// The reward of an ordinary dig before it is capped.
    pub composed_jc: i64,
    pub items_used: Vec<String>,
    pub forced_event: bool,
    pub buff_millionths: i64,
    pub yield_millionths: i64,
    pub economy_basis_points: i64,
    pub minigame_millionths: i64,
    pub streak_bonus: i64,
    pub streak_basis_points: i64,
    pub milestone_basis_points: i64,
    pub overgrowth: bool,
    pub helltide_tax: i64,
    /// Games that a bankruptcy penalty still lasts.
    pub penalty_games: i64,
    /// What a bankruptcy penalty leaves of a reward.
    pub penalty_keep_basis_points: i64,
}

/// What the outcome rules are asked.
#[derive(Clone, Copy, Debug, PartialEq, Eq, Structural)]
pub struct DigOutcomeInput {
    pub advance: i64,
    pub gross_jc: i64,
    pub cave_in: bool,
    pub cave_in_loss: i64,
    pub dynamite: bool,
    pub depth_charge: bool,
    pub authored_event: bool,
    pub yield_buff_multiplier_millionths: Option<i64>,
    pub yield_multiplier_millionths: Option<i64>,
    pub pre_cap_jc: Option<i64>,
    pub economy_reward_multiplier_basis_points: i64,
    pub economy_before_positive_scale: bool,
    pub minigame_jc_delta_scale_millionths: i64,
    pub streak_bonus: i64,
    pub streak_bonus_multiplier_basis_points: i64,
    pub milestone_multiplier_basis_points: i64,
    pub overgrowth_bonus: i64,
    pub helltide_tax: i64,
    pub mana_yield_tax: i64,
    pub bankruptcy_keep_basis_points: i64,
    pub vanity_tax_basis_points: i64,
    pub low_priority_tax_basis_points: i64,
}

/// What a bankruptcy leaves of the reward of a dig: all of it in a cave-in and
/// without a penalty that still lasts.
pub open spec fn kept_basis_points(facts: RulingFacts) -> i64 {
    if !facts.cave_in && facts.penalty_games > 0 {
        facts.penalty_keep_basis_points
    } else {
        WHOLE_BASIS_POINTS
    }
}

/// A value of an ordinary dig, which a cave-in has none of.
pub open spec fn unless_buried(cave_in: bool, value: i64) -> Option<i64> {
    if cave_in {
        None
    } else {
        Some(value)
    }
}

/// What the outcome rules are asked about a dig. Taxes are taken once the rules
/// have run, so none is asked for.
pub open spec fn input_of(facts: RulingFacts) -> DigOutcomeInput {
    DigOutcomeInput {
        advance: facts.advance,
        gross_jc: if facts.cave_in {
            facts.cave_reward
        } else {
            facts.rolled_jc
        },
        cave_in: facts.cave_in,
        cave_in_loss: facts.cave_loss,
        dynamite: texts(facts.items_used@).contains("dynamite"@),
        depth_charge: texts(facts.items_used@).contains("depth_charge"@),
        authored_event: facts.forced_event,
        yield_buff_multiplier_millionths: unless_buried(facts.cave_in, facts.buff_millionths),
        yield_multiplier_millionths: unless_buried(facts.cave_in, facts.yield_millionths),
        pre_cap_jc: unless_buried(facts.cave_in, facts.composed_jc),
        economy_reward_multiplier_basis_points: facts.economy_basis_points,
        economy_before_positive_scale: facts.cave_in,
        minigame_jc_delta_scale_millionths: facts.minigame_millionths,
        streak_bonus: facts.streak_bonus,
        streak_bonus_multiplier_basis_points: facts.streak_basis_points,
        milestone_multiplier_basis_points: facts.milestone_basis_points,
        overgrowth_bonus: if facts.overgrowth {
            OVERGROWTH_BONUS
        } else {
            0
        },
        helltide_tax: larger(facts.helltide_tax, 0),
        mana_yield_tax: 0,
        bankruptcy_keep_basis_points: kept_basis_points(facts),
        vanity_tax_basis_points: 0,
        low_priority_tax_basis_points: 0,
    }
}

fn unburied(cave_in: bool, value: i64) -> (kept: Option<i64>)
    ensures
        kept == unless_buried(cave_in, value),
{
    if cave_in {
        None
    } else {
        Some(value)
    }
}

/// Asks the outcome rules about a dig.
pub fn outcome_input(facts: &RulingFacts) -> (input: DigOutcomeInput)
    ensures
        input == input_of(*facts),
{
    DigOutcomeInput {
        advance: facts.advance,
        gross_jc: if facts.cave_in {
            facts.cave_reward
        } else {
            facts.rolled_jc
        },
        cave_in: facts.cave_in,
        cave_in_loss: facts.cave_loss,
        dynamite: list_has(&facts.items_used, "dynamite"),
        depth_charge: list_has(&facts.items_used, "depth_charge"),
        authored_event: facts.forced_event,
        yield_buff_multiplier_millionths: unburied(facts.cave_in, facts.buff_millionths),
        yield_multiplier_millionths: unburied(facts.cave_in, facts.yield_millionths),
        pre_cap_jc: unburied(facts.cave_in, facts.composed_jc),
        economy_reward_multiplier_basis_points: facts.economy_basis_points,
        economy_before_positive_scale: facts.cave_in,
        minigame_jc_delta_scale_millionths: facts.minigame_millionths,
        streak_bonus: facts.streak_bonus,
        streak_bonus_multiplier_basis_points: facts.streak_basis_points,
        milestone_multiplier_basis_points: facts.milestone_basis_points,
        overgrowth_bonus: if facts.overgrowth {
            OVERGROWTH_BONUS
        } else {
            0
        },
        helltide_tax: max_of(facts.helltide_tax, 0),
        mana_yield_tax: 0,
        bankruptcy_keep_basis_points: if !facts.cave_in && facts.penalty_games > 0 {
            facts.penalty_keep_basis_points
        } else {
            WHOLE_BASIS_POINTS
        },
        vanity_tax_basis_points: 0,
        low_priority_tax_basis_points: 0,
    }
}

/// The same dig with what mana takes of a reward: what a tithe and a tax left of
/// it is `left`.
pub fn with_mana_tax(input: DigOutcomeInput, reward: i64, left: i64) -> (taxed: DigOutcomeInput)
    ensures
        taxed == (DigOutcomeInput { mana_yield_tax: nearest(reward - left), ..input }),
{
    DigOutcomeInput { mana_yield_tax: sat_sub(reward, left), ..input }
}

/// The same dig with blocks that a pet adds. The advance was capped before, and
/// is not capped again.
pub fn with_pet_blocks(input: DigOutcomeInput, blocks: i64) -> (helped: DigOutcomeInput)
    ensures
        helped == (DigOutcomeInput {
            advance: nearest(input.advance + blocks),
            authored_event: true,
            ..input
        }),
{
    DigOutcomeInput { advance: sat_add(input.advance, blocks), authored_event: true, ..input }
}

/// Whether thick skin holds off the cave-in of a day: the mutation is there and
/// was not used that day.
pub fn thick_skin(shielded: bool, used_on: Option<&str>, today: &str) -> (holds: bool)
    ensures
        holds == (shielded && str_view(used_on) != Some(today@)),
{
    match used_on {
        Some(date) => shielded && !same_text(date, today),
        None => shielded,
    }
}

/// Whole-number bonuses of a dig by where they come from.
#[derive(Clone, Copy, Debug, PartialEq, Eq, Structural)]
pub struct BonusSources {
    pub route_advance: i64,
    pub weather_advance: i64,
    pub curse_advance: i64,
    pub gear_advance: i64,
    pub buff_advance: i64,
    /// What the route takes off the greatest advance of a layer.
    pub route_advance_penalty: Option<i64>,
    pub layer_advance_max: i64,
    pub weather_jc: i64,
    pub gear_jc: i64,
    pub curse_jc: i64,
    pub weather_loss: i64,
    pub route_loss: i64,
    pub weather_loss_cap: Option<i64>,
    pub route_loss_cap: Option<i64>,
    /// Whether a relic turns the hazard of a storm away.
    pub storm_negated: bool,
    pub depth: i64,
    pub active_pickaxe_tier: i64,
    pub injury_reduces_advance: bool,
}

/// Whole-number modifiers that a roll is made with.
#[derive(Clone, Copy, Debug, PartialEq, Eq, Structural)]
pub struct RollModifiers {
    pub advance_bonus: i64,
    pub advance_max: Option<i64>,
    pub jc_bonus: i64,
    pub cave_in_loss_bonus: i64,
    pub cave_in_loss_cap: Option<i64>,
    pub luminosity_drain_bonus: i64,
    pub luminosity_pickaxe_reduction: bool,
    pub injury_reduces_advance: bool,
}

/// What all sources add to an advance.
pub open spec fn advance_sum(sources: BonusSources) -> int {
    sources.route_advance + sources.weather_advance + sources.curse_advance
        + sources.gear_advance + sources.buff_advance
}

/// Whether a number is one that a column can hold.
pub open spec fn in_column(value: int) -> bool {
    i64::MIN <= value <= i64::MAX
}

/// Whether every sum of bonuses, taken from left to right, fits its column.
pub open spec fn bonuses_fit(sources: BonusSources) -> bool {
    &&& in_column(sources.route_advance + sources.weather_advance)
    &&& in_column(sources.route_advance + sources.weather_advance + sources.curse_advance)
    &&& in_column(advance_sum(sources) - sources.buff_advance)
    &&& in_column(advance_sum(sources))
    &&& in_column(sources.weather_jc + sources.gear_jc)
    &&& in_column(sources.weather_jc + sources.gear_jc + sources.curse_jc)
    &&& sources.storm_negated || in_column(sources.weather_loss + sources.route_loss)
    &&& sources.route_advance_penalty matches Some(penalty) ==> in_column(
        sources.layer_advance_max - penalty,
    )
}

/// The modifiers that a roll is made with. A storm that is turned away adds no
/// loss; the cap of the weather goes before that of the route.
pub open spec fn modifiers_of(sources: BonusSources) -> RollModifiers {
    RollModifiers {
        advance_bonus: advance_sum(sources) as i64,
        advance_max: match sources.route_advance_penalty {
            Some(penalty) => Some(larger((sources.layer_advance_max - penalty) as i64, 1)),
            None => None,
        },
        jc_bonus: (sources.weather_jc + sources.gear_jc + sources.curse_jc) as i64,
        cave_in_loss_bonus: if sources.storm_negated {
            0
        } else {
            (sources.weather_loss + sources.route_loss) as i64
        },
        cave_in_loss_cap: match sources.weather_loss_cap {
            Some(cap) => Some(cap),
            None => sources.route_loss_cap,
        },
        luminosity_drain_bonus: deep_drain(sources.depth),
        luminosity_pickaxe_reduction: sources.active_pickaxe_tier >= 6,
        injury_reduces_advance: sources.injury_reduces_advance,
    }
}

/// Works out the modifiers that a roll is made with.
pub fn roll_modifiers(sources: BonusSources) -> (modifiers: RollModifiers)
    requires
        bonuses_fit(sources),
    ensures
        modifiers == modifiers_of(sources),
{
    RollModifiers {
        advance_bonus: sources.route_advance + sources.weather_advance + sources.curse_advance
            + sources.gear_advance + sources.buff_advance,
        advance_max: match sources.route_advance_penalty {
            Some(penalty) => Some(max_of(sources.layer_advance_max - penalty, 1)),
            None => None,
        },
        jc_bonus: sources.weather_jc + sources.gear_jc + sources.curse_jc,
        cave_in_loss_bonus: if sources.storm_negated {
            0
        } else {
            sources.weather_loss + sources.route_loss
        },
        cave_in_loss_cap: match sources.weather_loss_cap {
            Some(cap) => Some(cap),
            None => sources.route_loss_cap,
        },
        luminosity_drain_bonus: deep_luminosity_drain_bonus(sources.depth),
        luminosity_pickaxe_reduction: sources.active_pickaxe_tier >= 6,
        injury_reduces_advance: sources.injury_reduces_advance,
    }
}

/// A flag as a digit.
pub open spec fn flag_digit(flag: bool) -> Seq<char> {
    if flag {
        "1"@
    } else {
        "0"@
    }
}

/// The key under which a tithe is credited once: by the interaction that dug, or
/// by the request where there is none.
pub open spec fn tithe_key(request: DigRuntimeRequest, interaction_id: Option<Seq<char>>) -> Seq<
    char,
> {
    match interaction_id {
        Some(id) => "dig-interaction:"@ + id,
        None => "dig-request:"@ + int_text(request.guild_id as int) + ":"@ + int_text(
            request.discord_id as int,
        ) + ":"@ + int_text(request.now as int) + ":"@ + flag_digit(request.paid) + ":"@
            + flag_digit(request.forced_event),
    }
}

fn write_flag_digit(flag: bool) -> (digit: &'static str)
    ensures
        digit@ == flag_digit(flag),
{
    if flag {
        "1"
    } else {
        "0"
    }
}

/// Writes the key under which a tithe is credited.
pub fn tithe_event_key(request: DigRuntimeRequest, interaction_id: Option<&str>) -> (key: String)
    ensures
        key@ == tithe_key(request, str_view(interaction_id)),
{
    match interaction_id {
        Some(id) => join2("dig-interaction:", id),
        None => {
            let who = join5(
                "dig-request:",
                integer_text(request.guild_id).as_str(),
                ":",
                integer_text(request.discord_id).as_str(),
                ":",
            );
            let when = join5(
                integer_text(request.now).as_str(),
                ":",
                write_flag_digit(request.paid),
                ":",
                write_flag_digit(request.forced_event),
            );
            let key = join2(who.as_str(), when.as_str());
            assert(key@ =~= tithe_key(request, None));
            key
        },
    }
}

/// A cave-in is never cut by a bankruptcy and never boosted: neither a buff nor
/// the yield of a dig counts.
pub proof fn law_cave_in_is_asked_plainly(facts: RulingFacts)
    requires
        facts.cave_in,
    ensures
        input_of(facts).bankruptcy_keep_basis_points == WHOLE_BASIS_POINTS,
        input_of(facts).yield_buff_multiplier_millionths is None,
        input_of(facts).yield_multiplier_millionths is None,
        input_of(facts).pre_cap_jc is None,
        input_of(facts).economy_before_positive_scale,
{
}

/// An overgrown tunnel adds ten coins to what is asked, and changes nothing else.
pub proof fn law_overgrowth_adds_ten(facts: RulingFacts, grown: RulingFacts)
    requires
        !facts.overgrowth,
        grown == (RulingFacts { overgrowth: true, ..facts }),
    ensures
        input_of(grown) == (DigOutcomeInput {
            overgrowth_bonus: (input_of(facts).overgrowth_bonus + 10) as i64,
            ..input_of(facts)
        }),
{
}

} // verus!
