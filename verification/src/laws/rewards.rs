//! Laws on what a dig earns, what is taken of it, and what the tunnel keeps.

use crate::settlement::{
    add_prospectors_streak, after_tithe, billed, choose_pet_blocks, compose_jc, is_state_of,
    jc_corruption, known_relics, mana_answered, mana_begun, next_cavein_free_streak, payable_bill,
    pet_choice, queued_kinds, settled_snapshot, state_applied, tax_basis, taxed, taxed_at_quotes,
    with_artifact, withheld, DigCarry, DigOutcome, DigRuntimeLowPriorityTaxPort,
    DigRuntimeVanityTaxPort, JcCorruption, ManaRates, ManaStep, StateView, Withholding,
};
use crate::snapshot::{ArtifactView, ItemView, SnapshotView, TunnelView};
use vstd::prelude::*;

verus! {

/// Neither tax takes more than was quoted or than is there, vanity goes first,
/// and each takes its whole quote where the reward covers both.
pub proof fn law_taxes_take_their_quotes(
    jc_earned: i64,
    bankruptcy_penalty: i64,
    vanity_quote: i64,
    low_priority_quote: i64,
)
    requires
        0 <= bankruptcy_penalty,
        jc_earned + bankruptcy_penalty <= i64::MAX,
    ensures
        ({
            let taken = withheld(jc_earned, bankruptcy_penalty, vanity_quote, low_priority_quote);
            &&& 0 <= taken.vanity_tax && 0 <= taken.low_priority_tax
            &&& taken.vanity_tax == 0 || taken.vanity_tax <= vanity_quote
            &&& taken.low_priority_tax == 0 || taken.low_priority_tax <= low_priority_quote
            &&& jc_earned >= 0 ==> taken.vanity_tax + taken.low_priority_tax <= jc_earned
            &&& jc_earned < 0 ==> taken.vanity_tax == 0 && taken.low_priority_tax == 0
            &&& 0 <= vanity_quote <= jc_earned ==> taken.vanity_tax == vanity_quote
            &&& vanity_quote > jc_earned >= 0 ==> taken.vanity_tax == jc_earned
            &&& 0 <= vanity_quote && 0 <= low_priority_quote && vanity_quote + low_priority_quote
                <= jc_earned ==> taken.low_priority_tax == low_priority_quote
            &&& 0 <= vanity_quote && 0 <= low_priority_quote && jc_earned >= 0 && vanity_quote
                + low_priority_quote > jc_earned ==> taken.vanity_tax + taken.low_priority_tax
                == jc_earned
        }),
{
}

/// What both taxes take leaves the wallet and the reward once, and nothing else
/// of the dig changes but that they are named.
pub proof fn law_taxes_leave_the_wallet_once(
    state: StateView,
    outcome: DigOutcome,
    withholding: Withholding,
)
    requires
        0 <= withholding.vanity_tax <= 1_000_000_000_000,
        0 <= withholding.low_priority_tax <= 1_000_000_000_000,
        withholding.vanity_tax + withholding.low_priority_tax > 0,
        -1_000_000_000_000_000 <= state.balance,
        -1_000_000_000_000_000 <= outcome.jc_earned,
    ensures
        ({
            let (poorer, told) = taxed(state, outcome, withholding);
            let total = withholding.vanity_tax + withholding.low_priority_tax;
            &&& poorer.balance == state.balance - total
            &&& told.jc_earned == outcome.jc_earned - total
            &&& told.vanity_tax == withholding.vanity_tax
            &&& told.low_priority_tax == withholding.low_priority_tax
            &&& poorer == (StateView { balance: poorer.balance, ..state })
            &&& told == (DigOutcome {
                jc_earned: told.jc_earned,
                vanity_tax: told.vanity_tax,
                low_priority_tax: told.low_priority_tax,
                ..outcome
            })
        }),
{
}

/// A dig is taxed on what it earned with what bankruptcy took added back, by what
/// each service quotes for that digger in that guild; a cave-in is not taxed.
pub proof fn law_dig_is_taxed_on_its_reward<
    V: DigRuntimeVanityTaxPort,
    L: DigRuntimeLowPriorityTaxPort,
>(
    vanity: &V,
    low_priority: &L,
    discord_id: i64,
    guild_id: i64,
    before: (StateView, DigOutcome),
    after: (StateView, DigOutcome),
)
    requires
        taxed_at_quotes::<V, L>(vanity, low_priority, discord_id, guild_id, before, after),
        0 <= before.1.jc_earned <= 1_000_000_000_000,
        0 <= before.1.bankruptcy_penalty <= 1_000_000_000_000,
        -1_000_000_000_000 <= before.0.balance,
        before.1.vanity_tax == 0,
        before.1.low_priority_tax == 0,
    ensures
        before.1.cave_in ==> after == before,
        !before.1.cave_in ==> exists|basis: i64, vanity_quote: i64, low_priority_quote: i64|
            {
                &&& basis == before.1.jc_earned + before.1.bankruptcy_penalty
                &&& #[trigger] call_ensures(
                    V::calculate_tax,
                    (vanity, discord_id, guild_id, basis),
                    vanity_quote,
                )
                &&& #[trigger] call_ensures(
                    L::calculate_tax,
                    (low_priority, discord_id, guild_id, basis),
                    low_priority_quote,
                )
                &&& 0 <= vanity_quote && 0 <= low_priority_quote && vanity_quote
                    + low_priority_quote <= before.1.jc_earned ==> {
                    &&& after.1.vanity_tax == vanity_quote
                    &&& after.1.low_priority_tax == low_priority_quote
                    &&& after.1.jc_earned == before.1.jc_earned - vanity_quote - low_priority_quote
                    &&& after.0.balance == before.0.balance - vanity_quote - low_priority_quote
                }
            },
{
    if !before.1.cave_in {
        let basis = tax_basis(before.1.jc_earned, before.1.bankruptcy_penalty);
        assert(basis == before.1.jc_earned + before.1.bankruptcy_penalty);
        let (vanity_quote, low_priority_quote) = choose|v: i64, l: i64|
            {
                &&& #[trigger] crate::settlement::quotes_vanity(
                    vanity,
                    discord_id,
                    guild_id,
                    basis,
                    v,
                )
                &&& #[trigger] crate::settlement::quotes_low_priority(
                    low_priority,
                    discord_id,
                    guild_id,
                    basis,
                    l,
                )
                &&& after == taxed(
                    before.0,
                    before.1,
                    withheld(before.1.jc_earned, before.1.bankruptcy_penalty, v, l),
                )
            };
        assert(call_ensures(V::calculate_tax, (vanity, discord_id, guild_id, basis), vanity_quote));
        assert(call_ensures(
            L::calculate_tax,
            (low_priority, discord_id, guild_id, basis),
            low_priority_quote,
        ));
    }
}

/// A reward is its scaled roll with the flat bonuses, one coin more with the Magma
/// Heart. Corruption replaces it, takes an odd coin, or takes a penalty; a voided
/// reward is nothing, and none is negative.
pub proof fn law_reward_is_composed(
    scaled: i64,
    policy_bonus: i64,
    magma_heart: bool,
    perk_bonus: i64,
    corruption: JcCorruption,
    voided: bool,
    reward: i64,
)
    requires
        call_ensures(
            compose_jc,
            (scaled, policy_bonus, magma_heart, perk_bonus, corruption, voided),
            reward,
        ),
        -1_000_000_000_000 <= scaled <= 1_000_000_000_000,
        -1_000_000_000_000 <= policy_bonus <= 1_000_000_000_000,
        -1_000_000_000_000 <= perk_bonus <= 1_000_000_000_000,
    ensures
        ({
            let flat = scaled + policy_bonus + perk_bonus + (if magma_heart {
                1int
            } else {
                0
            });
            &&& reward >= 0
            &&& voided ==> reward == 0
            &&& !voided ==> match corruption {
                JcCorruption::Fixed(amount) => amount >= 0 ==> reward == amount,
                JcCorruption::DoubleHalf => flat >= 0 ==> reward <= flat && flat - reward <= 1
                    && reward % 2 == 0,
                JcCorruption::Penalty(amount) => {
                    &&& 0 <= amount <= flat ==> reward == flat - amount
                    &&& flat < amount ==> reward == 0
                },
            }
        }),
{
}

/// A fixed amount goes before the loss of an odd coin, and that before a penalty.
pub proof fn law_corruption_has_an_order(
    fixed: Option<i64>,
    double_half: bool,
    penalty: i64,
    corruption: JcCorruption,
)
    requires
        call_ensures(jc_corruption, (fixed, double_half, penalty), corruption),
    ensures
        fixed matches Some(amount) ==> corruption == JcCorruption::Fixed(amount),
        fixed is None && double_half ==> corruption == JcCorruption::DoubleHalf,
        fixed is None && !double_half && penalty >= 0 ==> corruption == JcCorruption::Penalty(
            penalty,
        ),
        fixed is None && !double_half && penalty < 0 ==> corruption == JcCorruption::Penalty(0),
{
}

/// The run of digs without a cave-in grows by one, from nothing where it was
/// negative, and Prospector's Streak pays a coin for each of them up to twenty.
pub proof fn law_free_run_pays(
    streak: i64,
    run: i64,
    reward: i64,
    owned: bool,
    free_run: i64,
    total: i64,
)
    requires
        call_ensures(next_cavein_free_streak, (streak,), run),
        call_ensures(add_prospectors_streak, (reward, owned, free_run), total),
        streak < i64::MAX,
        0 <= reward <= 1_000_000_000_000,
    ensures
        streak >= 0 ==> run == streak + 1,
        streak < 0 ==> run == 1,
        !owned ==> total == reward,
        owned && 0 <= free_run <= 20 ==> total == reward + free_run,
        owned && free_run > 20 ==> total == reward + 20,
{
}

/// A tithe takes what was credited of it, no more than there is and nothing where
/// nothing was credited; the blue tax takes its share of the rest.
pub proof fn law_mana_takes_what_it_is_told(
    reward: i64,
    credited: i64,
    left: i64,
    rates: ManaRates,
    tax: i64,
)
    requires
        call_ensures(after_tithe, (reward, credited), left),
        reward > 0,
        0 <= tax,
    ensures
        0 <= credited <= reward ==> left == reward - credited,
        credited > reward ==> left == 0,
        credited < 0 ==> left == reward,
        rates.tithe ==> mana_begun(reward, rates) == ManaStep::Tithe(reward),
        !rates.tithe && rates.blue_tax ==> mana_begun(reward, rates) == ManaStep::BlueTax(reward),
        !rates.tithe && !rates.blue_tax ==> mana_begun(reward, rates) == ManaStep::Settled(reward),
        rates.blue_tax && left > 0 ==> mana_answered(ManaStep::Tithe(reward), rates, credited)
            == ManaStep::BlueTax(left),
        !rates.blue_tax || left == 0 ==> mana_answered(ManaStep::Tithe(reward), rates, credited)
            == ManaStep::Settled(left),
        mana_answered(ManaStep::BlueTax(reward), rates, tax) matches ManaStep::Settled(kept) && kept
            + tax == reward,
{
}

/// A medical bill takes what was asked, as far as the wallet goes, from the wallet
/// and from the reward alike.
pub proof fn law_bill_is_paid_from_the_wallet(
    state: StateView,
    outcome: DigOutcome,
    requested: i64,
)
    requires
        -1_000_000_000_000 <= outcome.jc_earned <= 1_000_000_000_000,
        state.balance <= 1_000_000_000_000,
    ensures
        ({
            let paid = payable_bill(requested, state.balance);
            let (poorer, told) = billed(state, outcome, requested);
            &&& 0 <= requested <= state.balance ==> paid == requested
            &&& 0 <= state.balance < requested ==> paid == state.balance
            &&& state.balance < 0 && requested >= 0 ==> paid == 0
            &&& paid > 0 ==> poorer.balance == state.balance - paid && told.jc_earned
                == outcome.jc_earned - paid
            &&& paid <= 0 ==> poorer == state && told == outcome
            &&& poorer == (StateView { balance: poorer.balance, ..state })
            &&& told == (DigOutcome { jc_earned: told.jc_earned, ..outcome })
        }),
{
}

/// A pet helps with as many blocks as it offers, or with as many as lead up to the
/// first boss.
pub proof fn law_pet_stops_at_the_first_boss(candidates: Seq<DigOutcome>)
    requires
        candidates.len() > 0,
    ensures
        ({
            let place = pet_choice(candidates);
            &&& place matches Some(place) && 0 <= place < candidates.len()
            &&& forall|i: int|
                0 <= i < place->0 ==> (#[trigger] candidates[i]).boss_encounter is None
            &&& candidates[place->0].boss_encounter is None ==> place->0 == candidates.len() - 1
        }),
    decreases candidates.len(),
{
    let rest = candidates.drop_last();
    if rest.len() > 0 {
        law_pet_stops_at_the_first_boss(rest);
        let before = pet_choice(rest)->0;
        assert(rest[before] == candidates[before]);
        assert forall|i: int| 0 <= i < pet_choice(candidates)->0 implies (
        #[trigger] candidates[i]).boss_encounter is None by {
            if i < before {
                assert(rest[i] == candidates[i]);
            } else {
                assert(i == before || i > before);
                if i > before {
                    assert(before == rest.len() - 1);
                }
            }
        }
    }
}

/// A pet stays out of a cave-in and away from a boss that was met without it, and
/// otherwise helps where it offers anything.
pub proof fn law_pet_helps_where_it_may(
    base: &DigOutcome,
    candidates: &Vec<DigOutcome>,
    choice: Option<usize>,
)
    requires
        call_ensures(choose_pet_blocks, (base, candidates), choice),
    ensures
        base.cave_in || base.boss_encounter is Some || candidates@.len() == 0 <==> choice is None,
{
}

/// The rules start from the tunnel as it stands, with the price of the dig already
/// taken, and writing their state back unchanged changes nothing but that price.
pub proof fn law_state_starts_from_the_tunnel(
    state: StateView,
    snapshot: SnapshotView,
    tunnel: TunnelView,
    paid_cost: Option<i64>,
    known_items: Seq<Seq<char>>,
    known_artifacts: Seq<Seq<char>>,
    today: Seq<char>,
)
    requires
        is_state_of(state, snapshot, paid_cost, known_items, known_artifacts),
        snapshot.tunnel == Some(tunnel),
        tunnel.total_jc_earned >= 0,
        0 <= snapshot.balance,
        paid_cost matches Some(cost) ==> 0 <= cost,
    ensures
        ({
            let back = state_applied(snapshot, state, today, false, 0);
            &&& back == (SnapshotView { balance: back.balance, ..snapshot })
            &&& paid_cost is None ==> back.balance == snapshot.balance
            &&& paid_cost matches Some(cost) ==> back.balance == snapshot.balance - cost
            &&& tunnel.stat_strength >= 0 ==> state.stats.strength == tunnel.stat_strength
            &&& tunnel.stat_smarts >= 0 ==> state.stats.smarts == tunnel.stat_smarts
            &&& tunnel.stat_stamina >= 0 ==> state.stats.stamina == tunnel.stat_stamina
            &&& tunnel.stat_points >= 0 ==> state.stats.stat_points == tunnel.stat_points
            &&& tunnel.paid_digs_today >= 0 ==> state.paid_digs_today == tunnel.paid_digs_today
        }),
{
    let back = state_applied(snapshot, state, today, false, 0);
    assert(back.tunnel->0 =~= tunnel);
}

/// The rules see every queued item of a known kind, one entry for each row, and
/// every relic of a known kind, in the order of the rows.
pub proof fn law_rules_see_what_is_queued(
    items: Seq<ItemView>,
    item: ItemView,
    artifacts: Seq<ArtifactView>,
    artifact: ArtifactView,
    known: Seq<Seq<char>>,
)
    ensures
        queued_kinds(Seq::empty(), known).len() == 0,
        known_relics(Seq::empty(), known).len() == 0,
        item.queued && known.contains(item.item_type) ==> queued_kinds(items.push(item), known)
            == queued_kinds(items, known).push(item.item_type),
        !item.queued || !known.contains(item.item_type) ==> queued_kinds(items.push(item), known)
            == queued_kinds(items, known),
        artifact.is_relic && known.contains(artifact.artifact_id) ==> known_relics(
            artifacts.push(artifact),
            known,
        ) == known_relics(artifacts, known).push(artifact.artifact_id),
        !artifact.is_relic || !known.contains(artifact.artifact_id) ==> known_relics(
            artifacts.push(artifact),
            known,
        ) == known_relics(artifacts, known),
{
    assert(items.push(item).drop_last() =~= items);
    assert(artifacts.push(artifact).drop_last() =~= artifacts);
}

/// A settled dig is kept: where the tunnel ends up is what the rules say, what was
/// earned is added to the lifetime and the run, the run without cave-ins and the
/// daily streak are carried on, and a paid dig is counted for its day.
pub proof fn law_settled_dig_is_kept(
    staged: SnapshotView,
    tunnel: TunnelView,
    state: StateView,
    outcome: DigOutcome,
    carry: DigCarry,
)
    requires
        staged.tunnel == Some(tunnel),
        !outcome.cave_in,
        0 <= outcome.jc_earned <= 1_000_000_000_000,
        0 <= tunnel.total_jc_earned <= 1_000_000_000_000,
        0 <= tunnel.current_run_jc <= 1_000_000_000_000,
        0 <= tunnel.paid_digs_today <= 1_000_000,
    ensures
        ({
            let next = settled_snapshot(staged, state, outcome, carry);
            let dug = next.tunnel->0;
            &&& next.tunnel is Some && next.balance == state.balance
            &&& dug.depth == state.depth && dug.max_depth == state.max_depth
            &&& dug.total_digs == state.total_digs && dug.last_dig_at == state.last_dig_at
            &&& dug.luminosity == state.luminosity
            &&& dug.total_jc_earned == tunnel.total_jc_earned + outcome.jc_earned
            &&& dug.current_run_jc == tunnel.current_run_jc + outcome.jc_earned
            &&& dug.cavein_free_streak == carry.free_run
            &&& dug.streak_days == carry.streak_days && dug.streak_last_date == Some(carry.today@)
            &&& !carry.paid ==> dug.paid_digs_today == tunnel.paid_digs_today && dug.paid_dig_date
                == tunnel.paid_dig_date
            &&& carry.paid ==> dug.paid_dig_date == Some(carry.today@)
            &&& carry.paid && tunnel.paid_dig_date == Some(carry.today@) ==> dug.paid_digs_today
                == tunnel.paid_digs_today + 1
            &&& carry.paid && tunnel.paid_dig_date != Some(carry.today@) ==> dug.paid_digs_today
                == 1
            &&& carry.curse_remaining is None ==> dug.temp_curses == tunnel.temp_curses
            &&& carry.catastrophic || carry.buff_remaining <= 0 ==> dug.temp_buffs
                == tunnel.temp_buffs
            &&& carry.found is None ==> next.artifacts == staged.artifacts
                && dug.current_run_artifacts == tunnel.current_run_artifacts
        }),
{
}

/// Settling a dig touches what a dig is about and nothing else of the tunnel.
pub proof fn law_settling_touches_nothing_else(
    staged: SnapshotView,
    tunnel: TunnelView,
    state: StateView,
    outcome: DigOutcome,
    carry: DigCarry,
)
    requires
        staged.tunnel == Some(tunnel),
    ensures
        ({
            let next = settled_snapshot(staged, state, outcome, carry);
            let dug = next.tunnel->0;
            &&& next.inventory == staged.inventory && next.gear == staged.gear
            &&& next.weather == staged.weather && next.registered == staged.registered
            &&& tunnel == (TunnelView {
                depth: tunnel.depth,
                max_depth: tunnel.max_depth,
                total_digs: tunnel.total_digs,
                total_jc_earned: tunnel.total_jc_earned,
                last_dig_at: tunnel.last_dig_at,
                luminosity: tunnel.luminosity,
                paid_digs_today: tunnel.paid_digs_today,
                paid_dig_date: tunnel.paid_dig_date,
                cavein_free_streak: tunnel.cavein_free_streak,
                current_run_jc: tunnel.current_run_jc,
                current_run_artifacts: tunnel.current_run_artifacts,
                streak_days: tunnel.streak_days,
                streak_last_date: tunnel.streak_last_date,
                temp_curses: tunnel.temp_curses,
                temp_buffs: tunnel.temp_buffs,
                ..dug
            })
        }),
{
}

/// A found artifact is added behind the others, unworn, and counted for the run as
/// its find says.
pub proof fn law_found_artifact_is_kept(
    before: SnapshotView,
    tunnel: TunnelView,
    artifact_id: Seq<char>,
    is_relic: bool,
    delta: i64,
)
    requires
        before.tunnel == Some(tunnel),
        0 <= tunnel.current_run_artifacts <= 1_000_000,
        0 <= delta <= 1_000_000,
    ensures
        ({
            let after = with_artifact(before, artifact_id, is_relic, delta);
            &&& after.artifacts.len() == before.artifacts.len() + 1
            &&& after.artifacts.drop_last() == before.artifacts
            &&& after.artifacts.last().artifact_id == artifact_id
            &&& after.artifacts.last().is_relic == is_relic && !after.artifacts.last().equipped
            &&& after.tunnel->0 == (TunnelView {
                current_run_artifacts: after.tunnel->0.current_run_artifacts,
                ..tunnel
            })
            &&& after.tunnel->0.current_run_artifacts == tunnel.current_run_artifacts + delta
            &&& before == (SnapshotView {
                tunnel: before.tunnel,
                artifacts: before.artifacts,
                ..after
            })
        }),
{
    let after = with_artifact(before, artifact_id, is_relic, delta);
    assert(after.artifacts.drop_last() =~= before.artifacts);
}

} // verus!
