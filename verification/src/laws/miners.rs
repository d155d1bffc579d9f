//! Laws on miners: what a profile shows, who may change it, and what it costs.

use crate::awards::awards_boss;
use crate::miner::{
    allocation_answer, auto_buy_answer, backstory_answer, check_allocation, check_auto_buy,
    check_backstory, check_respec, creation_answer, needs_tunnel, profile_from_snapshot,
    respec_answer, stats_from_tunnel, DigMinerAllocation, DigMinerAutoBuyUpdate,
    DigMinerMutationStatus, DigMinerProfile, DigMinerRespecResult, DigMinerRuntimeError,
    DigMinerSnapshot, DigMinerStats, DigMinerTunnelSnapshot, MinerErrorView,
};
use crate::text::{blank, int_text};
use vstd::prelude::*;

verus! {

/// Points are counted from at least five; what the three skills took is spent, and
/// the rest is left.
pub proof fn law_points_are_spent_or_left(tunnel: &DigMinerTunnelSnapshot, stats: DigMinerStats)
    requires
        call_ensures(stats_from_tunnel, (tunnel,), stats),
        0 <= tunnel@.stat_strength <= 1_000_000,
        0 <= tunnel@.stat_smarts <= 1_000_000,
        0 <= tunnel@.stat_stamina <= 1_000_000,
    ensures
        stats.strength == tunnel@.stat_strength && stats.smarts == tunnel@.stat_smarts,
        stats.stamina == tunnel@.stat_stamina,
        stats.spent_points == tunnel@.stat_strength + tunnel@.stat_smarts + tunnel@.stat_stamina,
        tunnel@.stat_points >= 5 ==> stats.stat_points == tunnel@.stat_points,
        tunnel@.stat_points < 5 ==> stats.stat_points == 5,
        stats.spent_points <= stats.stat_points ==> stats.unspent_points == stats.stat_points
            - stats.spent_points,
        stats.spent_points > stats.stat_points ==> stats.unspent_points == 0,
{
}

/// Skills below zero count as none.
pub proof fn law_skills_are_not_negative(tunnel: &DigMinerTunnelSnapshot, stats: DigMinerStats)
    requires
        call_ensures(stats_from_tunnel, (tunnel,), stats),
    ensures
        tunnel@.stat_strength < 0 ==> stats.strength == 0,
        tunnel@.stat_smarts < 0 ==> stats.smarts == 0,
        tunnel@.stat_stamina < 0 ==> stats.stamina == 0,
        stats.unspent_points >= 0,
{
}

/// A profile shows the tunnel's name, story, skills, awards and switches, each as it
/// is kept.
pub proof fn law_profile_shows_the_miner(
    snapshot: &DigMinerSnapshot,
    answer: Result<DigMinerProfile, DigMinerRuntimeError>,
    stats: DigMinerStats,
    boss: i64,
)
    requires
        call_ensures(profile_from_snapshot, (snapshot,), answer),
        snapshot.tunnel matches Some(tunnel) ==> call_ensures(
            stats_from_tunnel,
            (&tunnel,),
            stats,
        ),
    ensures
        answer is Ok <==> snapshot@.tunnel is Some,
        match (snapshot@.tunnel, answer) {
            (Some(tunnel), Ok(profile)) => {
                &&& profile.tunnel_name@ == tunnel.tunnel_name
                &&& profile.backstory@ == tunnel.miner_about
                &&& profile.stats == stats
                &&& profile.auto_buy.torch == tunnel.auto_buy_torch
                &&& profile.auto_buy.hard_hat == tunnel.auto_buy_hard_hat
                &&& profile.auto_buy.grappling_hook == tunnel.auto_buy_grappling_hook
                &&& profile.awarded_bosses@.contains(boss) <==> awards_boss(
                    tunnel.stat_boss_awards_json,
                    tunnel.prestige_level,
                    boss,
                )
            },
            _ => true,
        },
{
}

/// A tunnel is made for a player who has none; only players have profiles.
pub proof fn law_tunnel_is_made_for_players(
    snapshot: &DigMinerSnapshot,
    needed: Result<bool, DigMinerRuntimeError>,
    status: DigMinerMutationStatus,
    made: Result<(), DigMinerRuntimeError>,
)
    requires
        call_ensures(needs_tunnel, (snapshot,), needed),
        call_ensures(creation_answer, (status,), made),
    ensures
        needed is Ok <==> snapshot@.player_exists,
        needed matches Ok(missing) ==> (missing <==> snapshot@.tunnel is None),
        needed matches Err(error) ==> error@ is MissingPlayer,
        made is Ok <==> status is Applied,
        status is MissingPlayer ==> (made matches Err(error) && error@ is MissingPlayer),
        status is Conflict ==> (made matches Err(error) && error@ is InvalidState),
{
}

/// A story is told once, and only where there is one to tell.
pub proof fn law_story_is_told_once(
    snapshot: &DigMinerSnapshot,
    story: &str,
    checked: Result<(), DigMinerRuntimeError>,
    status: DigMinerMutationStatus,
    answer: Result<DigMinerProfile, DigMinerRuntimeError>,
)
    requires
        call_ensures(check_backstory, (snapshot, story), checked),
        call_ensures(backstory_answer, (status, snapshot), answer),
    ensures
        snapshot@.tunnel matches Some(tunnel) ==> {
            &&& checked is Ok <==> blank(tunnel.miner_about) && story@.len() > 0
            &&& !blank(tunnel.miner_about) ==> (checked matches Err(error) && error@
                is BackstoryLocked)
            &&& blank(tunnel.miner_about) && story@.len() == 0 ==> (checked matches Err(error)
                && error@ is MissingBackstory)
            &&& status is Applied <==> answer is Ok
        },
        snapshot@.tunnel is None ==> checked is Err,
        status is Locked ==> (answer matches Err(error) && error@ is BackstoryLocked),
        status is Conflict ==> (answer matches Err(error) && error@ is Conflict),
        status is MissingPlayer ==> (answer matches Err(error) && error@ is MissingPlayer),
{
}

/// Points may be spent that are left; the three parts of an allocation add up.
pub proof fn law_points_left_may_be_spent(
    snapshot: &DigMinerSnapshot,
    tunnel: &DigMinerTunnelSnapshot,
    stats: DigMinerStats,
    allocation: DigMinerAllocation,
    checked: Result<i64, DigMinerRuntimeError>,
)
    requires
        call_ensures(check_allocation, (snapshot, allocation), checked),
        snapshot@.tunnel == Some(tunnel@),
        call_ensures(stats_from_tunnel, (tunnel,), stats),
        allocation.strength <= 1_000_000,
        allocation.smarts <= 1_000_000,
        allocation.stamina <= 1_000_000,
    ensures
        ({
            let asked = allocation.strength + allocation.smarts + allocation.stamina;
            let negative = allocation.strength < 0 || allocation.smarts < 0 || allocation.stamina
                < 0;
            &&& negative ==> (checked matches Err(error) && error@ is NegativeStats)
            &&& !negative && asked == 0 ==> (checked matches Err(error) && error@
                is EmptyAllocation)
            &&& !negative && 0 < asked <= stats.unspent_points ==> (checked matches Ok(sum)
                && sum == asked)
            &&& !negative && asked > stats.unspent_points && asked > 0 ==> (checked matches Err(
                error,
            ) && error@ == (MinerErrorView::InsufficientPoints {
                requested: asked as i64,
                available: stats.unspent_points,
            }))
        }),
{
}

/// An allocation that lost a race, or asked for more than is left by then, says so.
pub proof fn law_allocation_is_answered(
    status: DigMinerMutationStatus,
    snapshot: &DigMinerSnapshot,
    tunnel: &DigMinerTunnelSnapshot,
    stats: DigMinerStats,
    requested: i64,
    answer: Result<DigMinerProfile, DigMinerRuntimeError>,
)
    requires
        call_ensures(allocation_answer, (status, snapshot, requested), answer),
        snapshot@.tunnel == Some(tunnel@),
        call_ensures(stats_from_tunnel, (tunnel,), stats),
    ensures
        answer is Ok <==> status is Applied,
        answer matches Ok(profile) ==> profile.stats == stats,
        status is Conflict ==> (answer matches Err(error) && error@ is Conflict),
        status is InsufficientPoints ==> (answer matches Err(error) && error@ == (
        MinerErrorView::InsufficientPoints { requested, available: stats.unspent_points })),
{
}

/// A change of switches changes at least one.
pub proof fn law_switch_is_changed(
    update: DigMinerAutoBuyUpdate,
    checked: Result<(), DigMinerRuntimeError>,
    status: DigMinerMutationStatus,
    snapshot: &DigMinerSnapshot,
    answer: Result<DigMinerProfile, DigMinerRuntimeError>,
)
    requires
        call_ensures(check_auto_buy, (update,), checked),
        call_ensures(auto_buy_answer, (status, snapshot), answer),
    ensures
        checked is Ok <==> update.torch is Some || update.hard_hat is Some,
        checked matches Err(error) ==> error@ is MissingAutoBuySetting,
        answer is Ok ==> status is Applied,
        status is Applied && snapshot@.tunnel is Some ==> answer is Ok,
        status is Conflict ==> (answer matches Err(error) && error@ is Conflict),
{
}

/// A reset is for players who spent points; it costs 50 and gives them back.
pub proof fn law_reset_is_answered(
    snapshot: &DigMinerSnapshot,
    tunnel: &DigMinerTunnelSnapshot,
    stats: DigMinerStats,
    checked: Result<(), DigMinerRuntimeError>,
    status: DigMinerMutationStatus,
    returned_points: i64,
    action_id: Option<i64>,
    answer: Result<DigMinerRespecResult, DigMinerRuntimeError>,
)
    requires
        call_ensures(check_respec, (snapshot,), checked),
        call_ensures(respec_answer, (status, snapshot, returned_points, action_id), answer),
        snapshot@.tunnel == Some(tunnel@),
        call_ensures(stats_from_tunnel, (tunnel,), stats),
    ensures
        checked is Ok <==> snapshot@.player_exists && stats.spent_points > 0,
        !snapshot@.player_exists ==> (checked matches Err(error) && error@ is MissingPlayer),
        snapshot@.player_exists && stats.spent_points <= 0 ==> (checked matches Err(error) && error@
            is NoAllocatedPoints),
        answer is Ok <==> status is Applied && action_id is Some,
        answer matches Ok(told) ==> told.cost == 50 && told.returned_points == returned_points
            && told.stats == stats && Some(told.action_id) == action_id,
        status is NoAllocatedPoints ==> (answer matches Err(error) && error@ is NoAllocatedPoints),
        status is InsufficientBalance ==> (answer matches Err(error) && error@
            is InsufficientRespecBalance),
        status is Conflict ==> (answer matches Err(error) && error@ is Conflict),
{
}

/// Each trouble has words of its own.
pub proof fn law_troubles_have_words(error: DigMinerRuntimeError, text: String)
    requires
        call_ensures(DigMinerRuntimeError::message, (&error,), text),
    ensures
        error@ is MissingPlayer ==> text@ == "You need to register first. Use /player register."@,
        error@ is BackstoryLocked ==> text@
            == "Your miner backstory is already set and cannot be changed."@,
        error@ is MissingBackstory ==> text@ == "Provide a backstory to lock in."@,
        error@ is NegativeStats ==> text@ == "S stats cannot be negative."@,
        error@ is EmptyAllocation ==> text@ == "Spend at least one point."@,
        error@ matches MinerErrorView::InsufficientPoints { requested, available } ==> text@
            == "That spends "@ + int_text(requested as int) + " points, but you only have "@
            + int_text(available as int) + " unspent."@,
        error@ is MissingAutoBuySetting ==> text@
            == "Choose at least one auto-buy setting to update."@,
        error@ is NoAllocatedPoints ==> text@ == "You don't have any allocated S points to reset."@,
        error@ is InsufficientRespecBalance ==> text@ == "You need 50 JC to respec your S points."@,
        error@ is Conflict ==> text@
            == "That miner profile changed while this action was processing. Try again."@,
        error@ matches MinerErrorView::Repository(words) ==> text@ == words,
        error@ matches MinerErrorView::InvalidState(words) ==> text@ == "invalid Dig miner state: "@
            + words,
{
}

} // verus!
