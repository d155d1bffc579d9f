//! Wagers on boss fights, and those that an abandoned fight leaves behind.

use crate::arith::{larger, max_of, nearest, sat_sub};
use crate::boss_error::{BossErrorView, BossServiceError, BossServiceErrorView, DigBossRuntimeError};
use crate::boss_store::{BossRecordView, DigBossRuntimeSnapshot};
use crate::duel::RiskTier;
use crate::encounter::CarriedWager;
use crate::json::{
    json_complaint, json_of_text, lemma_edits_nest, object, read_json, reads_back, render_json,
    text_of_json, Json, JsonView,
};
use crate::pinnacle::{forfeit, wager_forfeit};
use crate::preparation::{boundary_entry, with_boundary};
use crate::text::{borrow_text, int_text, integer_text};
use vstd::prelude::*;

verus! {

/// A wager that stands, and whether it uses up the curse that halved it.
#[derive(Clone, Copy, Debug, PartialEq, Eq, Structural)]
pub struct AcceptedWager {
    pub effective: i64,
    pub consumes_curse: bool,
}

/// A wager under the halving curse: half of it, rounded up.
pub open spec fn halved(wager: i64) -> i64 {
    if wager >= 0 {
        (wager / 2 + wager % 2) as i64
    } else {
        wager
    }
}

/// The wager that stands.
pub open spec fn accepted(wager: i64, cursed: bool) -> AcceptedWager {
    let halves = wager > 0 && cursed;
    AcceptedWager {
        effective: if halves {
            halved(wager)
        } else {
            wager
        },
        consumes_curse: halves,
    }
}

/// What stands against a wager that the wallet has to cover.
pub open spec fn uncovered(wager: i64, cursed: bool, balance: i64) -> Option<BossErrorView> {
    if balance < accepted(wager, cursed).effective {
        Some(
            BossErrorView::Policy(
                BossServiceErrorView::InsufficientBalance {
                    wager: accepted(wager, cursed).effective,
                    balance,
                },
            ),
        )
    } else {
        None
    }
}

fn cover_wager(wager: i64, cursed: bool, balance: i64) -> (answer: Result<
    AcceptedWager,
    DigBossRuntimeError,
>)
    requires
        wager >= 0,
    ensures
        match answer {
            Ok(taken) => uncovered(wager, cursed, balance) is None && taken == accepted(
                wager,
                cursed,
            ),
            Err(error) => uncovered(wager, cursed, balance) == Some(error@),
        },
{
    let consumes_curse = wager > 0 && cursed;
    let effective: i64 = if consumes_curse {
        wager / 2 + wager % 2
    } else {
        wager
    };
    if balance < effective {
        Err(
            DigBossRuntimeError::Policy(
                BossServiceError::InsufficientBalance { wager: effective, balance },
            ),
        )
    } else {
        Ok(AcceptedWager { effective, consumes_curse })
    }
}

/// What stands against a wager on a regular boss.
pub open spec fn regular_wager_obstacle(wager: i64, allowed: bool, cursed: bool, balance: i64)
    -> Option<BossErrorView> {
    if wager < 0 {
        Some(BossErrorView::Policy(BossServiceErrorView::NegativeWager))
    } else if wager > 0 && !allowed {
        Some(BossErrorView::Policy(BossServiceErrorView::WagerNotAllowed))
    } else {
        uncovered(wager, cursed, balance)
    }
}

/// Turns a negative wager away.
pub fn check_wager(wager: i64) -> (answer: Result<(), DigBossRuntimeError>)
    ensures
        match answer {
            Ok(_) => wager >= 0,
            Err(error) => wager < 0 && error@ == BossErrorView::Policy(
                BossServiceErrorView::NegativeWager,
            ),
        },
{
    if wager < 0 {
        Err(DigBossRuntimeError::Policy(BossServiceError::NegativeWager))
    } else {
        Ok(())
    }
}

/// Decides a wager on a regular boss. `allowed` says whether the boss takes
/// wagers, `cursed` whether the next wager is halved.
pub fn resolve_start_wager(wager: i64, allowed: bool, cursed: bool, balance: i64) -> (answer:
    Result<AcceptedWager, DigBossRuntimeError>)
    ensures
        match answer {
            Ok(taken) => regular_wager_obstacle(wager, allowed, cursed, balance) is None && taken
                == accepted(wager, cursed),
            Err(error) => regular_wager_obstacle(wager, allowed, cursed, balance) == Some(error@),
        },
{
    match check_wager(wager) {
        Ok(_) => {},
        Err(error) => {
            return Err(error);
        },
    }
    if wager > 0 && !allowed {
        return Err(DigBossRuntimeError::Policy(BossServiceError::WagerNotAllowed));
    }
    cover_wager(wager, cursed, balance)
}

/// The stake of an attempt at the pinnacle.
#[derive(Clone, Copy, Debug, PartialEq, Eq, Structural)]
pub struct PinnacleStake {
    pub risk_tier: RiskTier,
    pub wager: i64,
    pub consumes_curse: bool,
    /// Whether the stake was carried over from an earlier phase.
    pub carried: bool,
}

/// What stands against a new wager at the pinnacle. A free fight always goes.
pub open spec fn pinnacle_wager_obstacle(wager: i64, maximum: i64, cursed: bool, balance: i64)
    -> Option<BossErrorView> {
    if wager < 0 {
        Some(BossErrorView::Policy(BossServiceErrorView::NegativeWager))
    } else if wager > maximum {
        Some(BossErrorView::WagerTooLarge { requested: wager, maximum })
    } else if wager == 0 {
        None
    } else {
        uncovered(wager, cursed, balance)
    }
}

/// Decides the stake of an attempt at the pinnacle. A carried stake goes before
/// whatever is asked for.
pub fn resolve_pinnacle_wager(
    at_pinnacle: bool,
    carried: Option<CarriedWager>,
    risk_tier: RiskTier,
    wager: i64,
    maximum: i64,
    cursed: bool,
    balance: i64,
) -> (answer: Result<PinnacleStake, DigBossRuntimeError>)
    ensures
        !at_pinnacle ==> (answer matches Err(error) && error@ == BossErrorView::Policy(
            BossServiceErrorView::NotAtBossBoundary,
        )),
        at_pinnacle ==> match carried {
            Some(stake) => answer == Ok::<PinnacleStake, DigBossRuntimeError>(
                PinnacleStake {
                    risk_tier: stake.risk_tier,
                    wager: stake.wager,
                    consumes_curse: false,
                    carried: true,
                },
            ),
            None => match answer {
                Ok(stake) => pinnacle_wager_obstacle(wager, maximum, cursed, balance) is None
                    && stake == (PinnacleStake {
                    risk_tier,
                    wager: accepted(wager, cursed).effective,
                    consumes_curse: accepted(wager, cursed).consumes_curse,
                    carried: false,
                }),
                Err(error) => pinnacle_wager_obstacle(wager, maximum, cursed, balance) == Some(
                    error@,
                ),
            },
        },
{
    if !at_pinnacle {
        return Err(DigBossRuntimeError::Policy(BossServiceError::NotAtBossBoundary));
    }
    match carried {
        Some(stake) => {
            return Ok(
                PinnacleStake {
                    risk_tier: stake.risk_tier,
                    wager: stake.wager,
                    consumes_curse: false,
                    carried: true,
                },
            );
        },
        None => {},
    }
    match check_wager(wager) {
        Ok(_) => {},
        Err(error) => {
            return Err(error);
        },
    }
    if wager > maximum {
        return Err(DigBossRuntimeError::WagerTooLarge { requested: wager, maximum });
    }
    if wager == 0 {
        return Ok(PinnacleStake { risk_tier, wager: 0, consumes_curse: false, carried: false });
    }
    match cover_wager(wager, cursed, balance) {
        Ok(taken) => Ok(
            PinnacleStake {
                risk_tier,
                wager: taken.effective,
                consumes_curse: taken.consumes_curse,
                carried: false,
            },
        ),
        Err(error) => Err(error),
    }
}

/// Tells whether the wallet and the curse have a say in the stake of an attempt at
/// the pinnacle: they do in a new wager that is within its bounds.
pub fn stake_needs_wallet(at_pinnacle: bool, carried: bool, wager: i64, maximum: i64) -> (needs:
    bool)
    ensures
        needs == (at_pinnacle && !carried && 0 < wager <= maximum),
{
    at_pinnacle && !carried && 0 < wager && wager <= maximum
}

/// A wager at the pinnacle that is nothing or out of bounds is answered the same,
/// whatever the wallet holds and whether or not the next wager is halved.
pub proof fn law_wallet_decides_wagers_only(
    wager: i64,
    maximum: i64,
    cursed: bool,
    balance: i64,
    other_cursed: bool,
    other_balance: i64,
)
    requires
        !(0 < wager <= maximum),
    ensures
        pinnacle_wager_obstacle(wager, maximum, cursed, balance) == pinnacle_wager_obstacle(
            wager,
            maximum,
            other_cursed,
            other_balance,
        ),
        pinnacle_wager_obstacle(wager, maximum, cursed, balance) is None ==> accepted(wager, cursed)
            == accepted(wager, other_cursed),
{
}

/// A wager that stands is covered by the wallet and never more than was asked
/// for; the curse leaves at least half of it and is used up only by a wager.
pub proof fn law_accepted_wager_is_covered(wager: i64, allowed: bool, cursed: bool, balance: i64)
    requires
        regular_wager_obstacle(wager, allowed, cursed, balance) is None,
    ensures
        0 <= accepted(wager, cursed).effective <= wager,
        accepted(wager, cursed).effective <= balance,
        wager <= 2 * accepted(wager, cursed).effective,
        accepted(wager, cursed).consumes_curse <==> wager > 0 && cursed,
        !cursed ==> accepted(wager, cursed).effective == wager,
{
}

/// A tree in which nothing is carried at a boundary.
pub open spec fn without_carry(tree: JsonView, boundary: i32) -> JsonView {
    match boundary_entry(tree, boundary) {
        Some(entry) => with_boundary(
            tree,
            boundary,
            entry.without("carried_wager"@).without("carried_risk_tier"@),
        ),
        None => tree,
    }
}

/// Clears the carried wager of a boundary from a progress column.
pub fn clear_carried_wager_json(column: Option<&str>, boundary: i32) -> (cleared: Result<
    Option<String>,
    DigBossRuntimeError,
>)
    ensures
        match column {
            None => cleared == Ok::<Option<String>, DigBossRuntimeError>(None),
            Some(text) => match cleared {
                Ok(Some(written)) => json_of_text(text@) matches Some(tree) && written@
                    == text_of_json(without_carry(tree, boundary)) && reads_back(
                    written@,
                    without_carry(tree, boundary),
                ),
                Ok(None) => false,
                Err(error) => json_of_text(text@) is None && error@
                    == BossErrorView::Infrastructure(json_complaint(text@)),
            },
        },
{
    let text = match column {
        Some(text) => text,
        None => {
            return Ok(None);
        },
    };
    let mut tree = match read_json(text) {
        Ok(tree) => tree,
        Err(words) => {
            return Err(DigBossRuntimeError::Infrastructure(words));
        },
    };
    proof {
        lemma_edits_nest(127);
        lemma_edits_nest(126);
    }
    let key = integer_text(boundary as i64);
    let entry = match tree.get(key.as_str()) {
        Some(entry) => {
            if entry.is_object() {
                let mut entry = entry.clone();
                entry.unset("carried_wager");
                entry.unset("carried_risk_tier");
                Some(entry)
            } else {
                None
            }
        },
        None => None,
    };
    match entry {
        Some(entry) => {
            tree.set(key.as_str(), entry);
        },
        None => {},
    }
    Ok(Some(render_json(tree)))
}

/// Clearing a carried wager leaves none at its boundary and every other field
/// and boundary as it was.
pub proof fn law_cleared_wager_is_gone(
    tree: JsonView,
    boundary: i32,
    other: Seq<char>,
    field: Seq<char>,
)
    requires
        boundary_entry(tree, boundary) is Some,
        other != int_text(boundary as int),
        field != "carried_wager"@,
        field != "carried_risk_tier"@,
    ensures
        ({
            let cleared = without_carry(tree, boundary);
            let before = boundary_entry(tree, boundary)->0;
            &&& boundary_entry(cleared, boundary) matches Some(entry)
            &&& entry.get("carried_wager"@) is None
            &&& entry.get("carried_risk_tier"@) is None
            &&& entry.get(field) == before.get(field)
            &&& cleared.get(other) == tree.get(other)
        }),
{
}

/// What is recorded of an abandoned fight.
pub open spec fn abandon_detail(boundary: i32, wager_forfeit: i64, boss_id: Seq<char>) -> JsonView {
    object().with("boundary"@, JsonView::Int(boundary as i64)).with(
        "abandoned_duel"@,
        JsonView::Bool(true),
    ).with("wager_forfeit"@, JsonView::Int(wager_forfeit)).with(
        "boss_id"@,
        JsonView::Text(boss_id),
    )
}

/// An abandoned fight as it is to be written.
#[derive(Debug)]
pub struct AbandonPlan {
    pub proposed: DigBossRuntimeSnapshot,
    pub detail: String,
    pub wager_forfeit: i64,
}

/// Tells whether an abandoned fight has a wager to forfeit.
pub fn forfeits_wager(wager: i64) -> (answer: bool)
    ensures
        answer == (larger(wager, 0) != 0),
{
    max_of(wager, 0) != 0
}

/// Plans the forfeit of an abandoned fight. What the wallet does not cover is
/// not taken.
pub fn plan_abandon(
    record: &DigBossRuntimeSnapshot,
    wager: i64,
    boundary: i32,
    boss_id: &str,
) -> (plan: Result<AbandonPlan, DigBossRuntimeError>)
    ensures
        match plan {
            Ok(plan) => {
                let lost = forfeit(wager, record@.balance);
                &&& plan.wager_forfeit == lost
                &&& plan.detail@ == text_of_json(abandon_detail(boundary, lost, boss_id@))
                &&& plan.proposed@ == (BossRecordView {
                    balance: nearest(record@.balance - lost),
                    boss_progress_json: match record@.boss_progress_json {
                        None => None,
                        Some(text) => Some(
                            text_of_json(without_carry(json_of_text(text)->0, boundary)),
                        ),
                    },
                    ..record@
                })
                &&& record@.boss_progress_json matches Some(text) ==> json_of_text(text) is Some
            },
            Err(error) => record@.boss_progress_json matches Some(text) && json_of_text(text) is None
                && error@ == BossErrorView::Infrastructure(json_complaint(text)),
        },
{
    let lost = wager_forfeit(wager, record.balance);
    let mut proposed = record.clone();
    proposed.balance = sat_sub(record.balance, lost);
    match clear_carried_wager_json(borrow_text(&record.boss_progress_json), boundary) {
        Ok(column) => {
            proposed.boss_progress_json = column;
        },
        Err(error) => {
            return Err(error);
        },
    }
    let mut detail = Json::empty_object();
    detail.set("boundary", Json::from_i64(boundary as i64));
    detail.set("abandoned_duel", Json::Bool(true));
    detail.set("wager_forfeit", Json::from_i64(lost));
    detail.set("boss_id", Json::from_text(boss_id));
    Ok(AbandonPlan { proposed, detail: render_json(detail), wager_forfeit: lost })
}

/// An abandoned fight costs no more than its wager and never pushes the wallet
/// below zero.
pub proof fn law_abandoned_wager_is_limited(wager: i64, balance: i64)
    ensures
        0 <= forfeit(wager, balance) <= larger(wager, 0),
        balance >= 0 ==> balance - forfeit(wager, balance) >= 0,
        balance < 0 ==> forfeit(wager, balance) == 0,
{
}

} // verus!
