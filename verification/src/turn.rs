//! The steps of an admitted dig in their order: the tunnel is made ready, the
//! roll strikes it, the outcome is closed and taxed, and the dig is reported.
//!
//! Between two steps the world is asked: chance for rolls, the outcome rules for
//! what a roll comes to, the store for an event. Each step takes the answers as
//! arguments.

use crate::arith::{nearest, sat_sub};
use crate::cave_in::{
    apply_cave_in, burnt_after_cave_in, cave_in_fits, hinders_as, lost_item, snapshot_after_cave_in, CaveIn,
    CaveInView,
};
use crate::condition::{tick_injury, tick_reduces, ticked_injury};
use crate::light::{apply_luminosity_refill, refilled};
use crate::loot::list_has;
use crate::outcome::DigRuntimeRequest;
use crate::report::{
    dig_commit, dig_outcome, event_comes_up, report_dig, resolve_event, sonar_swallows, with_event,
    DigReport, DigSettlement,
};
use crate::settlement::{
    billed, choose_pet_blocks, is_state_of, pay_medical_bill, payable_bill, pet_choice, settle_snapshot,
    settled_snapshot, tax_dig, taxed_at_quotes, DigCarry, DigOutcome, DigRuntimeLowPriorityTaxPort,
    DigRuntimeVanityTaxPort, StateView, TunnelState,
};
use crate::snapshot::{DigRuntimeSnapshot, SnapshotView, TunnelView};
use crate::text::{copy_text, text_view, texts};
use crate::upkeep::{credit_refund, fall_to, reinforce, reinforced};
use vstd::prelude::*;

verus! {

/// A tunnel that is ready to be dug: one dig of its injury is used, and its
/// light is refilled.
pub open spec fn ready_tunnel(tunnel: TunnelView, now: i64) -> TunnelView {
    refilled(
        TunnelView { injury_state: ticked_injury(tunnel.injury_state), ..tunnel },
        now,
    )
}

/// A snapshot whose tunnel is ready for a dig.
pub open spec fn ready_snapshot(snapshot: SnapshotView, now: i64) -> SnapshotView {
    SnapshotView {
        tunnel: match snapshot.tunnel {
            Some(tunnel) => Some(ready_tunnel(tunnel, now)),
            None => None,
        },
        ..snapshot
    }
}

/// Whether an injury reduces the advance of the dig that a tunnel is made ready for.
pub open spec fn ready_reduces(snapshot: SnapshotView) -> bool {
    match snapshot.tunnel {
        Some(tunnel) => tick_reduces(tunnel.injury_state),
        None => false,
    }
}

/// Makes the tunnel of an admitted dig ready, and tells whether an injury
/// reduces the advance of this dig.
pub fn make_ready(snapshot: &mut DigRuntimeSnapshot, now: i64) -> (reduced: bool)
    ensures
        final(snapshot)@ == ready_snapshot(old(snapshot)@, now),
        reduced == ready_reduces(old(snapshot)@),
{
    let ghost before = snapshot@;
    let mut reduced = false;
    match snapshot.tunnel.take() {
        Some(taken) => {
            let mut tunnel = taken;
            reduced = tick_injury(&mut tunnel);
            apply_luminosity_refill(&mut tunnel, now);
            snapshot.tunnel = Some(tunnel);
        },
        None => {},
    }
    assert(snapshot@ =~= (SnapshotView {
        tunnel: match before.tunnel {
            Some(tunnel) => Some(ready_tunnel(tunnel, now)),
            None => None,
        },
        ..before
    }));
    reduced
}

/// A snapshot that a roll struck: a cave-in first, then a reinforcement that was
/// used up on the way, which comes too late for this cave-in.
pub open spec fn struck(
    snapshot: SnapshotView,
    cave_in: Option<CaveInView>,
    reinforcement: bool,
    now: i64,
    seconds: i64,
) -> SnapshotView {
    let after = match cave_in {
        Some(cave_in) => snapshot_after_cave_in(snapshot, cave_in),
        None => snapshot,
    };
    if reinforcement {
        SnapshotView {
            tunnel: match after.tunnel {
                Some(tunnel) => Some(reinforced(tunnel, now, seconds)),
                None => None,
            },
            ..after
        }
    } else {
        after
    }
}

/// What an optional cave-in holds.
pub open spec fn cave_in_view(cave_in: Option<CaveIn>) -> Option<CaveInView> {
    match cave_in {
        Some(cave_in) => Some(cave_in@),
        None => None,
    }
}

/// Lets a roll strike a staged snapshot, and names the item that was lost.
/// `seconds` is how long a reinforcement lasts.
pub fn strike(
    staged: &mut DigRuntimeSnapshot,
    consumed_item_ids: &mut Vec<i64>,
    cave_in: &Option<CaveIn>,
    items_used: &Vec<String>,
    now: i64,
    seconds: i64,
) -> (lost: String)
    requires
        cave_in_view(*cave_in) matches Some(cave_in) ==> cave_in_fits(old(staged)@, cave_in),
    ensures
        final(staged)@ == struck(
            old(staged)@,
            cave_in_view(*cave_in),
            texts(items_used@).contains("reinforcement"@),
            now,
            seconds,
        ),
        final(consumed_item_ids)@ == (match cave_in_view(*cave_in) {
            Some(cave_in) => burnt_after_cave_in(
                old(consumed_item_ids)@,
                old(staged)@,
                cave_in,
            ),
            None => old(consumed_item_ids)@,
        }),
        lost@ == (match cave_in_view(*cave_in) {
            Some(cave_in) => lost_item(old(staged)@, cave_in),
            None => Seq::empty(),
        }),
        cave_in_view(*cave_in) matches Some(cave_in) ==> final(staged)@.tunnel matches Some(
            tunnel,
        ) ==> hinders_as(tunnel.injury_state, cave_in),
{
    let ghost before = staged@;
    let lost = match cave_in {
        Some(cave_in) => apply_cave_in(staged, consumed_item_ids, cave_in),
        None => String::new(),
    };
    if list_has(items_used, "reinforcement") {
        match staged.tunnel.take() {
            Some(taken) => {
                let mut tunnel = taken;
                reinforce(&mut tunnel, now, seconds);
                staged.tunnel = Some(tunnel);
            },
            None => {},
        }
    }
    assert(staged@ =~= struck(
        before,
        cave_in_view(*cave_in),
        texts(items_used@).contains("reinforcement"@),
        now,
        seconds,
    ));
    lost
}

/// A dig as the outcome rules left it.
#[derive(Debug)]
pub struct RuledDig {
    pub state: TunnelState,
    pub outcome: DigOutcome,
}

/// What a [`RuledDig`] holds.
pub open spec fn ruled(dig: RuledDig) -> (StateView, DigOutcome) {
    (dig.state@, dig.outcome)
}

/// What a cave-in still takes and gives back once the outcome rules have run.
#[derive(Clone, Copy, Debug, PartialEq, Eq, Structural)]
pub struct Aftermath {
    /// The depth that a catastrophe drops the digger to.
    pub fall: Option<i64>,
    /// The medical bill that is asked for.
    pub bill: i64,
    /// What comes back of the price of a paid dig.
    pub refund: i64,
}

/// A dig that fell as far as a catastrophe dropped it.
pub open spec fn fallen(dig: (StateView, DigOutcome), fall: Option<i64>) -> (
    StateView,
    DigOutcome,
) {
    match fall {
        Some(depth_after) => (
            StateView { depth: depth_after, ..dig.0 },
            DigOutcome { depth_after, advance: 0, ..dig.1 },
        ),
        None => dig,
    }
}

/// A dig after the aftermath of its roll: the fall, then the bill, then the
/// refund.
pub open spec fn closed_dig(dig: (StateView, DigOutcome), aftermath: Aftermath) -> (
    StateView,
    DigOutcome,
) {
    let down = fallen(dig, aftermath.fall);
    let (state, outcome) = billed(down.0, down.1, aftermath.bill);
    (StateView { balance: nearest(state.balance + aftermath.refund), ..state }, outcome)
}

/// Bears the aftermath of a roll, and returns what was paid of the bill.
pub fn close_dig(dig: &mut RuledDig, aftermath: Aftermath) -> (cost: i64)
    ensures
        ruled(*final(dig)) == closed_dig(ruled(*old(dig)), aftermath),
        cost == payable_bill(aftermath.bill, old(dig).state@.balance),
{
    let ghost before = ruled(*dig);
    match aftermath.fall {
        Some(depth_after) => {
            fall_to(&mut dig.state, &mut dig.outcome, depth_after);
        },
        None => {},
    }
    assert(ruled(*dig) == fallen(before, aftermath.fall));
    let cost = pay_medical_bill(&mut dig.state, &mut dig.outcome, aftermath.bill);
    credit_refund(&mut dig.state, aftermath.refund);
    cost
}

/// The digs that a list holds.
pub open spec fn ruled_all(digs: Seq<RuledDig>) -> Seq<(StateView, DigOutcome)> {
    digs.map_values(|dig: RuledDig| ruled(dig))
}

/// The outcomes that a list holds.
pub open spec fn outcomes_of(digs: Seq<(StateView, DigOutcome)>) -> Seq<DigOutcome> {
    digs.map_values(|dig: (StateView, DigOutcome)| dig.1)
}

/// A dig with the help of a pet. `helped` holds the dig with one block of the
/// pet, with two, and so on. In a cave-in, and once a boss is met, the pet does
/// not help.
pub open spec fn with_pet(
    dig: (StateView, DigOutcome),
    helped: Seq<(StateView, DigOutcome)>,
) -> (StateView, DigOutcome) {
    if dig.1.cave_in || dig.1.boss_encounter is Some {
        dig
    } else {
        match pet_choice(outcomes_of(helped)) {
            Some(place) => helped[place],
            None => dig,
        }
    }
}

/// Takes the help of a pet, and returns the blocks that it dug.
pub fn take_pet_help(dig: RuledDig, helped: Vec<RuledDig>) -> (taken: (RuledDig, i64))
    ensures
        ruled(taken.0) == with_pet(ruled(dig), ruled_all(helped@)),
        taken.1 == nearest(taken.0.outcome.advance - dig.outcome.advance),
{
    let ghost all = ruled_all(helped@);
    let mut outcomes: Vec<DigOutcome> = Vec::new();
    let mut i: usize = 0;
    while i < helped.len()
        invariant
            i <= helped.len(),
            all == ruled_all(helped@),
            outcomes@ == outcomes_of(all).subrange(0, i as int),
        decreases helped.len() - i,
    {
        outcomes.push(helped[i].outcome);
        assert(outcomes@ =~= outcomes_of(all).subrange(0, i + 1));
        i = i + 1;
    }
    assert(outcomes@ =~= outcomes_of(all));
    match choose_pet_blocks(&dig.outcome, &outcomes) {
        Some(place) => {
            let mut helped = helped;
            let ghost chosen = helped@[place as int];
            assert(all[place as int] == ruled(chosen));
            let taken = helped.remove(place);
            let blocks = sat_sub(taken.outcome.advance, dig.outcome.advance);
            (taken, blocks)
        },
        None => {
            let blocks = sat_sub(dig.outcome.advance, dig.outcome.advance);
            (dig, blocks)
        },
    }
}

/// Tells whether a dig looks for an artifact. A cave-in buries them, and some
/// corruptions hide them.
pub fn seeks_artifact(outcome: &DigOutcome, hidden: bool) -> (seeks: bool)
    ensures
        seeks == (!outcome.cave_in && !hidden),
{
    !outcome.cave_in && !hidden
}

/// Taxes a closed dig and builds the snapshot that it stores, before any event.
pub fn finish_dig<V: DigRuntimeVanityTaxPort, L: DigRuntimeLowPriorityTaxPort>(
    vanity: &V,
    low_priority: &L,
    request: DigRuntimeRequest,
    staged: DigRuntimeSnapshot,
    dig: &mut RuledDig,
    carry: &DigCarry,
) -> (next: DigRuntimeSnapshot)
    ensures
        taxed_at_quotes::<V, L>(
            vanity,
            low_priority,
            request.discord_id,
            request.guild_id,
            ruled(*old(dig)),
            ruled(*final(dig)),
        ),
        next@ == settled_snapshot(staged@, final(dig).state@, final(dig).outcome, *carry),
{
    tax_dig(
        vanity,
        low_priority,
        request.discord_id,
        request.guild_id,
        &mut dig.state,
        &mut dig.outcome,
    );
    settle_snapshot(staged, &dig.state, &dig.outcome, carry)
}

/// What was drawn for the event of a dig.
#[derive(Debug, PartialEq, Eq)]
pub struct EventDraw {
    /// Whether a sonar was active when the dig started.
    pub sonar_active: bool,
    /// Whether this dig sent out a sonar ping.
    pub preview_included: bool,
    /// Whether the roll of the dig was under its chance of an event.
    pub rolled_under: bool,
    /// The event that was drawn, which counts where one comes up.
    pub selected: Option<String>,
    /// What the ping saw.
    pub preview: Option<String>,
}

/// The event that a dig meets: the one that was drawn, where one comes up.
pub open spec fn event_met(draw: EventDraw, report: DigReport) -> Option<Seq<char>> {
    if !report.outcome.cave_in && (report.request.forced_event || draw.rolled_under) {
        text_view(draw.selected)
    } else {
        None
    }
}

/// The snapshot that a dig stores once its event is settled.
pub open spec fn stored_with_event(
    next: SnapshotView,
    draw: EventDraw,
    report: DigReport,
) -> SnapshotView {
    with_event(next, draw.sonar_active, draw.preview_included, event_met(draw, report))
}

/// Whether an active sonar swallows the event that a dig meets.
pub open spec fn event_swallowed(draw: EventDraw, report: DigReport) -> bool {
    sonar_swallows(draw.sonar_active, event_met(draw, report))
}

/// The event that happens to a dig.
pub open spec fn event_told(draw: EventDraw, report: DigReport) -> Option<Seq<char>> {
    if event_swallowed(draw, report) {
        None
    } else {
        event_met(draw, report)
    }
}

/// A dig that is ready to be committed.
#[derive(Debug)]
pub struct ConcludedDig {
    pub settlement: DigSettlement,
    /// The event that happens.
    pub event: Option<String>,
    /// The event that a sonar shows.
    pub preview: Option<String>,
    pub sonar_skipped: bool,
}

/// Settles the event of a dig, and writes its commit and its outcome. The event
/// that `report` names is replaced by the one that happens; a cave-in meets
/// none, whatever was drawn.
pub fn conclude_dig(
    base: &DigRuntimeSnapshot,
    next: DigRuntimeSnapshot,
    draw: EventDraw,
    report: DigReport,
) -> (concluded: ConcludedDig)
    ensures
        ({
            let stored = stored_with_event(next@, draw, report);
            let told = DigReport { event_id: concluded.event, ..report };
            &&& concluded.settlement.commit@ == dig_commit(base@, stored, told)
            &&& concluded.settlement.outcome@ == dig_outcome(stored, told)
        }),
        concluded.sonar_skipped == event_swallowed(draw, report),
        text_view(concluded.event) == event_told(draw, report),
        text_view(concluded.preview) == (if concluded.sonar_skipped {
            event_met(draw, report)
        } else if draw.preview_included {
            text_view(draw.preview)
        } else {
            None
        }),
        report.outcome.cave_in ==> concluded.event is None && !concluded.sonar_skipped,
        concluded.settlement.outcome.boss_boundary == report.outcome.boss_encounter,
        concluded.settlement.outcome.depth_after == report.outcome.depth_after,
{
    let comes_up = event_comes_up(
        report.outcome.cave_in,
        report.request.forced_event,
        draw.rolled_under,
    );
    let met = if comes_up {
        draw.selected
    } else {
        None
    };
    let mut stored = next;
    let events = resolve_event(
        &mut stored,
        draw.sonar_active,
        draw.preview_included,
        met,
        draw.preview,
    );
    let mut told = report;
    told.event_id = copy_text(&events.event);
    let settlement = report_dig(base, stored, told);
    ConcludedDig {
        settlement,
        event: events.event,
        preview: events.preview,
        sonar_skipped: events.sonar_skipped,
    }
}

/// A cave-in meets no event: none is met or told, no forced event is used up, and
/// the stored tunnel keeps its count of events and its sonar, whatever was drawn.
pub proof fn law_cave_in_meets_no_event(
    next: SnapshotView,
    draw: EventDraw,
    report: DigReport,
)
    requires
        report.outcome.cave_in,
    ensures
        event_met(draw, report) is None,
        !event_swallowed(draw, report),
        event_told(draw, report) is None,
        stored_with_event(next, draw, report) == next,
        ({
            let told = DigReport { event_id: None, ..report };
            &&& dig_outcome(next, told).event_id is None
            &&& !dig_outcome(next, told).forced_event_consumed
        }),
{
    assert(stored_with_event(next, draw, report) =~= next);
}

/// A cave-in brings nothing. Whatever the rules, the pet and the event draw came
/// up with, the dig reports no reward, no tax, no event and no help of a pet, and
/// the stored tunnel keeps its lifetime reward and the reward of its run, starts
/// a new run without cave-ins, and holds no new artifact.
pub proof fn law_cave_in_brings_nothing(
    staged: SnapshotView,
    dig: (StateView, DigOutcome),
    helped: Seq<(StateView, DigOutcome)>,
    carry: DigCarry,
    draw: EventDraw,
    report: DigReport,
)
    requires
        dig.1.cave_in,
        staged.tunnel is Some,
        staged.tunnel->0.total_jc_earned >= 0,
        carry.found is None,
        report.outcome == with_pet(dig, helped).1,
        text_view(report.event_id) == event_told(draw, report),
        report.artifact_id is None,
        report.cave_in_detail is Some,
        report.pet_dig_bonus == report.outcome.advance - dig.1.advance,
    ensures
        ({
            let kept = staged.tunnel->0;
            let settled = settled_snapshot(staged, with_pet(dig, helped).0, report.outcome, carry);
            let stored = stored_with_event(settled, draw, report);
            let told = dig_outcome(stored, report);
            &&& told.success && told.cave_in
            &&& told.jc_earned == 0 && told.vanity_tax == 0 && told.low_priority_tax == 0
            &&& told.artifact_id is None && told.event_id is None && told.pet_dig_bonus == 0
            &&& told.cave_in_detail is Some
            &&& stored.tunnel is Some
            &&& stored.tunnel->0.total_jc_earned == kept.total_jc_earned
            &&& stored.tunnel->0.current_run_jc == kept.current_run_jc
            &&& stored.tunnel->0.current_run_artifacts == kept.current_run_artifacts
            &&& stored.tunnel->0.current_run_events == kept.current_run_events
            &&& stored.tunnel->0.cavein_free_streak == 0
            &&& stored.artifacts == staged.artifacts
        }),
{
}

/// A pet stays out of a cave-in and away from a boss, and otherwise its help is
/// one of the digs that it offered.
pub proof fn law_pet_help_is_offered(
    dig: (StateView, DigOutcome),
    helped: Seq<(StateView, DigOutcome)>,
)
    ensures
        dig.1.cave_in || dig.1.boss_encounter is Some ==> with_pet(dig, helped) == dig,
        helped.len() == 0 ==> with_pet(dig, helped) == dig,
        with_pet(dig, helped) == dig || helped.contains(with_pet(dig, helped)),
{
    lemma_choice_in_range(outcomes_of(helped));
    match pet_choice(outcomes_of(helped)) {
        Some(place) => {
            assert(helped[place] == helped[place]);
        },
        None => {},
    }
}

proof fn lemma_choice_in_range(candidates: Seq<DigOutcome>)
    ensures
        pet_choice(candidates) matches Some(place) ==> 0 <= place < candidates.len(),
        candidates.len() == 0 ==> pet_choice(candidates) is None,
    decreases candidates.len(),
{
    if candidates.len() > 0 {
        lemma_choice_in_range(candidates.drop_last());
    }
}

/// A catastrophe leaves a digger where it dropped them, and neither the bill nor
/// the refund of a cave-in changes how deep they are or whether it was one.
pub proof fn law_aftermath_settles_the_depth(dig: (StateView, DigOutcome), aftermath: Aftermath)
    ensures
        ({
            let (state, outcome) = closed_dig(dig, aftermath);
            &&& outcome.cave_in == dig.1.cave_in
            &&& aftermath.fall matches Some(depth) ==> state.depth == depth && outcome.depth_after
                == depth && outcome.advance == 0
            &&& aftermath.fall is None ==> state.depth == dig.0.depth && outcome.depth_after
                == dig.1.depth_after
        }),
{
}

/// A bill never leaves a wallet that was not in debt below what the refund
/// brings back.
pub proof fn law_bill_leaves_no_debt(dig: (StateView, DigOutcome), aftermath: Aftermath)
    requires
        dig.0.balance >= 0,
        aftermath.refund >= 0,
    ensures
        closed_dig(dig, aftermath).0.balance >= 0,
{
}

/// The price of a dig, nothing where none is charged.
pub open spec fn price_of(charge: Option<i64>) -> int {
    match charge {
        Some(cost) => cost as int,
        None => 0,
    }
}

/// A dig takes its price once and pays its reward once: apart from a cave-in,
/// the wallet that is stored is the wallet before, less the price, plus the
/// reward that is told, whatever the taxes quoted. `state` is what the outcome
/// rules were handed, and `dig` what they left, having credited the reward that
/// they tell.
pub proof fn law_price_is_taken_once<V: DigRuntimeVanityTaxPort, L: DigRuntimeLowPriorityTaxPort>(
    vanity: &V,
    low_priority: &L,
    request: DigRuntimeRequest,
    staged: SnapshotView,
    charge: Option<i64>,
    known_items: Seq<Seq<char>>,
    known_artifacts: Seq<Seq<char>>,
    state: StateView,
    dig: (StateView, DigOutcome),
    closed: (StateView, DigOutcome),
    carry: DigCarry,
)
    requires
        is_state_of(state, staged, charge, known_items, known_artifacts),
        dig.0.balance == state.balance + dig.1.jc_earned,
        !dig.1.cave_in,
        dig.1.bankruptcy_penalty >= 0,
        i64::MIN <= staged.balance - price_of(charge) <= i64::MAX,
        taxed_at_quotes::<V, L>(
            vanity,
            low_priority,
            request.discord_id,
            request.guild_id,
            dig,
            closed,
        ),
    ensures
        settled_snapshot(staged, closed.0, closed.1, carry).balance == staged.balance - price_of(
            charge,
        ) + closed.1.jc_earned,
{
}

/// A reinforcement that is used up on a dig does not soften the cave-in of that
/// dig: what the cave-in leaves of the inventory and the light is the same with
/// it and without.
pub proof fn law_reinforcement_comes_too_late(
    snapshot: SnapshotView,
    cave_in: Option<CaveInView>,
    now: i64,
    seconds: i64,
)
    ensures
        ({
            let with = struck(snapshot, cave_in, true, now, seconds);
            let without = struck(snapshot, cave_in, false, now, seconds);
            &&& with.inventory == without.inventory
            &&& with.gear == without.gear
            &&& with.balance == without.balance
            &&& with.tunnel is Some == without.tunnel is Some
            &&& with.tunnel matches Some(tunnel) ==> tunnel.depth == without.tunnel->0.depth
                && tunnel.luminosity == without.tunnel->0.luminosity && tunnel.injury_state
                == without.tunnel->0.injury_state
        }),
{
}

} // verus!
