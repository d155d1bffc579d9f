//! Which dig requests are admitted: the gates from registration to cooldown, in
//! the order in which they are tried.

use crate::arith::{larger, max_of, nearest, sat_add, sat_sub};
use crate::condition::{column_tree, injury_is, injury_slows_cooldown};
use crate::outcome::{
    blocked_outcome, idle_outcome, snapshot_depth, DigRuntimeOutcome, DigRuntimeRequest,
    OutcomeView,
};
use crate::snapshot::{new_tunnel, DigRuntimeSnapshot, DigRuntimeTunnel, SnapshotView, TunnelView};
use crate::store::{claim_view, DigSlowDripClaim, SlowDripView};
use crate::text::{int_text, integer_text, join3, join5, text_is, texts};
use vstd::prelude::*;

verus! {

/// Seconds between free digs.
pub const DIG_COOLDOWN_SECONDS: i64 = 3_600;

/// Seconds between free digs under a slowing injury.
pub const INJURED_COOLDOWN_SECONDS: i64 = 21_600;

/// Price of a hard hat that is bought automatically.
pub const AUTO_BUY_HARD_HAT_PRICE: i64 = 8;

/// Price of a torch that is bought automatically.
pub const AUTO_BUY_TORCH_PRICE: i64 = 6;

/// Light up to which a torch is bought automatically.
pub const AUTO_BUY_TORCH_LIGHT: i64 = 50;

/// A dig on its way through the gates: the snapshot that a commit will expect,
/// and the working copy that the dig changes.
#[derive(Debug)]
pub struct StagedDig {
    pub base: DigRuntimeSnapshot,
    pub current: DigRuntimeSnapshot,
    pub first_dig: bool,
}

/// What a [`StagedDig`] holds.
#[verifier::ext_equal]
pub struct StagedView {
    pub base: SnapshotView,
    pub current: SnapshotView,
    pub first_dig: bool,
}

impl View for StagedDig {
    type V = StagedView;

    open spec fn view(&self) -> StagedView {
        StagedView {
            base: self.base@,
            current: self.current@,
            first_dig: self.first_dig,
        }
    }
}

/// One consumable to buy before a dig.
#[derive(Debug, PartialEq, Eq)]
pub struct AutoBuySelection {
    pub item_type: String,
    pub price: i64,
}

/// What a [`AutoBuySelection`] holds.
#[verifier::ext_equal]
pub struct SelectionView {
    pub item_type: Seq<char>,
    pub price: i64,
}

impl View for AutoBuySelection {
    type V = SelectionView;

    open spec fn view(&self) -> SelectionView {
        SelectionView {
            item_type: self.item_type@,
            price: self.price,
        }
    }
}

/// What a gate decides.
#[derive(Debug)]
pub enum DigAdmission {
    /// The request ends here with this outcome.
    Answered(DigRuntimeOutcome),
    /// The dig goes on.
    Admitted(StagedDig),
}

/// What a [`DigAdmission`] means.
pub enum AdmissionView {
    Answered(OutcomeView),
    Admitted(StagedView),
}

impl View for DigAdmission {
    type V = AdmissionView;

    open spec fn view(&self) -> AdmissionView {
        match *self {
            DigAdmission::Answered(outcome) => AdmissionView::Answered(outcome@),
            DigAdmission::Admitted(staged) => AdmissionView::Admitted(staged@),
        }
    }
}

/// What the cooldown gate decides.
#[derive(Debug)]
pub enum DigCharge {
    /// The request ends here with this outcome.
    Answered(DigRuntimeOutcome),
    /// The dig goes on at this cost; `active` says whether it bypasses a
    /// cooldown.
    Charged { active: bool, cost: i64 },
}

/// What a [`DigCharge`] means.
pub enum ChargeView {
    Answered(OutcomeView),
    Charged { active: bool, cost: i64 },
}

impl View for DigCharge {
    type V = ChargeView;

    open spec fn view(&self) -> ChargeView {
        match *self {
            DigCharge::Answered(outcome) => ChargeView::Answered(outcome@),
            DigCharge::Charged { active, cost } => ChargeView::Charged { active, cost },
        }
    }
}

/// Whether a dig would be the guaranteed-safe first one: there is no tunnel, or
/// nothing ever happened in it.
pub open spec fn is_first_dig(tunnel: Option<TunnelView>) -> bool {
    match tunnel {
        Some(tunnel) => tunnel.total_digs == 0 && tunnel.last_dig_at is None && tunnel.depth == 0,
        None => true,
    }
}

/// A snapshot with a tunnel, a new one where there was none.
pub open spec fn with_tunnel(snapshot: SnapshotView, request: DigRuntimeRequest) -> SnapshotView {
    SnapshotView {
        tunnel: match snapshot.tunnel {
            Some(tunnel) => Some(tunnel),
            None => Some(new_tunnel(request.discord_id, request.guild_id)),
        },
        ..snapshot
    }
}

/// The first gates: registration, then a pending route choice.
pub open spec fn begun(
    snapshot: SnapshotView,
    request: DigRuntimeRequest,
    route_choice_required: bool,
    mutation_names: Seq<Seq<char>>,
) -> AdmissionView {
    if !snapshot.registered {
        AdmissionView::Answered(
            blocked_outcome(snapshot, "You need to register first. Use /player register."@, 0, 0),
        )
    } else {
        let current = with_tunnel(snapshot, request);
        if route_choice_required {
            AdmissionView::Answered(
                OutcomeView {
                    error: Some("Choose your route before digging again."@),
                    mutation_names,
                    route_choice_required: true,
                    ..idle_outcome(current)
                },
            )
        } else {
            AdmissionView::Admitted(
                StagedView { base: snapshot, current, first_dig: is_first_dig(snapshot.tunnel) },
            )
        }
    }
}

/// A snapshot whose wallet was credited.
pub open spec fn credited(snapshot: SnapshotView, amount: i64) -> SnapshotView {
    SnapshotView { balance: nearest(snapshot.balance + amount), ..snapshot }
}

/// A staged dig after a Slow Drip claim reached the wallet.
pub open spec fn dripped(staged: StagedView, claim: Option<SlowDripView>) -> StagedView {
    match claim {
        Some(claim) => StagedView {
            base: credited(staged.base, claim.credit_jc),
            current: credited(staged.current, claim.credit_jc),
            ..staged
        },
        None => staged,
    }
}

/// The gates after Slow Drip: a boss that waits at the tunnel's end is shown
/// again, and the hard wall turns the miner away. Neither stops a first dig.
pub open spec fn passed_boundary(
    staged: StagedView,
    claim: Option<SlowDripView>,
    parked_boundary: Option<i64>,
    hard_cap: i64,
    mutation_names: Seq<Seq<char>>,
) -> AdmissionView {
    let next = dripped(staged, claim);
    if !staged.first_dig && parked_boundary is Some {
        AdmissionView::Answered(
            OutcomeView {
                success: true,
                mutation_names,
                boss_boundary: parked_boundary,
                ..idle_outcome(next.current)
            },
        )
    } else if !staged.first_dig && (match next.current.tunnel {
        Some(tunnel) => tunnel.depth >= hard_cap,
        None => false,
    }) {
        AdmissionView::Answered(
            blocked_outcome(
                next.current,
                "The tunnel has reached the prestige cap. Ascend to begin a new run."@,
                0,
                0,
            ),
        )
    } else {
        AdmissionView::Admitted(next)
    }
}

/// The cooldown before stamina: six hours under a slowing injury, otherwise an
/// hour and the mutation's addition.
pub open spec fn cooldown_base(slowed: bool, mutation_bonus: i64) -> i64 {
    if slowed {
        INJURED_COOLDOWN_SECONDS
    } else {
        nearest(DIG_COOLDOWN_SECONDS + mutation_bonus)
    }
}

/// The paid digs that a tunnel has used on `today`.
pub open spec fn paid_digs_on(tunnel: TunnelView, today: Seq<char>) -> i64 {
    if tunnel.paid_dig_date == Some(today) {
        larger(tunnel.paid_digs_today, 0)
    } else {
        0
    }
}

/// The cooldown gate. A free click waits for the cooldown; a paid click pays
/// the previewed price, but only while there is a cooldown to bypass.
pub open spec fn charged(
    current: SnapshotView,
    first_dig: bool,
    paid: bool,
    cooldown: i64,
    paid_cost: i64,
) -> ChargeView {
    let active = !first_dig && paid && cooldown > 0;
    if !first_dig && cooldown > 0 && !paid {
        ChargeView::Answered(
            blocked_outcome(
                current,
                "Dig on cooldown ("@ + int_text(cooldown as int) + "s remaining)."@,
                paid_cost,
                cooldown,
            ),
        )
    } else if active && current.balance < paid_cost {
        ChargeView::Answered(
            blocked_outcome(
                current,
                "Paid dig costs "@ + int_text(paid_cost as int) + " JC but you only have "@
                    + int_text(current.balance as int) + " JC."@,
                paid_cost,
                cooldown,
            ),
        )
    } else {
        ChargeView::Charged {
            active,
            cost: if active {
                paid_cost
            } else {
                0
            },
        }
    }
}

/// Whether a tunnel is at most one block short of a boss boundary.
pub open spec fn approaches(depth: i64, boundary: int) -> bool {
    boundary - 1 <= depth <= boundary
}

/// Whether a tunnel approaches any of the bosses on the way down.
pub open spec fn near_boss(depth: i64) -> bool {
    ||| approaches(depth, 25)
    ||| approaches(depth, 50)
    ||| approaches(depth, 75)
    ||| approaches(depth, 100)
    ||| approaches(depth, 150)
    ||| approaches(depth, 200)
    ||| approaches(depth, 275)
    ||| approaches(depth, 350)
}

/// Tells whether a tunnel approaches a boss.
pub fn is_near_boss(depth: i64) -> (near: bool)
    ensures
        near == near_boss(depth),
{
    depth == 24 || depth == 25 || depth == 49 || depth == 50 || depth == 74 || depth == 75 || depth
        == 99 || depth == 100 || depth == 149 || depth == 150 || depth == 199 || depth == 200
        || depth == 274 || depth == 275 || depth == 349 || depth == 350
}

/// What a tunnel buys automatically before a dig: a hard hat when that is
/// wanted, and a torch when that is wanted and the light is low or a boss near.
pub open spec fn auto_buy_plan(tunnel: TunnelView) -> Seq<SelectionView> {
    let hats = if tunnel.auto_buy_hard_hat {
        seq![SelectionView { item_type: "hard_hat"@, price: AUTO_BUY_HARD_HAT_PRICE }]
    } else {
        Seq::empty()
    };
    if tunnel.auto_buy_torch && (tunnel.luminosity <= AUTO_BUY_TORCH_LIGHT || near_boss(
        tunnel.depth,
    )) {
        hats.push(SelectionView { item_type: "torch"@, price: AUTO_BUY_TORCH_PRICE })
    } else {
        hats
    }
}

/// What a selection list holds.
pub open spec fn selection_views(list: Seq<AutoBuySelection>) -> Seq<SelectionView> {
    list.map_values(|x: AutoBuySelection| x@)
}

/// Tries registration and the pending route choice.
pub fn begin_dig(
    snapshot: DigRuntimeSnapshot,
    request: DigRuntimeRequest,
    route_choice_required: bool,
    mutation_names: Vec<String>,
) -> (admission: DigAdmission)
    ensures
        admission@ == begun(snapshot@, request, route_choice_required, texts(mutation_names@)),
{
    if !snapshot.registered {
        return DigAdmission::Answered(
            DigRuntimeOutcome::blocked(
                &snapshot,
                "You need to register first. Use /player register.".to_owned(),
                0,
                0,
            ),
        );
    }
    let first_dig = match &snapshot.tunnel {
        Some(tunnel) => tunnel.total_digs == 0 && tunnel.last_dig_at.is_none() && tunnel.depth == 0,
        None => true,
    };
    let mut current = snapshot.clone();
    if current.tunnel.is_none() {
        current.tunnel = Some(
            DigRuntimeTunnel::new(request.discord_id, request.guild_id, request.now),
        );
    }
    assert(current@ =~= with_tunnel(snapshot@, request));
    if route_choice_required {
        let mut outcome = DigRuntimeOutcome::idle(&current);
        outcome.error = Some("Choose your route before digging again.".to_owned());
        outcome.mutation_names = mutation_names;
        outcome.route_choice_required = true;
        proof {
            assert(begun(snapshot@, request, route_choice_required, texts(mutation_names@))
                matches AdmissionView::Answered(expected) && outcome@ =~= expected);
        }
        return DigAdmission::Answered(outcome);
    }
    DigAdmission::Admitted(StagedDig { base: snapshot, current, first_dig })
}

/// Credits a Slow Drip claim and tries the parked boss and the hard wall.
pub fn pass_boundary(
    staged: StagedDig,
    claim: &Option<DigSlowDripClaim>,
    parked_boundary: Option<i64>,
    hard_cap: i64,
    mutation_names: Vec<String>,
) -> (admission: DigAdmission)
    ensures
        admission@ == passed_boundary(
            staged@,
            claim_view(*claim),
            parked_boundary,
            hard_cap,
            texts(mutation_names@),
        ),
{
    let ghost view = claim_view(*claim);
    let ghost before = staged@;
    let mut staged = staged;
    match claim {
        Some(claim) => {
            staged.base.balance = sat_add(staged.base.balance, claim.credit_jc);
            staged.current.balance = sat_add(staged.current.balance, claim.credit_jc);
        },
        None => {},
    }
    assert(staged@ =~= dripped(before, view));
    if !staged.first_dig && parked_boundary.is_some() {
        let mut outcome = DigRuntimeOutcome::idle(&staged.current);
        outcome.success = true;
        outcome.mutation_names = mutation_names;
        outcome.boss_boundary = parked_boundary;
        proof {
            assert(passed_boundary(
                before,
                view,
                parked_boundary,
                hard_cap,
                texts(mutation_names@),
            ) matches AdmissionView::Answered(expected) && outcome@ =~= expected);
        }
        return DigAdmission::Answered(outcome);
    }
    let at_cap = match &staged.current.tunnel {
        Some(tunnel) => tunnel.depth >= hard_cap,
        None => false,
    };
    if !staged.first_dig && at_cap {
        return DigAdmission::Answered(
            DigRuntimeOutcome::blocked(
                &staged.current,
                "The tunnel has reached the prestige cap. Ascend to begin a new run.".to_owned(),
                0,
                0,
            ),
        );
    }
    DigAdmission::Admitted(staged)
}

/// Computes the cooldown of a tunnel before stamina shortens it.
pub fn cooldown_before_stamina(injury_state: Option<&str>, mutation_bonus: i64) -> (seconds: i64)
    ensures
        seconds == cooldown_base(
            injury_is(column_tree(crate::text::str_view(injury_state)), "slower_cooldown"@),
            mutation_bonus,
        ),
{
    cooldown_of(injury_slows_cooldown(injury_state), mutation_bonus)
}

/// Computes the cooldown before stamina from whether an injury slows it.
pub fn cooldown_of(slowed: bool, mutation_bonus: i64) -> (seconds: i64)
    ensures
        seconds == cooldown_base(slowed, mutation_bonus),
{
    if slowed {
        INJURED_COOLDOWN_SECONDS
    } else {
        sat_add(DIG_COOLDOWN_SECONDS, mutation_bonus)
    }
}

/// Shortens a cooldown by what mana takes off it.
pub fn cooldown_after_mana(seconds: i64, reduction: i64) -> (left: i64)
    ensures
        left == larger(nearest(seconds - larger(reduction, 0)), 0),
{
    max_of(sat_sub(seconds, max_of(reduction, 0)), 0)
}

/// Counts the paid digs that a tunnel has used on `today`.
pub fn paid_dig_count(tunnel: &DigRuntimeTunnel, today: &str) -> (count: i64)
    ensures
        count == paid_digs_on(tunnel@, today@),
{
    if text_is(&tunnel.paid_dig_date, today) {
        max_of(tunnel.paid_digs_today, 0)
    } else {
        0
    }
}

/// Tries the cooldown and the price of bypassing it.
pub fn charge_dig(
    current: &DigRuntimeSnapshot,
    first_dig: bool,
    paid: bool,
    cooldown: i64,
    paid_cost: i64,
) -> (charge: DigCharge)
    ensures
        charge@ == charged(current@, first_dig, paid, cooldown, paid_cost),
{
    let active = !first_dig && paid && cooldown > 0;
    if !first_dig && cooldown > 0 && !paid {
        return DigCharge::Answered(
            DigRuntimeOutcome::blocked(
                current,
                join3("Dig on cooldown (", integer_text(cooldown).as_str(), "s remaining)."),
                paid_cost,
                cooldown,
            ),
        );
    }
    if active && current.balance < paid_cost {
        return DigCharge::Answered(
            DigRuntimeOutcome::blocked(
                current,
                join5(
                    "Paid dig costs ",
                    integer_text(paid_cost).as_str(),
                    " JC but you only have ",
                    integer_text(current.balance).as_str(),
                    " JC.",
                ),
                paid_cost,
                cooldown,
            ),
        );
    }
    DigCharge::Charged {
        active,
        cost: if active {
            paid_cost
        } else {
            0
        },
    }
}

/// Plans what a tunnel buys automatically before a dig.
pub fn auto_buy_selections(tunnel: &DigRuntimeTunnel) -> (selections: Vec<AutoBuySelection>)
    ensures
        selection_views(selections@) == auto_buy_plan(tunnel@),
{
    let mut selections: Vec<AutoBuySelection> = Vec::new();
    if tunnel.auto_buy_hard_hat {
        selections.push(
            AutoBuySelection { item_type: "hard_hat".to_owned(), price: AUTO_BUY_HARD_HAT_PRICE },
        );
    }
    if tunnel.auto_buy_torch && (tunnel.luminosity <= AUTO_BUY_TORCH_LIGHT || is_near_boss(
        tunnel.depth,
    )) {
        selections.push(
            AutoBuySelection { item_type: "torch".to_owned(), price: AUTO_BUY_TORCH_PRICE },
        );
    }
    assert(selection_views(selections@) =~= auto_buy_plan(tunnel@));
    selections
}

/// A staged dig whose snapshot was read again after automatic purchases. The
/// weather that the dig already saw stays.
pub open spec fn reread(staged: StagedView, fresh: SnapshotView) -> StagedView {
    let current = SnapshotView { weather: staged.current.weather, ..fresh };
    StagedView { base: current, current, ..staged }
}

/// Replaces the snapshot of a staged dig after automatic purchases.
pub fn refresh_staged(staged: StagedDig, fresh: DigRuntimeSnapshot) -> (next: StagedDig)
    ensures
        next@ == reread(staged@, fresh@),
{
    let ghost before = staged@;
    let mut current = fresh;
    current.weather = staged.current.weather;
    let next = StagedDig { base: current.clone(), current, first_dig: staged.first_dig };
    assert(next@ =~= reread(before, fresh@));
    next
}

/// A request that one of the gates answers leaves the tunnel at its depth, earns
/// nothing and takes no action. Only a Slow Drip claim has moved the wallet.
pub proof fn law_answered_request_keeps_the_tunnel(
    snapshot: SnapshotView,
    request: DigRuntimeRequest,
    route_choice_required: bool,
    mutation_names: Seq<Seq<char>>,
    claim: Option<SlowDripView>,
    parked_boundary: Option<i64>,
    hard_cap: i64,
)
    ensures
        match begun(snapshot, request, route_choice_required, mutation_names) {
            AdmissionView::Answered(outcome) => {
                &&& outcome.depth_after == outcome.depth_before == snapshot_depth(snapshot)
                &&& outcome.advance == 0
                &&& outcome.jc_earned == 0
                &&& outcome.balance_after == snapshot.balance
                &&& outcome.action_id is None
            },
            AdmissionView::Admitted(staged) => match passed_boundary(
                staged,
                claim,
                parked_boundary,
                hard_cap,
                mutation_names,
            ) {
                AdmissionView::Answered(outcome) => {
                    &&& outcome.depth_after == outcome.depth_before == snapshot_depth(snapshot)
                    &&& outcome.advance == 0
                    &&& outcome.jc_earned == 0
                    &&& outcome.balance_after == (match claim {
                        Some(claim) => nearest(snapshot.balance + claim.credit_jc),
                        None => snapshot.balance,
                    })
                    &&& outcome.action_id is None
                },
                AdmissionView::Admitted(next) => snapshot_depth(next.current) == snapshot_depth(
                    snapshot,
                ),
            },
        },
{
}

/// A paid click costs nothing on a dig that is ready anyway, a free click never
/// costs anything, and a charge never exceeds the wallet.
pub proof fn law_charge_is_owed_and_covered(
    current: SnapshotView,
    first_dig: bool,
    paid: bool,
    cooldown: i64,
    paid_cost: i64,
)
    ensures
        charged(current, first_dig, paid, cooldown, paid_cost) matches ChargeView::Charged {
            active,
            cost,
        } ==> {
            &&& (first_dig || !paid || cooldown <= 0) ==> cost == 0
            &&& active ==> cost == paid_cost && cost <= current.balance
            &&& !active ==> cost == 0
        },
{
}

} // verus!
