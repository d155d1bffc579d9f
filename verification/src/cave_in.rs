//! Cave-ins: how many blocks are lost, what else happens, and how it is told.

use crate::arith::{larger, max_of, min_of, nearest, sat_add, sat_sub, smaller};
use crate::condition::{column_tree, injury_is};
use crate::json::{
    json_of_text, lemma_withs_are_plain, object, render_json, text_array, text_of_json, Json, JsonView,
};
use crate::snapshot::{
    DigRuntimeGear, DigRuntimeSnapshot, DigRuntimeTunnel, GearView, SnapshotView, TunnelView,
};
use crate::text::{int_text, integer_text, join2, join3, join5, same_text, texts};
use vstd::prelude::*;

verus! {

/// Blocks that a reinforced tunnel can lose at most.
pub const REINFORCED_LOSS_CAP: i64 = 8;

/// Light that a snuffed lamp costs.
pub const SNUFFED_LIGHT_LOSS: i64 = 25;

/// The rolled loss with its additions, under the cap of weather or route.
pub open spec fn raised_loss(rolled: i64, policy_bonus: i64, mutation_bonus: i64, cap: Option<i64>)
    -> i64 {
    let raised = nearest(nearest(rolled + policy_bonus) + mutation_bonus);
    match cap {
        Some(cap) => smaller(raised, larger(cap, 0)),
        None => raised,
    }
}

/// Raises a rolled loss and applies the cap of weather or route.
pub fn raise_cave_loss(rolled: i64, policy_bonus: i64, mutation_bonus: i64, cap: Option<i64>)
    -> (loss: i64)
    ensures
        loss == raised_loss(rolled, policy_bonus, mutation_bonus, cap),
{
    let raised = sat_add(sat_add(rolled, policy_bonus), mutation_bonus);
    match cap {
        Some(cap) => min_of(raised, max_of(cap, 0)),
        None => raised,
    }
}

/// What a cave-in takes and gives before its other consequences.
#[derive(Clone, Copy, Debug, PartialEq, Eq, Structural)]
pub struct CaveLoss {
    /// Blocks lost.
    pub loss: i64,
    /// Whether a grappling hook took the fall.
    pub absorbed: bool,
    /// Reward found in the rubble.
    pub reward: i64,
}

/// The blocks that are at stake once player reductions were taken: a reinforced
/// tunnel loses at most eight.
pub open spec fn staked_loss(reduced: i64, reinforced: bool) -> i64 {
    if reinforced {
        smaller(reduced, REINFORCED_LOSS_CAP)
    } else {
        reduced
    }
}

/// How a cave-in is settled: the charm pays half of what is at stake, then a
/// grappling hook saves everything, and a tier seven pickaxe saves one block.
pub open spec fn settled_loss(
    staked: i64,
    rubble_reward: i64,
    gamblers_charm: bool,
    grappling_charges: i64,
    pickaxe_tier: i64,
) -> CaveLoss {
    CaveLoss {
        loss: if grappling_charges > 0 {
            0
        } else if pickaxe_tier >= 7 {
            larger(nearest(staked - 1), 1)
        } else {
            staked
        },
        absorbed: grappling_charges > 0,
        reward: if staked > 0 && gamblers_charm {
            nearest(rubble_reward + larger((staked / 2) as i64, 1))
        } else {
            rubble_reward
        },
    }
}

/// Limits a loss where the tunnel is reinforced.
pub fn reinforced_cave_loss(reduced: i64, reinforced: bool) -> (staked: i64)
    ensures
        staked == staked_loss(reduced, reinforced),
{
    if reinforced {
        min_of(reduced, REINFORCED_LOSS_CAP)
    } else {
        reduced
    }
}

/// Tells whether a tunnel is still reinforced.
pub fn is_reinforced(reinforced_until: i64, now: i64) -> (reinforced: bool)
    ensures
        reinforced == (reinforced_until > now),
{
    reinforced_until > now
}

/// Tells whether a tunnel is still insured.
pub fn is_insured(insured_until: Option<i64>, now: i64) -> (insured: bool)
    ensures
        insured == (match insured_until {
            Some(until) => until > now,
            None => false,
        }),
{
    match insured_until {
        Some(until) => until > now,
        None => false,
    }
}

/// How a cave-in goes.
#[derive(Clone, Copy, Debug, PartialEq, Eq, Structural)]
pub enum FallKind {
    Cushioned,
    Catastrophic,
    Ordinary,
}

/// Tells how a cave-in goes: a grappling line that took it leaves no catastrophe.
pub fn fall_kind(absorbed: bool, catastrophic: bool) -> (kind: FallKind)
    ensures
        kind == (if absorbed {
            FallKind::Cushioned
        } else if catastrophic {
            FallKind::Catastrophic
        } else {
            FallKind::Ordinary
        }),
{
    if absorbed {
        FallKind::Cushioned
    } else if catastrophic {
        FallKind::Catastrophic
    } else {
        FallKind::Ordinary
    }
}

/// The digs that a stun or an injury lasts, with what mutations add, where that is
/// a number.
pub fn lengthened(digs: i64, bonus: i64) -> (longer: Option<i64>)
    ensures
        match longer {
            Some(sum) => sum == digs + bonus,
            None => !(i64::MIN <= digs + bonus <= i64::MAX),
        },
{
    digs.checked_add(bonus)
}

/// Settles a cave-in from the blocks at stake.
pub fn settle_cave_loss(
    staked: i64,
    rubble_reward: i64,
    gamblers_charm: bool,
    grappling_charges: i64,
    pickaxe_tier: i64,
) -> (settled: CaveLoss)
    ensures
        settled == settled_loss(
            staked,
            rubble_reward,
            gamblers_charm,
            grappling_charges,
            pickaxe_tier,
        ),
{
    let reward = if staked > 0 && gamblers_charm {
        sat_add(rubble_reward, max_of(staked / 2, 1))
    } else {
        rubble_reward
    };
    if grappling_charges > 0 {
        CaveLoss { loss: 0, absorbed: true, reward }
    } else if pickaxe_tier >= 7 {
        CaveLoss { loss: max_of(sat_sub(staked, 1), 1), absorbed: false, reward }
    } else {
        CaveLoss { loss: staked, absorbed: false, reward }
    }
}

/// What a cave-in finds to take.
#[derive(Clone, Copy, Debug, PartialEq, Eq, Structural)]
pub struct Applicability {
    pub items: bool,
    pub gear: bool,
    pub light: bool,
    pub hard_hat: bool,
}

/// Whether a piece of gear can be worn down: it is equipped and not yet broken.
pub open spec fn can_wear(piece: GearView) -> bool {
    piece.equipped && piece.durability > 0
}

/// What a cave-in finds to take of a snapshot.
pub open spec fn applicable(staged: SnapshotView) -> Applicability {
    Applicability {
        items: staged.inventory.len() > 0,
        gear: exists|i: int| 0 <= i < staged.gear.len() && can_wear(#[trigger] staged.gear[i]),
        light: staged.tunnel is Some && staged.tunnel->0.luminosity > 0,
        hard_hat: staged.tunnel is Some && staged.tunnel->0.hard_hat_charges > 0,
    }
}

/// Finds what a cave-in can take of a snapshot.
pub fn cave_in_applicability(staged: &DigRuntimeSnapshot) -> (applicability: Applicability)
    ensures
        applicability == applicable(staged@),
{
    let ghost view = staged@;
    let mut gear = false;
    let mut i: usize = 0;
    while i < staged.gear.len()
        invariant
            i <= staged.gear.len(),
            view == staged@,
            gear == exists|j: int| 0 <= j < i && can_wear(#[trigger] view.gear[j]),
        decreases staged.gear.len() - i,
    {
        assert(view.gear[i as int] == staged.gear@[i as int]@);
        if staged.gear[i].equipped && staged.gear[i].durability > 0 {
            assert(can_wear(view.gear[i as int]));
            gear = true;
        }
        i = i + 1;
    }
    let (light, hard_hat) = match &staged.tunnel {
        Some(tunnel) => (tunnel.luminosity > 0, tunnel.hard_hat_charges > 0),
        None => (false, false),
    };
    Applicability { items: staged.inventory.len() > 0, gear, light, hard_hat }
}

/// The ordinary consequences of a cave-in.
#[derive(Clone, Copy, Debug, PartialEq, Eq, Structural)]
pub enum CaveInBranch {
    Stun,
    Injury,
    MedicalBill,
    GearNick,
    SpilledSatchel,
    SnuffedLight,
    CrackedHat,
}

/// The consequence that a drawn name leads to. One that needs something the
/// miner does not have becomes a medical bill, and so does an unknown name.
pub open spec fn branch_of(name: Seq<char>, staged: SnapshotView) -> CaveInBranch {
    let lit = staged.tunnel is Some && staged.tunnel->0.luminosity > 0;
    let hatted = staged.tunnel is Some && staged.tunnel->0.hard_hat_charges > 0;
    if name == "stun"@ {
        CaveInBranch::Stun
    } else if name == "injury"@ {
        CaveInBranch::Injury
    } else if name == "medical_bill"@ {
        CaveInBranch::MedicalBill
    } else if name == "gear_nick"@ {
        CaveInBranch::GearNick
    } else if name == "spilled_satchel"@ && staged.inventory.len() > 0 {
        CaveInBranch::SpilledSatchel
    } else if name == "snuffed_light"@ && lit {
        CaveInBranch::SnuffedLight
    } else if name == "cracked_hat"@ && hatted {
        CaveInBranch::CrackedHat
    } else {
        CaveInBranch::MedicalBill
    }
}

/// Finds the consequence that a drawn name leads to.
pub fn cave_in_branch(name: &str, staged: &DigRuntimeSnapshot) -> (branch: CaveInBranch)
    ensures
        branch == branch_of(name@, staged@),
{
    let (lit, hatted) = match &staged.tunnel {
        Some(tunnel) => (tunnel.luminosity > 0, tunnel.hard_hat_charges > 0),
        None => (false, false),
    };
    if same_text(name, "stun") {
        CaveInBranch::Stun
    } else if same_text(name, "injury") {
        CaveInBranch::Injury
    } else if same_text(name, "medical_bill") {
        CaveInBranch::MedicalBill
    } else if same_text(name, "gear_nick") {
        CaveInBranch::GearNick
    } else if same_text(name, "spilled_satchel") && staged.inventory.len() > 0 {
        CaveInBranch::SpilledSatchel
    } else if same_text(name, "snuffed_light") && lit {
        CaveInBranch::SnuffedLight
    } else if same_text(name, "cracked_hat") && hatted {
        CaveInBranch::CrackedHat
    } else {
        CaveInBranch::MedicalBill
    }
}

/// One cave-in with everything that was drawn for it.
#[derive(Debug)]
pub enum CaveIn {
    /// The grappling line took the fall.
    Cushioned,
    /// The tunnel folds in on itself.
    Catastrophic {
        depth_after: i64,
        insurance_saved: bool,
        total_loss: i64,
        stun_digs: i64,
        gear: Vec<DigRuntimeGear>,
        gear_broken: Vec<String>,
    },
    Stun { digs: i64 },
    Injury { digs: i64 },
    MedicalBill,
    GearNick { gear: Vec<DigRuntimeGear>, gear_broken: Vec<String> },
    /// The inventory row at this place is lost; a known kind has a name.
    SpilledSatchel { index: usize, known_name: Option<String> },
    SnuffedLight,
    CrackedHat,
}

/// What a [`CaveIn`] means.
#[verifier::ext_equal]
pub enum CaveInView {
    Cushioned,
    Catastrophic {
        depth_after: i64,
        insurance_saved: bool,
        total_loss: i64,
        stun_digs: i64,
        gear: Seq<GearView>,
        gear_broken: Seq<Seq<char>>,
    },
    Stun { digs: i64 },
    Injury { digs: i64 },
    MedicalBill,
    GearNick { gear: Seq<GearView>, gear_broken: Seq<Seq<char>> },
    SpilledSatchel { index: int, known_name: Option<Seq<char>> },
    SnuffedLight,
    CrackedHat,
}

/// What a list of gear rows holds.
pub open spec fn gear_views(gear: Seq<DigRuntimeGear>) -> Seq<GearView> {
    gear.map_values(|x: DigRuntimeGear| x@)
}

impl View for CaveIn {
    type V = CaveInView;

    open spec fn view(&self) -> CaveInView {
        match *self {
            CaveIn::Cushioned => CaveInView::Cushioned,
            CaveIn::Catastrophic {
                depth_after,
                insurance_saved,
                total_loss,
                stun_digs,
                gear,
                gear_broken,
            } => CaveInView::Catastrophic {
                depth_after,
                insurance_saved,
                total_loss,
                stun_digs,
                gear: gear_views(gear@),
                gear_broken: texts(gear_broken@),
            },
            CaveIn::Stun { digs } => CaveInView::Stun { digs },
            CaveIn::Injury { digs } => CaveInView::Injury { digs },
            CaveIn::MedicalBill => CaveInView::MedicalBill,
            CaveIn::GearNick { gear, gear_broken } => CaveInView::GearNick {
                gear: gear_views(gear@),
                gear_broken: texts(gear_broken@),
            },
            CaveIn::SpilledSatchel { index, known_name } => CaveInView::SpilledSatchel {
                index: index as int,
                known_name: crate::text::text_view(known_name),
            },
            CaveIn::SnuffedLight => CaveInView::SnuffedLight,
            CaveIn::CrackedHat => CaveInView::CrackedHat,
        }
    }
}

/// The inventory place that a satchel roll points at.
pub fn satchel_index(roll: u32, length: usize) -> (index: usize)
    requires
        length > 0,
    ensures
        index == (if roll < length {
            roll as int
        } else {
            length - 1
        }),
{
    if (roll as u64) < (length as u64) {
        roll as usize
    } else {
        length - 1
    }
}

/// An injury of a kind that lasts some digs.
pub open spec fn injury_tree(kind: Seq<char>, digs: i64) -> JsonView {
    object().with("type"@, JsonView::Text(kind)).with("digs_remaining"@, JsonView::Int(digs))
}

/// What a cave-in does to a tunnel.
pub open spec fn tunnel_after_cave_in(tunnel: TunnelView, cave_in: CaveInView) -> TunnelView {
    match cave_in {
        CaveInView::Cushioned => TunnelView {
            grappling_hook_charges: larger(nearest(tunnel.grappling_hook_charges - 1), 0),
            ..tunnel
        },
        CaveInView::Catastrophic { stun_digs, .. } => TunnelView {
            temp_buffs: None,
            injury_state: Some(text_of_json(injury_tree("slower_cooldown"@, stun_digs))),
            cavein_free_streak: 0,
            ..tunnel
        },
        CaveInView::Stun { digs } => TunnelView {
            injury_state: Some(text_of_json(injury_tree("slower_cooldown"@, digs))),
            cavein_free_streak: 0,
            ..tunnel
        },
        CaveInView::Injury { digs } => TunnelView {
            injury_state: Some(text_of_json(injury_tree("reduced_advance"@, digs))),
            cavein_free_streak: 0,
            ..tunnel
        },
        CaveInView::SnuffedLight => TunnelView {
            luminosity: larger((tunnel.luminosity - SNUFFED_LIGHT_LOSS) as i64, 0),
            cavein_free_streak: 0,
            ..tunnel
        },
        CaveInView::CrackedHat => TunnelView {
            hard_hat_charges: larger((tunnel.hard_hat_charges - 1) as i64, 0),
            cavein_free_streak: 0,
            ..tunnel
        },
        _ => TunnelView { cavein_free_streak: 0, ..tunnel },
    }
}

/// What a cave-in does to a snapshot.
pub open spec fn snapshot_after_cave_in(snapshot: SnapshotView, cave_in: CaveInView)
    -> SnapshotView {
    SnapshotView {
        tunnel: match snapshot.tunnel {
            Some(tunnel) => Some(tunnel_after_cave_in(tunnel, cave_in)),
            None => None,
        },
        inventory: match cave_in {
            CaveInView::SpilledSatchel { index, .. } => snapshot.inventory.remove(index),
            _ => snapshot.inventory,
        },
        gear: match cave_in {
            CaveInView::Catastrophic { gear, .. } => gear,
            CaveInView::GearNick { gear, .. } => gear,
            _ => snapshot.gear,
        },
        ..snapshot
    }
}

/// The inventory rows that a dig burns after a cave-in.
pub open spec fn burnt_after_cave_in(
    burnt: Seq<i64>,
    snapshot: SnapshotView,
    cave_in: CaveInView,
) -> Seq<i64> {
    match cave_in {
        CaveInView::SpilledSatchel { index, .. } => burnt.push(snapshot.inventory[index].id),
        _ => burnt,
    }
}

/// The name under which a lost item is told.
pub open spec fn lost_item(snapshot: SnapshotView, cave_in: CaveInView) -> Seq<char> {
    match cave_in {
        CaveInView::SpilledSatchel { index, known_name } => match known_name {
            Some(name) => name,
            None => snapshot.inventory[index].item_type,
        },
        _ => Seq::empty(),
    }
}

/// Whether a cave-in can happen to a snapshot: a spilled row is there, and the
/// light or charge that is taken can be counted down.
pub open spec fn cave_in_fits(snapshot: SnapshotView, cave_in: CaveInView) -> bool {
    match cave_in {
        CaveInView::SpilledSatchel { index, .. } => 0 <= index < snapshot.inventory.len(),
        CaveInView::SnuffedLight => snapshot.tunnel is Some ==> snapshot.tunnel->0.luminosity
            >= i64::MIN + SNUFFED_LIGHT_LOSS,
        CaveInView::CrackedHat => snapshot.tunnel is Some ==> snapshot.tunnel->0.hard_hat_charges
            > i64::MIN,
        _ => true,
    }
}

fn injury_column(kind: &str, digs: i64) -> (text: String)
    ensures
        text@ == text_of_json(injury_tree(kind@, digs)),
        json_of_text(text@) == Some(injury_tree(kind@, digs)),
{
    let mut tree = Json::empty_object();
    tree.set("type", Json::from_text(kind));
    tree.set("digs_remaining", Json::from_i64(digs));
    proof {
        lemma_withs_are_plain(127);
    }
    render_json(tree)
}

/// Whether an injury column hinders as a cave-in says: an injury reduces the
/// advance, and a stun or a catastrophe slows the cooldown, for so many digs.
pub open spec fn hinders_as(column: Option<Seq<char>>, cave_in: CaveInView) -> bool {
    let reduces = injury_is(column_tree(column), "reduced_advance"@);
    let slows = injury_is(column_tree(column), "slower_cooldown"@);
    let lasts = |digs: i64|
        match column_tree(column) {
            Some(tree) => tree.int_at("digs_remaining"@) == Some(digs),
            None => false,
        };
    match cave_in {
        CaveInView::Injury { digs } => reduces && !slows && lasts(digs),
        CaveInView::Stun { digs } => slows && !reduces && lasts(digs),
        CaveInView::Catastrophic { stun_digs, .. } => slows && !reduces && lasts(stun_digs),
        _ => true,
    }
}

proof fn lemma_injury_words()
    ensures
        "type"@.len() == 4,
        "digs_remaining"@.len() == 14,
        "reduced_advance"@ != "slower_cooldown"@,
{
    reveal_strlit("type");
    reveal_strlit("digs_remaining");
    reveal_strlit("reduced_advance");
    reveal_strlit("slower_cooldown");
    assert("reduced_advance"@[0] != "slower_cooldown"@[0]);
}

fn hurt_tunnel(tunnel: &mut DigRuntimeTunnel, cave_in: &CaveIn)
    requires
        cave_in@ is SnuffedLight ==> old(tunnel)@.luminosity >= i64::MIN + SNUFFED_LIGHT_LOSS,
        cave_in@ is CrackedHat ==> old(tunnel)@.hard_hat_charges > i64::MIN,
    ensures
        final(tunnel)@ == tunnel_after_cave_in(old(tunnel)@, cave_in@),
        hinders_as(final(tunnel)@.injury_state, cave_in@),
{
    proof {
        lemma_injury_words();
    }
    match cave_in {
        CaveIn::Cushioned => {
            tunnel.grappling_hook_charges = max_of(sat_sub(tunnel.grappling_hook_charges, 1), 0);
        },
        CaveIn::Catastrophic { stun_digs, .. } => {
            tunnel.temp_buffs = None;
            tunnel.injury_state = Some(injury_column("slower_cooldown", *stun_digs));
            tunnel.cavein_free_streak = 0;
        },
        CaveIn::Stun { digs } => {
            tunnel.injury_state = Some(injury_column("slower_cooldown", *digs));
            tunnel.cavein_free_streak = 0;
        },
        CaveIn::Injury { digs } => {
            tunnel.injury_state = Some(injury_column("reduced_advance", *digs));
            tunnel.cavein_free_streak = 0;
        },
        CaveIn::SnuffedLight => {
            tunnel.luminosity = max_of(tunnel.luminosity - SNUFFED_LIGHT_LOSS, 0);
            tunnel.cavein_free_streak = 0;
        },
        CaveIn::CrackedHat => {
            tunnel.hard_hat_charges = max_of(tunnel.hard_hat_charges - 1, 0);
            tunnel.cavein_free_streak = 0;
        },
        _ => {
            tunnel.cavein_free_streak = 0;
        },
    }
    assert(tunnel@ =~= tunnel_after_cave_in(old(tunnel)@, cave_in@));
}

/// Applies a cave-in to a staged snapshot, adds a spilled row to the rows that
/// the dig burns, and returns the name of what was lost.
pub fn apply_cave_in(
    staged: &mut DigRuntimeSnapshot,
    consumed_item_ids: &mut Vec<i64>,
    cave_in: &CaveIn,
) -> (lost: String)
    requires
        cave_in_fits(old(staged)@, cave_in@),
    ensures
        final(staged)@ == snapshot_after_cave_in(old(staged)@, cave_in@),
        final(consumed_item_ids)@ == burnt_after_cave_in(
            old(consumed_item_ids)@,
            old(staged)@,
            cave_in@,
        ),
        lost@ == lost_item(old(staged)@, cave_in@),
        final(staged)@.tunnel matches Some(tunnel) ==> hinders_as(tunnel.injury_state, cave_in@),
{
    let ghost before = staged@;
    let mut lost = String::new();
    match staged.tunnel.take() {
        Some(taken) => {
            let mut tunnel = taken;
            hurt_tunnel(&mut tunnel, cave_in);
            staged.tunnel = Some(tunnel);
        },
        None => {},
    }
    match cave_in {
        CaveIn::Catastrophic { gear, .. } => {
            staged.gear = gear.clone();
        },
        CaveIn::GearNick { gear, .. } => {
            staged.gear = gear.clone();
        },
        CaveIn::SpilledSatchel { index, known_name } => {
            let ghost rows = staged.inventory@;
            let item = staged.inventory.remove(*index);
            consumed_item_ids.push(item.id);
            lost = match known_name {
                Some(name) => name.clone(),
                None => item.item_type,
            };
            assert(staged@.inventory =~= before.inventory.remove(*index as int));
        },
        _ => {},
    }
    assert(staged@ =~= snapshot_after_cave_in(before, cave_in@));
    lost
}

/// The amount in a message, or its placeholder while nothing was paid.
pub open spec fn paid_text(medical_cost: i64) -> Seq<char> {
    if medical_cost > 0 {
        int_text(medical_cost as int)
    } else {
        "{jc_lost}"@
    }
}

/// The message of a cave-in.
pub open spec fn cave_in_message(
    cave_in: CaveInView,
    cave_loss: i64,
    lost: Seq<char>,
    medical_cost: i64,
) -> Seq<char> {
    let blocks = int_text(cave_loss as int);
    match cave_in {
        CaveInView::Cushioned => "Cave-in! Your grappling line snapped taut and absorbed the impact."@,
        CaveInView::Catastrophic { total_loss, stun_digs, insurance_saved, .. } => {
            "CATASTROPHIC CAVE-IN! Tunnel folds in on itself. Lost "@ + int_text(total_loss as int)
                + " blocks, paid "@ + paid_text(medical_cost) + " JC, stunned for "@ + int_text(
                stun_digs as int,
            ) + " digs, gear shattered."@ + (if insurance_saved {
                " Insurance held the depth."@
            } else {
                ""@
            })
        },
        CaveInView::Stun { .. } => "Cave-in! Lost "@ + blocks + " blocks and you're stunned."@,
        CaveInView::Injury { digs } => "Cave-in! Lost "@ + blocks
            + " blocks and you're injured (reduced digging for "@ + int_text(digs as int)
            + " digs)."@,
        CaveInView::MedicalBill => "Cave-in! Lost "@ + blocks + " blocks and paid "@ + paid_text(
            medical_cost,
        ) + " JC in medical bills."@,
        CaveInView::GearNick { .. } => "Cave-in! Lost "@ + blocks
            + " blocks. Gear took a beating."@,
        CaveInView::SpilledSatchel { .. } => "Cave-in! Lost "@ + blocks + " blocks. Your "@ + lost
            + " spills into the dark."@,
        CaveInView::SnuffedLight => "Cave-in! Lost "@ + blocks + " blocks. The dark presses in."@,
        CaveInView::CrackedHat => "Cave-in! Lost "@ + blocks
            + " blocks. Your hard hat takes a chunk out of itself."@,
    }
}

/// The name of a cave-in.
pub open spec fn cave_in_type(cave_in: CaveInView) -> Seq<char> {
    match cave_in {
        CaveInView::Cushioned => "cushioned"@,
        CaveInView::Catastrophic { .. } => "catastrophic"@,
        CaveInView::Stun { .. } => "stun"@,
        CaveInView::Injury { .. } => "injury"@,
        CaveInView::MedicalBill => "medical_bill"@,
        CaveInView::GearNick { .. } => "gear_nick"@,
        CaveInView::SpilledSatchel { .. } => "spilled_satchel"@,
        CaveInView::SnuffedLight => "snuffed_light"@,
        CaveInView::CrackedHat => "cracked_hat"@,
    }
}

/// The blocks that a cave-in reports as lost.
pub open spec fn reported_loss(cave_in: CaveInView, cave_loss: i64) -> i64 {
    match cave_in {
        CaveInView::Cushioned => 0,
        CaveInView::Catastrophic { total_loss, .. } => total_loss,
        _ => cave_loss,
    }
}

/// The fields that only one kind of cave-in reports.
pub open spec fn with_particulars(tree: JsonView, cave_in: CaveInView, lost: Seq<char>)
    -> JsonView {
    match cave_in {
        CaveInView::Catastrophic { stun_digs, depth_after, insurance_saved, gear_broken, .. } => {
            tree.with("stun_digs"@, JsonView::Int(stun_digs)).with(
                "depth_after"@,
                JsonView::Int(depth_after),
            ).with("insurance_saved"@, JsonView::Bool(insurance_saved)).with(
                "gear_broken"@,
                text_array(gear_broken),
            )
        },
        CaveInView::MedicalBill => tree.with("jc_lost"@, JsonView::Text("{jc_lost}"@)),
        CaveInView::GearNick { gear_broken, .. } => tree.with(
            "gear_broken"@,
            text_array(gear_broken),
        ),
        CaveInView::SpilledSatchel { .. } => tree.with("item_lost"@, JsonView::Text(lost)),
        _ => tree,
    }
}

/// How a cave-in is told. A medical cost that was paid replaces the placeholder.
pub open spec fn cave_in_tree(
    cave_in: CaveInView,
    cave_loss: i64,
    lost: Seq<char>,
    medical_cost: i64,
) -> JsonView {
    let tree = with_particulars(
        object().with("type"@, JsonView::Text(cave_in_type(cave_in))).with(
            "block_loss"@,
            JsonView::Int(reported_loss(cave_in, cave_loss)),
        ),
        cave_in,
        lost,
    ).with("message"@, JsonView::Text(cave_in_message(cave_in, cave_loss, lost, medical_cost)));
    if medical_cost > 0 {
        tree.with("jc_lost"@, JsonView::Int(medical_cost))
    } else {
        tree
    }
}

fn paid_amount(medical_cost: i64) -> (text: String)
    ensures
        text@ == paid_text(medical_cost),
{
    if medical_cost > 0 {
        integer_text(medical_cost)
    } else {
        "{jc_lost}".to_owned()
    }
}

fn tell_cave_in(cave_in: &CaveIn, cave_loss: i64, lost: &str, medical_cost: i64) -> (message: String)
    ensures
        message@ == cave_in_message(cave_in@, cave_loss, lost@, medical_cost),
{
    let count = integer_text(cave_loss);
    let blocks = count.as_str();
    match cave_in {
        CaveIn::Cushioned => {
            "Cave-in! Your grappling line snapped taut and absorbed the impact.".to_owned()
        },
        CaveIn::Catastrophic { total_loss, stun_digs, insurance_saved, .. } => {
            let start = join5(
                "CATASTROPHIC CAVE-IN! Tunnel folds in on itself. Lost ",
                integer_text(*total_loss).as_str(),
                " blocks, paid ",
                paid_amount(medical_cost).as_str(),
                " JC, stunned for ",
            );
            let ending = if *insurance_saved {
                " Insurance held the depth."
            } else {
                ""
            };
            let whole = join3(
                start.as_str(),
                integer_text(*stun_digs).as_str(),
                " digs, gear shattered.",
            );
            join2(whole.as_str(), ending)
        },
        CaveIn::Stun { .. } => join3("Cave-in! Lost ", blocks, " blocks and you're stunned."),
        CaveIn::Injury { digs } => join5(
            "Cave-in! Lost ",
            blocks,
            " blocks and you're injured (reduced digging for ",
            integer_text(*digs).as_str(),
            " digs).",
        ),
        CaveIn::MedicalBill => join5(
            "Cave-in! Lost ",
            blocks,
            " blocks and paid ",
            paid_amount(medical_cost).as_str(),
            " JC in medical bills.",
        ),
        CaveIn::GearNick { .. } => join3("Cave-in! Lost ", blocks, " blocks. Gear took a beating."),
        CaveIn::SpilledSatchel { .. } => join5(
            "Cave-in! Lost ",
            blocks,
            " blocks. Your ",
            lost,
            " spills into the dark.",
        ),
        CaveIn::SnuffedLight => join3("Cave-in! Lost ", blocks, " blocks. The dark presses in."),
        CaveIn::CrackedHat => join3(
            "Cave-in! Lost ",
            blocks,
            " blocks. Your hard hat takes a chunk out of itself.",
        ),
    }
}

fn name_cave_in(cave_in: &CaveIn) -> (name: &'static str)
    ensures
        name@ == cave_in_type(cave_in@),
{
    match cave_in {
        CaveIn::Cushioned => "cushioned",
        CaveIn::Catastrophic { .. } => "catastrophic",
        CaveIn::Stun { .. } => "stun",
        CaveIn::Injury { .. } => "injury",
        CaveIn::MedicalBill => "medical_bill",
        CaveIn::GearNick { .. } => "gear_nick",
        CaveIn::SpilledSatchel { .. } => "spilled_satchel",
        CaveIn::SnuffedLight => "snuffed_light",
        CaveIn::CrackedHat => "cracked_hat",
    }
}

/// Tells a cave-in.
pub fn cave_in_detail(cave_in: &CaveIn, cave_loss: i64, lost: &str, medical_cost: i64) -> (tree:
    Json)
    ensures
        tree@ == cave_in_tree(cave_in@, cave_loss, lost@, medical_cost),
{
    let mut tree = Json::empty_object();
    tree.set("type", Json::from_text(name_cave_in(cave_in)));
    let loss = match cave_in {
        CaveIn::Cushioned => 0,
        CaveIn::Catastrophic { total_loss, .. } => *total_loss,
        _ => cave_loss,
    };
    tree.set("block_loss", Json::from_i64(loss));
    match cave_in {
        CaveIn::Catastrophic { stun_digs, depth_after, insurance_saved, gear_broken, .. } => {
            tree.set("stun_digs", Json::from_i64(*stun_digs));
            tree.set("depth_after", Json::from_i64(*depth_after));
            tree.set("insurance_saved", Json::Bool(*insurance_saved));
            tree.set("gear_broken", Json::from_texts(gear_broken));
        },
        CaveIn::MedicalBill => {
            tree.set("jc_lost", Json::from_text("{jc_lost}"));
        },
        CaveIn::GearNick { gear_broken, .. } => {
            tree.set("gear_broken", Json::from_texts(gear_broken));
        },
        CaveIn::SpilledSatchel { .. } => {
            tree.set("item_lost", Json::from_text(lost));
        },
        _ => {},
    }
    let message = tell_cave_in(cave_in, cave_loss, lost, medical_cost);
    tree.set("message", Json::Text(message));
    if medical_cost > 0 {
        tree.set("jc_lost", Json::from_i64(medical_cost));
    }
    tree
}

/// A grappling hook that takes the fall costs no block, and a reinforced tunnel
/// without the finest pickaxe loses at most eight.
pub proof fn law_protection_limits_the_loss(
    reduced: i64,
    reinforced: bool,
    rubble_reward: i64,
    gamblers_charm: bool,
    grappling_charges: i64,
    pickaxe_tier: i64,
)
    ensures
        ({
            let settled = settled_loss(
                staked_loss(reduced, reinforced),
                rubble_reward,
                gamblers_charm,
                grappling_charges,
                pickaxe_tier,
            );
            &&& grappling_charges > 0 ==> settled.loss == 0
            &&& reinforced ==> settled.loss <= REINFORCED_LOSS_CAP
            &&& reduced >= 0 && rubble_reward >= 0 ==> settled.loss >= 0 && settled.reward
                >= rubble_reward
        }),
{
}

/// Every cave-in but a cushioned one ends the run without cave-ins, and none
/// touches the wallet or the depth of the tunnel by itself.
pub proof fn law_cave_in_leaves_wallet_and_depth(snapshot: SnapshotView, cave_in: CaveInView)
    requires
        snapshot.tunnel is Some,
    ensures
        snapshot_after_cave_in(snapshot, cave_in).balance == snapshot.balance,
        snapshot_after_cave_in(snapshot, cave_in).tunnel->0.depth == snapshot.tunnel->0.depth,
        !(cave_in is Cushioned) ==> snapshot_after_cave_in(
            snapshot,
            cave_in,
        ).tunnel->0.cavein_free_streak == 0,
{
}

} // verus!
