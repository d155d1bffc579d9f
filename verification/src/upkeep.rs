//! Small steps of a dig between its larger ones.

use crate::arith::{larger, max_of, nearest, sat_add};
use crate::light::Light;
use crate::loot::{artifact_views, item_views, list_has};
use crate::preparation::{is_preparation_item, preparation_item};
use crate::settlement::{DigOutcome, StateView, TunnelState};
use crate::snapshot::{
    ArtifactView, DigRuntimeArtifact, DigRuntimeInventoryItem, DigRuntimeTunnel, ItemView,
    TunnelView,
};
use crate::text::{text_view, texts};
use vstd::prelude::*;

verus! {

/// The relics that are worn on a dig, in their order.
pub open spec fn relics_worn(artifacts: Seq<ArtifactView>) -> Seq<Seq<char>>
    decreases artifacts.len(),
{
    if artifacts.len() == 0 {
        Seq::empty()
    } else {
        let rest = relics_worn(artifacts.drop_last());
        if artifacts.last().is_relic && artifacts.last().equipped {
            rest.push(artifacts.last().artifact_id)
        } else {
            rest
        }
    }
}

/// Lists the relics that are worn on a dig.
pub fn equipped_relics(artifacts: &Vec<DigRuntimeArtifact>) -> (relics: Vec<String>)
    ensures
        texts(relics@) == relics_worn(artifact_views(artifacts@)),
{
    let ghost views = artifact_views(artifacts@);
    let mut relics: Vec<String> = Vec::new();
    assert(texts(relics@) =~= Seq::empty());
    let mut i: usize = 0;
    while i < artifacts.len()
        invariant
            i <= artifacts.len(),
            views == artifact_views(artifacts@),
            texts(relics@) == relics_worn(views.subrange(0, i as int)),
        decreases artifacts.len() - i,
    {
        proof {
            let next = views.subrange(0, i + 1);
            assert(next.drop_last() =~= views.subrange(0, i as int));
            assert(next.last() == artifacts@[i as int]@);
        }
        if artifacts[i].is_relic && artifacts[i].equipped {
            let ghost before = texts(relics@);
            relics.push(artifacts[i].artifact_id.clone());
            assert(texts(relics@) =~= before.push(artifacts@[i as int].artifact_id@));
        }
        i = i + 1;
    }
    assert(views.subrange(0, i as int) =~= views);
    relics
}

/// The rows that a dig uses up: queued items for digging. Items that are
/// prepared for a boss stay.
pub open spec fn used_rows(items: Seq<ItemView>, dig_items: Seq<Seq<char>>) -> Seq<i64>
    decreases items.len(),
{
    if items.len() == 0 {
        Seq::empty()
    } else {
        let rest = used_rows(items.drop_last(), dig_items);
        let item = items.last();
        if item.queued && dig_items.contains(item.item_type) && !preparation_item(item.item_type) {
            rest.push(item.id)
        } else {
            rest
        }
    }
}

/// Lists the rows that a dig uses up. `dig_items` are the kinds made for
/// digging.
pub fn consumed_item_ids(items: &Vec<DigRuntimeInventoryItem>, dig_items: &Vec<String>) -> (ids: Vec<
    i64,
>)
    ensures
        ids@ == used_rows(item_views(items@), texts(dig_items@)),
{
    let ghost views = item_views(items@);
    let mut ids: Vec<i64> = Vec::new();
    let mut i: usize = 0;
    while i < items.len()
        invariant
            i <= items.len(),
            views == item_views(items@),
            ids@ == used_rows(views.subrange(0, i as int), texts(dig_items@)),
        decreases items.len() - i,
    {
        proof {
            let next = views.subrange(0, i + 1);
            assert(next.drop_last() =~= views.subrange(0, i as int));
            assert(next.last() == items@[i as int]@);
        }
        let item = &items[i];
        if item.queued && list_has(dig_items, item.item_type.as_str()) && !is_preparation_item(
            item.item_type.as_str(),
        ) {
            ids.push(item.id);
        }
        i = i + 1;
    }
    assert(views.subrange(0, i as int) =~= views);
    ids
}

/// A tunnel in the light that a dig leaves.
pub open spec fn lit_tunnel(tunnel: TunnelView, light: Light, stub_date: Option<Seq<char>>)
    -> TunnelView {
    TunnelView {
        luminosity: light.level,
        lantern_stub_date: match stub_date {
            Some(date) => Some(date),
            None => tunnel.lantern_stub_date,
        },
        ..tunnel
    }
}

/// Leaves a tunnel in the light of a dig. A lantern stub that was lit notes the
/// day.
pub fn settle_light(tunnel: &mut DigRuntimeTunnel, light: Light, stub_date: Option<String>)
    ensures
        final(tunnel)@ == lit_tunnel(old(tunnel)@, light, text_view(stub_date)),
{
    tunnel.luminosity = light.level;
    match stub_date {
        Some(date) => {
            tunnel.lantern_stub_date = Some(date);
        },
        None => {},
    }
}

/// A tunnel that was reinforced. An earlier reinforcement that lasts longer
/// stays.
pub open spec fn reinforced(tunnel: TunnelView, now: i64, seconds: i64) -> TunnelView {
    TunnelView {
        reinforced_until: larger(tunnel.reinforced_until, nearest(now + seconds)),
        ..tunnel
    }
}

/// Reinforces a tunnel.
pub fn reinforce(tunnel: &mut DigRuntimeTunnel, now: i64, seconds: i64)
    ensures
        final(tunnel)@ == reinforced(old(tunnel)@, now, seconds),
{
    tunnel.reinforced_until = max_of(tunnel.reinforced_until, sat_add(now, seconds));
}

/// A digger and a dig once a catastrophic cave-in left the digger at a depth.
pub open spec fn fallen_dig(dig: (StateView, DigOutcome), depth_after: i64) -> (
    StateView,
    DigOutcome,
) {
    (
        StateView { depth: depth_after, ..dig.0 },
        DigOutcome { depth_after, advance: 0, ..dig.1 },
    )
}

/// Drops a digger to the depth that a catastrophic cave-in leaves. There is no
/// advance.
pub fn fall_to(state: &mut TunnelState, outcome: &mut DigOutcome, depth_after: i64)
    ensures
        (final(state)@, *final(outcome)) == fallen_dig((old(state)@, *old(outcome)), depth_after),
{
    state.depth = depth_after;
    outcome.depth_after = depth_after;
    outcome.advance = 0;
}

/// A digger once part of a paid dig is paid back.
pub open spec fn refunded(state: StateView, refund: i64) -> StateView {
    StateView { balance: nearest(state.balance + refund), ..state }
}

/// Pays back what a cave-in gives back of a paid dig.
pub fn credit_refund(state: &mut TunnelState, refund: i64)
    ensures
        final(state)@ == refunded(old(state)@, refund),
{
    state.balance = sat_add(state.balance, refund);
}

/// Only queued rows are used up on a dig, and never an item that waits for a
/// boss.
pub proof fn law_boss_items_outlast_digs(items: Seq<ItemView>, dig_items: Seq<Seq<char>>, i: int)
    requires
        0 <= i < used_rows(items, dig_items).len(),
    ensures
        exists|j: int|
            0 <= j < items.len() && (#[trigger] items[j]).id == used_rows(items, dig_items)[i]
                && items[j].queued && !preparation_item(items[j].item_type),
    decreases items.len(),
{
    let rest = used_rows(items.drop_last(), dig_items);
    if i < rest.len() {
        law_boss_items_outlast_digs(items.drop_last(), dig_items, i);
        let j = choose|j: int|
            0 <= j < items.drop_last().len() && (#[trigger] items.drop_last()[j]).id == rest[i]
                && items.drop_last()[j].queued && !preparation_item(items.drop_last()[j].item_type);
        assert(items[j] == items.drop_last()[j]);
    } else {
        assert(items[items.len() - 1].id == used_rows(items, dig_items)[i]);
    }
}

/// Reinforcing a tunnel never shortens how long it stays reinforced.
pub proof fn law_reinforcement_lasts(tunnel: TunnelView, now: i64, seconds: i64)
    ensures
        reinforced(tunnel, now, seconds).reinforced_until >= tunnel.reinforced_until,
        seconds > 0 && now < i64::MAX ==> reinforced(tunnel, now, seconds).reinforced_until > now,
{
}

} // verus!
