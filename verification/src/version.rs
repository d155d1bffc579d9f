//! The version of a snapshot: the fields that a commit compares before it
//! replaces the stored state, and the fingerprints of everything else.

use crate::snapshot::{
    ArtifactView, DigRuntimeArtifact, DigRuntimeGear, DigRuntimeInventoryItem, DigRuntimeSnapshot,
    DigRuntimeTunnel, GearView, ItemView, SnapshotView, TunnelView,
};
use std::collections::hash_map::DefaultHasher;
use std::hash::Hasher;
use vstd::bytes::*;
use vstd::prelude::*;
use vstd::std_specs::hash::*;
use vstd::string::*;
use vstd::utf8::*;

verus! {

/// Version fields used to reject duplicate clicks and stale views.
#[derive(Clone, Copy, Debug, PartialEq, Eq, Structural)]
pub struct DigRuntimeVersion {
    pub balance: i64,
    pub depth: Option<i64>,
    pub total_digs: Option<i64>,
    pub last_dig_at: Option<i64>,
    pub inventory_fingerprint: u64,
    pub artifact_fingerprint: u64,
    pub gear_fingerprint: u64,
    pub tunnel_fingerprint: u64,
}

/// What hashing an integer writes.
pub open spec fn int_writes(value: i64) -> Seq<Seq<u8>> {
    seq![spec_u64_to_le_bytes(value as u64)]
}

/// What hashing a flag writes.
pub open spec fn flag_writes(flag: bool) -> Seq<Seq<u8>> {
    seq![
        seq![
            if flag {
                1u8
            } else {
                0u8
            },
        ],
    ]
}

/// What hashing a text writes: its bytes and a byte that no text holds.
pub open spec fn text_writes(text: Seq<char>) -> Seq<Seq<u8>> {
    seq![encode_utf8(text), seq![255u8]]
}

/// What hashing an optional integer writes.
pub open spec fn optional_int_writes(value: Option<i64>) -> Seq<Seq<u8>> {
    match value {
        Some(value) => seq![spec_u64_to_le_bytes(1), spec_u64_to_le_bytes(value as u64)],
        None => seq![spec_u64_to_le_bytes(0)],
    }
}

/// What hashing an optional text writes.
pub open spec fn optional_text_writes(text: Option<Seq<char>>) -> Seq<Seq<u8>> {
    match text {
        Some(text) => seq![spec_u64_to_le_bytes(1), encode_utf8(text), seq![255u8]],
        None => seq![spec_u64_to_le_bytes(0)],
    }
}

fn write_word(state: &mut DefaultHasher, word: u64)
    ensures
        final(state)@ == old(state)@ + seq![spec_u64_to_le_bytes(word)],
{
    let bytes = u64_to_le_bytes(word);
    state.write(bytes.as_slice());
    assert(state@ =~= old(state)@ + seq![spec_u64_to_le_bytes(word)]);
}

fn write_byte(state: &mut DefaultHasher, byte: u8)
    ensures
        final(state)@ == old(state)@ + seq![seq![byte]],
{
    let mut bytes: Vec<u8> = Vec::new();
    bytes.push(byte);
    state.write(bytes.as_slice());
    assert(bytes@ =~= seq![byte]);
    assert(state@ =~= old(state)@ + seq![seq![byte]]);
}

fn write_int(state: &mut DefaultHasher, value: i64)
    ensures
        final(state)@ == old(state)@ + int_writes(value),
{
    write_word(state, value as u64);
}

fn write_flag(state: &mut DefaultHasher, flag: bool)
    ensures
        final(state)@ == old(state)@ + flag_writes(flag),
{
    write_byte(
        state,
        if flag {
            1
        } else {
            0
        },
    );
}

fn write_text(state: &mut DefaultHasher, text: &str)
    ensures
        final(state)@ == old(state)@ + text_writes(text@),
{
    state.write(text.as_bytes());
    write_byte(state, 255);
    assert(state@ =~= old(state)@ + text_writes(text@));
}

fn write_optional_int(state: &mut DefaultHasher, value: Option<i64>)
    ensures
        final(state)@ == old(state)@ + optional_int_writes(value),
{
    match value {
        Some(value) => {
            write_word(state, 1);
            write_int(state, value);
        },
        None => {
            write_word(state, 0);
        },
    }
    assert(state@ =~= old(state)@ + optional_int_writes(value));
}

fn write_optional_text(state: &mut DefaultHasher, text: &Option<String>)
    ensures
        final(state)@ == old(state)@ + optional_text_writes(crate::text::text_view(*text)),
{
    match text {
        Some(text) => {
            write_word(state, 1);
            write_text(state, text.as_str());
        },
        None => {
            write_word(state, 0);
        },
    }
    assert(state@ =~= old(state)@ + optional_text_writes(crate::text::text_view(*text)));
}

/// What hashing an inventory row writes.
pub open spec fn item_writes(row: ItemView) -> Seq<Seq<u8>> {
    Seq::<Seq<u8>>::empty()
        + int_writes(row.id)
        + text_writes(row.item_type)
        + flag_writes(row.queued)
}

/// What hashing an artifact row writes.
pub open spec fn artifact_writes(row: ArtifactView) -> Seq<Seq<u8>> {
    Seq::<Seq<u8>>::empty()
        + int_writes(row.id)
        + text_writes(row.artifact_id)
        + flag_writes(row.is_relic)
        + flag_writes(row.equipped)
}

/// What hashing a gear row writes.
pub open spec fn gear_writes(row: GearView) -> Seq<Seq<u8>> {
    Seq::<Seq<u8>>::empty()
        + int_writes(row.id)
        + text_writes(row.slot)
        + int_writes(row.tier)
        + int_writes(row.durability)
        + flag_writes(row.equipped)
        + int_writes(row.acquired_at)
        + text_writes(row.source)
        + optional_text_writes(row.item_id)
}

/// What hashing a tunnel writes.
pub open spec fn tunnel_writes(row: TunnelView) -> Seq<Seq<u8>> {
    Seq::<Seq<u8>>::empty()
        + int_writes(row.discord_id)
        + int_writes(row.guild_id)
        + int_writes(row.depth)
        + int_writes(row.max_depth)
        + int_writes(row.total_digs)
        + int_writes(row.total_jc_earned)
        + optional_int_writes(row.last_dig_at)
        + int_writes(row.luminosity)
        + text_writes(row.tunnel_name)
        + int_writes(row.prestige_level)
        + text_writes(row.prestige_perks)
        + text_writes(row.boss_progress)
        + text_writes(row.boss_attempts)
        + optional_text_writes(row.route_state)
        + optional_text_writes(row.injury_state)
        + int_writes(row.hard_hat_charges)
        + int_writes(row.reinforced_until)
        + int_writes(row.void_bait_digs)
        + flag_writes(row.sonar_skip_pending)
        + optional_text_writes(row.temp_buffs)
        + optional_text_writes(row.temp_curses)
        + int_writes(row.stat_strength)
        + int_writes(row.stat_smarts)
        + int_writes(row.stat_stamina)
        + int_writes(row.stat_points)
        + int_writes(row.paid_digs_today)
        + optional_text_writes(row.paid_dig_date)
        + int_writes(row.pickaxe_tier)
        + int_writes(row.current_run_jc)
        + int_writes(row.current_run_artifacts)
        + int_writes(row.current_run_events)
        + int_writes(row.best_run_score)
        + int_writes(row.total_prestige_score)
        + int_writes(row.streak_days)
        + optional_text_writes(row.streak_last_date)
        + flag_writes(row.auto_buy_torch)
        + flag_writes(row.auto_buy_hard_hat)
        + flag_writes(row.trap_active)
        + flag_writes(row.trap_free_today)
        + optional_text_writes(row.trap_date)
        + optional_int_writes(row.insured_until)
        + optional_int_writes(row.revenge_target)
        + optional_text_writes(row.revenge_type)
        + optional_int_writes(row.revenge_until)
        + optional_text_writes(row.cheer_data)
        + int_writes(row.grappling_hook_charges)
        + optional_text_writes(row.lantern_stub_date)
        + optional_text_writes(row.thick_skin_date)
        + optional_text_writes(row.mutations)
        + text_writes(row.miner_origin)
        + text_writes(row.miner_about)
        + text_writes(row.engine_mode)
        + text_writes(row.stat_boss_awards)
        + optional_text_writes(row.stinger_curse)
        + optional_int_writes(row.last_lum_update_at)
        + optional_text_writes(row.pinnacle_boss_id)
        + int_writes(row.pinnacle_phase)
        + optional_int_writes(row.pinnacle_hp_remaining)
        + optional_int_writes(row.pinnacle_last_engaged_at)
        + optional_int_writes(row.retreat_cooldown_until)
        + optional_int_writes(row.last_cheer_at)
        + int_writes(row.cavein_free_streak)
        + flag_writes(row.relic_trim_notice)
}

fn write_item(state: &mut DefaultHasher, row: &DigRuntimeInventoryItem)
    ensures
        final(state)@ == old(state)@ + item_writes(row@),
{
    write_int(state, row.id);
    write_text(state, row.item_type.as_str());
    write_flag(state, row.queued);
    assert(state@ =~= old(state)@ + item_writes(row@));
}

fn write_artifact(state: &mut DefaultHasher, row: &DigRuntimeArtifact)
    ensures
        final(state)@ == old(state)@ + artifact_writes(row@),
{
    write_int(state, row.id);
    write_text(state, row.artifact_id.as_str());
    write_flag(state, row.is_relic);
    write_flag(state, row.equipped);
    assert(state@ =~= old(state)@ + artifact_writes(row@));
}

fn write_gear(state: &mut DefaultHasher, row: &DigRuntimeGear)
    ensures
        final(state)@ == old(state)@ + gear_writes(row@),
{
    write_int(state, row.id);
    write_text(state, row.slot.as_str());
    write_int(state, row.tier);
    write_int(state, row.durability);
    write_flag(state, row.equipped);
    write_int(state, row.acquired_at);
    write_text(state, row.source.as_str());
    write_optional_text(state, &row.item_id);
    assert(state@ =~= old(state)@ + gear_writes(row@));
}

fn write_tunnel(state: &mut DefaultHasher, row: &DigRuntimeTunnel)
    requires
        old(state)@ == Seq::<Seq<u8>>::empty(),
    ensures
        final(state)@ == tunnel_writes(row@),
{
    write_int(state, row.discord_id);
    write_int(state, row.guild_id);
    write_int(state, row.depth);
    write_int(state, row.max_depth);
    write_int(state, row.total_digs);
    write_int(state, row.total_jc_earned);
    write_optional_int(state, row.last_dig_at);
    write_int(state, row.luminosity);
    write_text(state, row.tunnel_name.as_str());
    write_int(state, row.prestige_level);
    write_text(state, row.prestige_perks.as_str());
    write_text(state, row.boss_progress.as_str());
    write_text(state, row.boss_attempts.as_str());
    write_optional_text(state, &row.route_state);
    write_optional_text(state, &row.injury_state);
    write_int(state, row.hard_hat_charges);
    write_int(state, row.reinforced_until);
    write_int(state, row.void_bait_digs);
    write_flag(state, row.sonar_skip_pending);
    write_optional_text(state, &row.temp_buffs);
    write_optional_text(state, &row.temp_curses);
    write_int(state, row.stat_strength);
    write_int(state, row.stat_smarts);
    write_int(state, row.stat_stamina);
    write_int(state, row.stat_points);
    write_int(state, row.paid_digs_today);
    write_optional_text(state, &row.paid_dig_date);
    write_int(state, row.pickaxe_tier);
    write_int(state, row.current_run_jc);
    write_int(state, row.current_run_artifacts);
    write_int(state, row.current_run_events);
    write_int(state, row.best_run_score);
    write_int(state, row.total_prestige_score);
    write_int(state, row.streak_days);
    write_optional_text(state, &row.streak_last_date);
    write_flag(state, row.auto_buy_torch);
    write_flag(state, row.auto_buy_hard_hat);
    write_flag(state, row.trap_active);
    write_flag(state, row.trap_free_today);
    write_optional_text(state, &row.trap_date);
    write_optional_int(state, row.insured_until);
    write_optional_int(state, row.revenge_target);
    write_optional_text(state, &row.revenge_type);
    write_optional_int(state, row.revenge_until);
    write_optional_text(state, &row.cheer_data);
    write_int(state, row.grappling_hook_charges);
    write_optional_text(state, &row.lantern_stub_date);
    write_optional_text(state, &row.thick_skin_date);
    write_optional_text(state, &row.mutations);
    write_text(state, row.miner_origin.as_str());
    write_text(state, row.miner_about.as_str());
    write_text(state, row.engine_mode.as_str());
    write_text(state, row.stat_boss_awards.as_str());
    write_optional_text(state, &row.stinger_curse);
    write_optional_int(state, row.last_lum_update_at);
    write_optional_text(state, &row.pinnacle_boss_id);
    write_int(state, row.pinnacle_phase);
    write_optional_int(state, row.pinnacle_hp_remaining);
    write_optional_int(state, row.pinnacle_last_engaged_at);
    write_optional_int(state, row.retreat_cooldown_until);
    write_optional_int(state, row.last_cheer_at);
    write_int(state, row.cavein_free_streak);
    write_flag(state, row.relic_trim_notice);
}

/// The rows of a list, one after another.
pub open spec fn item_rows(rows: Seq<ItemView>) -> Seq<Seq<u8>>
    decreases rows.len(),
{
    if rows.len() == 0 {
        Seq::empty()
    } else {
        item_rows(rows.drop_last()) + item_writes(rows.last())
    }
}

/// A list: its length, then its rows.
pub open spec fn item_list_writes(rows: Seq<ItemView>) -> Seq<Seq<u8>> {
    seq![spec_u64_to_le_bytes(rows.len() as u64)] + item_rows(rows)
}

/// The fingerprint of the inventory rows of a snapshot.
pub open spec fn item_fingerprint(rows: Seq<ItemView>) -> u64 {
    DefaultHasher::spec_finish(item_list_writes(rows))
}

fn fingerprint_item(rows: &Vec<DigRuntimeInventoryItem>) -> (fingerprint: u64)
    ensures
        fingerprint == item_fingerprint(rows@.map_values(|x: DigRuntimeInventoryItem| x@)),
{
    let ghost views = rows@.map_values(|x: DigRuntimeInventoryItem| x@);
    let mut state = DefaultHasher::new();
    write_word(&mut state, rows.len() as u64);
    let mut i: usize = 0;
    while i < rows.len()
        invariant
            i <= rows.len(),
            views == rows@.map_values(|x: DigRuntimeInventoryItem| x@),
            state@ == seq![spec_u64_to_le_bytes(rows.len() as u64)] + item_rows(
                views.subrange(0, i as int),
            ),
        decreases rows.len() - i,
    {
        write_item(&mut state, &rows[i]);
        proof {
            let next = views.subrange(0, i + 1);
            assert(next.drop_last() =~= views.subrange(0, i as int));
            assert(next.last() == rows[i as int]@);
            assert(state@ =~= seq![spec_u64_to_le_bytes(rows.len() as u64)] + item_rows(next));
        }
        i = i + 1;
    }
    assert(views.subrange(0, i as int) =~= views);
    state.finish()
}

/// The rows of a list, one after another.
pub open spec fn artifact_rows(rows: Seq<ArtifactView>) -> Seq<Seq<u8>>
    decreases rows.len(),
{
    if rows.len() == 0 {
        Seq::empty()
    } else {
        artifact_rows(rows.drop_last()) + artifact_writes(rows.last())
    }
}

/// A list: its length, then its rows.
pub open spec fn artifact_list_writes(rows: Seq<ArtifactView>) -> Seq<Seq<u8>> {
    seq![spec_u64_to_le_bytes(rows.len() as u64)] + artifact_rows(rows)
}

/// The fingerprint of the artifacts of a snapshot.
pub open spec fn artifact_fingerprint(rows: Seq<ArtifactView>) -> u64 {
    DefaultHasher::spec_finish(artifact_list_writes(rows))
}

fn fingerprint_artifact(rows: &Vec<DigRuntimeArtifact>) -> (fingerprint: u64)
    ensures
        fingerprint == artifact_fingerprint(rows@.map_values(|x: DigRuntimeArtifact| x@)),
{
    let ghost views = rows@.map_values(|x: DigRuntimeArtifact| x@);
    let mut state = DefaultHasher::new();
    write_word(&mut state, rows.len() as u64);
    let mut i: usize = 0;
    while i < rows.len()
        invariant
            i <= rows.len(),
            views == rows@.map_values(|x: DigRuntimeArtifact| x@),
            state@ == seq![spec_u64_to_le_bytes(rows.len() as u64)] + artifact_rows(
                views.subrange(0, i as int),
            ),
        decreases rows.len() - i,
    {
        write_artifact(&mut state, &rows[i]);
        proof {
            let next = views.subrange(0, i + 1);
            assert(next.drop_last() =~= views.subrange(0, i as int));
            assert(next.last() == rows[i as int]@);
            assert(state@ =~= seq![spec_u64_to_le_bytes(rows.len() as u64)] + artifact_rows(next));
        }
        i = i + 1;
    }
    assert(views.subrange(0, i as int) =~= views);
    state.finish()
}

/// The rows of a list, one after another.
pub open spec fn gear_rows(rows: Seq<GearView>) -> Seq<Seq<u8>>
    decreases rows.len(),
{
    if rows.len() == 0 {
        Seq::empty()
    } else {
        gear_rows(rows.drop_last()) + gear_writes(rows.last())
    }
}

/// A list: its length, then its rows.
pub open spec fn gear_list_writes(rows: Seq<GearView>) -> Seq<Seq<u8>> {
    seq![spec_u64_to_le_bytes(rows.len() as u64)] + gear_rows(rows)
}

/// The fingerprint of the gear of a snapshot.
pub open spec fn gear_fingerprint(rows: Seq<GearView>) -> u64 {
    DefaultHasher::spec_finish(gear_list_writes(rows))
}

fn fingerprint_gear(rows: &Vec<DigRuntimeGear>) -> (fingerprint: u64)
    ensures
        fingerprint == gear_fingerprint(rows@.map_values(|x: DigRuntimeGear| x@)),
{
    let ghost views = rows@.map_values(|x: DigRuntimeGear| x@);
    let mut state = DefaultHasher::new();
    write_word(&mut state, rows.len() as u64);
    let mut i: usize = 0;
    while i < rows.len()
        invariant
            i <= rows.len(),
            views == rows@.map_values(|x: DigRuntimeGear| x@),
            state@ == seq![spec_u64_to_le_bytes(rows.len() as u64)] + gear_rows(
                views.subrange(0, i as int),
            ),
        decreases rows.len() - i,
    {
        write_gear(&mut state, &rows[i]);
        proof {
            let next = views.subrange(0, i + 1);
            assert(next.drop_last() =~= views.subrange(0, i as int));
            assert(next.last() == rows[i as int]@);
            assert(state@ =~= seq![spec_u64_to_le_bytes(rows.len() as u64)] + gear_rows(next));
        }
        i = i + 1;
    }
    assert(views.subrange(0, i as int) =~= views);
    state.finish()
}

/// The fingerprint of an optional tunnel, a missing one being zero.
pub open spec fn tunnel_fingerprint(tunnel: Option<TunnelView>) -> u64 {
    match tunnel {
        Some(tunnel) => DefaultHasher::spec_finish(tunnel_writes(tunnel)),
        None => 0,
    }
}

/// The version of a snapshot.
pub open spec fn version_of(snapshot: SnapshotView) -> DigRuntimeVersion {
    DigRuntimeVersion {
        balance: snapshot.balance,
        depth: match snapshot.tunnel {
            Some(tunnel) => Some(tunnel.depth),
            None => None,
        },
        total_digs: match snapshot.tunnel {
            Some(tunnel) => Some(tunnel.total_digs),
            None => None,
        },
        last_dig_at: match snapshot.tunnel {
            Some(tunnel) => tunnel.last_dig_at,
            None => None,
        },
        inventory_fingerprint: item_fingerprint(snapshot.inventory),
        artifact_fingerprint: artifact_fingerprint(snapshot.artifacts),
        gear_fingerprint: gear_fingerprint(snapshot.gear),
        tunnel_fingerprint: tunnel_fingerprint(snapshot.tunnel),
    }
}

fn fingerprint_tunnel(tunnel: &DigRuntimeTunnel) -> (fingerprint: u64)
    ensures
        fingerprint == DefaultHasher::spec_finish(tunnel_writes(tunnel@)),
{
    let mut state = DefaultHasher::new();
    write_tunnel(&mut state, tunnel);
    state.finish()
}

impl DigRuntimeVersion {
    /// Reads the version of a snapshot.
    pub fn of(snapshot: &DigRuntimeSnapshot) -> (version: DigRuntimeVersion)
        ensures
            version == version_of(snapshot@),
    {
        let (depth, total_digs, last_dig_at, tunnel_fingerprint) = match &snapshot.tunnel {
            Some(tunnel) => (
                Some(tunnel.depth),
                Some(tunnel.total_digs),
                tunnel.last_dig_at,
                fingerprint_tunnel(tunnel),
            ),
            None => (None, None, None, 0),
        };
        DigRuntimeVersion {
            balance: snapshot.balance,
            depth,
            total_digs,
            last_dig_at,
            inventory_fingerprint: fingerprint_item(&snapshot.inventory),
            artifact_fingerprint: fingerprint_artifact(&snapshot.artifacts),
            gear_fingerprint: fingerprint_gear(&snapshot.gear),
            tunnel_fingerprint,
        }
    }
}

impl vstd::std_specs::convert::FromSpecImpl<&DigRuntimeSnapshot> for DigRuntimeVersion {
    open spec fn obeys_from_spec() -> bool {
        true
    }

    open spec fn from_spec(snapshot: &DigRuntimeSnapshot) -> DigRuntimeVersion {
        version_of(snapshot@)
    }
}

impl From<&DigRuntimeSnapshot> for DigRuntimeVersion {
    fn from(snapshot: &DigRuntimeSnapshot) -> (version: DigRuntimeVersion) {
        DigRuntimeVersion::of(snapshot)
    }
}

} // verus!
