//! Laws on versions: what is written into a fingerprint tells rows apart.

use crate::snapshot::{ArtifactView, GearView, ItemView, SnapshotView, TunnelView};
use crate::version::{
    artifact_list_writes, artifact_rows, artifact_writes, flag_writes, gear_list_writes, gear_rows,
    gear_writes, int_writes, item_list_writes, item_rows, item_writes, optional_int_writes,
    optional_text_writes, text_writes, tunnel_writes, version_of,
};
use std::collections::hash_map::DefaultHasher;
use vstd::bytes::{lemma_auto_spec_u64_to_from_le_bytes, spec_u64_to_le_bytes};
use vstd::prelude::*;
use vstd::std_specs::hash::DefaultHasherAdditionalSpecFns;
use vstd::utf8::{encode_utf8, encode_utf8_decode_utf8};

verus! {

proof fn lemma_word(x: u64, y: u64)
    ensures
        spec_u64_to_le_bytes(x) == spec_u64_to_le_bytes(y) ==> x == y,
        spec_u64_to_le_bytes(x).len() == 8,
{
    lemma_auto_spec_u64_to_from_le_bytes();
}

proof fn lemma_int(x: i64, y: i64)
    ensures
        spec_u64_to_le_bytes(x as u64) == spec_u64_to_le_bytes(y as u64) ==> x == y,
{
    lemma_word(x as u64, y as u64);
    assert(x as u64 == y as u64 ==> x == y) by (bit_vector);
}

proof fn lemma_text(x: Seq<char>, y: Seq<char>)
    ensures
        encode_utf8(x) == encode_utf8(y) ==> x == y,
{
    encode_utf8_decode_utf8(x);
    encode_utf8_decode_utf8(y);
}

/// What is left behind a first part of the same length is the same.
proof fn lemma_rest(x: Seq<Seq<u8>>, r: Seq<Seq<u8>>, y: Seq<Seq<u8>>, s: Seq<Seq<u8>>)
    requires
        x + r == y + s,
        x.len() == y.len(),
    ensures
        x == y,
        r == s,
{
    assert((x + r).subrange(0, x.len() as int) =~= x);
    assert((y + s).subrange(0, y.len() as int) =~= y);
    assert((x + r).subrange(x.len() as int, (x + r).len() as int) =~= r);
    assert((y + s).subrange(y.len() as int, (y + s).len() as int) =~= s);
}

proof fn lemma_int_first(x: i64, r: Seq<Seq<u8>>, y: i64, s: Seq<Seq<u8>>)
    requires
        int_writes(x) + r == int_writes(y) + s,
    ensures
        x == y,
        r == s,
{
    lemma_rest(int_writes(x), r, int_writes(y), s);
    assert(int_writes(x)[0] == int_writes(y)[0]);
    lemma_int(x, y);
}

proof fn lemma_flag_first(x: bool, r: Seq<Seq<u8>>, y: bool, s: Seq<Seq<u8>>)
    requires
        flag_writes(x) + r == flag_writes(y) + s,
    ensures
        x == y,
        r == s,
{
    lemma_rest(flag_writes(x), r, flag_writes(y), s);
    assert(flag_writes(x)[0][0] == flag_writes(y)[0][0]);
}

proof fn lemma_text_first(x: Seq<char>, r: Seq<Seq<u8>>, y: Seq<char>, s: Seq<Seq<u8>>)
    requires
        text_writes(x) + r == text_writes(y) + s,
    ensures
        x == y,
        r == s,
{
    lemma_rest(text_writes(x), r, text_writes(y), s);
    assert(text_writes(x)[0] == text_writes(y)[0]);
    lemma_text(x, y);
}

proof fn lemma_optional_int_first(
    x: Option<i64>,
    r: Seq<Seq<u8>>,
    y: Option<i64>,
    s: Seq<Seq<u8>>,
)
    requires
        optional_int_writes(x) + r == optional_int_writes(y) + s,
    ensures
        x == y,
        r == s,
{
    assert((optional_int_writes(x) + r)[0] == (optional_int_writes(y) + s)[0]);
    lemma_word(0, 1);
    lemma_rest(optional_int_writes(x), r, optional_int_writes(y), s);
    if x is Some {
        assert(optional_int_writes(x)[1] == optional_int_writes(y)[1]);
        lemma_int(x->0, y->0);
    }
}

proof fn lemma_optional_text_first(
    x: Option<Seq<char>>,
    r: Seq<Seq<u8>>,
    y: Option<Seq<char>>,
    s: Seq<Seq<u8>>,
)
    requires
        optional_text_writes(x) + r == optional_text_writes(y) + s,
    ensures
        x == y,
        r == s,
{
    assert((optional_text_writes(x) + r)[0] == (optional_text_writes(y) + s)[0]);
    lemma_word(0, 1);
    lemma_rest(optional_text_writes(x), r, optional_text_writes(y), s);
    if x is Some {
        assert(optional_text_writes(x)[1] == optional_text_writes(y)[1]);
        lemma_text(x->0, y->0);
    }
}

proof fn lemma_shift(p: Seq<Seq<u8>>, w: Seq<Seq<u8>>, t: Seq<Seq<u8>>)
    ensures
        (p + w) + t == p + (w + t),
{
    assert((p + w) + t =~= p + (w + t));
}

/// What a row writes, the first column in front.
spec fn item_columns(row: ItemView, after: Seq<Seq<u8>>) -> Seq<Seq<u8>> {
    let t3 = flag_writes(row.queued) + after;
    let t2 = text_writes(row.item_type) + t3;
    int_writes(row.id) + t2
}

proof fn lemma_item_columns(row: ItemView, after: Seq<Seq<u8>>)
    ensures
        item_writes(row) + after == item_columns(row, after),
{
    let p0 = Seq::<Seq<u8>>::empty();
    let p1 = p0 + int_writes(row.id);
    let p2 = p1 + text_writes(row.item_type);
    let p3 = p2 + flag_writes(row.queued);
    let t3 = flag_writes(row.queued) + after;
    lemma_shift(p2, flag_writes(row.queued), after);
    let t2 = text_writes(row.item_type) + t3;
    lemma_shift(p1, text_writes(row.item_type), t3);
    let t1 = int_writes(row.id) + t2;
    lemma_shift(p0, int_writes(row.id), t2);
    assert(p0 + t1 =~= t1);
}

proof fn lemma_item_first(a: ItemView, r: Seq<Seq<u8>>, b: ItemView, s: Seq<Seq<u8>>)
    requires
        item_writes(a) + r == item_writes(b) + s,
    ensures
        a == b,
        r == s,
{
    lemma_item_columns(a, r);
    lemma_item_columns(b, s);
    let a3 = flag_writes(a.queued) + r;
    let a2 = text_writes(a.item_type) + a3;
    let b3 = flag_writes(b.queued) + s;
    let b2 = text_writes(b.item_type) + b3;
    lemma_int_first(a.id, a2, b.id, b2);
    lemma_text_first(a.item_type, a3, b.item_type, b3);
    lemma_flag_first(a.queued, r, b.queued, s);
}

/// What a row writes, the first column in front.
spec fn artifact_columns(row: ArtifactView, after: Seq<Seq<u8>>) -> Seq<Seq<u8>> {
    let t4 = flag_writes(row.equipped) + after;
    let t3 = flag_writes(row.is_relic) + t4;
    let t2 = text_writes(row.artifact_id) + t3;
    int_writes(row.id) + t2
}

proof fn lemma_artifact_columns(row: ArtifactView, after: Seq<Seq<u8>>)
    ensures
        artifact_writes(row) + after == artifact_columns(row, after),
{
    let p0 = Seq::<Seq<u8>>::empty();
    let p1 = p0 + int_writes(row.id);
    let p2 = p1 + text_writes(row.artifact_id);
    let p3 = p2 + flag_writes(row.is_relic);
    let p4 = p3 + flag_writes(row.equipped);
    let t4 = flag_writes(row.equipped) + after;
    lemma_shift(p3, flag_writes(row.equipped), after);
    let t3 = flag_writes(row.is_relic) + t4;
    lemma_shift(p2, flag_writes(row.is_relic), t4);
    let t2 = text_writes(row.artifact_id) + t3;
    lemma_shift(p1, text_writes(row.artifact_id), t3);
    let t1 = int_writes(row.id) + t2;
    lemma_shift(p0, int_writes(row.id), t2);
    assert(p0 + t1 =~= t1);
}

proof fn lemma_artifact_first(a: ArtifactView, r: Seq<Seq<u8>>, b: ArtifactView, s: Seq<Seq<u8>>)
    requires
        artifact_writes(a) + r == artifact_writes(b) + s,
    ensures
        a == b,
        r == s,
{
    lemma_artifact_columns(a, r);
    lemma_artifact_columns(b, s);
    let a4 = flag_writes(a.equipped) + r;
    let a3 = flag_writes(a.is_relic) + a4;
    let a2 = text_writes(a.artifact_id) + a3;
    let b4 = flag_writes(b.equipped) + s;
    let b3 = flag_writes(b.is_relic) + b4;
    let b2 = text_writes(b.artifact_id) + b3;
    lemma_int_first(a.id, a2, b.id, b2);
    lemma_text_first(a.artifact_id, a3, b.artifact_id, b3);
    lemma_flag_first(a.is_relic, a4, b.is_relic, b4);
    lemma_flag_first(a.equipped, r, b.equipped, s);
}

/// What a row writes, the first column in front.
spec fn gear_columns(row: GearView, after: Seq<Seq<u8>>) -> Seq<Seq<u8>> {
    let t8 = optional_text_writes(row.item_id) + after;
    let t7 = text_writes(row.source) + t8;
    let t6 = int_writes(row.acquired_at) + t7;
    let t5 = flag_writes(row.equipped) + t6;
    let t4 = int_writes(row.durability) + t5;
    let t3 = int_writes(row.tier) + t4;
    let t2 = text_writes(row.slot) + t3;
    int_writes(row.id) + t2
}

proof fn lemma_gear_columns(row: GearView, after: Seq<Seq<u8>>)
    ensures
        gear_writes(row) + after == gear_columns(row, after),
{
    let p0 = Seq::<Seq<u8>>::empty();
    let p1 = p0 + int_writes(row.id);
    let p2 = p1 + text_writes(row.slot);
    let p3 = p2 + int_writes(row.tier);
    let p4 = p3 + int_writes(row.durability);
    let p5 = p4 + flag_writes(row.equipped);
    let p6 = p5 + int_writes(row.acquired_at);
    let p7 = p6 + text_writes(row.source);
    let p8 = p7 + optional_text_writes(row.item_id);
    let t8 = optional_text_writes(row.item_id) + after;
    lemma_shift(p7, optional_text_writes(row.item_id), after);
    let t7 = text_writes(row.source) + t8;
    lemma_shift(p6, text_writes(row.source), t8);
    let t6 = int_writes(row.acquired_at) + t7;
    lemma_shift(p5, int_writes(row.acquired_at), t7);
    let t5 = flag_writes(row.equipped) + t6;
    lemma_shift(p4, flag_writes(row.equipped), t6);
    let t4 = int_writes(row.durability) + t5;
    lemma_shift(p3, int_writes(row.durability), t5);
    let t3 = int_writes(row.tier) + t4;
    lemma_shift(p2, int_writes(row.tier), t4);
    let t2 = text_writes(row.slot) + t3;
    lemma_shift(p1, text_writes(row.slot), t3);
    let t1 = int_writes(row.id) + t2;
    lemma_shift(p0, int_writes(row.id), t2);
    assert(p0 + t1 =~= t1);
}

proof fn lemma_gear_first(a: GearView, r: Seq<Seq<u8>>, b: GearView, s: Seq<Seq<u8>>)
    requires
        gear_writes(a) + r == gear_writes(b) + s,
    ensures
        a == b,
        r == s,
{
    lemma_gear_columns(a, r);
    lemma_gear_columns(b, s);
    let a8 = optional_text_writes(a.item_id) + r;
    let a7 = text_writes(a.source) + a8;
    let a6 = int_writes(a.acquired_at) + a7;
    let a5 = flag_writes(a.equipped) + a6;
    let a4 = int_writes(a.durability) + a5;
    let a3 = int_writes(a.tier) + a4;
    let a2 = text_writes(a.slot) + a3;
    let b8 = optional_text_writes(b.item_id) + s;
    let b7 = text_writes(b.source) + b8;
    let b6 = int_writes(b.acquired_at) + b7;
    let b5 = flag_writes(b.equipped) + b6;
    let b4 = int_writes(b.durability) + b5;
    let b3 = int_writes(b.tier) + b4;
    let b2 = text_writes(b.slot) + b3;
    lemma_int_first(a.id, a2, b.id, b2);
    lemma_text_first(a.slot, a3, b.slot, b3);
    lemma_int_first(a.tier, a4, b.tier, b4);
    lemma_int_first(a.durability, a5, b.durability, b5);
    lemma_flag_first(a.equipped, a6, b.equipped, b6);
    lemma_int_first(a.acquired_at, a7, b.acquired_at, b7);
    lemma_text_first(a.source, a8, b.source, b8);
    lemma_optional_text_first(a.item_id, r, b.item_id, s);
}

/// What a row writes, the first column in front.
spec fn tunnel_columns(row: TunnelView, after: Seq<Seq<u8>>) -> Seq<Seq<u8>> {
    let t63 = flag_writes(row.relic_trim_notice) + after;
    let t62 = int_writes(row.cavein_free_streak) + t63;
    let t61 = optional_int_writes(row.last_cheer_at) + t62;
    let t60 = optional_int_writes(row.retreat_cooldown_until) + t61;
    let t59 = optional_int_writes(row.pinnacle_last_engaged_at) + t60;
    let t58 = optional_int_writes(row.pinnacle_hp_remaining) + t59;
    let t57 = int_writes(row.pinnacle_phase) + t58;
    let t56 = optional_text_writes(row.pinnacle_boss_id) + t57;
    let t55 = optional_int_writes(row.last_lum_update_at) + t56;
    let t54 = optional_text_writes(row.stinger_curse) + t55;
    let t53 = text_writes(row.stat_boss_awards) + t54;
    let t52 = text_writes(row.engine_mode) + t53;
    let t51 = text_writes(row.miner_about) + t52;
    let t50 = text_writes(row.miner_origin) + t51;
    let t49 = optional_text_writes(row.mutations) + t50;
    let t48 = optional_text_writes(row.thick_skin_date) + t49;
    let t47 = optional_text_writes(row.lantern_stub_date) + t48;
    let t46 = int_writes(row.grappling_hook_charges) + t47;
    let t45 = optional_text_writes(row.cheer_data) + t46;
    let t44 = optional_int_writes(row.revenge_until) + t45;
    let t43 = optional_text_writes(row.revenge_type) + t44;
    let t42 = optional_int_writes(row.revenge_target) + t43;
    let t41 = optional_int_writes(row.insured_until) + t42;
    let t40 = optional_text_writes(row.trap_date) + t41;
    let t39 = flag_writes(row.trap_free_today) + t40;
    let t38 = flag_writes(row.trap_active) + t39;
    let t37 = flag_writes(row.auto_buy_hard_hat) + t38;
    let t36 = flag_writes(row.auto_buy_torch) + t37;
    let t35 = optional_text_writes(row.streak_last_date) + t36;
    let t34 = int_writes(row.streak_days) + t35;
    let t33 = int_writes(row.total_prestige_score) + t34;
    let t32 = int_writes(row.best_run_score) + t33;
    let t31 = int_writes(row.current_run_events) + t32;
    let t30 = int_writes(row.current_run_artifacts) + t31;
    let t29 = int_writes(row.current_run_jc) + t30;
    let t28 = int_writes(row.pickaxe_tier) + t29;
    let t27 = optional_text_writes(row.paid_dig_date) + t28;
    let t26 = int_writes(row.paid_digs_today) + t27;
    let t25 = int_writes(row.stat_points) + t26;
    let t24 = int_writes(row.stat_stamina) + t25;
    let t23 = int_writes(row.stat_smarts) + t24;
    let t22 = int_writes(row.stat_strength) + t23;
    let t21 = optional_text_writes(row.temp_curses) + t22;
    let t20 = optional_text_writes(row.temp_buffs) + t21;
    let t19 = flag_writes(row.sonar_skip_pending) + t20;
    let t18 = int_writes(row.void_bait_digs) + t19;
    let t17 = int_writes(row.reinforced_until) + t18;
    let t16 = int_writes(row.hard_hat_charges) + t17;
    let t15 = optional_text_writes(row.injury_state) + t16;
    let t14 = optional_text_writes(row.route_state) + t15;
    let t13 = text_writes(row.boss_attempts) + t14;
    let t12 = text_writes(row.boss_progress) + t13;
    let t11 = text_writes(row.prestige_perks) + t12;
    let t10 = int_writes(row.prestige_level) + t11;
    let t9 = text_writes(row.tunnel_name) + t10;
    let t8 = int_writes(row.luminosity) + t9;
    let t7 = optional_int_writes(row.last_dig_at) + t8;
    let t6 = int_writes(row.total_jc_earned) + t7;
    let t5 = int_writes(row.total_digs) + t6;
    let t4 = int_writes(row.max_depth) + t5;
    let t3 = int_writes(row.depth) + t4;
    let t2 = int_writes(row.guild_id) + t3;
    int_writes(row.discord_id) + t2
}

#[verifier::rlimit(60)]
proof fn lemma_tunnel_columns(row: TunnelView, after: Seq<Seq<u8>>)
    ensures
        tunnel_writes(row) + after == tunnel_columns(row, after),
{
    let p0 = Seq::<Seq<u8>>::empty();
    let p1 = p0 + int_writes(row.discord_id);
    let p2 = p1 + int_writes(row.guild_id);
    let p3 = p2 + int_writes(row.depth);
    let p4 = p3 + int_writes(row.max_depth);
    let p5 = p4 + int_writes(row.total_digs);
    let p6 = p5 + int_writes(row.total_jc_earned);
    let p7 = p6 + optional_int_writes(row.last_dig_at);
    let p8 = p7 + int_writes(row.luminosity);
    let p9 = p8 + text_writes(row.tunnel_name);
    let p10 = p9 + int_writes(row.prestige_level);
    let p11 = p10 + text_writes(row.prestige_perks);
    let p12 = p11 + text_writes(row.boss_progress);
    let p13 = p12 + text_writes(row.boss_attempts);
    let p14 = p13 + optional_text_writes(row.route_state);
    let p15 = p14 + optional_text_writes(row.injury_state);
    let p16 = p15 + int_writes(row.hard_hat_charges);
    let p17 = p16 + int_writes(row.reinforced_until);
    let p18 = p17 + int_writes(row.void_bait_digs);
    let p19 = p18 + flag_writes(row.sonar_skip_pending);
    let p20 = p19 + optional_text_writes(row.temp_buffs);
    let p21 = p20 + optional_text_writes(row.temp_curses);
    let p22 = p21 + int_writes(row.stat_strength);
    let p23 = p22 + int_writes(row.stat_smarts);
    let p24 = p23 + int_writes(row.stat_stamina);
    let p25 = p24 + int_writes(row.stat_points);
    let p26 = p25 + int_writes(row.paid_digs_today);
    let p27 = p26 + optional_text_writes(row.paid_dig_date);
    let p28 = p27 + int_writes(row.pickaxe_tier);
    let p29 = p28 + int_writes(row.current_run_jc);
    let p30 = p29 + int_writes(row.current_run_artifacts);
    let p31 = p30 + int_writes(row.current_run_events);
    let p32 = p31 + int_writes(row.best_run_score);
    let p33 = p32 + int_writes(row.total_prestige_score);
    let p34 = p33 + int_writes(row.streak_days);
    let p35 = p34 + optional_text_writes(row.streak_last_date);
    let p36 = p35 + flag_writes(row.auto_buy_torch);
    let p37 = p36 + flag_writes(row.auto_buy_hard_hat);
    let p38 = p37 + flag_writes(row.trap_active);
    let p39 = p38 + flag_writes(row.trap_free_today);
    let p40 = p39 + optional_text_writes(row.trap_date);
    let p41 = p40 + optional_int_writes(row.insured_until);
    let p42 = p41 + optional_int_writes(row.revenge_target);
    let p43 = p42 + optional_text_writes(row.revenge_type);
    let p44 = p43 + optional_int_writes(row.revenge_until);
    let p45 = p44 + optional_text_writes(row.cheer_data);
    let p46 = p45 + int_writes(row.grappling_hook_charges);
    let p47 = p46 + optional_text_writes(row.lantern_stub_date);
    let p48 = p47 + optional_text_writes(row.thick_skin_date);
    let p49 = p48 + optional_text_writes(row.mutations);
    let p50 = p49 + text_writes(row.miner_origin);
    let p51 = p50 + text_writes(row.miner_about);
    let p52 = p51 + text_writes(row.engine_mode);
    let p53 = p52 + text_writes(row.stat_boss_awards);
    let p54 = p53 + optional_text_writes(row.stinger_curse);
    let p55 = p54 + optional_int_writes(row.last_lum_update_at);
    let p56 = p55 + optional_text_writes(row.pinnacle_boss_id);
    let p57 = p56 + int_writes(row.pinnacle_phase);
    let p58 = p57 + optional_int_writes(row.pinnacle_hp_remaining);
    let p59 = p58 + optional_int_writes(row.pinnacle_last_engaged_at);
    let p60 = p59 + optional_int_writes(row.retreat_cooldown_until);
    let p61 = p60 + optional_int_writes(row.last_cheer_at);
    let p62 = p61 + int_writes(row.cavein_free_streak);
    let p63 = p62 + flag_writes(row.relic_trim_notice);
    let t63 = flag_writes(row.relic_trim_notice) + after;
    lemma_shift(p62, flag_writes(row.relic_trim_notice), after);
    let t62 = int_writes(row.cavein_free_streak) + t63;
    lemma_shift(p61, int_writes(row.cavein_free_streak), t63);
    let t61 = optional_int_writes(row.last_cheer_at) + t62;
    lemma_shift(p60, optional_int_writes(row.last_cheer_at), t62);
    let t60 = optional_int_writes(row.retreat_cooldown_until) + t61;
    lemma_shift(p59, optional_int_writes(row.retreat_cooldown_until), t61);
    let t59 = optional_int_writes(row.pinnacle_last_engaged_at) + t60;
    lemma_shift(p58, optional_int_writes(row.pinnacle_last_engaged_at), t60);
    let t58 = optional_int_writes(row.pinnacle_hp_remaining) + t59;
    lemma_shift(p57, optional_int_writes(row.pinnacle_hp_remaining), t59);
    let t57 = int_writes(row.pinnacle_phase) + t58;
    lemma_shift(p56, int_writes(row.pinnacle_phase), t58);
    let t56 = optional_text_writes(row.pinnacle_boss_id) + t57;
    lemma_shift(p55, optional_text_writes(row.pinnacle_boss_id), t57);
    let t55 = optional_int_writes(row.last_lum_update_at) + t56;
    lemma_shift(p54, optional_int_writes(row.last_lum_update_at), t56);
    let t54 = optional_text_writes(row.stinger_curse) + t55;
    lemma_shift(p53, optional_text_writes(row.stinger_curse), t55);
    let t53 = text_writes(row.stat_boss_awards) + t54;
    lemma_shift(p52, text_writes(row.stat_boss_awards), t54);
    let t52 = text_writes(row.engine_mode) + t53;
    lemma_shift(p51, text_writes(row.engine_mode), t53);
    let t51 = text_writes(row.miner_about) + t52;
    lemma_shift(p50, text_writes(row.miner_about), t52);
    let t50 = text_writes(row.miner_origin) + t51;
    lemma_shift(p49, text_writes(row.miner_origin), t51);
    let t49 = optional_text_writes(row.mutations) + t50;
    lemma_shift(p48, optional_text_writes(row.mutations), t50);
    let t48 = optional_text_writes(row.thick_skin_date) + t49;
    lemma_shift(p47, optional_text_writes(row.thick_skin_date), t49);
    let t47 = optional_text_writes(row.lantern_stub_date) + t48;
    lemma_shift(p46, optional_text_writes(row.lantern_stub_date), t48);
    let t46 = int_writes(row.grappling_hook_charges) + t47;
    lemma_shift(p45, int_writes(row.grappling_hook_charges), t47);
    let t45 = optional_text_writes(row.cheer_data) + t46;
    lemma_shift(p44, optional_text_writes(row.cheer_data), t46);
    let t44 = optional_int_writes(row.revenge_until) + t45;
    lemma_shift(p43, optional_int_writes(row.revenge_until), t45);
    let t43 = optional_text_writes(row.revenge_type) + t44;
    lemma_shift(p42, optional_text_writes(row.revenge_type), t44);
    let t42 = optional_int_writes(row.revenge_target) + t43;
    lemma_shift(p41, optional_int_writes(row.revenge_target), t43);
    let t41 = optional_int_writes(row.insured_until) + t42;
    lemma_shift(p40, optional_int_writes(row.insured_until), t42);
    let t40 = optional_text_writes(row.trap_date) + t41;
    lemma_shift(p39, optional_text_writes(row.trap_date), t41);
    let t39 = flag_writes(row.trap_free_today) + t40;
    lemma_shift(p38, flag_writes(row.trap_free_today), t40);
    let t38 = flag_writes(row.trap_active) + t39;
    lemma_shift(p37, flag_writes(row.trap_active), t39);
    let t37 = flag_writes(row.auto_buy_hard_hat) + t38;
    lemma_shift(p36, flag_writes(row.auto_buy_hard_hat), t38);
    let t36 = flag_writes(row.auto_buy_torch) + t37;
    lemma_shift(p35, flag_writes(row.auto_buy_torch), t37);
    let t35 = optional_text_writes(row.streak_last_date) + t36;
    lemma_shift(p34, optional_text_writes(row.streak_last_date), t36);
    let t34 = int_writes(row.streak_days) + t35;
    lemma_shift(p33, int_writes(row.streak_days), t35);
    let t33 = int_writes(row.total_prestige_score) + t34;
    lemma_shift(p32, int_writes(row.total_prestige_score), t34);
    let t32 = int_writes(row.best_run_score) + t33;
    lemma_shift(p31, int_writes(row.best_run_score), t33);
    let t31 = int_writes(row.current_run_events) + t32;
    lemma_shift(p30, int_writes(row.current_run_events), t32);
    let t30 = int_writes(row.current_run_artifacts) + t31;
    lemma_shift(p29, int_writes(row.current_run_artifacts), t31);
    let t29 = int_writes(row.current_run_jc) + t30;
    lemma_shift(p28, int_writes(row.current_run_jc), t30);
    let t28 = int_writes(row.pickaxe_tier) + t29;
    lemma_shift(p27, int_writes(row.pickaxe_tier), t29);
    let t27 = optional_text_writes(row.paid_dig_date) + t28;
    lemma_shift(p26, optional_text_writes(row.paid_dig_date), t28);
    let t26 = int_writes(row.paid_digs_today) + t27;
    lemma_shift(p25, int_writes(row.paid_digs_today), t27);
    let t25 = int_writes(row.stat_points) + t26;
    lemma_shift(p24, int_writes(row.stat_points), t26);
    let t24 = int_writes(row.stat_stamina) + t25;
    lemma_shift(p23, int_writes(row.stat_stamina), t25);
    let t23 = int_writes(row.stat_smarts) + t24;
    lemma_shift(p22, int_writes(row.stat_smarts), t24);
    let t22 = int_writes(row.stat_strength) + t23;
    lemma_shift(p21, int_writes(row.stat_strength), t23);
    let t21 = optional_text_writes(row.temp_curses) + t22;
    lemma_shift(p20, optional_text_writes(row.temp_curses), t22);
    let t20 = optional_text_writes(row.temp_buffs) + t21;
    lemma_shift(p19, optional_text_writes(row.temp_buffs), t21);
    let t19 = flag_writes(row.sonar_skip_pending) + t20;
    lemma_shift(p18, flag_writes(row.sonar_skip_pending), t20);
    let t18 = int_writes(row.void_bait_digs) + t19;
    lemma_shift(p17, int_writes(row.void_bait_digs), t19);
    let t17 = int_writes(row.reinforced_until) + t18;
    lemma_shift(p16, int_writes(row.reinforced_until), t18);
    let t16 = int_writes(row.hard_hat_charges) + t17;
    lemma_shift(p15, int_writes(row.hard_hat_charges), t17);
    let t15 = optional_text_writes(row.injury_state) + t16;
    lemma_shift(p14, optional_text_writes(row.injury_state), t16);
    let t14 = optional_text_writes(row.route_state) + t15;
    lemma_shift(p13, optional_text_writes(row.route_state), t15);
    let t13 = text_writes(row.boss_attempts) + t14;
    lemma_shift(p12, text_writes(row.boss_attempts), t14);
    let t12 = text_writes(row.boss_progress) + t13;
    lemma_shift(p11, text_writes(row.boss_progress), t13);
    let t11 = text_writes(row.prestige_perks) + t12;
    lemma_shift(p10, text_writes(row.prestige_perks), t12);
    let t10 = int_writes(row.prestige_level) + t11;
    lemma_shift(p9, int_writes(row.prestige_level), t11);
    let t9 = text_writes(row.tunnel_name) + t10;
    lemma_shift(p8, text_writes(row.tunnel_name), t10);
    let t8 = int_writes(row.luminosity) + t9;
    lemma_shift(p7, int_writes(row.luminosity), t9);
    let t7 = optional_int_writes(row.last_dig_at) + t8;
    lemma_shift(p6, optional_int_writes(row.last_dig_at), t8);
    let t6 = int_writes(row.total_jc_earned) + t7;
    lemma_shift(p5, int_writes(row.total_jc_earned), t7);
    let t5 = int_writes(row.total_digs) + t6;
    lemma_shift(p4, int_writes(row.total_digs), t6);
    let t4 = int_writes(row.max_depth) + t5;
    lemma_shift(p3, int_writes(row.max_depth), t5);
    let t3 = int_writes(row.depth) + t4;
    lemma_shift(p2, int_writes(row.depth), t4);
    let t2 = int_writes(row.guild_id) + t3;
    lemma_shift(p1, int_writes(row.guild_id), t3);
    let t1 = int_writes(row.discord_id) + t2;
    lemma_shift(p0, int_writes(row.discord_id), t2);
    assert(p0 + t1 =~= t1);
}

#[verifier::rlimit(60)]
proof fn lemma_tunnel_first(a: TunnelView, r: Seq<Seq<u8>>, b: TunnelView, s: Seq<Seq<u8>>)
    requires
        tunnel_writes(a) + r == tunnel_writes(b) + s,
    ensures
        a == b,
        r == s,
{
    lemma_tunnel_columns(a, r);
    lemma_tunnel_columns(b, s);
    let a63 = flag_writes(a.relic_trim_notice) + r;
    let a62 = int_writes(a.cavein_free_streak) + a63;
    let a61 = optional_int_writes(a.last_cheer_at) + a62;
    let a60 = optional_int_writes(a.retreat_cooldown_until) + a61;
    let a59 = optional_int_writes(a.pinnacle_last_engaged_at) + a60;
    let a58 = optional_int_writes(a.pinnacle_hp_remaining) + a59;
    let a57 = int_writes(a.pinnacle_phase) + a58;
    let a56 = optional_text_writes(a.pinnacle_boss_id) + a57;
    let a55 = optional_int_writes(a.last_lum_update_at) + a56;
    let a54 = optional_text_writes(a.stinger_curse) + a55;
    let a53 = text_writes(a.stat_boss_awards) + a54;
    let a52 = text_writes(a.engine_mode) + a53;
    let a51 = text_writes(a.miner_about) + a52;
    let a50 = text_writes(a.miner_origin) + a51;
    let a49 = optional_text_writes(a.mutations) + a50;
    let a48 = optional_text_writes(a.thick_skin_date) + a49;
    let a47 = optional_text_writes(a.lantern_stub_date) + a48;
    let a46 = int_writes(a.grappling_hook_charges) + a47;
    let a45 = optional_text_writes(a.cheer_data) + a46;
    let a44 = optional_int_writes(a.revenge_until) + a45;
    let a43 = optional_text_writes(a.revenge_type) + a44;
    let a42 = optional_int_writes(a.revenge_target) + a43;
    let a41 = optional_int_writes(a.insured_until) + a42;
    let a40 = optional_text_writes(a.trap_date) + a41;
    let a39 = flag_writes(a.trap_free_today) + a40;
    let a38 = flag_writes(a.trap_active) + a39;
    let a37 = flag_writes(a.auto_buy_hard_hat) + a38;
    let a36 = flag_writes(a.auto_buy_torch) + a37;
    let a35 = optional_text_writes(a.streak_last_date) + a36;
    let a34 = int_writes(a.streak_days) + a35;
    let a33 = int_writes(a.total_prestige_score) + a34;
    let a32 = int_writes(a.best_run_score) + a33;
    let a31 = int_writes(a.current_run_events) + a32;
    let a30 = int_writes(a.current_run_artifacts) + a31;
    let a29 = int_writes(a.current_run_jc) + a30;
    let a28 = int_writes(a.pickaxe_tier) + a29;
    let a27 = optional_text_writes(a.paid_dig_date) + a28;
    let a26 = int_writes(a.paid_digs_today) + a27;
    let a25 = int_writes(a.stat_points) + a26;
    let a24 = int_writes(a.stat_stamina) + a25;
    let a23 = int_writes(a.stat_smarts) + a24;
    let a22 = int_writes(a.stat_strength) + a23;
    let a21 = optional_text_writes(a.temp_curses) + a22;
    let a20 = optional_text_writes(a.temp_buffs) + a21;
    let a19 = flag_writes(a.sonar_skip_pending) + a20;
    let a18 = int_writes(a.void_bait_digs) + a19;
    let a17 = int_writes(a.reinforced_until) + a18;
    let a16 = int_writes(a.hard_hat_charges) + a17;
    let a15 = optional_text_writes(a.injury_state) + a16;
    let a14 = optional_text_writes(a.route_state) + a15;
    let a13 = text_writes(a.boss_attempts) + a14;
    let a12 = text_writes(a.boss_progress) + a13;
    let a11 = text_writes(a.prestige_perks) + a12;
    let a10 = int_writes(a.prestige_level) + a11;
    let a9 = text_writes(a.tunnel_name) + a10;
    let a8 = int_writes(a.luminosity) + a9;
    let a7 = optional_int_writes(a.last_dig_at) + a8;
    let a6 = int_writes(a.total_jc_earned) + a7;
    let a5 = int_writes(a.total_digs) + a6;
    let a4 = int_writes(a.max_depth) + a5;
    let a3 = int_writes(a.depth) + a4;
    let a2 = int_writes(a.guild_id) + a3;
    let b63 = flag_writes(b.relic_trim_notice) + s;
    let b62 = int_writes(b.cavein_free_streak) + b63;
    let b61 = optional_int_writes(b.last_cheer_at) + b62;
    let b60 = optional_int_writes(b.retreat_cooldown_until) + b61;
    let b59 = optional_int_writes(b.pinnacle_last_engaged_at) + b60;
    let b58 = optional_int_writes(b.pinnacle_hp_remaining) + b59;
    let b57 = int_writes(b.pinnacle_phase) + b58;
    let b56 = optional_text_writes(b.pinnacle_boss_id) + b57;
    let b55 = optional_int_writes(b.last_lum_update_at) + b56;
    let b54 = optional_text_writes(b.stinger_curse) + b55;
    let b53 = text_writes(b.stat_boss_awards) + b54;
    let b52 = text_writes(b.engine_mode) + b53;
    let b51 = text_writes(b.miner_about) + b52;
    let b50 = text_writes(b.miner_origin) + b51;
    let b49 = optional_text_writes(b.mutations) + b50;
    let b48 = optional_text_writes(b.thick_skin_date) + b49;
    let b47 = optional_text_writes(b.lantern_stub_date) + b48;
    let b46 = int_writes(b.grappling_hook_charges) + b47;
    let b45 = optional_text_writes(b.cheer_data) + b46;
    let b44 = optional_int_writes(b.revenge_until) + b45;
    let b43 = optional_text_writes(b.revenge_type) + b44;
    let b42 = optional_int_writes(b.revenge_target) + b43;
    let b41 = optional_int_writes(b.insured_until) + b42;
    let b40 = optional_text_writes(b.trap_date) + b41;
    let b39 = flag_writes(b.trap_free_today) + b40;
    let b38 = flag_writes(b.trap_active) + b39;
    let b37 = flag_writes(b.auto_buy_hard_hat) + b38;
    let b36 = flag_writes(b.auto_buy_torch) + b37;
    let b35 = optional_text_writes(b.streak_last_date) + b36;
    let b34 = int_writes(b.streak_days) + b35;
    let b33 = int_writes(b.total_prestige_score) + b34;
    let b32 = int_writes(b.best_run_score) + b33;
    let b31 = int_writes(b.current_run_events) + b32;
    let b30 = int_writes(b.current_run_artifacts) + b31;
    let b29 = int_writes(b.current_run_jc) + b30;
    let b28 = int_writes(b.pickaxe_tier) + b29;
    let b27 = optional_text_writes(b.paid_dig_date) + b28;
    let b26 = int_writes(b.paid_digs_today) + b27;
    let b25 = int_writes(b.stat_points) + b26;
    let b24 = int_writes(b.stat_stamina) + b25;
    let b23 = int_writes(b.stat_smarts) + b24;
    let b22 = int_writes(b.stat_strength) + b23;
    let b21 = optional_text_writes(b.temp_curses) + b22;
    let b20 = optional_text_writes(b.temp_buffs) + b21;
    let b19 = flag_writes(b.sonar_skip_pending) + b20;
    let b18 = int_writes(b.void_bait_digs) + b19;
    let b17 = int_writes(b.reinforced_until) + b18;
    let b16 = int_writes(b.hard_hat_charges) + b17;
    let b15 = optional_text_writes(b.injury_state) + b16;
    let b14 = optional_text_writes(b.route_state) + b15;
    let b13 = text_writes(b.boss_attempts) + b14;
    let b12 = text_writes(b.boss_progress) + b13;
    let b11 = text_writes(b.prestige_perks) + b12;
    let b10 = int_writes(b.prestige_level) + b11;
    let b9 = text_writes(b.tunnel_name) + b10;
    let b8 = int_writes(b.luminosity) + b9;
    let b7 = optional_int_writes(b.last_dig_at) + b8;
    let b6 = int_writes(b.total_jc_earned) + b7;
    let b5 = int_writes(b.total_digs) + b6;
    let b4 = int_writes(b.max_depth) + b5;
    let b3 = int_writes(b.depth) + b4;
    let b2 = int_writes(b.guild_id) + b3;
    lemma_int_first(a.discord_id, a2, b.discord_id, b2);
    lemma_int_first(a.guild_id, a3, b.guild_id, b3);
    lemma_int_first(a.depth, a4, b.depth, b4);
    lemma_int_first(a.max_depth, a5, b.max_depth, b5);
    lemma_int_first(a.total_digs, a6, b.total_digs, b6);
    lemma_int_first(a.total_jc_earned, a7, b.total_jc_earned, b7);
    lemma_optional_int_first(a.last_dig_at, a8, b.last_dig_at, b8);
    lemma_int_first(a.luminosity, a9, b.luminosity, b9);
    lemma_text_first(a.tunnel_name, a10, b.tunnel_name, b10);
    lemma_int_first(a.prestige_level, a11, b.prestige_level, b11);
    lemma_text_first(a.prestige_perks, a12, b.prestige_perks, b12);
    lemma_text_first(a.boss_progress, a13, b.boss_progress, b13);
    lemma_text_first(a.boss_attempts, a14, b.boss_attempts, b14);
    lemma_optional_text_first(a.route_state, a15, b.route_state, b15);
    lemma_optional_text_first(a.injury_state, a16, b.injury_state, b16);
    lemma_int_first(a.hard_hat_charges, a17, b.hard_hat_charges, b17);
    lemma_int_first(a.reinforced_until, a18, b.reinforced_until, b18);
    lemma_int_first(a.void_bait_digs, a19, b.void_bait_digs, b19);
    lemma_flag_first(a.sonar_skip_pending, a20, b.sonar_skip_pending, b20);
    lemma_optional_text_first(a.temp_buffs, a21, b.temp_buffs, b21);
    lemma_optional_text_first(a.temp_curses, a22, b.temp_curses, b22);
    lemma_int_first(a.stat_strength, a23, b.stat_strength, b23);
    lemma_int_first(a.stat_smarts, a24, b.stat_smarts, b24);
    lemma_int_first(a.stat_stamina, a25, b.stat_stamina, b25);
    lemma_int_first(a.stat_points, a26, b.stat_points, b26);
    lemma_int_first(a.paid_digs_today, a27, b.paid_digs_today, b27);
    lemma_optional_text_first(a.paid_dig_date, a28, b.paid_dig_date, b28);
    lemma_int_first(a.pickaxe_tier, a29, b.pickaxe_tier, b29);
    lemma_int_first(a.current_run_jc, a30, b.current_run_jc, b30);
    lemma_int_first(a.current_run_artifacts, a31, b.current_run_artifacts, b31);
    lemma_int_first(a.current_run_events, a32, b.current_run_events, b32);
    lemma_int_first(a.best_run_score, a33, b.best_run_score, b33);
    lemma_int_first(a.total_prestige_score, a34, b.total_prestige_score, b34);
    lemma_int_first(a.streak_days, a35, b.streak_days, b35);
    lemma_optional_text_first(a.streak_last_date, a36, b.streak_last_date, b36);
    lemma_flag_first(a.auto_buy_torch, a37, b.auto_buy_torch, b37);
    lemma_flag_first(a.auto_buy_hard_hat, a38, b.auto_buy_hard_hat, b38);
    lemma_flag_first(a.trap_active, a39, b.trap_active, b39);
    lemma_flag_first(a.trap_free_today, a40, b.trap_free_today, b40);
    lemma_optional_text_first(a.trap_date, a41, b.trap_date, b41);
    lemma_optional_int_first(a.insured_until, a42, b.insured_until, b42);
    lemma_optional_int_first(a.revenge_target, a43, b.revenge_target, b43);
    lemma_optional_text_first(a.revenge_type, a44, b.revenge_type, b44);
    lemma_optional_int_first(a.revenge_until, a45, b.revenge_until, b45);
    lemma_optional_text_first(a.cheer_data, a46, b.cheer_data, b46);
    lemma_int_first(a.grappling_hook_charges, a47, b.grappling_hook_charges, b47);
    lemma_optional_text_first(a.lantern_stub_date, a48, b.lantern_stub_date, b48);
    lemma_optional_text_first(a.thick_skin_date, a49, b.thick_skin_date, b49);
    lemma_optional_text_first(a.mutations, a50, b.mutations, b50);
    lemma_text_first(a.miner_origin, a51, b.miner_origin, b51);
    lemma_text_first(a.miner_about, a52, b.miner_about, b52);
    lemma_text_first(a.engine_mode, a53, b.engine_mode, b53);
    lemma_text_first(a.stat_boss_awards, a54, b.stat_boss_awards, b54);
    lemma_optional_text_first(a.stinger_curse, a55, b.stinger_curse, b55);
    lemma_optional_int_first(a.last_lum_update_at, a56, b.last_lum_update_at, b56);
    lemma_optional_text_first(a.pinnacle_boss_id, a57, b.pinnacle_boss_id, b57);
    lemma_int_first(a.pinnacle_phase, a58, b.pinnacle_phase, b58);
    lemma_optional_int_first(a.pinnacle_hp_remaining, a59, b.pinnacle_hp_remaining, b59);
    lemma_optional_int_first(a.pinnacle_last_engaged_at, a60, b.pinnacle_last_engaged_at, b60);
    lemma_optional_int_first(a.retreat_cooldown_until, a61, b.retreat_cooldown_until, b61);
    lemma_optional_int_first(a.last_cheer_at, a62, b.last_cheer_at, b62);
    lemma_int_first(a.cavein_free_streak, a63, b.cavein_free_streak, b63);
    lemma_flag_first(a.relic_trim_notice, r, b.relic_trim_notice, s);
}

proof fn lemma_item_rows(a: Seq<ItemView>, b: Seq<ItemView>)
    requires
        item_rows(a) == item_rows(b),
        a.len() == b.len(),
    ensures
        a == b,
    decreases a.len(),
{
    if a.len() > 0 {
        let none = Seq::<Seq<u8>>::empty();
        let (x, y) = (item_rows(a.drop_last()), item_rows(b.drop_last()));
        let (v, w) = (item_writes(a.last()), item_writes(b.last()));
        assert(v.len() == 4 && w.len() == 4);
        assert((x + v).len() == (y + w).len());
        lemma_rest(x, v, y, w);
        assert(v + none =~= v && w + none =~= w);
        lemma_item_first(a.last(), none, b.last(), none);
        lemma_item_rows(a.drop_last(), b.drop_last());
        assert(a =~= a.drop_last().push(a.last()));
        assert(b =~= b.drop_last().push(b.last()));
    } else {
        assert(a =~= b);
    }
}

proof fn lemma_artifact_rows(a: Seq<ArtifactView>, b: Seq<ArtifactView>)
    requires
        artifact_rows(a) == artifact_rows(b),
        a.len() == b.len(),
    ensures
        a == b,
    decreases a.len(),
{
    if a.len() > 0 {
        let none = Seq::<Seq<u8>>::empty();
        let (x, y) = (artifact_rows(a.drop_last()), artifact_rows(b.drop_last()));
        let (v, w) = (artifact_writes(a.last()), artifact_writes(b.last()));
        assert(v.len() == 5 && w.len() == 5);
        assert((x + v).len() == (y + w).len());
        lemma_rest(x, v, y, w);
        assert(v + none =~= v && w + none =~= w);
        lemma_artifact_first(a.last(), none, b.last(), none);
        lemma_artifact_rows(a.drop_last(), b.drop_last());
        assert(a =~= a.drop_last().push(a.last()));
        assert(b =~= b.drop_last().push(b.last()));
    } else {
        assert(a =~= b);
    }
}

proof fn lemma_gear_rows(a: Seq<GearView>, b: Seq<GearView>)
    requires
        gear_rows(a) == gear_rows(b),
        a.len() == b.len(),
    ensures
        a == b,
    decreases a.len(),
{
    if a.len() > 0 {
        let none = Seq::<Seq<u8>>::empty();
        let (x, y) = (gear_rows(a.drop_last()), gear_rows(b.drop_last()));
        let (v, w) = (gear_writes(a.last()), gear_writes(b.last()));
        assert((x + v).last() == (y + w).last());
        lemma_word(0, 0);
        assert(v.last().len() == (if a.last().item_id is Some {
            1int
        } else {
            8
        }));
        assert(w.last().len() == (if b.last().item_id is Some {
            1int
        } else {
            8
        }));
        assert(v.len() == w.len());
        lemma_rest(x, v, y, w);
        assert(v + none =~= v && w + none =~= w);
        lemma_gear_first(a.last(), none, b.last(), none);
        lemma_gear_rows(a.drop_last(), b.drop_last());
        assert(a =~= a.drop_last().push(a.last()));
        assert(b =~= b.drop_last().push(b.last()));
    } else {
        assert(a =~= b);
    }
}

/// Every column of a tunnel counts: tunnels that write the same are the same.
pub proof fn law_tunnels_are_told_apart(a: TunnelView, b: TunnelView)
    requires
        tunnel_writes(a) == tunnel_writes(b),
    ensures
        a == b,
{
    let none = Seq::<Seq<u8>>::empty();
    assert(tunnel_writes(a) + none =~= tunnel_writes(a));
    assert(tunnel_writes(b) + none =~= tunnel_writes(b));
    lemma_tunnel_first(a, none, b, none);
}

/// Every column and row counts: lists of items that write the same are the same.
pub proof fn law_items_are_told_apart(a: Seq<ItemView>, b: Seq<ItemView>)
    requires
        item_list_writes(a) == item_list_writes(b),
        a.len() <= u64::MAX,
        b.len() <= u64::MAX,
    ensures
        a == b,
{
    let (x, y) = (
        seq![spec_u64_to_le_bytes(a.len() as u64)],
        seq![spec_u64_to_le_bytes(b.len() as u64)],
    );
    lemma_rest(x, item_rows(a), y, item_rows(b));
    assert(x[0] == y[0]);
    lemma_word(a.len() as u64, b.len() as u64);
    lemma_item_rows(a, b);
}

/// Every column and row counts: lists of artifacts that write the same are the same.
pub proof fn law_artifacts_are_told_apart(a: Seq<ArtifactView>, b: Seq<ArtifactView>)
    requires
        artifact_list_writes(a) == artifact_list_writes(b),
        a.len() <= u64::MAX,
        b.len() <= u64::MAX,
    ensures
        a == b,
{
    let (x, y) = (
        seq![spec_u64_to_le_bytes(a.len() as u64)],
        seq![spec_u64_to_le_bytes(b.len() as u64)],
    );
    lemma_rest(x, artifact_rows(a), y, artifact_rows(b));
    assert(x[0] == y[0]);
    lemma_word(a.len() as u64, b.len() as u64);
    lemma_artifact_rows(a, b);
}

/// Every column and row counts: lists of pieces of gear that write the same are the same.
pub proof fn law_gear_is_told_apart(a: Seq<GearView>, b: Seq<GearView>)
    requires
        gear_list_writes(a) == gear_list_writes(b),
        a.len() <= u64::MAX,
        b.len() <= u64::MAX,
    ensures
        a == b,
{
    let (x, y) = (
        seq![spec_u64_to_le_bytes(a.len() as u64)],
        seq![spec_u64_to_le_bytes(b.len() as u64)],
    );
    lemma_rest(x, gear_rows(a), y, gear_rows(b));
    assert(x[0] == y[0]);
    lemma_word(a.len() as u64, b.len() as u64);
    lemma_gear_rows(a, b);
}

/// A version shows the balance and the tunnel as they are, and a fingerprint of
/// each list and of the tunnel, made of what its own rows write.
pub proof fn law_version_shows_the_snapshot(snapshot: SnapshotView)
    ensures
        ({
            let version = version_of(snapshot);
            &&& version.balance == snapshot.balance
            &&& version.inventory_fingerprint == DefaultHasher::spec_finish(
                item_list_writes(snapshot.inventory),
            )
            &&& version.artifact_fingerprint == DefaultHasher::spec_finish(
                artifact_list_writes(snapshot.artifacts),
            )
            &&& version.gear_fingerprint == DefaultHasher::spec_finish(
                gear_list_writes(snapshot.gear),
            )
            &&& match snapshot.tunnel {
                Some(tunnel) => {
                    &&& version.depth == Some(tunnel.depth)
                    &&& version.total_digs == Some(tunnel.total_digs)
                    &&& version.last_dig_at == tunnel.last_dig_at
                    &&& version.tunnel_fingerprint == DefaultHasher::spec_finish(
                        tunnel_writes(tunnel),
                    )
                },
                None => {
                    &&& version.depth is None && version.total_digs is None
                    &&& version.last_dig_at is None && version.tunnel_fingerprint == 0
                },
            }
        }),
{
}

} // verus!
