//! Tunnel light: the daily refill, the drain of one dig, and the hooks that
//! follow the drain in their fixed order.

use crate::arith::{
    clamp_to, div_toward_zero, larger, max_of, min_of, nearest, sat_add, sat_mul, sat_sub, smaller,
    toward_zero, within,
};
use crate::outcome::LUMINOSITY_MAX;
use crate::snapshot::{DigRuntimeTunnel, TunnelView};
use vstd::prelude::*;

verus! {

/// Depth at which the endgame ramp of the drain begins.
pub const LUMINOSITY_DEEP_DRAIN_START_DEPTH: i64 = 350;

/// Every this many endgame blocks add one point of drain per dig.
pub const LUMINOSITY_DEEP_DRAIN_BLOCKS_PER_STEP: i64 = 20;

/// Light regained per day without digging.
pub const LUMINOSITY_REFILL_PER_DAY: i64 = 20;

/// Seconds in a day.
pub const SECONDS_PER_DAY: i64 = 86_400;

/// Additional light that one dig costs at `depth`.
pub open spec fn deep_drain(depth: i64) -> i64 {
    if depth <= LUMINOSITY_DEEP_DRAIN_START_DEPTH {
        0
    } else {
        ((depth - LUMINOSITY_DEEP_DRAIN_START_DEPTH) / LUMINOSITY_DEEP_DRAIN_BLOCKS_PER_STEP as int) as i64
    }
}

/// Additional light that one dig costs in the deep ramp: nothing at or above
/// its start, then one point for each whole step below it.
pub fn deep_luminosity_drain_bonus(depth: i64) -> (bonus: i64)
    ensures
        bonus == deep_drain(depth),
{
    if depth <= LUMINOSITY_DEEP_DRAIN_START_DEPTH {
        0
    } else {
        (depth - LUMINOSITY_DEEP_DRAIN_START_DEPTH) / LUMINOSITY_DEEP_DRAIN_BLOCKS_PER_STEP
    }
}

/// The light that a dig at `depth` drains before any multiplier: the layer's
/// share, a quarter less with a pickaxe of tier six, and the deep ramp.
pub open spec fn drain_at(layer_drain: i64, active_pickaxe_tier: i64, depth: i64) -> i64 {
    let share = if active_pickaxe_tier >= 6 {
        nearest(layer_drain - toward_zero(layer_drain as int, 4))
    } else {
        layer_drain
    };
    nearest(share + deep_drain(depth))
}

/// Computes the drain of a dig before any multiplier.
pub fn base_luminosity_drain(layer_drain: i64, active_pickaxe_tier: i64, depth: i64) -> (drain: i64)
    ensures
        drain == drain_at(layer_drain, active_pickaxe_tier, depth),
{
    let mut share = layer_drain;
    if active_pickaxe_tier >= 6 {
        share = sat_sub(share, div_toward_zero(share, 4));
    }
    sat_add(share, deep_luminosity_drain_bonus(depth))
}

/// Light regained between the anchor of a tunnel and `now`.
pub open spec fn refill_amount(last_update: Option<i64>, now: i64) -> i64 {
    let anchor = match last_update {
        Some(at) => at,
        None => now,
    };
    let elapsed = larger(nearest(now - anchor), 0);
    (nearest(elapsed * LUMINOSITY_REFILL_PER_DAY) / SECONDS_PER_DAY) as i64
}

/// A tunnel whose light was refilled at `now`.
pub open spec fn refilled(tunnel: TunnelView, now: i64) -> TunnelView {
    TunnelView {
        luminosity: within(
            nearest(tunnel.luminosity + refill_amount(tunnel.last_lum_update_at, now)),
            0,
            LUMINOSITY_MAX,
        ),
        last_lum_update_at: Some(now),
        ..tunnel
    }
}

/// Refills the light of a tunnel up to `now` and moves its anchor there.
pub fn apply_luminosity_refill(tunnel: &mut DigRuntimeTunnel, now: i64)
    ensures
        final(tunnel)@ == refilled(old(tunnel)@, now),
{
    let last_update = match tunnel.last_lum_update_at {
        Some(at) => at,
        None => now,
    };
    let elapsed = max_of(sat_sub(now, last_update), 0);
    let refill = sat_mul(elapsed, LUMINOSITY_REFILL_PER_DAY) / SECONDS_PER_DAY;
    assert(nearest(elapsed * LUMINOSITY_REFILL_PER_DAY) >= 0);
    tunnel.luminosity = clamp_to(sat_add(tunnel.luminosity, refill), 0, LUMINOSITY_MAX);
    tunnel.last_lum_update_at = Some(now);
    assert(tunnel@ =~= refilled(old(tunnel)@, now));
}

/// The light of a tunnel during one dig, and how much of it the dig drained.
#[derive(Clone, Copy, Debug, PartialEq, Eq, Structural)]
pub struct Light {
    pub level: i64,
    pub drained: i64,
}

impl Light {
    /// Light that fell from `before` to `level`.
    pub open spec fn fallen(before: i64, level: i64) -> Light {
        Light { level, drained: larger(nearest(before - level), 0) }
    }

    /// Light after a drain, which cannot take more than there is.
    pub open spec fn drained_by(before: i64, drain: i64) -> Light {
        Light::fallen(before, larger(nearest(before - drain), 0))
    }

    /// Light after a torch is burnt.
    pub open spec fn with_torch(self, torch: bool) -> Light {
        if torch {
            Light { level: smaller((self.level + 50) as i64, LUMINOSITY_MAX), ..self }
        } else {
            self
        }
    }

    /// Light after the Spore Cloak gave back half of what was drained.
    pub open spec fn with_spore_cloak(self, worn: bool) -> Light {
        if worn && self.drained > 0 {
            let restored = (self.drained / 2) as i64;
            Light {
                level: smaller((self.level + restored) as i64, LUMINOSITY_MAX),
                drained: nearest(self.drained - restored),
            }
        } else {
            self
        }
    }

    /// Light after `amount` more is taken.
    pub open spec fn less(self, amount: i64) -> Light {
        Light {
            level: larger(nearest(self.level - amount), 0),
            drained: nearest(self.drained + amount),
        }
    }

    /// Light after an ascension or weather surcharge on what was drained.
    pub open spec fn with_surcharge(self, applies: bool, extra: i64) -> Light {
        if applies && self.drained > 0 {
            self.less(extra)
        } else {
            self
        }
    }

    /// Light after the drain of a curse.
    pub open spec fn with_curse(self, amount: i64) -> Light {
        if amount > 0 {
            self.less(amount)
        } else {
            self
        }
    }

    /// Light after Deep Sight gave back a quarter of what was drained.
    pub open spec fn with_deep_sight(self, owned: bool) -> Light {
        if owned && self.drained > 0 {
            let restored = larger((self.drained / 4) as i64, 1);
            Light { level: smaller((self.level + restored) as i64, LUMINOSITY_MAX), ..self }
        } else {
            self
        }
    }

    /// Light after a hard hat absorbed a cave-in.
    pub open spec fn with_hard_hat(self, absorbed: bool) -> Light {
        if absorbed {
            Light { level: larger(nearest(self.level - 10), 0), ..self }
        } else {
            self
        }
    }

    /// Whether the level is one that a tunnel can have.
    pub open spec fn in_range(self) -> bool {
        &&& 0 <= self.level <= LUMINOSITY_MAX
        &&& self.drained >= 0
    }

    /// Measures how far light fell from `before` to `level`.
    pub fn measure(before: i64, level: i64) -> (light: Light)
        ensures
            light == Light::fallen(before, level),
    {
        Light { level, drained: max_of(sat_sub(before, level), 0) }
    }

    /// Drains light, which cannot fall below zero.
    pub fn drain(before: i64, drain: i64) -> (light: Light)
        ensures
            light == Light::drained_by(before, drain),
    {
        Light::measure(before, max_of(sat_sub(before, drain), 0))
    }

    /// Burns a torch.
    pub fn torch(self, torch: bool) -> (light: Light)
        requires
            self.level <= i64::MAX - 50,
        ensures
            light == self.with_torch(torch),
    {
        if torch {
            Light { level: min_of(self.level + 50, LUMINOSITY_MAX), drained: self.drained }
        } else {
            self
        }
    }

    /// Lets the Spore Cloak give back half of what was drained.
    pub fn spore_cloak(self, worn: bool) -> (light: Light)
        requires
            worn && self.drained > 0 ==> self.level + self.drained / 2 <= i64::MAX,
        ensures
            light == self.with_spore_cloak(worn),
    {
        if worn && self.drained > 0 {
            let restored = self.drained / 2;
            Light {
                level: min_of(self.level + restored, LUMINOSITY_MAX),
                drained: sat_sub(self.drained, restored),
            }
        } else {
            self
        }
    }

    /// Takes an ascension or weather surcharge on what was drained.
    pub fn surcharge(self, applies: bool, extra: i64) -> (light: Light)
        ensures
            light == self.with_surcharge(applies, extra),
    {
        if applies && self.drained > 0 {
            Light {
                level: max_of(sat_sub(self.level, extra), 0),
                drained: sat_add(self.drained, extra),
            }
        } else {
            self
        }
    }

    /// Takes the drain of a curse.
    pub fn curse(self, amount: i64) -> (light: Light)
        ensures
            light == self.with_curse(amount),
    {
        if amount > 0 {
            Light {
                level: max_of(sat_sub(self.level, amount), 0),
                drained: sat_add(self.drained, amount),
            }
        } else {
            self
        }
    }

    /// Lets Deep Sight give back a quarter of what was drained, at least one.
    pub fn deep_sight(self, owned: bool) -> (light: Light)
        requires
            owned && self.drained > 0 ==> self.level + larger((self.drained / 4) as i64, 1)
                <= i64::MAX,
        ensures
            light == self.with_deep_sight(owned),
    {
        if owned && self.drained > 0 {
            let restored = max_of(self.drained / 4, 1);
            Light { level: min_of(self.level + restored, LUMINOSITY_MAX), drained: self.drained }
        } else {
            self
        }
    }

    /// Pays the ten points that an absorbed cave-in costs.
    pub fn hard_hat(self, absorbed: bool) -> (light: Light)
        ensures
            light == self.with_hard_hat(absorbed),
    {
        if absorbed {
            Light { level: max_of(sat_sub(self.level, 10), 0), drained: self.drained }
        } else {
            self
        }
    }
}

/// What touches the light of a dig and is known before it is asked about: the
/// torch, the Spore Cloak, the drain of a curse, Deep Sight, and a hard hat that
/// absorbed a cave-in.
#[derive(Clone, Copy, Debug, PartialEq, Eq, Structural)]
pub struct LightHooks {
    pub torch: bool,
    pub spore_cloak: bool,
    pub curse: i64,
    pub deep_sight: bool,
    pub hard_hat: bool,
}

/// Where the hooks of a dig stand: what is asked next, of which light.
#[derive(Clone, Copy, Debug, PartialEq, Eq, Structural)]
pub enum LightStep {
    /// What the ascension takes of what was drained.
    Ascension(Light),
    /// What the weather takes of what was drained.
    Weather(Light),
    /// What level the Lantern Stub restores.
    LanternStub(Light),
    /// Nothing: this is the light that the dig leaves.
    Settled(Light),
}

/// An answer to what a step asks: whether a surcharge applies and how much it
/// takes, or the level that the Lantern Stub leaves.
#[derive(Clone, Copy, Debug, PartialEq, Eq, Structural)]
pub struct LightAnswer {
    pub applies: bool,
    pub amount: i64,
}

/// The first question, once the torch and then the Spore Cloak did their part.
pub open spec fn hooks_begun(light: Light, hooks: LightHooks) -> LightStep {
    LightStep::Ascension(light.with_torch(hooks.torch).with_spore_cloak(hooks.spore_cloak))
}

/// The question after an answer: ascension, weather and the curse, the Lantern
/// Stub, Deep Sight, and the hard hat last.
pub open spec fn hooks_answered(step: LightStep, hooks: LightHooks, answer: LightAnswer)
    -> LightStep {
    match step {
        LightStep::Ascension(light) => LightStep::Weather(
            light.with_surcharge(answer.applies, answer.amount),
        ),
        LightStep::Weather(light) => LightStep::LanternStub(
            light.with_surcharge(answer.applies, answer.amount).with_curse(hooks.curse),
        ),
        LightStep::LanternStub(light) => LightStep::Settled(
            (Light { level: answer.amount, drained: light.drained }).with_deep_sight(
                hooks.deep_sight,
            ).with_hard_hat(hooks.hard_hat),
        ),
        LightStep::Settled(light) => LightStep::Settled(light),
    }
}

/// Begins to run the hooks of a dig.
pub fn begin_hooks(light: Light, hooks: LightHooks) -> (step: LightStep)
    requires
        light.level <= i64::MAX - 50,
        hooks.spore_cloak && light.drained > 0 ==> light.level + light.drained / 2 <= i64::MAX,
    ensures
        step == hooks_begun(light, hooks),
{
    LightStep::Ascension(light.torch(hooks.torch).spore_cloak(hooks.spore_cloak))
}

/// Runs the hooks of a dig on, up to the next question.
pub fn answer_hook(step: LightStep, hooks: LightHooks, answer: LightAnswer) -> (next: LightStep)
    requires
        step matches LightStep::LanternStub(light) ==> hooks.deep_sight && light.drained > 0
            ==> answer.amount + larger((light.drained / 4) as i64, 1) <= i64::MAX,
    ensures
        next == hooks_answered(step, hooks, answer),
{
    match step {
        LightStep::Ascension(light) => LightStep::Weather(
            light.surcharge(answer.applies, answer.amount),
        ),
        LightStep::Weather(light) => LightStep::LanternStub(
            light.surcharge(answer.applies, answer.amount).curse(hooks.curse),
        ),
        LightStep::LanternStub(light) => LightStep::Settled(
            (Light { level: answer.amount, drained: light.drained }).deep_sight(
                hooks.deep_sight,
            ).hard_hat(hooks.hard_hat),
        ),
        LightStep::Settled(light) => LightStep::Settled(light),
    }
}

/// The hooks of a dig run in one order, whatever is answered: torch, Spore Cloak,
/// ascension, weather, curse, Lantern Stub, Deep Sight, and the hard hat after
/// everything that gives light back.
pub proof fn law_hooks_run_in_order(
    light: Light,
    hooks: LightHooks,
    ascension: LightAnswer,
    weather: LightAnswer,
    stub: LightAnswer,
)
    ensures
        ({
            let asked = hooks_begun(light, hooks);
            let after_ascension = hooks_answered(asked, hooks, ascension);
            let after_weather = hooks_answered(after_ascension, hooks, weather);
            let drained = light.with_torch(hooks.torch).with_spore_cloak(
                hooks.spore_cloak,
            ).with_surcharge(ascension.applies, ascension.amount).with_surcharge(
                weather.applies,
                weather.amount,
            ).with_curse(hooks.curse);
            let restored = (Light { level: stub.amount, ..drained }).with_deep_sight(
                hooks.deep_sight,
            );
            &&& after_weather == LightStep::LanternStub(drained)
            &&& hooks_answered(after_weather, hooks, stub) == LightStep::Settled(
                restored.with_hard_hat(hooks.hard_hat),
            )
        }),
{
}

/// A hard hat that absorbed a cave-in costs ten points of the light that the dig
/// would have left without it, or what is left of ten.
pub proof fn law_hard_hat_comes_last(light: Light, hooks: LightHooks, stub: LightAnswer)
    ensures
        ({
            let bare = LightHooks { hard_hat: false, ..hooks };
            let worn = LightHooks { hard_hat: true, ..hooks };
            let without = hooks_answered(LightStep::LanternStub(light), bare, stub);
            let with = hooks_answered(LightStep::LanternStub(light), worn, stub);
            without matches LightStep::Settled(left) && with matches LightStep::Settled(kept)
                && kept.level == larger(nearest(left.level - 10), 0) && kept.drained == left.drained
        }),
{
}

/// Light refilled at any time lies between zero and the maximum, and refilling
/// a second time at the same moment changes nothing.
pub proof fn law_refill_is_bounded_and_settles(tunnel: TunnelView, now: i64)
    ensures
        0 <= refilled(tunnel, now).luminosity <= LUMINOSITY_MAX,
        refilled(refilled(tunnel, now), now) == refilled(tunnel, now),
{
    assert(refilled(refilled(tunnel, now), now) =~= refilled(tunnel, now));
}

/// The deep ramp costs nothing down to its start and never shrinks with depth.
pub proof fn law_deep_drain_grows_with_depth(shallower: i64, deeper: i64)
    requires
        shallower <= deeper,
    ensures
        0 <= deep_drain(shallower) <= deep_drain(deeper),
        shallower <= LUMINOSITY_DEEP_DRAIN_START_DEPTH ==> deep_drain(shallower) == 0,
        shallower > LUMINOSITY_DEEP_DRAIN_START_DEPTH && shallower
            <= i64::MAX - LUMINOSITY_DEEP_DRAIN_BLOCKS_PER_STEP ==> deep_drain(
            (shallower + LUMINOSITY_DEEP_DRAIN_BLOCKS_PER_STEP) as i64,
        ) == deep_drain(shallower) + 1,
{
}

/// Whatever hooks a dig runs, in their order and with any surcharge that is not
/// negative, its light ends between zero and the maximum.
pub proof fn law_light_stays_in_range(
    before: i64,
    drain: i64,
    torch: bool,
    spore_cloak: bool,
    ascension: (bool, i64),
    weather: (bool, i64),
    curse: i64,
    deep_sight: bool,
    hard_hat: bool,
)
    requires
        0 <= before <= LUMINOSITY_MAX,
        drain >= 0,
        ascension.1 >= 0,
        weather.1 >= 0,
    ensures
        Light::drained_by(before, drain).with_torch(torch).with_spore_cloak(
            spore_cloak,
        ).with_surcharge(ascension.0, ascension.1).with_surcharge(
            weather.0,
            weather.1,
        ).with_curse(curse).with_deep_sight(deep_sight).with_hard_hat(hard_hat).in_range(),
{
    let drained = Light::drained_by(before, drain);
    assert(drained.in_range());
    let lit = drained.with_torch(torch).with_spore_cloak(spore_cloak);
    assert(lit.in_range());
    let taken = lit.with_surcharge(ascension.0, ascension.1).with_surcharge(weather.0, weather.1);
    assert(taken.in_range());
    assert(taken.with_curse(curse).in_range());
}

} // verus!
