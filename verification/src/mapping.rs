//! The mapping engine: rules that turn audio features into perturbations of
//! the render parameters.

use vstd::prelude::*;
use crate::config::AudioMapping;
use crate::config::MappingCurve;
use crate::config::MappingTarget;
use crate::config::RenderConfig;
use crate::features::AudioFeatures;
use crate::features::FeatureSource;
use crate::fixed::saturate;
use crate::fixed::saturate_i128;
use crate::fixed::trunc_div;
use crate::fixed::wide_mul;
use crate::fixed::Fixed;
use crate::fixed::SCALE;

verus! {

/// The source value up to which the threshold curve stays at zero (0.3).
pub const THRESHOLD_KNEE: i64 = 300_000;

/// The width of the rising part of the threshold curve (0.7).
pub const THRESHOLD_SPAN: i64 = 700_000;

/// The delta above which a rule aimed at the invert flag flips it (0.5).
pub const INVERT_TRIGGER: i64 = 500_000;

/// The response curve applied to a source value.
pub open spec fn curve_spec(curve: MappingCurve, x: Fixed) -> Fixed {
    match curve {
        MappingCurve::Linear => x,
        MappingCurve::Exponential => x.times_spec(x),
        MappingCurve::Threshold => if x.raw > THRESHOLD_KNEE {
            Fixed {
                raw: saturate(trunc_div((x.raw - THRESHOLD_KNEE) * SCALE, THRESHOLD_SPAN as int)) as i64,
            }
        } else {
            Fixed { raw: 0 }
        },
        MappingCurve::Smooth => x.times_spec(x).times_spec(
            (Fixed { raw: 3_000_000 }).minus_spec((Fixed { raw: 2_000_000 }).times_spec(x)),
        ),
    }
}

/// `shaped * amount * sensitivity + offset`.
pub open spec fn raw_delta_spec(rule: AudioMapping, x: Fixed, sensitivity: Fixed) -> Fixed {
    curve_spec(rule.curve, x).times_spec(rule.amount).times_spec(sensitivity).plus_spec(rule.offset)
}

/// One step of the plain moving average `acc * (1 - alpha) + raw * alpha`.
pub open spec fn ema_spec(acc: Fixed, raw: Fixed, alpha: Fixed) -> Fixed {
    acc.times_spec((Fixed { raw: SCALE }).minus_spec(alpha)).plus_spec(raw.times_spec(alpha))
}

/// The smoothing coefficient of a rule: its own, or else the global one.
pub open spec fn rule_alpha_spec(rule: AudioMapping, global: Fixed) -> Fixed {
    match rule.smoothing {
        Some(a) => a,
        None => global,
    }
}

/// The smoothed delta of a rule, which is also its new accumulator.
pub open spec fn rule_delta_spec(
    rule: AudioMapping,
    features: AudioFeatures,
    onset_envelope: Fixed,
    sensitivity: Fixed,
    global_smoothing: Fixed,
    acc: Fixed,
) -> Fixed {
    ema_spec(
        acc,
        raw_delta_spec(rule, features.source_value_spec(rule.source, onset_envelope), sensitivity),
        rule_alpha_spec(rule, global_smoothing),
    )
}

/// The configuration after a delta has reached its target: a numeric target
/// moves by the delta and is clamped to its range, the invert flag flips when
/// the delta exceeds 0.5, and an unknown target is left alone.
pub open spec fn apply_delta_spec(cfg: RenderConfig, target: MappingTarget, delta: Fixed)
    -> RenderConfig {
    if target == MappingTarget::Invert {
        if delta.raw > INVERT_TRIGGER {
            RenderConfig { invert: !cfg.invert, ..cfg }
        } else {
            cfg
        }
    } else {
        cfg.with_target_spec(
            target,
            cfg.target_value_spec(target).plus_spec(delta).clamp_spec(
                Fixed { raw: target.range_min() as i64 },
                Fixed { raw: target.range_max() as i64 },
            ),
        )
    }
}

/// The configuration and accumulators after the rule at position `i` has
/// run. A disabled rule changes neither.
pub open spec fn step_spec(
    cfg: RenderConfig,
    state: Seq<Fixed>,
    i: int,
    rule: AudioMapping,
    features: AudioFeatures,
    onset_envelope: Fixed,
    sensitivity: Fixed,
    global_smoothing: Fixed,
) -> (RenderConfig, Seq<Fixed>) {
    if rule.enabled {
        let delta = rule_delta_spec(
            rule,
            features,
            onset_envelope,
            sensitivity,
            global_smoothing,
            state[i],
        );
        (apply_delta_spec(cfg, rule.target, delta), state.update(i, delta))
    } else {
        (cfg, state)
    }
}

/// The configuration and accumulators after the first `k` rules of `base`
/// have run in list order. Sensitivity and global smoothing are read from
/// `base`; each rule perturbs the configuration that the rules before it
/// left.
pub open spec fn mapped_spec(
    base: RenderConfig,
    features: AudioFeatures,
    onset_envelope: Fixed,
    state: Seq<Fixed>,
    k: nat,
) -> (RenderConfig, Seq<Fixed>)
    decreases k,
{
    if k == 0 {
        (base, state)
    } else {
        let before = mapped_spec(base, features, onset_envelope, state, (k - 1) as nat);
        step_spec(
            before.0,
            before.1,
            k - 1,
            base.audio_mappings@[k - 1],
            features,
            onset_envelope,
            base.audio_sensitivity,
            base.audio_smoothing,
        )
    }
}

/// The accumulators brought to length `n`: surplus entries are dropped and
/// new ones start at zero.
pub open spec fn resized_spec(state: Seq<Fixed>, n: nat) -> Seq<Fixed> {
    Seq::new(
        n,
        |i: int|
            if i < state.len() {
                state[i]
            } else {
                Fixed { raw: 0 }
            },
    )
}

/// What one pass of the mapping engine makes of a configuration and the
/// accumulators kept from the pass before.
pub open spec fn mapping_result(
    base: RenderConfig,
    features: AudioFeatures,
    onset_envelope: Fixed,
    state: Seq<Fixed>,
) -> (RenderConfig, Seq<Fixed>) {
    mapped_spec(
        base,
        features,
        onset_envelope,
        resized_spec(state, base.audio_mappings@.len()),
        base.audio_mappings@.len(),
    )
}

/// Applies the response curve of a rule.
pub fn apply_curve(curve: MappingCurve, x: Fixed) -> (r: Fixed)
    ensures
        r == curve_spec(curve, x),
{
    match curve {
        MappingCurve::Linear => x,
        MappingCurve::Exponential => x.times(x),
        MappingCurve::Threshold => {
            if x.raw > THRESHOLD_KNEE {
                let above: i64 = x.raw - THRESHOLD_KNEE;
                let scaled: i128 = wide_mul(above, SCALE);
                Fixed { raw: saturate_i128(scaled / (THRESHOLD_SPAN as i128)) }
            } else {
                Fixed::zero()
            }
        },
        MappingCurve::Smooth => {
            let three = Fixed { raw: 3_000_000 };
            let two = Fixed { raw: 2_000_000 };
            x.times(x).times(three.minus(two.times(x)))
        },
    }
}

/// Moves one target of the configuration by `delta`.
pub fn apply_delta(config: &mut RenderConfig, target: MappingTarget, delta: Fixed)
    ensures
        *final(config) == apply_delta_spec(*old(config), target, delta),
{
    match target {
        MappingTarget::Invert => {
            if delta.raw > INVERT_TRIGGER {
                config.invert = !config.invert;
            }
        },
        _ => {
            let (lo, hi) = target.range();
            let moved = config.target_value(target).plus(delta).clamp(lo, hi);
            config.set_target_value(target, moved);
        },
    }
}

/// Runs every enabled rule of `config` once, in list order, against the
/// smoothed features and the onset envelope, and leaves the perturbed
/// parameters in `config`. `smooth_state` holds one accumulator per rule and
/// is first brought to the length of the rule list.
pub fn apply_audio_mappings(
    config: &mut RenderConfig,
    features: &AudioFeatures,
    onset_envelope: Fixed,
    smooth_state: &mut Vec<Fixed>,
)
    ensures
        final(smooth_state)@.len() == old(config).audio_mappings@.len(),
        (*final(config), final(smooth_state)@) == mapping_result(
            *old(config),
            *features,
            onset_envelope,
            old(smooth_state)@,
        ),
{
    let sensitivity = config.audio_sensitivity;
    let global_smoothing = config.audio_smoothing;
    let n: usize = config.audio_mappings.len();

    if smooth_state.len() != n {
        smooth_state.resize(n, Fixed::zero());
    }
    let ghost base = *config;
    let ghost state0 = smooth_state@;
    assert(state0 =~= resized_spec(old(smooth_state)@, n as nat));

    let mut i: usize = 0;
    while i < n
        invariant
            i <= n,
            n == base.audio_mappings@.len(),
            config.audio_mappings == base.audio_mappings,
            sensitivity == base.audio_sensitivity,
            global_smoothing == base.audio_smoothing,
            smooth_state@.len() == n,
            (*config, smooth_state@) == mapped_spec(
                base,
                *features,
                onset_envelope,
                state0,
                i as nat,
            ),
        decreases n - i,
    {
        let rule: AudioMapping = config.audio_mappings[i];
        if rule.enabled {
            let x = features.source_value(rule.source, onset_envelope);
            let raw = apply_curve(rule.curve, x).times(rule.amount).times(sensitivity).plus(
                rule.offset,
            );
            let alpha = match rule.smoothing {
                Some(a) => a,
                None => global_smoothing,
            };
            let acc = smooth_state[i];
            let delta = acc.times(Fixed::one().minus(alpha)).plus(raw.times(alpha));
            smooth_state[i] = delta;
            apply_delta(config, rule.target, delta);
        }
        i += 1;
    }
}

/// A delta aimed at one target leaves every other numeric parameter, and,
/// unless it is aimed at the invert flag, that flag as they were. The rule
/// list and the global audio settings are never touched.
pub proof fn lemma_apply_delta_frame(
    cfg: RenderConfig,
    target: MappingTarget,
    delta: Fixed,
    t: MappingTarget,
)
    ensures
        t != target ==> apply_delta_spec(cfg, target, delta).target_value_spec(t)
            == cfg.target_value_spec(t),
        target != MappingTarget::Invert ==> apply_delta_spec(cfg, target, delta).invert
            == cfg.invert,
        apply_delta_spec(cfg, target, delta).audio_mappings == cfg.audio_mappings,
        apply_delta_spec(cfg, target, delta).audio_sensitivity == cfg.audio_sensitivity,
        apply_delta_spec(cfg, target, delta).audio_smoothing == cfg.audio_smoothing,
        apply_delta_spec(cfg, target, delta).target_fps == cfg.target_fps,
        apply_delta_spec(cfg, target, delta).dither_mode == cfg.dither_mode,
        apply_delta_spec(cfg, target, delta).charset == cfg.charset,
{
}

/// A delta aimed at a numeric target leaves that parameter inside the
/// target's clamp range, whatever the delta and the value before.
pub proof fn lemma_apply_delta_clamps(cfg: RenderConfig, target: MappingTarget, delta: Fixed)
    requires
        target.is_numeric(),
    ensures
        target.range_min() <= apply_delta_spec(cfg, target, delta).target_value_spec(target).raw
            <= target.range_max(),
{
}

/// A pass of the engine changes neither the rule list nor the global audio
/// settings, the frame rate, the dither mode or the character set, and keeps
/// the number of accumulators.
pub proof fn lemma_mapping_keeps_settings(
    base: RenderConfig,
    features: AudioFeatures,
    onset_envelope: Fixed,
    state: Seq<Fixed>,
    k: nat,
)
    ensures
        mapped_spec(base, features, onset_envelope, state, k).0.audio_mappings
            == base.audio_mappings,
        mapped_spec(base, features, onset_envelope, state, k).0.audio_sensitivity
            == base.audio_sensitivity,
        mapped_spec(base, features, onset_envelope, state, k).0.audio_smoothing
            == base.audio_smoothing,
        mapped_spec(base, features, onset_envelope, state, k).0.target_fps == base.target_fps,
        mapped_spec(base, features, onset_envelope, state, k).0.dither_mode == base.dither_mode,
        mapped_spec(base, features, onset_envelope, state, k).0.charset == base.charset,
        k <= state.len() ==> mapped_spec(base, features, onset_envelope, state, k).1.len()
            == state.len(),
    decreases k,
{
    if k > 0 {
        lemma_mapping_keeps_settings(base, features, onset_envelope, state, (k - 1) as nat);
        let before = mapped_spec(base, features, onset_envelope, state, (k - 1) as nat);
        let rule = base.audio_mappings@[k - 1];
        let delta = rule_delta_spec(
            rule,
            features,
            onset_envelope,
            base.audio_sensitivity,
            base.audio_smoothing,
            before.1[k - 1],
        );
        lemma_apply_delta_frame(before.0, rule.target, delta, rule.target);
    }
}

/// Disabling a rule leaves its target unchanged: a parameter at which no
/// enabled rule among the first `k` is aimed keeps the value it has in the
/// base configuration.
pub proof fn lemma_untargeted_parameter_unchanged(
    base: RenderConfig,
    features: AudioFeatures,
    onset_envelope: Fixed,
    state: Seq<Fixed>,
    k: nat,
    t: MappingTarget,
)
    requires
        k <= base.audio_mappings@.len(),
        forall|i: int|
            0 <= i < k && (#[trigger] base.audio_mappings@[i]).enabled
                ==> base.audio_mappings@[i].target != t,
    ensures
        mapped_spec(base, features, onset_envelope, state, k).0.target_value_spec(t)
            == base.target_value_spec(t),
        t == MappingTarget::Invert ==> mapped_spec(
            base,
            features,
            onset_envelope,
            state,
            k,
        ).0.invert == base.invert,
    decreases k,
{
    if k > 0 {
        lemma_untargeted_parameter_unchanged(
            base,
            features,
            onset_envelope,
            state,
            (k - 1) as nat,
            t,
        );
        let before = mapped_spec(base, features, onset_envelope, state, (k - 1) as nat);
        let rule = base.audio_mappings@[k - 1];
        let delta = rule_delta_spec(
            rule,
            features,
            onset_envelope,
            base.audio_sensitivity,
            base.audio_smoothing,
            before.1[k - 1],
        );
        lemma_apply_delta_frame(before.0, rule.target, delta, t);
    }
}

/// With every rule disabled the engine is the identity on the configuration
/// and on the accumulators.
pub proof fn lemma_all_disabled_is_identity(
    base: RenderConfig,
    features: AudioFeatures,
    onset_envelope: Fixed,
    state: Seq<Fixed>,
    k: nat,
)
    requires
        k <= base.audio_mappings@.len(),
        forall|i: int| 0 <= i < k ==> !(#[trigger] base.audio_mappings@[i]).enabled,
    ensures
        mapped_spec(base, features, onset_envelope, state, k) == (base, state),
    decreases k,
{
    if k > 0 {
        lemma_all_disabled_is_identity(base, features, onset_envelope, state, (k - 1) as nat);
    }
}

/// Every numeric parameter at which an enabled rule is aimed ends inside its
/// clamp range, whatever the features, the accumulators and the base value.
pub proof fn lemma_targeted_parameter_in_range(
    base: RenderConfig,
    features: AudioFeatures,
    onset_envelope: Fixed,
    state: Seq<Fixed>,
    k: nat,
    t: MappingTarget,
)
    requires
        k <= base.audio_mappings@.len(),
        t.is_numeric(),
        exists|i: int|
            0 <= i < k && (#[trigger] base.audio_mappings@[i]).enabled
                && base.audio_mappings@[i].target == t,
    ensures
        t.range_min() <= mapped_spec(
            base,
            features,
            onset_envelope,
            state,
            k,
        ).0.target_value_spec(t).raw <= t.range_max(),
    decreases k,
{
    let before = mapped_spec(base, features, onset_envelope, state, (k - 1) as nat);
    let rule = base.audio_mappings@[k - 1];
    let delta = rule_delta_spec(
        rule,
        features,
        onset_envelope,
        base.audio_sensitivity,
        base.audio_smoothing,
        before.1[k - 1],
    );
    if rule.enabled && rule.target == t {
        lemma_apply_delta_clamps(before.0, t, delta);
    } else {
        let i = choose|i: int|
            0 <= i < k && (#[trigger] base.audio_mappings@[i]).enabled
                && base.audio_mappings@[i].target == t;
        assert(i < k - 1);
        lemma_targeted_parameter_in_range(
            base,
            features,
            onset_envelope,
            state,
            (k - 1) as nat,
            t,
        );
        lemma_apply_delta_frame(before.0, rule.target, delta, t);
    }
}

/// A numeric parameter that starts inside its clamp range stays inside it,
/// whether or not a rule is aimed at it.
pub proof fn lemma_parameter_stays_in_range(
    base: RenderConfig,
    features: AudioFeatures,
    onset_envelope: Fixed,
    state: Seq<Fixed>,
    k: nat,
    t: MappingTarget,
)
    requires
        k <= base.audio_mappings@.len(),
        t.is_numeric(),
        t.range_min() <= base.target_value_spec(t).raw <= t.range_max(),
    ensures
        t.range_min() <= mapped_spec(
            base,
            features,
            onset_envelope,
            state,
            k,
        ).0.target_value_spec(t).raw <= t.range_max(),
    decreases k,
{
    if k > 0 {
        lemma_parameter_stays_in_range(base, features, onset_envelope, state, (k - 1) as nat, t);
        let before = mapped_spec(base, features, onset_envelope, state, (k - 1) as nat);
        let rule = base.audio_mappings@[k - 1];
        let delta = rule_delta_spec(
            rule,
            features,
            onset_envelope,
            base.audio_sensitivity,
            base.audio_smoothing,
            before.1[k - 1],
        );
        if rule.enabled && rule.target == t {
            lemma_apply_delta_clamps(before.0, t, delta);
        } else {
            lemma_apply_delta_frame(before.0, rule.target, delta, t);
        }
    }
}

/// A rule whose source is unknown behaves as the same rule reading a source
/// whose value is constantly zero.
pub proof fn lemma_unknown_source_reads_zero(
    rule: AudioMapping,
    zero_source: FeatureSource,
    features: AudioFeatures,
    onset_envelope: Fixed,
    sensitivity: Fixed,
    global_smoothing: Fixed,
    acc: Fixed,
)
    requires
        rule.source == FeatureSource::Unknown,
        features.source_value_spec(zero_source, onset_envelope).raw == 0,
    ensures
        features.source_value_spec(rule.source, onset_envelope).raw == 0,
        rule_delta_spec(rule, features, onset_envelope, sensitivity, global_smoothing, acc)
            == rule_delta_spec(
            (AudioMapping { source: zero_source, ..rule }),
            features,
            onset_envelope,
            sensitivity,
            global_smoothing,
            acc,
        ),
{
}

} // verus!
