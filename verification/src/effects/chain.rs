//! The whole effects chain, in its fixed order.

use vstd::prelude::*;
use crate::effects::chromatic::apply_chromatic_aberration;
use crate::effects::chromatic::chromatic_spec;
use crate::effects::chromatic::foreground_map_spec;
use crate::effects::chromatic::CHROMATIC_EPSILON;
use crate::effects::glow::apply_glow;
use crate::effects::glow::brightness_map_spec;
use crate::effects::glow::glow_spec;
use crate::effects::glow::GLOW_EPSILON;
use crate::effects::pulse::apply_color_pulse;
use crate::effects::pulse::pulse_active;
use crate::effects::pulse::pulse_spec;
use crate::effects::scanlines::apply_scan_lines;
use crate::effects::scanlines::scan_lines_spec;
use crate::effects::stability::apply_temporal_stability;
use crate::effects::stability::stability_spec;
use crate::effects::stability::STABILITY_EPSILON;
use crate::effects::strobe::apply_strobe;
use crate::effects::strobe::strobe_boost_spec;
use crate::effects::strobe::strobe_spec;
use crate::effects::trails::apply_fade_trails;
use crate::effects::trails::fade_spec;
use crate::effects::trails::FADE_EPSILON;
use crate::effects::wave::apply_wave_distortion;
use crate::effects::wave::row_buffer_spec;
use crate::effects::wave::wave_spec;
use crate::effects::wave::WAVE_EPSILON;
use crate::fixed::Fixed;
use crate::frame::AsciiCell;
use crate::frame::AsciiGrid;

verus! {

/// The driving parameter of every effect for one frame.
#[derive(Clone, Copy, Debug)]
pub struct EffectParams {
    /// Onset envelope that triggers the strobe.
    pub onset_envelope: Fixed,
    /// Strength of the strobe.
    pub beat_flash_intensity: Fixed,
    pub fade_decay: Fixed,
    pub glow_intensity: Fixed,
    pub chromatic_offset: Fixed,
    pub wave_amplitude: Fixed,
    /// Hue rotation of the colour pulse, in turns.
    pub hue_shift: Fixed,
    pub stability_threshold: Fixed,
    /// Spacing of the scan lines; 0 disables them.
    pub scan_gap: u8,
    pub scan_darken: Fixed,
}

/// The scratch buffers that the effects reuse from frame to frame.
#[derive(Debug)]
pub struct EffectScratch {
    pub brightness: Vec<u8>,
    pub foreground: Vec<(u8, u8, u8)>,
    pub row: Vec<AsciiCell>,
}

impl EffectParams {
    /// No effect is driven: every parameter is below its threshold and the
    /// scan lines are disabled.
    pub open spec fn is_idle(&self) -> bool {
        &&& strobe_boost_spec(self.onset_envelope, self.beat_flash_intensity) == 0
        &&& self.fade_decay.raw < FADE_EPSILON
        &&& self.glow_intensity.raw < GLOW_EPSILON
        &&& self.chromatic_offset.raw < CHROMATIC_EPSILON
        &&& self.wave_amplitude.raw < WAVE_EPSILON
        &&& !pulse_active(self.hue_shift)
        &&& self.stability_threshold.raw < STABILITY_EPSILON
        &&& self.scan_gap == 0
    }

    /// Every parameter at zero.
    pub fn idle() -> (p: EffectParams)
        ensures
            p.is_idle(),
            p.onset_envelope.raw == 0,
            p.beat_flash_intensity.raw == 0,
            p.fade_decay.raw == 0,
            p.glow_intensity.raw == 0,
            p.chromatic_offset.raw == 0,
            p.wave_amplitude.raw == 0,
            p.hue_shift.raw == 0,
            p.stability_threshold.raw == 0,
            p.scan_gap == 0,
            p.scan_darken.raw == 0,
    {
        let z = Fixed::zero();
        EffectParams {
            onset_envelope: z,
            beat_flash_intensity: z,
            fade_decay: z,
            glow_intensity: z,
            chromatic_offset: z,
            wave_amplitude: z,
            hue_shift: z,
            stability_threshold: z,
            scan_gap: 0,
            scan_darken: z,
        }
    }
}

impl EffectScratch {
    /// Empty buffers; each effect sizes the one it uses.
    pub fn new() -> (s: EffectScratch)
        ensures
            s.brightness@.len() == 0,
            s.foreground@.len() == 0,
            s.row@.len() == 0,
    {
        EffectScratch { brightness: Vec::new(), foreground: Vec::new(), row: Vec::new() }
    }
}

/// The grid after the strobe.
pub open spec fn after_strobe(grid: AsciiGrid, p: EffectParams) -> Seq<AsciiCell> {
    strobe_spec(grid@, strobe_boost_spec(p.onset_envelope, p.beat_flash_intensity))
}

/// The grid after strobe and fade trails.
pub open spec fn after_trails(grid: AsciiGrid, previous: AsciiGrid, p: EffectParams) -> Seq<
    AsciiCell,
> {
    let g = after_strobe(grid, p);
    if p.fade_decay.raw >= FADE_EPSILON && grid.same_size(&previous) {
        fade_spec(g, previous@, p.fade_decay)
    } else {
        g
    }
}

/// The grid after strobe, fade trails and glow.
pub open spec fn after_glow(grid: AsciiGrid, previous: AsciiGrid, p: EffectParams) -> Seq<
    AsciiCell,
> {
    let g = after_trails(grid, previous, p);
    if p.glow_intensity.raw >= GLOW_EPSILON {
        glow_spec(g, grid.width as int, grid.height as int, p.glow_intensity)
    } else {
        g
    }
}

/// The grid after the first four effects, up to chromatic aberration.
pub open spec fn after_chromatic(grid: AsciiGrid, previous: AsciiGrid, p: EffectParams) -> Seq<
    AsciiCell,
> {
    let g = after_glow(grid, previous, p);
    if p.chromatic_offset.raw >= CHROMATIC_EPSILON {
        chromatic_spec(g, grid.width as int, p.chromatic_offset)
    } else {
        g
    }
}

/// The grid after the first five effects, up to wave distortion.
pub open spec fn after_wave(
    grid: AsciiGrid,
    previous: AsciiGrid,
    p: EffectParams,
    wave: Seq<Fixed>,
) -> Seq<AsciiCell> {
    let g = after_chromatic(grid, previous, p);
    if p.wave_amplitude.raw >= WAVE_EPSILON {
        wave_spec(g, grid.width as int, p.wave_amplitude, wave)
    } else {
        g
    }
}

/// The grid after the first six effects, up to the colour pulse.
pub open spec fn after_pulse(
    grid: AsciiGrid,
    previous: AsciiGrid,
    p: EffectParams,
    wave: Seq<Fixed>,
) -> Seq<AsciiCell> {
    let g = after_wave(grid, previous, p, wave);
    if pulse_active(p.hue_shift) {
        pulse_spec(g, p.hue_shift)
    } else {
        g
    }
}

/// The grid after the first seven effects, up to temporal stability.
pub open spec fn after_stability(
    grid: AsciiGrid,
    previous: AsciiGrid,
    p: EffectParams,
    wave: Seq<Fixed>,
) -> Seq<AsciiCell> {
    let g = after_pulse(grid, previous, p, wave);
    if p.stability_threshold.raw >= STABILITY_EPSILON && grid.same_size(&previous) {
        stability_spec(g, previous@, p.stability_threshold)
    } else {
        g
    }
}

/// The grid after the whole chain: strobe, fade trails, glow, chromatic
/// aberration, wave distortion, colour pulse, temporal stability, scan
/// lines.
pub open spec fn effects_spec(
    grid: AsciiGrid,
    previous: AsciiGrid,
    p: EffectParams,
    wave: Seq<Fixed>,
) -> Seq<AsciiCell> {
    scan_lines_spec(
        after_stability(grid, previous, p, wave),
        grid.width as int,
        p.scan_gap,
        p.scan_darken,
    )
}

/// With no effect driven the chain is the identity.
pub proof fn lemma_idle_chain_is_identity(
    grid: AsciiGrid,
    previous: AsciiGrid,
    p: EffectParams,
    wave: Seq<Fixed>,
)
    requires
        p.is_idle(),
    ensures
        effects_spec(grid, previous, p, wave) == grid@,
{
    assert(after_strobe(grid, p) =~= grid@);
    assert(effects_spec(grid, previous, p, wave) =~= grid@);
}

/// Applies the eight effects to `grid` in their fixed order. `previous` is
/// the grid of the frame before, read by the two temporal effects, which do
/// nothing when its size differs. `wave` holds one sample of the wave per
/// row for the wave distortion.
pub fn apply_effects(
    grid: &mut AsciiGrid,
    previous: &AsciiGrid,
    params: &EffectParams,
    wave: &Vec<Fixed>,
    scratch: &mut EffectScratch,
)
    requires
        old(grid).wf(),
        previous.wf(),
    ensures
        final(grid).wf(),
        final(grid).same_size(old(grid)),
        final(grid)@ == effects_spec(*old(grid), *previous, *params, wave@),
        params.is_idle() ==> final(grid)@ == old(grid)@,
        final(scratch).brightness@ == if params.glow_intensity.raw >= GLOW_EPSILON {
            brightness_map_spec(after_trails(*old(grid), *previous, *params))
        } else {
            old(scratch).brightness@
        },
        final(scratch).foreground@ == if params.chromatic_offset.raw >= CHROMATIC_EPSILON {
            foreground_map_spec(after_glow(*old(grid), *previous, *params))
        } else {
            old(scratch).foreground@
        },
        final(scratch).row@ == if params.wave_amplitude.raw >= WAVE_EPSILON {
            row_buffer_spec(
                after_chromatic(*old(grid), *previous, *params),
                old(grid).width as int,
                old(grid).height as int,
                old(scratch).row@,
            )
        } else {
            old(scratch).row@
        },
{
    proof {
        if params.is_idle() {
            lemma_idle_chain_is_identity(*old(grid), *previous, *params, wave@);
        }
    }
    apply_strobe(grid, params.onset_envelope, params.beat_flash_intensity);
    apply_fade_trails(grid, previous, params.fade_decay);
    assert(grid@ == after_trails(*old(grid), *previous, *params));
    apply_glow(grid, params.glow_intensity, &mut scratch.brightness);
    assert(grid@ == after_glow(*old(grid), *previous, *params));
    apply_chromatic_aberration(grid, params.chromatic_offset, &mut scratch.foreground);
    assert(grid@ == after_chromatic(*old(grid), *previous, *params));
    apply_wave_distortion(grid, params.wave_amplitude, wave, &mut scratch.row);
    assert(grid@ == after_wave(*old(grid), *previous, *params, wave@));
    apply_color_pulse(grid, params.hue_shift);
    assert(grid@ == after_pulse(*old(grid), *previous, *params, wave@));
    apply_temporal_stability(grid, previous, params.stability_threshold);
    assert(grid@ == after_stability(*old(grid), *previous, *params, wave@));
    apply_scan_lines(grid, params.scan_gap, params.scan_darken);
}

} // verus!
