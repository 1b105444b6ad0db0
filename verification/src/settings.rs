//! The settings records: one for the frame, one for each family of
//! denoisers, each with its documented defaults.
//!
//! The native records hold single-precision numbers. This layer hands them on
//! and never computes with them, so a number is carried as its bit pattern.

use crate::records::Denoiser;
use vstd::prelude::*;

verus! {

/// A single-precision number, carried as its IEEE 754 bit pattern.
#[derive(Debug, Clone, Copy, PartialEq, Eq, Structural)]
pub struct Scalar(pub u32);

/// The families of denoisers, by the settings record that each takes.
#[derive(Debug, Clone, Copy, PartialEq, Eq, Structural)]
pub enum SettingsFamily {
    /// Takes [`ReblurSettings`].
    Reblur,
    /// Takes [`SigmaSettings`].
    Sigma,
    /// Takes [`RelaxDiffuseSettings`].
    RelaxDiffuse,
    /// Takes [`RelaxSpecularSettings`].
    RelaxSpecular,
    /// Takes [`RelaxDiffuseSpecularSettings`].
    RelaxDiffuseSpecular,
    /// Takes [`ReferenceSettings`].
    Reference,
}

/// A settings record of one family of denoisers.
///
/// The native library reads a settings record by the shape that the
/// denoiser's variant calls for, and is told nothing of the shape it is
/// given. The family named here is what an instance holds against the
/// variant before it lets a record through.
pub trait DenoiserSettings {
    /// The family whose denoisers take this record.
    spec fn family_of() -> SettingsFamily;

    /// The family whose denoisers take this record.
    fn family(&self) -> (f: SettingsFamily)
        ensures
            f == Self::family_of(),
    ;
}

impl Denoiser {
    /// The family of settings that this variant takes; none for the variants
    /// that reconstruct motion vectors, which have no settings record.
    pub open spec fn settings_family_of(self) -> Option<SettingsFamily> {
        match self {
            Denoiser::ReblurDiffuse
            | Denoiser::ReblurDiffuseOcclusion
            | Denoiser::ReblurDiffuseSh
            | Denoiser::ReblurSpecular
            | Denoiser::ReblurSpecularOcclusion
            | Denoiser::ReblurSpecularSh
            | Denoiser::ReblurDiffuseSpecular
            | Denoiser::ReblurDiffuseSpecularOcclusion
            | Denoiser::ReblurDiffuseSpecularSh
            | Denoiser::ReblurDiffuseDirectionalOcclusion => Some(SettingsFamily::Reblur),
            Denoiser::SigmaShadow | Denoiser::SigmaShadowTranslucency => Some(
                SettingsFamily::Sigma,
            ),
            Denoiser::RelaxDiffuse | Denoiser::RelaxDiffuseSh => Some(SettingsFamily::RelaxDiffuse),
            Denoiser::RelaxSpecular | Denoiser::RelaxSpecularSh => Some(
                SettingsFamily::RelaxSpecular,
            ),
            Denoiser::RelaxDiffuseSpecular | Denoiser::RelaxDiffuseSpecularSh => Some(
                SettingsFamily::RelaxDiffuseSpecular,
            ),
            Denoiser::Reference => Some(SettingsFamily::Reference),
            Denoiser::SpecularReflectionMv | Denoiser::SpecularDeltaMv => None,
        }
    }

    /// The family of settings that this variant takes, if it takes any.
    pub fn settings_family(self) -> (f: Option<SettingsFamily>)
        ensures
            f == self.settings_family_of(),
    {
        match self {
            Denoiser::ReblurDiffuse
            | Denoiser::ReblurDiffuseOcclusion
            | Denoiser::ReblurDiffuseSh
            | Denoiser::ReblurSpecular
            | Denoiser::ReblurSpecularOcclusion
            | Denoiser::ReblurSpecularSh
            | Denoiser::ReblurDiffuseSpecular
            | Denoiser::ReblurDiffuseSpecularOcclusion
            | Denoiser::ReblurDiffuseSpecularSh
            | Denoiser::ReblurDiffuseDirectionalOcclusion => Some(SettingsFamily::Reblur),
            Denoiser::SigmaShadow | Denoiser::SigmaShadowTranslucency => Some(
                SettingsFamily::Sigma,
            ),
            Denoiser::RelaxDiffuse | Denoiser::RelaxDiffuseSh => Some(SettingsFamily::RelaxDiffuse),
            Denoiser::RelaxSpecular | Denoiser::RelaxSpecularSh => Some(
                SettingsFamily::RelaxSpecular,
            ),
            Denoiser::RelaxDiffuseSpecular | Denoiser::RelaxDiffuseSpecularSh => Some(
                SettingsFamily::RelaxDiffuseSpecular,
            ),
            Denoiser::Reference => Some(SettingsFamily::Reference),
            Denoiser::SpecularReflectionMv | Denoiser::SpecularDeltaMv => None,
        }
    }
}

/// What a frame does with the accumulated history.
#[derive(Debug, Clone, Copy, PartialEq, Eq, Structural)]
pub enum AccumulationMode {
    /// Accumulation goes on.
    Continue,
    /// History is discarded and accumulation starts again.
    Restart,
    /// As `Restart`, and the resources are cleared first.
    ClearAndRestart,
}

impl AccumulationMode {
    /// The code that stands for this value in a native record.
    pub open spec fn raw_value(self) -> u8 {
        match self {
            AccumulationMode::Continue => 0,
            AccumulationMode::Restart => 1,
            AccumulationMode::ClearAndRestart => 2,
        }
    }

    /// Encodes the value for a native record.
    pub fn raw(self) -> (code: u8)
        ensures
            code == self.raw_value(),
    {
        match self {
            AccumulationMode::Continue => 0,
            AccumulationMode::Restart => 1,
            AccumulationMode::ClearAndRestart => 2,
        }
    }

    /// Decodes a code read from a native record. A code that stands for no
    /// value of this type is refused.
    pub fn from_raw(code: u8) -> (r: Option<AccumulationMode>)
        ensures
            match r {
                Some(v) => v.raw_value() == code,
                None => forall|v: AccumulationMode| v.raw_value() != code,
            },
    {
        match code {
            0 => Some(AccumulationMode::Continue),
            1 => Some(AccumulationMode::Restart),
            2 => Some(AccumulationMode::ClearAndRestart),
            _ => None,
        }
    }
}

/// The settings of one frame, shared by all denoisers of an instance. A frame
/// replaces the whole record.
#[derive(Debug, Clone, Copy, PartialEq, Eq)]
pub struct CommonSettings {
    /// Projection matrix, column-major, without jitter.
    ///
    /// Default: the bits of `0.0` in every place.
    pub view_to_clip_matrix: [Scalar; 16],
    /// Projection matrix of the previous frame.
    ///
    /// Default: the bits of `0.0` in every place.
    pub view_to_clip_matrix_prev: [Scalar; 16],
    /// World space to camera space.
    ///
    /// Default: the bits of `0.0` in every place.
    pub world_to_view_matrix: [Scalar; 16],
    /// World space to camera space, previous frame.
    ///
    /// Default: the bits of `0.0` in every place.
    pub world_to_view_matrix_prev: [Scalar; 16],
    /// Previous world space to current world space; the identity unless the
    /// world frame itself moves.
    ///
    /// Default: the identity, the bits of `1.0` on the diagonal and of `0.0`
    /// elsewhere.
    pub world_prev_to_world_matrix: [Scalar; 16],
    /// Factor applied to the motion vectors.
    ///
    /// Default: the bits of `[1.0, 1.0, 0.0]`.
    pub motion_vector_scale: [Scalar; 3],
    /// Sub-pixel jitter of the camera, each component within half a pixel.
    ///
    /// Default: the bits of `[0.0, 0.0]`.
    pub camera_jitter: [Scalar; 2],
    /// Jitter of the previous frame.
    ///
    /// Default: the bits of `[0.0, 0.0]`.
    pub camera_jitter_prev: [Scalar; 2],
    /// Dynamic resolution scale, above zero and at most one.
    ///
    /// Default: the bits of `[1.0, 1.0]`.
    pub resolution_scale: [Scalar; 2],
    /// Resolution scale of the previous frame.
    ///
    /// Default: the bits of `[1.0, 1.0]`.
    pub resolution_scale_prev: [Scalar; 2],
    /// Milliseconds since the previous frame; tracked internally unless above
    /// zero.
    ///
    /// Default: the bits of `0.0`.
    pub time_delta_between_frames: Scalar,
    /// Distance beyond which nothing is denoised.
    ///
    /// Default: the bits of `500000.0`.
    pub denoising_range: Scalar,
    /// Relative depth difference above which history is reset.
    ///
    /// Default: the bits of `0.01`.
    pub disocclusion_threshold: Scalar,
    /// Second threshold, mixed in by the threshold-mix input.
    ///
    /// Default: the bits of `0.05`.
    pub disocclusion_threshold_alternate: Scalar,
    /// Share of the screen that shows the noisy input, from zero to one.
    ///
    /// Default: the bits of `0.0`.
    pub split_screen: Scalar,
    /// For internal needs.
    ///
    /// Default: the bits of `0.0`.
    pub debug: Scalar,
    /// Origin, in pixels, of the data rectangle in all input textures.
    ///
    /// Default: `[0, 0]`.
    pub input_subrect_origin: [u32; 2],
    /// A consecutive number.
    ///
    /// Default: `0`.
    pub frame_index: u32,
    /// Set to a restarting mode for one frame to reset history.
    ///
    /// Default: `Continue`.
    pub accumulation_mode: AccumulationMode,
    /// Whether motion vectors are 3D and in world space.
    ///
    /// Default: `false`.
    pub is_motion_vector_in_world_space: bool,
    /// Whether the confidence inputs are bound.
    ///
    /// Default: `false`.
    pub is_history_confidence_available: bool,
    /// Whether the threshold-mix input is bound.
    ///
    /// Default: `false`.
    pub is_disocclusion_threshold_mix_available: bool,
    /// Whether the base color and metalness input is bound.
    ///
    /// Default: `false`.
    pub is_base_color_metalness_available: bool,
    /// Whether the debug overlay is written.
    ///
    /// Default: `false`.
    pub enable_validation: bool,
}

impl Default for CommonSettings {
    /// The record with every field at its documented default.
    fn default() -> (r: Self)
        ensures
            forall|i: int| 0 <= i < 16 ==> r.view_to_clip_matrix[i] == Scalar(0x0000_0000),
            forall|i: int| 0 <= i < 16 ==> r.view_to_clip_matrix_prev[i] == Scalar(0x0000_0000),
            forall|i: int| 0 <= i < 16 ==> r.world_to_view_matrix[i] == Scalar(0x0000_0000),
            forall|i: int| 0 <= i < 16 ==> r.world_to_view_matrix_prev[i] == Scalar(0x0000_0000),
            forall|i: int|
                0 <= i < 16 ==> r.world_prev_to_world_matrix[i] == if i % 5 == 0 {
                    Scalar(0x3f80_0000)
                } else {
                    Scalar(0x0000_0000)
                },
            r.motion_vector_scale@ == seq![
                Scalar(0x3f80_0000),
                Scalar(0x3f80_0000),
                Scalar(0x0000_0000),
            ],
            r.camera_jitter@ == seq![Scalar(0x0000_0000), Scalar(0x0000_0000)],
            r.camera_jitter_prev@ == seq![Scalar(0x0000_0000), Scalar(0x0000_0000)],
            r.resolution_scale@ == seq![Scalar(0x3f80_0000), Scalar(0x3f80_0000)],
            r.resolution_scale_prev@ == seq![Scalar(0x3f80_0000), Scalar(0x3f80_0000)],
            r.time_delta_between_frames == Scalar(0x0000_0000),
            r.denoising_range == Scalar(0x48f4_2400),
            r.disocclusion_threshold == Scalar(0x3c23_d70a),
            r.disocclusion_threshold_alternate == Scalar(0x3d4c_cccd),
            r.split_screen == Scalar(0x0000_0000),
            r.debug == Scalar(0x0000_0000),
            r.input_subrect_origin@ == seq![0u32, 0u32],
            r.frame_index == 0,
            r.accumulation_mode == AccumulationMode::Continue,
            r.is_motion_vector_in_world_space == false,
            r.is_history_confidence_available == false,
            r.is_disocclusion_threshold_mix_available == false,
            r.is_base_color_metalness_available == false,
            r.enable_validation == false,
    {
        CommonSettings {
            view_to_clip_matrix: [Scalar(0x0000_0000); 16],
            view_to_clip_matrix_prev: [Scalar(0x0000_0000); 16],
            world_to_view_matrix: [Scalar(0x0000_0000); 16],
            world_to_view_matrix_prev: [Scalar(0x0000_0000); 16],
            world_prev_to_world_matrix: [
                Scalar(0x3f80_0000),
                Scalar(0x0000_0000),
                Scalar(0x0000_0000),
                Scalar(0x0000_0000),
                Scalar(0x0000_0000),
                Scalar(0x3f80_0000),
                Scalar(0x0000_0000),
                Scalar(0x0000_0000),
                Scalar(0x0000_0000),
                Scalar(0x0000_0000),
                Scalar(0x3f80_0000),
                Scalar(0x0000_0000),
                Scalar(0x0000_0000),
                Scalar(0x0000_0000),
                Scalar(0x0000_0000),
                Scalar(0x3f80_0000),
            ],
            motion_vector_scale: [
                Scalar(0x3f80_0000),
                Scalar(0x3f80_0000),
                Scalar(0x0000_0000),
            ],
            camera_jitter: [Scalar(0x0000_0000), Scalar(0x0000_0000)],
            camera_jitter_prev: [Scalar(0x0000_0000), Scalar(0x0000_0000)],
            resolution_scale: [Scalar(0x3f80_0000), Scalar(0x3f80_0000)],
            resolution_scale_prev: [Scalar(0x3f80_0000), Scalar(0x3f80_0000)],
            time_delta_between_frames: Scalar(0x0000_0000),
            denoising_range: Scalar(0x48f4_2400),
            disocclusion_threshold: Scalar(0x3c23_d70a),
            disocclusion_threshold_alternate: Scalar(0x3d4c_cccd),
            split_screen: Scalar(0x0000_0000),
            debug: Scalar(0x0000_0000),
            input_subrect_origin: [0, 0],
            frame_index: 0,
            accumulation_mode: AccumulationMode::Continue,
            is_motion_vector_in_world_space: false,
            is_history_confidence_available: false,
            is_disocclusion_threshold_mix_available: false,
            is_base_color_metalness_available: false,
            enable_validation: false,
        }
    }
}

/// Parameters of the hit distance normalisation.
#[derive(Debug, Clone, Copy, PartialEq, Eq)]
pub struct HitDistanceParameters {
    /// Constant term, in scene units.
    ///
    /// Default: the bits of `3.0`.
    pub a: Scalar,
    /// Linear scale by view depth, above zero.
    ///
    /// Default: the bits of `0.1`.
    pub b: Scalar,
    /// Scale by roughness, at least one.
    ///
    /// Default: the bits of `20.0`.
    pub c: Scalar,
    /// Exponent of the roughness falloff, at most zero.
    ///
    /// Default: the bits of `-25.0`.
    pub d: Scalar,
}

impl HitDistanceParameters {
    /// The record with every field at its documented default.
    pub open spec fn default_value() -> HitDistanceParameters {
        HitDistanceParameters {
            a: Scalar(0x4040_0000),
            b: Scalar(0x3dcc_cccd),
            c: Scalar(0x41a0_0000),
            d: Scalar(0xc1c8_0000),
        }
    }
}

impl Default for HitDistanceParameters {
    /// The record with every field at its documented default.
    fn default() -> (r: Self)
        ensures
            r == HitDistanceParameters::default_value(),
    {
        HitDistanceParameters {
            a: Scalar(0x4040_0000),
            b: Scalar(0x3dcc_cccd),
            c: Scalar(0x41a0_0000),
            d: Scalar(0xc1c8_0000),
        }
    }
}

/// Antilag driven by changes of intensity.
#[derive(Debug, Clone, Copy, PartialEq, Eq)]
pub struct AntilagIntensitySettings {
    /// Below this change accumulation is kept.
    ///
    /// Default: the bits of `0.3`.
    pub threshold_min: Scalar,
    /// Above this change history is reset.
    ///
    /// Default: the bits of `0.2`.
    pub threshold_max: Scalar,
    /// The change is reduced by the local variance times this factor.
    ///
    /// Default: the bits of `1.0`.
    pub sigma_scale: Scalar,
    /// Larger values make antilag less sensitive in dark places.
    ///
    /// Default: the bits of `0.0`.
    pub sensitivity_to_darkness: Scalar,
    /// Off unless the sensitivity has been tuned by the host.
    ///
    /// Default: `false`.
    pub enable: bool,
}

impl AntilagIntensitySettings {
    /// The record with every field at its documented default.
    pub open spec fn default_value() -> AntilagIntensitySettings {
        AntilagIntensitySettings {
            threshold_min: Scalar(0x3e99_999a),
            threshold_max: Scalar(0x3e4c_cccd),
            sigma_scale: Scalar(0x3f80_0000),
            sensitivity_to_darkness: Scalar(0x0000_0000),
            enable: false,
        }
    }
}

impl Default for AntilagIntensitySettings {
    /// The record with every field at its documented default.
    fn default() -> (r: Self)
        ensures
            r == AntilagIntensitySettings::default_value(),
    {
        AntilagIntensitySettings {
            threshold_min: Scalar(0x3e99_999a),
            threshold_max: Scalar(0x3e4c_cccd),
            sigma_scale: Scalar(0x3f80_0000),
            sensitivity_to_darkness: Scalar(0x0000_0000),
            enable: false,
        }
    }
}

/// Antilag driven by changes of hit distance.
#[derive(Debug, Clone, Copy, PartialEq, Eq)]
pub struct AntilagHitDistanceSettings {
    /// Below this change accumulation is kept.
    ///
    /// Default: the bits of `0.03`.
    pub threshold_min: Scalar,
    /// Above this change history is reset.
    ///
    /// Default: the bits of `0.2`.
    pub threshold_max: Scalar,
    /// The change is reduced by the local variance times this factor.
    ///
    /// Default: the bits of `1.0`.
    pub sigma_scale: Scalar,
    /// Hit distances are normalized; above zero and at most one.
    ///
    /// Default: the bits of `0.1`.
    pub sensitivity_to_darkness: Scalar,
    /// On by default.
    ///
    /// Default: `true`.
    pub enable: bool,
}

impl AntilagHitDistanceSettings {
    /// The record with every field at its documented default.
    pub open spec fn default_value() -> AntilagHitDistanceSettings {
        AntilagHitDistanceSettings {
            threshold_min: Scalar(0x3cf5_c28f),
            threshold_max: Scalar(0x3e4c_cccd),
            sigma_scale: Scalar(0x3f80_0000),
            sensitivity_to_darkness: Scalar(0x3dcc_cccd),
            enable: true,
        }
    }
}

impl Default for AntilagHitDistanceSettings {
    /// The record with every field at its documented default.
    fn default() -> (r: Self)
        ensures
            r == AntilagHitDistanceSettings::default_value(),
    {
        AntilagHitDistanceSettings {
            threshold_min: Scalar(0x3cf5_c28f),
            threshold_max: Scalar(0x3e4c_cccd),
            sigma_scale: Scalar(0x3f80_0000),
            sensitivity_to_darkness: Scalar(0x3dcc_cccd),
            enable: true,
        }
    }
}

/// Which half of a checkerboarded input carries the diffuse signal.
#[derive(Debug, Clone, Copy, PartialEq, Eq, Structural)]
pub enum CheckerboardMode {
    /// The input is not checkerboarded.
    Off,
    /// Diffuse on the black squares.
    Black,
    /// Diffuse on the white squares.
    White,
}

impl CheckerboardMode {
    /// The code that stands for this value in a native record.
    pub open spec fn raw_value(self) -> u8 {
        match self {
            CheckerboardMode::Off => 0,
            CheckerboardMode::Black => 1,
            CheckerboardMode::White => 2,
        }
    }

    /// Encodes the value for a native record.
    pub fn raw(self) -> (code: u8)
        ensures
            code == self.raw_value(),
    {
        match self {
            CheckerboardMode::Off => 0,
            CheckerboardMode::Black => 1,
            CheckerboardMode::White => 2,
        }
    }

    /// Decodes a code read from a native record. A code that stands for no
    /// value of this type is refused.
    pub fn from_raw(code: u8) -> (r: Option<CheckerboardMode>)
        ensures
            match r {
                Some(v) => v.raw_value() == code,
                None => forall|v: CheckerboardMode| v.raw_value() != code,
            },
    {
        match code {
            0 => Some(CheckerboardMode::Off),
            1 => Some(CheckerboardMode::Black),
            2 => Some(CheckerboardMode::White),
            _ => None,
        }
    }
}

/// How an invalid hit distance is rebuilt from its neighbours.
#[derive(Debug, Clone, Copy, PartialEq, Eq, Structural)]
pub enum HitDistanceReconstructionMode {
    /// Hit distances are always valid; nothing is rebuilt.
    Off,
    /// Rebuilt from the 3x3 neighbourhood.
    Area3x3,
    /// Rebuilt from the 5x5 neighbourhood.
    Area5x5,
}

impl HitDistanceReconstructionMode {
    /// The code that stands for this value in a native record.
    pub open spec fn raw_value(self) -> u8 {
        match self {
            HitDistanceReconstructionMode::Off => 0,
            HitDistanceReconstructionMode::Area3x3 => 1,
            HitDistanceReconstructionMode::Area5x5 => 2,
        }
    }

    /// Encodes the value for a native record.
    pub fn raw(self) -> (code: u8)
        ensures
            code == self.raw_value(),
    {
        match self {
            HitDistanceReconstructionMode::Off => 0,
            HitDistanceReconstructionMode::Area3x3 => 1,
            HitDistanceReconstructionMode::Area5x5 => 2,
        }
    }

    /// Decodes a code read from a native record. A code that stands for no
    /// value of this type is refused.
    pub fn from_raw(code: u8) -> (r: Option<HitDistanceReconstructionMode>)
        ensures
            match r {
                Some(v) => v.raw_value() == code,
                None => forall|v: HitDistanceReconstructionMode| v.raw_value() != code,
            },
    {
        match code {
            0 => Some(HitDistanceReconstructionMode::Off),
            1 => Some(HitDistanceReconstructionMode::Area3x3),
            2 => Some(HitDistanceReconstructionMode::Area5x5),
            _ => None,
        }
    }
}

/// Tuning of the recurrent-blur denoisers.
#[derive(Debug, Clone, Copy, PartialEq, Eq)]
pub struct ReblurSettings {
    pub hit_distance_parameters: HitDistanceParameters,
    pub antilag_intensity_settings: AntilagIntensitySettings,
    pub antilag_hit_distance_settings: AntilagHitDistanceSettings,
    /// Most frames accumulated linearly.
    ///
    /// Default: `30`.
    pub max_accumulated_frame_num: u32,
    /// Most frames accumulated in the fast history.
    ///
    /// Default: `6`.
    pub max_fast_accumulated_frame_num: u32,
    /// Frames reconstructed after a history reset.
    ///
    /// Default: `3`.
    pub history_fix_frame_num: u32,
    /// Radius, in pixels, of the diffuse spatial reuse pass; zero turns it off.
    ///
    /// Default: the bits of `30.0`.
    pub diffuse_prepass_blur_radius: Scalar,
    /// Radius, in pixels, of the specular spatial reuse pass.
    ///
    /// Default: the bits of `50.0`.
    pub specular_prepass_blur_radius: Scalar,
    /// Base denoising radius in pixels.
    ///
    /// Default: the bits of `15.0`.
    pub blur_radius: Scalar,
    /// Base stride, in pixels, between samples of history reconstruction.
    ///
    /// Default: the bits of `14.0`.
    pub history_fix_stride_between_samples: Scalar,
    /// Fraction of the lobe angle that drives normal-based rejection.
    ///
    /// Default: the bits of `0.15`.
    pub lobe_angle_fraction: Scalar,
    /// Fraction of the centre roughness that drives roughness-based rejection.
    ///
    /// Default: the bits of `0.15`.
    pub roughness_fraction: Scalar,
    /// Below this roughness accumulation becomes responsive.
    ///
    /// Default: the bits of `0.0`.
    pub responsive_accumulation_roughness_threshold: Scalar,
    /// How much the output is stabilized.
    ///
    /// Default: the bits of `1.0`.
    pub stabilization_strength: Scalar,
    /// Largest allowed deviation from the local tangent plane.
    ///
    /// Default: the bits of `0.005`.
    pub plane_distance_sensitivity: Scalar,
    /// Between these specular probabilities the motion vectors blend towards
    /// specular motion.
    ///
    /// Default: the bits of `[0.5, 0.9]`.
    pub specular_probability_thresholds_for_mv_modification: [Scalar; 2],
    /// Default: `Off`.
    pub checkerboard_mode: CheckerboardMode,
    /// Default: `Off`.
    pub hit_distance_reconstruction_mode: HitDistanceReconstructionMode,
    /// Fights fireflies at the cost of some bias.
    ///
    /// Default: `false`.
    pub enable_anti_firefly: bool,
    /// Turns off spatial filtering.
    ///
    /// Default: `false`.
    pub enable_reference_accumulation: bool,
    /// Trades quality for speed.
    ///
    /// Default: `false`.
    pub enable_performance_mode: bool,
    /// Spatial passes compare material indices of diffuse samples.
    ///
    /// Default: `false`.
    pub enable_material_test_for_diffuse: bool,
    /// Spatial passes compare material indices of specular samples.
    ///
    /// Default: `false`.
    pub enable_material_test_for_specular: bool,
}

impl Default for ReblurSettings {
    /// The record with every field at its documented default.
    fn default() -> (r: Self)
        ensures
            r.hit_distance_parameters == HitDistanceParameters::default_value(),
            r.antilag_intensity_settings == AntilagIntensitySettings::default_value(),
            r.antilag_hit_distance_settings == AntilagHitDistanceSettings::default_value(),
            r.max_accumulated_frame_num == 30,
            r.max_fast_accumulated_frame_num == 6,
            r.history_fix_frame_num == 3,
            r.diffuse_prepass_blur_radius == Scalar(0x41f0_0000),
            r.specular_prepass_blur_radius == Scalar(0x4248_0000),
            r.blur_radius == Scalar(0x4170_0000),
            r.history_fix_stride_between_samples == Scalar(0x4160_0000),
            r.lobe_angle_fraction == Scalar(0x3e19_999a),
            r.roughness_fraction == Scalar(0x3e19_999a),
            r.responsive_accumulation_roughness_threshold == Scalar(0x0000_0000),
            r.stabilization_strength == Scalar(0x3f80_0000),
            r.plane_distance_sensitivity == Scalar(0x3ba3_d70a),
            r.specular_probability_thresholds_for_mv_modification@ == seq![
                Scalar(0x3f00_0000),
                Scalar(0x3f66_6666),
            ],
            r.checkerboard_mode == CheckerboardMode::Off,
            r.hit_distance_reconstruction_mode == HitDistanceReconstructionMode::Off,
            r.enable_anti_firefly == false,
            r.enable_reference_accumulation == false,
            r.enable_performance_mode == false,
            r.enable_material_test_for_diffuse == false,
            r.enable_material_test_for_specular == false,
    {
        ReblurSettings {
            hit_distance_parameters: HitDistanceParameters::default(),
            antilag_intensity_settings: AntilagIntensitySettings::default(),
            antilag_hit_distance_settings: AntilagHitDistanceSettings::default(),
            max_accumulated_frame_num: 30,
            max_fast_accumulated_frame_num: 6,
            history_fix_frame_num: 3,
            diffuse_prepass_blur_radius: Scalar(0x41f0_0000),
            specular_prepass_blur_radius: Scalar(0x4248_0000),
            blur_radius: Scalar(0x4170_0000),
            history_fix_stride_between_samples: Scalar(0x4160_0000),
            lobe_angle_fraction: Scalar(0x3e19_999a),
            roughness_fraction: Scalar(0x3e19_999a),
            responsive_accumulation_roughness_threshold: Scalar(0x0000_0000),
            stabilization_strength: Scalar(0x3f80_0000),
            plane_distance_sensitivity: Scalar(0x3ba3_d70a),
            specular_probability_thresholds_for_mv_modification: [
                Scalar(0x3f00_0000),
                Scalar(0x3f66_6666),
            ],
            checkerboard_mode: CheckerboardMode::Off,
            hit_distance_reconstruction_mode: HitDistanceReconstructionMode::Off,
            enable_anti_firefly: false,
            enable_reference_accumulation: false,
            enable_performance_mode: false,
            enable_material_test_for_diffuse: false,
            enable_material_test_for_specular: false,
        }
    }
}

impl DenoiserSettings for ReblurSettings {
    open spec fn family_of() -> SettingsFamily {
        SettingsFamily::Reblur
    }

    fn family(&self) -> SettingsFamily {
        SettingsFamily::Reblur
    }
}

/// Tuning of the shadow denoisers.
#[derive(Debug, Clone, Copy, PartialEq, Eq)]
pub struct SigmaSettings {
    /// Largest allowed deviation from the local tangent plane.
    ///
    /// Default: the bits of `0.005`.
    pub plane_distance_sensitivity: Scalar,
    /// From one to three; above one adds bias and stability.
    ///
    /// Default: the bits of `2.0`.
    pub blur_radius_scale: Scalar,
}

impl SigmaSettings {
    /// The record with every field at its documented default.
    pub open spec fn default_value() -> SigmaSettings {
        SigmaSettings {
            plane_distance_sensitivity: Scalar(0x3ba3_d70a),
            blur_radius_scale: Scalar(0x4000_0000),
        }
    }
}

impl Default for SigmaSettings {
    /// The record with every field at its documented default.
    fn default() -> (r: Self)
        ensures
            r == SigmaSettings::default_value(),
    {
        SigmaSettings {
            plane_distance_sensitivity: Scalar(0x3ba3_d70a),
            blur_radius_scale: Scalar(0x4000_0000),
        }
    }
}

impl DenoiserSettings for SigmaSettings {
    open spec fn family_of() -> SettingsFamily {
        SettingsFamily::Sigma
    }

    fn family(&self) -> SettingsFamily {
        SettingsFamily::Sigma
    }
}

/// Tuning of the a-trous denoisers that filter diffuse and specular
/// together.
#[derive(Debug, Clone, Copy, PartialEq, Eq)]
pub struct RelaxDiffuseSpecularSettings {
    /// Radius, in pixels, of the diffuse spatial reuse pass; zero turns it off.
    ///
    /// Default: the bits of `0.0`.
    pub diffuse_prepass_blur_radius: Scalar,
    /// Radius, in pixels, of the specular spatial reuse pass.
    ///
    /// Default: the bits of `50.0`.
    pub specular_prepass_blur_radius: Scalar,
    /// Most diffuse frames accumulated linearly.
    ///
    /// Default: `30`.
    pub diffuse_max_accumulated_frame_num: u32,
    /// Most specular frames accumulated linearly.
    ///
    /// Default: `30`.
    pub specular_max_accumulated_frame_num: u32,
    /// Most diffuse frames in the fast history.
    ///
    /// Default: `6`.
    pub diffuse_max_fast_accumulated_frame_num: u32,
    /// Most specular frames in the fast history.
    ///
    /// Default: `6`.
    pub specular_max_fast_accumulated_frame_num: u32,
    /// Frames reconstructed after a history reset.
    ///
    /// Default: `3`.
    pub history_fix_frame_num: u32,
    /// Luminance sensitivity of the diffuse edge stopping.
    ///
    /// Default: the bits of `2.0`.
    pub diffuse_phi_luminance: Scalar,
    /// Luminance sensitivity of the specular edge stopping.
    ///
    /// Default: the bits of `1.0`.
    pub specular_phi_luminance: Scalar,
    /// Fraction of the diffuse lobe angle that drives normal-based rejection.
    ///
    /// Default: the bits of `0.5`.
    pub diffuse_lobe_angle_fraction: Scalar,
    /// Fraction of the specular lobe angle that drives normal-based rejection.
    ///
    /// Default: the bits of `0.5`.
    pub specular_lobe_angle_fraction: Scalar,
    /// Fraction of the centre roughness that drives roughness-based rejection.
    ///
    /// Default: the bits of `0.15`.
    pub roughness_fraction: Scalar,
    /// Variance injected into specular where reprojection is uncertain.
    ///
    /// Default: the bits of `0.0`.
    pub specular_variance_boost: Scalar,
    /// Slack, in degrees, of the specular lobe angle.
    ///
    /// Default: the bits of `0.15`.
    pub specular_lobe_angle_slack: Scalar,
    /// Base stride, in pixels, between samples of history reconstruction.
    ///
    /// Default: the bits of `14.0`.
    pub history_fix_stride_between_samples: Scalar,
    /// Normal edge stopper of history reconstruction, above zero.
    ///
    /// Default: the bits of `8.0`.
    pub history_fix_edge_stopping_normal_power: Scalar,
    /// From one to three; scale of the colour box that clamps the slow history.
    ///
    /// Default: the bits of `2.0`.
    pub history_clamping_color_box_sigma_scale: Scalar,
    /// Below this history length variance is estimated spatially.
    ///
    /// Default: `3`.
    pub spatial_variance_estimation_history_threshold: u32,
    /// From two to eight; iterations of the wavelet transform.
    ///
    /// Default: `5`.
    pub atrous_iteration_num: u32,
    /// Least luminance weight of diffuse edge stopping.
    ///
    /// Default: the bits of `0.0`.
    pub diffuse_min_luminance_weight: Scalar,
    /// Least luminance weight of specular edge stopping.
    ///
    /// Default: the bits of `0.0`.
    pub specular_min_luminance_weight: Scalar,
    /// Depth threshold of the spatial passes.
    ///
    /// Default: the bits of `0.003`.
    pub depth_threshold: Scalar,
    /// How much low confidence relaxes the spatial weights.
    ///
    /// Default: the bits of `0.0`.
    pub confidence_driven_relaxation_multiplier: Scalar,
    /// Default: the bits of `0.0`.
    pub confidence_driven_luminance_edge_stopping_relaxation: Scalar,
    /// Default: the bits of `0.0`.
    pub confidence_driven_normal_edge_stopping_relaxation: Scalar,
    /// How much weak specular reprojection relaxes luminance rejection.
    ///
    /// Default: the bits of `0.5`.
    pub luminance_edge_stopping_relaxation: Scalar,
    /// How much weak specular reprojection relaxes normal rejection.
    ///
    /// Default: the bits of `0.3`.
    pub normal_edge_stopping_relaxation: Scalar,
    /// How much roughness and view vector relax rejection.
    ///
    /// Default: the bits of `1.0`.
    pub roughness_edge_stopping_relaxation: Scalar,
    /// Default: `Off`.
    pub checkerboard_mode: CheckerboardMode,
    /// Default: `Off`.
    pub hit_distance_reconstruction_mode: HitDistanceReconstructionMode,
    /// Suppresses fireflies.
    ///
    /// Default: `false`.
    pub enable_anti_firefly: bool,
    /// Skips the reprojection test where nothing moves.
    ///
    /// Default: `false`.
    pub enable_reprojection_test_skipping_without_motion: bool,
    /// Rejects samples by roughness.
    ///
    /// Default: `true`.
    pub enable_roughness_edge_stopping: bool,
    /// Spatial passes compare material indices of diffuse samples.
    ///
    /// Default: `false`.
    pub enable_material_test_for_diffuse: bool,
    /// Spatial passes compare material indices of specular samples.
    ///
    /// Default: `false`.
    pub enable_material_test_for_specular: bool,
}

impl RelaxDiffuseSpecularSettings {
    /// The record with every field at its documented default.
    pub open spec fn default_value() -> RelaxDiffuseSpecularSettings {
        RelaxDiffuseSpecularSettings {
            diffuse_prepass_blur_radius: Scalar(0x0000_0000),
            specular_prepass_blur_radius: Scalar(0x4248_0000),
            diffuse_max_accumulated_frame_num: 30,
            specular_max_accumulated_frame_num: 30,
            diffuse_max_fast_accumulated_frame_num: 6,
            specular_max_fast_accumulated_frame_num: 6,
            history_fix_frame_num: 3,
            diffuse_phi_luminance: Scalar(0x4000_0000),
            specular_phi_luminance: Scalar(0x3f80_0000),
            diffuse_lobe_angle_fraction: Scalar(0x3f00_0000),
            specular_lobe_angle_fraction: Scalar(0x3f00_0000),
            roughness_fraction: Scalar(0x3e19_999a),
            specular_variance_boost: Scalar(0x0000_0000),
            specular_lobe_angle_slack: Scalar(0x3e19_999a),
            history_fix_stride_between_samples: Scalar(0x4160_0000),
            history_fix_edge_stopping_normal_power: Scalar(0x4100_0000),
            history_clamping_color_box_sigma_scale: Scalar(0x4000_0000),
            spatial_variance_estimation_history_threshold: 3,
            atrous_iteration_num: 5,
            diffuse_min_luminance_weight: Scalar(0x0000_0000),
            specular_min_luminance_weight: Scalar(0x0000_0000),
            depth_threshold: Scalar(0x3b44_9ba6),
            confidence_driven_relaxation_multiplier: Scalar(0x0000_0000),
            confidence_driven_luminance_edge_stopping_relaxation: Scalar(0x0000_0000),
            confidence_driven_normal_edge_stopping_relaxation: Scalar(0x0000_0000),
            luminance_edge_stopping_relaxation: Scalar(0x3f00_0000),
            normal_edge_stopping_relaxation: Scalar(0x3e99_999a),
            roughness_edge_stopping_relaxation: Scalar(0x3f80_0000),
            checkerboard_mode: CheckerboardMode::Off,
            hit_distance_reconstruction_mode: HitDistanceReconstructionMode::Off,
            enable_anti_firefly: false,
            enable_reprojection_test_skipping_without_motion: false,
            enable_roughness_edge_stopping: true,
            enable_material_test_for_diffuse: false,
            enable_material_test_for_specular: false,
        }
    }
}

impl Default for RelaxDiffuseSpecularSettings {
    /// The record with every field at its documented default.
    fn default() -> (r: Self)
        ensures
            r == RelaxDiffuseSpecularSettings::default_value(),
    {
        RelaxDiffuseSpecularSettings {
            diffuse_prepass_blur_radius: Scalar(0x0000_0000),
            specular_prepass_blur_radius: Scalar(0x4248_0000),
            diffuse_max_accumulated_frame_num: 30,
            specular_max_accumulated_frame_num: 30,
            diffuse_max_fast_accumulated_frame_num: 6,
            specular_max_fast_accumulated_frame_num: 6,
            history_fix_frame_num: 3,
            diffuse_phi_luminance: Scalar(0x4000_0000),
            specular_phi_luminance: Scalar(0x3f80_0000),
            diffuse_lobe_angle_fraction: Scalar(0x3f00_0000),
            specular_lobe_angle_fraction: Scalar(0x3f00_0000),
            roughness_fraction: Scalar(0x3e19_999a),
            specular_variance_boost: Scalar(0x0000_0000),
            specular_lobe_angle_slack: Scalar(0x3e19_999a),
            history_fix_stride_between_samples: Scalar(0x4160_0000),
            history_fix_edge_stopping_normal_power: Scalar(0x4100_0000),
            history_clamping_color_box_sigma_scale: Scalar(0x4000_0000),
            spatial_variance_estimation_history_threshold: 3,
            atrous_iteration_num: 5,
            diffuse_min_luminance_weight: Scalar(0x0000_0000),
            specular_min_luminance_weight: Scalar(0x0000_0000),
            depth_threshold: Scalar(0x3b44_9ba6),
            confidence_driven_relaxation_multiplier: Scalar(0x0000_0000),
            confidence_driven_luminance_edge_stopping_relaxation: Scalar(0x0000_0000),
            confidence_driven_normal_edge_stopping_relaxation: Scalar(0x0000_0000),
            luminance_edge_stopping_relaxation: Scalar(0x3f00_0000),
            normal_edge_stopping_relaxation: Scalar(0x3e99_999a),
            roughness_edge_stopping_relaxation: Scalar(0x3f80_0000),
            checkerboard_mode: CheckerboardMode::Off,
            hit_distance_reconstruction_mode: HitDistanceReconstructionMode::Off,
            enable_anti_firefly: false,
            enable_reprojection_test_skipping_without_motion: false,
            enable_roughness_edge_stopping: true,
            enable_material_test_for_diffuse: false,
            enable_material_test_for_specular: false,
        }
    }
}

impl DenoiserSettings for RelaxDiffuseSpecularSettings {
    open spec fn family_of() -> SettingsFamily {
        SettingsFamily::RelaxDiffuseSpecular
    }

    fn family(&self) -> SettingsFamily {
        SettingsFamily::RelaxDiffuseSpecular
    }
}

/// Tuning of the a-trous denoisers that filter diffuse alone.
#[derive(Debug, Clone, Copy, PartialEq, Eq)]
pub struct RelaxDiffuseSettings {
    /// Radius, in pixels, of the spatial reuse pass; zero turns it off.
    ///
    /// Default: the bits of `0.0`.
    pub prepass_blur_radius: Scalar,
    /// Most frames accumulated linearly.
    ///
    /// Default: `30`.
    pub diffuse_max_accumulated_frame_num: u32,
    /// Most frames in the fast history.
    ///
    /// Default: `6`.
    pub diffuse_max_fast_accumulated_frame_num: u32,
    /// Frames reconstructed after a history reset.
    ///
    /// Default: `3`.
    pub history_fix_frame_num: u32,
    /// Luminance sensitivity of the edge stopping.
    ///
    /// Default: the bits of `2.0`.
    pub diffuse_phi_luminance: Scalar,
    /// Fraction of the lobe angle that drives normal-based rejection.
    ///
    /// Default: the bits of `0.5`.
    pub diffuse_lobe_angle_fraction: Scalar,
    /// Normal edge stopper of history reconstruction, above zero.
    ///
    /// Default: the bits of `8.0`.
    pub history_fix_edge_stopping_normal_power: Scalar,
    /// Base stride, in pixels, between samples of history reconstruction.
    ///
    /// Default: the bits of `14.0`.
    pub history_fix_stride_between_samples: Scalar,
    /// From one to three; scale of the colour box that clamps the slow history.
    ///
    /// Default: the bits of `2.0`.
    pub history_clamping_color_box_sigma_scale: Scalar,
    /// Below this history length variance is estimated spatially.
    ///
    /// Default: `3`.
    pub spatial_variance_estimation_history_threshold: u32,
    /// From two to eight; iterations of the wavelet transform.
    ///
    /// Default: `5`.
    pub atrous_iteration_num: u32,
    /// Least luminance weight of edge stopping.
    ///
    /// Default: the bits of `0.0`.
    pub min_luminance_weight: Scalar,
    /// Depth threshold of the spatial passes.
    ///
    /// Default: the bits of `0.01`.
    pub depth_threshold: Scalar,
    /// How much low confidence relaxes the spatial weights.
    ///
    /// Default: the bits of `0.0`.
    pub confidence_driven_relaxation_multiplier: Scalar,
    /// Default: the bits of `0.0`.
    pub confidence_driven_luminance_edge_stopping_relaxation: Scalar,
    /// Default: the bits of `0.0`.
    pub confidence_driven_normal_edge_stopping_relaxation: Scalar,
    /// Default: `Off`.
    pub checkerboard_mode: CheckerboardMode,
    /// Default: `Off`.
    pub hit_distance_reconstruction_mode: HitDistanceReconstructionMode,
    /// Suppresses fireflies.
    ///
    /// Default: `false`.
    pub enable_anti_firefly: bool,
    /// Skips the reprojection test where nothing moves.
    ///
    /// Default: `false`.
    pub enable_reprojection_test_skipping_without_motion: bool,
    /// Spatial passes compare material indices.
    ///
    /// Default: `false`.
    pub enable_material_test: bool,
}

impl RelaxDiffuseSettings {
    /// The record with every field at its documented default.
    pub open spec fn default_value() -> RelaxDiffuseSettings {
        RelaxDiffuseSettings {
            prepass_blur_radius: Scalar(0x0000_0000),
            diffuse_max_accumulated_frame_num: 30,
            diffuse_max_fast_accumulated_frame_num: 6,
            history_fix_frame_num: 3,
            diffuse_phi_luminance: Scalar(0x4000_0000),
            diffuse_lobe_angle_fraction: Scalar(0x3f00_0000),
            history_fix_edge_stopping_normal_power: Scalar(0x4100_0000),
            history_fix_stride_between_samples: Scalar(0x4160_0000),
            history_clamping_color_box_sigma_scale: Scalar(0x4000_0000),
            spatial_variance_estimation_history_threshold: 3,
            atrous_iteration_num: 5,
            min_luminance_weight: Scalar(0x0000_0000),
            depth_threshold: Scalar(0x3c23_d70a),
            confidence_driven_relaxation_multiplier: Scalar(0x0000_0000),
            confidence_driven_luminance_edge_stopping_relaxation: Scalar(0x0000_0000),
            confidence_driven_normal_edge_stopping_relaxation: Scalar(0x0000_0000),
            checkerboard_mode: CheckerboardMode::Off,
            hit_distance_reconstruction_mode: HitDistanceReconstructionMode::Off,
            enable_anti_firefly: false,
            enable_reprojection_test_skipping_without_motion: false,
            enable_material_test: false,
        }
    }
}

impl Default for RelaxDiffuseSettings {
    /// The record with every field at its documented default.
    fn default() -> (r: Self)
        ensures
            r == RelaxDiffuseSettings::default_value(),
    {
        RelaxDiffuseSettings {
            prepass_blur_radius: Scalar(0x0000_0000),
            diffuse_max_accumulated_frame_num: 30,
            diffuse_max_fast_accumulated_frame_num: 6,
            history_fix_frame_num: 3,
            diffuse_phi_luminance: Scalar(0x4000_0000),
            diffuse_lobe_angle_fraction: Scalar(0x3f00_0000),
            history_fix_edge_stopping_normal_power: Scalar(0x4100_0000),
            history_fix_stride_between_samples: Scalar(0x4160_0000),
            history_clamping_color_box_sigma_scale: Scalar(0x4000_0000),
            spatial_variance_estimation_history_threshold: 3,
            atrous_iteration_num: 5,
            min_luminance_weight: Scalar(0x0000_0000),
            depth_threshold: Scalar(0x3c23_d70a),
            confidence_driven_relaxation_multiplier: Scalar(0x0000_0000),
            confidence_driven_luminance_edge_stopping_relaxation: Scalar(0x0000_0000),
            confidence_driven_normal_edge_stopping_relaxation: Scalar(0x0000_0000),
            checkerboard_mode: CheckerboardMode::Off,
            hit_distance_reconstruction_mode: HitDistanceReconstructionMode::Off,
            enable_anti_firefly: false,
            enable_reprojection_test_skipping_without_motion: false,
            enable_material_test: false,
        }
    }
}

impl DenoiserSettings for RelaxDiffuseSettings {
    open spec fn family_of() -> SettingsFamily {
        SettingsFamily::RelaxDiffuse
    }

    fn family(&self) -> SettingsFamily {
        SettingsFamily::RelaxDiffuse
    }
}

/// Tuning of the a-trous denoisers that filter specular alone.
#[derive(Debug, Clone, Copy, PartialEq, Eq)]
pub struct RelaxSpecularSettings {
    /// Radius, in pixels, of the spatial reuse pass; zero turns it off.
    ///
    /// Default: the bits of `50.0`.
    pub prepass_blur_radius: Scalar,
    /// Most frames accumulated linearly.
    ///
    /// Default: `30`.
    pub specular_max_accumulated_frame_num: u32,
    /// Most frames in the fast history.
    ///
    /// Default: `6`.
    pub specular_max_fast_accumulated_frame_num: u32,
    /// Frames reconstructed after a history reset.
    ///
    /// Default: `3`.
    pub history_fix_frame_num: u32,
    /// Luminance sensitivity of the edge stopping.
    ///
    /// Default: the bits of `1.0`.
    pub specular_phi_luminance: Scalar,
    /// Fraction of the diffuse lobe angle that drives normal-based rejection.
    ///
    /// Default: the bits of `0.5`.
    pub diffuse_lobe_angle_fraction: Scalar,
    /// Fraction of the specular lobe angle that drives normal-based rejection.
    ///
    /// Default: the bits of `0.5`.
    pub specular_lobe_angle_fraction: Scalar,
    /// Fraction of the centre roughness that drives roughness-based rejection.
    ///
    /// Default: the bits of `0.15`.
    pub roughness_fraction: Scalar,
    /// Variance injected where reprojection is uncertain.
    ///
    /// Default: the bits of `0.0`.
    pub specular_variance_boost: Scalar,
    /// Slack, in degrees, of the specular lobe angle.
    ///
    /// Default: the bits of `0.15`.
    pub specular_lobe_angle_slack: Scalar,
    /// Normal edge stopper of history reconstruction, above zero.
    ///
    /// Default: the bits of `8.0`.
    pub history_fix_edge_stopping_normal_power: Scalar,
    /// Base stride, in pixels, between samples of history reconstruction.
    ///
    /// Default: the bits of `14.0`.
    pub history_fix_stride_between_samples: Scalar,
    /// From one to three; scale of the colour box that clamps the slow history.
    ///
    /// Default: the bits of `2.0`.
    pub history_clamping_color_box_sigma_scale: Scalar,
    /// Below this history length variance is estimated spatially.
    ///
    /// Default: `3`.
    pub spatial_variance_estimation_history_threshold: u32,
    /// From two to eight; iterations of the wavelet transform.
    ///
    /// Default: `5`.
    pub atrous_iteration_num: u32,
    /// Least luminance weight of edge stopping.
    ///
    /// Default: the bits of `0.0`.
    pub min_luminance_weight: Scalar,
    /// Depth threshold of the spatial passes.
    ///
    /// Default: the bits of `0.01`.
    pub depth_threshold: Scalar,
    /// How much low confidence relaxes the spatial weights.
    ///
    /// Default: the bits of `0.0`.
    pub confidence_driven_relaxation_multiplier: Scalar,
    /// Default: the bits of `0.0`.
    pub confidence_driven_luminance_edge_stopping_relaxation: Scalar,
    /// Default: the bits of `0.0`.
    pub confidence_driven_normal_edge_stopping_relaxation: Scalar,
    /// How much weak reprojection relaxes luminance rejection.
    ///
    /// Default: the bits of `0.5`.
    pub luminance_edge_stopping_relaxation: Scalar,
    /// How much weak reprojection relaxes normal rejection.
    ///
    /// Default: the bits of `0.3`.
    pub normal_edge_stopping_relaxation: Scalar,
    /// How much roughness and view vector relax rejection.
    ///
    /// Default: the bits of `1.0`.
    pub roughness_edge_stopping_relaxation: Scalar,
    /// Default: `Off`.
    pub checkerboard_mode: CheckerboardMode,
    /// Default: `Off`.
    pub hit_distance_reconstruction_mode: HitDistanceReconstructionMode,
    /// Suppresses fireflies.
    ///
    /// Default: `false`.
    pub enable_anti_firefly: bool,
    /// Skips the reprojection test where nothing moves.
    ///
    /// Default: `false`.
    pub enable_reprojection_test_skipping_without_motion: bool,
    /// Rejects samples by roughness.
    ///
    /// Default: `true`.
    pub enable_roughness_edge_stopping: bool,
    /// Spatial passes compare material indices.
    ///
    /// Default: `false`.
    pub enable_material_test: bool,
}

impl RelaxSpecularSettings {
    /// The record with every field at its documented default.
    pub open spec fn default_value() -> RelaxSpecularSettings {
        RelaxSpecularSettings {
            prepass_blur_radius: Scalar(0x4248_0000),
            specular_max_accumulated_frame_num: 30,
            specular_max_fast_accumulated_frame_num: 6,
            history_fix_frame_num: 3,
            specular_phi_luminance: Scalar(0x3f80_0000),
            diffuse_lobe_angle_fraction: Scalar(0x3f00_0000),
            specular_lobe_angle_fraction: Scalar(0x3f00_0000),
            roughness_fraction: Scalar(0x3e19_999a),
            specular_variance_boost: Scalar(0x0000_0000),
            specular_lobe_angle_slack: Scalar(0x3e19_999a),
            history_fix_edge_stopping_normal_power: Scalar(0x4100_0000),
            history_fix_stride_between_samples: Scalar(0x4160_0000),
            history_clamping_color_box_sigma_scale: Scalar(0x4000_0000),
            spatial_variance_estimation_history_threshold: 3,
            atrous_iteration_num: 5,
            min_luminance_weight: Scalar(0x0000_0000),
            depth_threshold: Scalar(0x3c23_d70a),
            confidence_driven_relaxation_multiplier: Scalar(0x0000_0000),
            confidence_driven_luminance_edge_stopping_relaxation: Scalar(0x0000_0000),
            confidence_driven_normal_edge_stopping_relaxation: Scalar(0x0000_0000),
            luminance_edge_stopping_relaxation: Scalar(0x3f00_0000),
            normal_edge_stopping_relaxation: Scalar(0x3e99_999a),
            roughness_edge_stopping_relaxation: Scalar(0x3f80_0000),
            checkerboard_mode: CheckerboardMode::Off,
            hit_distance_reconstruction_mode: HitDistanceReconstructionMode::Off,
            enable_anti_firefly: false,
            enable_reprojection_test_skipping_without_motion: false,
            enable_roughness_edge_stopping: true,
            enable_material_test: false,
        }
    }
}

impl Default for RelaxSpecularSettings {
    /// The record with every field at its documented default.
    fn default() -> (r: Self)
        ensures
            r == RelaxSpecularSettings::default_value(),
    {
        RelaxSpecularSettings {
            prepass_blur_radius: Scalar(0x4248_0000),
            specular_max_accumulated_frame_num: 30,
            specular_max_fast_accumulated_frame_num: 6,
            history_fix_frame_num: 3,
            specular_phi_luminance: Scalar(0x3f80_0000),
            diffuse_lobe_angle_fraction: Scalar(0x3f00_0000),
            specular_lobe_angle_fraction: Scalar(0x3f00_0000),
            roughness_fraction: Scalar(0x3e19_999a),
            specular_variance_boost: Scalar(0x0000_0000),
            specular_lobe_angle_slack: Scalar(0x3e19_999a),
            history_fix_edge_stopping_normal_power: Scalar(0x4100_0000),
            history_fix_stride_between_samples: Scalar(0x4160_0000),
            history_clamping_color_box_sigma_scale: Scalar(0x4000_0000),
            spatial_variance_estimation_history_threshold: 3,
            atrous_iteration_num: 5,
            min_luminance_weight: Scalar(0x0000_0000),
            depth_threshold: Scalar(0x3c23_d70a),
            confidence_driven_relaxation_multiplier: Scalar(0x0000_0000),
            confidence_driven_luminance_edge_stopping_relaxation: Scalar(0x0000_0000),
            confidence_driven_normal_edge_stopping_relaxation: Scalar(0x0000_0000),
            luminance_edge_stopping_relaxation: Scalar(0x3f00_0000),
            normal_edge_stopping_relaxation: Scalar(0x3e99_999a),
            roughness_edge_stopping_relaxation: Scalar(0x3f80_0000),
            checkerboard_mode: CheckerboardMode::Off,
            hit_distance_reconstruction_mode: HitDistanceReconstructionMode::Off,
            enable_anti_firefly: false,
            enable_reprojection_test_skipping_without_motion: false,
            enable_roughness_edge_stopping: true,
            enable_material_test: false,
        }
    }
}

impl DenoiserSettings for RelaxSpecularSettings {
    open spec fn family_of() -> SettingsFamily {
        SettingsFamily::RelaxSpecular
    }

    fn family(&self) -> SettingsFamily {
        SettingsFamily::RelaxSpecular
    }
}

/// Tuning of plain accumulation.
#[derive(Debug, Clone, Copy, PartialEq, Eq)]
pub struct ReferenceSettings {
    /// Most frames accumulated linearly.
    ///
    /// Default: `1024`.
    pub max_accumulated_frame_num: u32,
}

impl ReferenceSettings {
    /// The record with every field at its documented default.
    pub open spec fn default_value() -> ReferenceSettings {
        ReferenceSettings {
            max_accumulated_frame_num: 1024,
        }
    }
}

impl Default for ReferenceSettings {
    /// The record with every field at its documented default.
    fn default() -> (r: Self)
        ensures
            r == ReferenceSettings::default_value(),
    {
        ReferenceSettings {
            max_accumulated_frame_num: 1024,
        }
    }
}

impl DenoiserSettings for ReferenceSettings {
    open spec fn family_of() -> SettingsFamily {
        SettingsFamily::Reference
    }

    fn family(&self) -> SettingsFamily {
        SettingsFamily::Reference
    }
}

} // verus!
