use nrd_sys::{
    AccumulationMode, AntilagHitDistanceSettings, AntilagIntensitySettings, CheckerboardMode,
    CommonSettings, Denoiser, DenoiserSettings, HitDistanceParameters,
    HitDistanceReconstructionMode, ReblurSettings, ReferenceSettings, RelaxDiffuseSettings,
    RelaxDiffuseSpecularSettings, RelaxSpecularSettings, Scalar, SettingsFamily, SigmaSettings,
};

fn number(s: Scalar) -> f32 {
    f32::from_bits(s.0)
}

fn numbers(list: &[Scalar]) -> Vec<f32> {
    list.iter().map(|s| number(*s)).collect()
}

#[test]
fn common_settings_defaults() {
    let s = CommonSettings::default();
    assert_eq!(numbers(&s.view_to_clip_matrix), vec![0.0f32; 16]);
    assert_eq!(numbers(&s.view_to_clip_matrix_prev), vec![0.0f32; 16]);
    assert_eq!(numbers(&s.world_to_view_matrix), vec![0.0f32; 16]);
    assert_eq!(numbers(&s.world_to_view_matrix_prev), vec![0.0f32; 16]);
    let identity = vec![
        1.0f32, 0.0f32, 0.0f32, 0.0f32,
        0.0f32, 1.0f32, 0.0f32, 0.0f32,
        0.0f32, 0.0f32, 1.0f32, 0.0f32,
        0.0f32, 0.0f32, 0.0f32, 1.0f32,
    ];
    assert_eq!(numbers(&s.world_prev_to_world_matrix), identity);
    assert_eq!(numbers(&s.motion_vector_scale), vec![1.0f32, 1.0f32, 0.0f32]);
    assert_eq!(numbers(&s.camera_jitter), vec![0.0f32, 0.0f32]);
    assert_eq!(numbers(&s.camera_jitter_prev), vec![0.0f32, 0.0f32]);
    assert_eq!(numbers(&s.resolution_scale), vec![1.0f32, 1.0f32]);
    assert_eq!(numbers(&s.resolution_scale_prev), vec![1.0f32, 1.0f32]);
    assert_eq!(number(s.time_delta_between_frames), 0.0f32);
    assert_eq!(number(s.denoising_range), 500000.0f32);
    assert_eq!(number(s.disocclusion_threshold), 0.01f32);
    assert_eq!(number(s.disocclusion_threshold_alternate), 0.05f32);
    assert_eq!(number(s.split_screen), 0.0f32);
    assert_eq!(number(s.debug), 0.0f32);
    assert_eq!(s.input_subrect_origin, [0, 0]);
    assert_eq!(s.frame_index, 0);
    assert_eq!(s.accumulation_mode, AccumulationMode::Continue);
    assert_eq!(s.is_motion_vector_in_world_space, false);
    assert_eq!(s.is_history_confidence_available, false);
    assert_eq!(s.is_disocclusion_threshold_mix_available, false);
    assert_eq!(s.is_base_color_metalness_available, false);
    assert_eq!(s.enable_validation, false);
}

#[test]
fn hit_distance_parameters_defaults() {
    let s = HitDistanceParameters::default();
    assert_eq!(number(s.a), 3.0f32);
    assert_eq!(number(s.b), 0.1f32);
    assert_eq!(number(s.c), 20.0f32);
    assert_eq!(number(s.d), -25.0f32);
}

#[test]
fn antilag_intensity_settings_defaults() {
    let s = AntilagIntensitySettings::default();
    assert_eq!(number(s.threshold_min), 0.3f32);
    assert_eq!(number(s.threshold_max), 0.2f32);
    assert_eq!(number(s.sigma_scale), 1.0f32);
    assert_eq!(number(s.sensitivity_to_darkness), 0.0f32);
    assert_eq!(s.enable, false);
}

#[test]
fn antilag_hit_distance_settings_defaults() {
    let s = AntilagHitDistanceSettings::default();
    assert_eq!(number(s.threshold_min), 0.03f32);
    assert_eq!(number(s.threshold_max), 0.2f32);
    assert_eq!(number(s.sigma_scale), 1.0f32);
    assert_eq!(number(s.sensitivity_to_darkness), 0.1f32);
    assert_eq!(s.enable, true);
}

#[test]
fn reblur_settings_defaults() {
    let s = ReblurSettings::default();
    assert_eq!(s.hit_distance_parameters, HitDistanceParameters::default());
    assert_eq!(s.antilag_intensity_settings, AntilagIntensitySettings::default());
    assert_eq!(s.antilag_hit_distance_settings, AntilagHitDistanceSettings::default());
    assert_eq!(s.max_accumulated_frame_num, 30);
    assert_eq!(s.max_fast_accumulated_frame_num, 6);
    assert_eq!(s.history_fix_frame_num, 3);
    assert_eq!(number(s.diffuse_prepass_blur_radius), 30.0f32);
    assert_eq!(number(s.specular_prepass_blur_radius), 50.0f32);
    assert_eq!(number(s.blur_radius), 15.0f32);
    assert_eq!(number(s.history_fix_stride_between_samples), 14.0f32);
    assert_eq!(number(s.lobe_angle_fraction), 0.15f32);
    assert_eq!(number(s.roughness_fraction), 0.15f32);
    assert_eq!(number(s.responsive_accumulation_roughness_threshold), 0.0f32);
    assert_eq!(number(s.stabilization_strength), 1.0f32);
    assert_eq!(number(s.plane_distance_sensitivity), 0.005f32);
    assert_eq!(numbers(&s.specular_probability_thresholds_for_mv_modification), vec![0.5f32, 0.9f32]);
    assert_eq!(s.checkerboard_mode, CheckerboardMode::Off);
    assert_eq!(s.hit_distance_reconstruction_mode, HitDistanceReconstructionMode::Off);
    assert_eq!(s.enable_anti_firefly, false);
    assert_eq!(s.enable_reference_accumulation, false);
    assert_eq!(s.enable_performance_mode, false);
    assert_eq!(s.enable_material_test_for_diffuse, false);
    assert_eq!(s.enable_material_test_for_specular, false);
}

#[test]
fn sigma_settings_defaults() {
    let s = SigmaSettings::default();
    assert_eq!(number(s.plane_distance_sensitivity), 0.005f32);
    assert_eq!(number(s.blur_radius_scale), 2.0f32);
}

#[test]
fn relax_diffuse_specular_settings_defaults() {
    let s = RelaxDiffuseSpecularSettings::default();
    assert_eq!(number(s.diffuse_prepass_blur_radius), 0.0f32);
    assert_eq!(number(s.specular_prepass_blur_radius), 50.0f32);
    assert_eq!(s.diffuse_max_accumulated_frame_num, 30);
    assert_eq!(s.specular_max_accumulated_frame_num, 30);
    assert_eq!(s.diffuse_max_fast_accumulated_frame_num, 6);
    assert_eq!(s.specular_max_fast_accumulated_frame_num, 6);
    assert_eq!(s.history_fix_frame_num, 3);
    assert_eq!(number(s.diffuse_phi_luminance), 2.0f32);
    assert_eq!(number(s.specular_phi_luminance), 1.0f32);
    assert_eq!(number(s.diffuse_lobe_angle_fraction), 0.5f32);
    assert_eq!(number(s.specular_lobe_angle_fraction), 0.5f32);
    assert_eq!(number(s.roughness_fraction), 0.15f32);
    assert_eq!(number(s.specular_variance_boost), 0.0f32);
    assert_eq!(number(s.specular_lobe_angle_slack), 0.15f32);
    assert_eq!(number(s.history_fix_stride_between_samples), 14.0f32);
    assert_eq!(number(s.history_fix_edge_stopping_normal_power), 8.0f32);
    assert_eq!(number(s.history_clamping_color_box_sigma_scale), 2.0f32);
    assert_eq!(s.spatial_variance_estimation_history_threshold, 3);
    assert_eq!(s.atrous_iteration_num, 5);
    assert_eq!(number(s.diffuse_min_luminance_weight), 0.0f32);
    assert_eq!(number(s.specular_min_luminance_weight), 0.0f32);
    assert_eq!(number(s.depth_threshold), 0.003f32);
    assert_eq!(number(s.confidence_driven_relaxation_multiplier), 0.0f32);
    assert_eq!(number(s.confidence_driven_luminance_edge_stopping_relaxation), 0.0f32);
    assert_eq!(number(s.confidence_driven_normal_edge_stopping_relaxation), 0.0f32);
    assert_eq!(number(s.luminance_edge_stopping_relaxation), 0.5f32);
    assert_eq!(number(s.normal_edge_stopping_relaxation), 0.3f32);
    assert_eq!(number(s.roughness_edge_stopping_relaxation), 1.0f32);
    assert_eq!(s.checkerboard_mode, CheckerboardMode::Off);
    assert_eq!(s.hit_distance_reconstruction_mode, HitDistanceReconstructionMode::Off);
    assert_eq!(s.enable_anti_firefly, false);
    assert_eq!(s.enable_reprojection_test_skipping_without_motion, false);
    assert_eq!(s.enable_roughness_edge_stopping, true);
    assert_eq!(s.enable_material_test_for_diffuse, false);
    assert_eq!(s.enable_material_test_for_specular, false);
}

#[test]
fn relax_diffuse_settings_defaults() {
    let s = RelaxDiffuseSettings::default();
    assert_eq!(number(s.prepass_blur_radius), 0.0f32);
    assert_eq!(s.diffuse_max_accumulated_frame_num, 30);
    assert_eq!(s.diffuse_max_fast_accumulated_frame_num, 6);
    assert_eq!(s.history_fix_frame_num, 3);
    assert_eq!(number(s.diffuse_phi_luminance), 2.0f32);
    assert_eq!(number(s.diffuse_lobe_angle_fraction), 0.5f32);
    assert_eq!(number(s.history_fix_edge_stopping_normal_power), 8.0f32);
    assert_eq!(number(s.history_fix_stride_between_samples), 14.0f32);
    assert_eq!(number(s.history_clamping_color_box_sigma_scale), 2.0f32);
    assert_eq!(s.spatial_variance_estimation_history_threshold, 3);
    assert_eq!(s.atrous_iteration_num, 5);
    assert_eq!(number(s.min_luminance_weight), 0.0f32);
    assert_eq!(number(s.depth_threshold), 0.01f32);
    assert_eq!(number(s.confidence_driven_relaxation_multiplier), 0.0f32);
    assert_eq!(number(s.confidence_driven_luminance_edge_stopping_relaxation), 0.0f32);
    assert_eq!(number(s.confidence_driven_normal_edge_stopping_relaxation), 0.0f32);
    assert_eq!(s.checkerboard_mode, CheckerboardMode::Off);
    assert_eq!(s.hit_distance_reconstruction_mode, HitDistanceReconstructionMode::Off);
    assert_eq!(s.enable_anti_firefly, false);
    assert_eq!(s.enable_reprojection_test_skipping_without_motion, false);
    assert_eq!(s.enable_material_test, false);
}

#[test]
fn relax_specular_settings_defaults() {
    let s = RelaxSpecularSettings::default();
    assert_eq!(number(s.prepass_blur_radius), 50.0f32);
    assert_eq!(s.specular_max_accumulated_frame_num, 30);
    assert_eq!(s.specular_max_fast_accumulated_frame_num, 6);
    assert_eq!(s.history_fix_frame_num, 3);
    assert_eq!(number(s.specular_phi_luminance), 1.0f32);
    assert_eq!(number(s.diffuse_lobe_angle_fraction), 0.5f32);
    assert_eq!(number(s.specular_lobe_angle_fraction), 0.5f32);
    assert_eq!(number(s.roughness_fraction), 0.15f32);
    assert_eq!(number(s.specular_variance_boost), 0.0f32);
    assert_eq!(number(s.specular_lobe_angle_slack), 0.15f32);
    assert_eq!(number(s.history_fix_edge_stopping_normal_power), 8.0f32);
    assert_eq!(number(s.history_fix_stride_between_samples), 14.0f32);
    assert_eq!(number(s.history_clamping_color_box_sigma_scale), 2.0f32);
    assert_eq!(s.spatial_variance_estimation_history_threshold, 3);
    assert_eq!(s.atrous_iteration_num, 5);
    assert_eq!(number(s.min_luminance_weight), 0.0f32);
    assert_eq!(number(s.depth_threshold), 0.01f32);
    assert_eq!(number(s.confidence_driven_relaxation_multiplier), 0.0f32);
    assert_eq!(number(s.confidence_driven_luminance_edge_stopping_relaxation), 0.0f32);
    assert_eq!(number(s.confidence_driven_normal_edge_stopping_relaxation), 0.0f32);
    assert_eq!(number(s.luminance_edge_stopping_relaxation), 0.5f32);
    assert_eq!(number(s.normal_edge_stopping_relaxation), 0.3f32);
    assert_eq!(number(s.roughness_edge_stopping_relaxation), 1.0f32);
    assert_eq!(s.checkerboard_mode, CheckerboardMode::Off);
    assert_eq!(s.hit_distance_reconstruction_mode, HitDistanceReconstructionMode::Off);
    assert_eq!(s.enable_anti_firefly, false);
    assert_eq!(s.enable_reprojection_test_skipping_without_motion, false);
    assert_eq!(s.enable_roughness_edge_stopping, true);
    assert_eq!(s.enable_material_test, false);
}

#[test]
fn reference_settings_defaults() {
    let s = ReferenceSettings::default();
    assert_eq!(s.max_accumulated_frame_num, 1024);
}

#[test]
fn default_world_matrix_is_the_identity() {
    let s = CommonSettings::default();
    for row in 0..4 {
        for column in 0..4 {
            let expected = if row == column { 1.0f32 } else { 0.0f32 };
            assert_eq!(number(s.world_prev_to_world_matrix[4 * row + column]), expected);
        }
    }
}

#[test]
fn scalar_carries_the_bits_of_the_number() {
    assert_eq!(Scalar(1.0f32.to_bits()), Scalar(0x3f80_0000));
    assert_eq!(Scalar((-25.0f32).to_bits()), HitDistanceParameters::default().d);
    assert_eq!(number(Scalar(0)), 0.0f32);
}

#[test]
fn each_settings_record_names_its_family() {
    assert_eq!(ReblurSettings::default().family(), SettingsFamily::Reblur);
    assert_eq!(SigmaSettings::default().family(), SettingsFamily::Sigma);
    assert_eq!(RelaxDiffuseSettings::default().family(), SettingsFamily::RelaxDiffuse);
    assert_eq!(RelaxSpecularSettings::default().family(), SettingsFamily::RelaxSpecular);
    assert_eq!(
        RelaxDiffuseSpecularSettings::default().family(),
        SettingsFamily::RelaxDiffuseSpecular
    );
    assert_eq!(ReferenceSettings::default().family(), SettingsFamily::Reference);
}

#[test]
fn each_variant_takes_the_settings_of_its_family() {
    let reblur = [
        Denoiser::ReblurDiffuse,
        Denoiser::ReblurDiffuseOcclusion,
        Denoiser::ReblurDiffuseSh,
        Denoiser::ReblurSpecular,
        Denoiser::ReblurSpecularOcclusion,
        Denoiser::ReblurSpecularSh,
        Denoiser::ReblurDiffuseSpecular,
        Denoiser::ReblurDiffuseSpecularOcclusion,
        Denoiser::ReblurDiffuseSpecularSh,
        Denoiser::ReblurDiffuseDirectionalOcclusion,
    ];
    for d in reblur {
        assert_eq!(d.settings_family(), Some(SettingsFamily::Reblur));
    }
    assert_eq!(Denoiser::SigmaShadow.settings_family(), Some(SettingsFamily::Sigma));
    assert_eq!(Denoiser::SigmaShadowTranslucency.settings_family(), Some(SettingsFamily::Sigma));
    assert_eq!(Denoiser::RelaxDiffuse.settings_family(), Some(SettingsFamily::RelaxDiffuse));
    assert_eq!(Denoiser::RelaxDiffuseSh.settings_family(), Some(SettingsFamily::RelaxDiffuse));
    assert_eq!(Denoiser::RelaxSpecular.settings_family(), Some(SettingsFamily::RelaxSpecular));
    assert_eq!(Denoiser::RelaxSpecularSh.settings_family(), Some(SettingsFamily::RelaxSpecular));
    assert_eq!(
        Denoiser::RelaxDiffuseSpecular.settings_family(),
        Some(SettingsFamily::RelaxDiffuseSpecular)
    );
    assert_eq!(
        Denoiser::RelaxDiffuseSpecularSh.settings_family(),
        Some(SettingsFamily::RelaxDiffuseSpecular)
    );
    assert_eq!(Denoiser::Reference.settings_family(), Some(SettingsFamily::Reference));
    assert_eq!(Denoiser::SpecularReflectionMv.settings_family(), None);
    assert_eq!(Denoiser::SpecularDeltaMv.settings_family(), None);
}

#[test]
fn settings_enumerations_have_their_codes() {
    assert_eq!(AccumulationMode::Continue.raw(), 0);
    assert_eq!(AccumulationMode::Restart.raw(), 1);
    assert_eq!(AccumulationMode::ClearAndRestart.raw(), 2);
    assert_eq!(AccumulationMode::from_raw(2), Some(AccumulationMode::ClearAndRestart));
    assert_eq!(AccumulationMode::from_raw(3), None);
    assert_eq!(CheckerboardMode::Off.raw(), 0);
    assert_eq!(CheckerboardMode::Black.raw(), 1);
    assert_eq!(CheckerboardMode::White.raw(), 2);
    assert_eq!(CheckerboardMode::from_raw(1), Some(CheckerboardMode::Black));
    assert_eq!(CheckerboardMode::from_raw(3), None);
    assert_eq!(HitDistanceReconstructionMode::Off.raw(), 0);
    assert_eq!(HitDistanceReconstructionMode::Area3x3.raw(), 1);
    assert_eq!(HitDistanceReconstructionMode::Area5x5.raw(), 2);
    assert_eq!(
        HitDistanceReconstructionMode::from_raw(2),
        Some(HitDistanceReconstructionMode::Area5x5)
    );
    assert_eq!(HitDistanceReconstructionMode::from_raw(255), None);
}
