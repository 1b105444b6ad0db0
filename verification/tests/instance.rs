use nrd_sys::{
    check_request, CommonSettings, Denoiser, DenoiserDesc, DescriptorType, DispatchDesc,
    Identifier, Instance, LibraryDesc, NormalEncoding, ReblurSettings, ReferenceSettings,
    RelaxDiffuseSettings, ResourceDesc, ResourceType, Result, RoughnessEncoding,
    SPIRVBindingOffsets, SigmaSettings,
};

fn library(supported: Vec<Denoiser>) -> LibraryDesc {
    LibraryDesc {
        spirv_binding_offsets: SPIRVBindingOffsets {
            sampler_offset: 0,
            texture_offset: 0,
            constant_buffer_offset: 0,
            storage_texture_and_buffer_offset: 0,
        },
        supported_denoisers: supported,
        version_major: 4,
        version_minor: 2,
        version_build: 0,
        normal_encoding: NormalEncoding::Rgba8Unorm,
        roughness_encoding: RoughnessEncoding::LINEAR,
    }
}

fn full_library() -> LibraryDesc {
    library((0..21u32).map(|code| Denoiser::from_raw(code).unwrap()).collect())
}

fn entry(identifier: u32, denoiser: Denoiser, width: u16, height: u16) -> DenoiserDesc {
    DenoiserDesc {
        identifier: Identifier(identifier),
        denoiser,
        render_width: width,
        render_height: height,
    }
}

fn accepted(denoisers: &[DenoiserDesc]) -> Instance {
    match Instance::new(denoisers, &full_library(), |_: &[DenoiserDesc]| Result::Success) {
        Ok(instance) => instance,
        Err(status) => panic!("creation refused with {:?}", status),
    }
}

fn refusal(r: std::result::Result<Instance, Result>) -> Result {
    match r {
        Ok(_) => panic!("an instance was created"),
        Err(status) => status,
    }
}

fn dispatch(name: &str, pipeline_index: u16, grid: (u16, u16)) -> DispatchDesc {
    DispatchDesc {
        name: String::from(name),
        resources: vec![ResourceDesc {
            state_needed: DescriptorType::StorageTexture,
            ty: ResourceType::OUT_RADIANCE,
            index_in_pool: 0,
            mip_offset: 0,
            mip_num: 1,
        }],
        constant_buffer_data: vec![0; 16],
        pipeline_index,
        grid_width: grid.0,
        grid_height: grid.1,
    }
}

fn summary(list: &[DispatchDesc]) -> Vec<(String, u16, u16, u16)> {
    list.iter()
        .map(|d| (d.name().to_string(), d.pipeline_index, d.grid_width, d.grid_height))
        .collect()
}

#[test]
fn sound_request_is_judged_success() {
    let lib = library(vec![Denoiser::Reference, Denoiser::ReblurDiffuse]);
    let request = [
        entry(0, Denoiser::Reference, 100, 100),
        entry(1, Denoiser::ReblurDiffuse, 1920, 1080),
        entry(2, Denoiser::Reference, 1, 1),
    ];
    assert_eq!(check_request(&request, &lib), Result::Success);
}

#[test]
fn shared_identifier_is_judged_non_unique() {
    let lib = full_library();
    let request = [
        entry(5, Denoiser::Reference, 100, 100),
        entry(6, Denoiser::SigmaShadow, 100, 100),
        entry(5, Denoiser::RelaxDiffuse, 100, 100),
    ];
    assert_eq!(check_request(&request, &lib), Result::NonUniqueIdentifier);
    let adjacent = [entry(9, Denoiser::Reference, 8, 8), entry(9, Denoiser::Reference, 8, 8)];
    assert_eq!(check_request(&adjacent, &lib), Result::NonUniqueIdentifier);
}

#[test]
fn unsupported_variant_is_judged_unsupported() {
    let lib = library(vec![Denoiser::Reference]);
    let request = [entry(0, Denoiser::Reference, 100, 100), entry(1, Denoiser::SigmaShadow, 100, 100)];
    assert_eq!(check_request(&request, &lib), Result::Unsupported);
    let none = library(vec![]);
    assert_eq!(check_request(&[entry(0, Denoiser::Reference, 1, 1)], &none), Result::Unsupported);
}

#[test]
fn empty_request_is_judged_invalid() {
    assert_eq!(check_request(&[], &full_library()), Result::InvalidArgument);
    assert_eq!(check_request(&[], &library(vec![])), Result::InvalidArgument);
}

#[test]
fn zero_dimension_is_judged_invalid() {
    let lib = full_library();
    assert_eq!(check_request(&[entry(0, Denoiser::Reference, 0, 100)], &lib), Result::InvalidArgument);
    assert_eq!(check_request(&[entry(0, Denoiser::Reference, 100, 0)], &lib), Result::InvalidArgument);
    assert_eq!(check_request(&[entry(0, Denoiser::Reference, 0, 0)], &lib), Result::InvalidArgument);
    let later = [entry(0, Denoiser::Reference, 100, 100), entry(1, Denoiser::Reference, 100, 0)];
    assert_eq!(check_request(&later, &lib), Result::InvalidArgument);
}

#[test]
fn shared_identifier_outranks_every_other_fault() {
    let lib = library(vec![Denoiser::Reference]);
    let request = [entry(3, Denoiser::SigmaShadow, 0, 0), entry(3, Denoiser::Reference, 100, 100)];
    assert_eq!(check_request(&request, &lib), Result::NonUniqueIdentifier);
}

#[test]
fn unsupported_variant_outranks_zero_dimension() {
    let lib = library(vec![Denoiser::Reference]);
    let request = [entry(0, Denoiser::Reference, 0, 100), entry(1, Denoiser::SigmaShadow, 100, 100)];
    assert_eq!(check_request(&request, &lib), Result::Unsupported);
}

#[test]
fn creation_of_a_sound_request_succeeds() {
    let lib = library(vec![Denoiser::Reference, Denoiser::RelaxDiffuse]);
    let request = [entry(10, Denoiser::Reference, 100, 100), entry(11, Denoiser::RelaxDiffuse, 64, 32)];
    let mut seen = Vec::new();
    let created = Instance::new(&request, &lib, |list: &[DenoiserDesc]| {
        seen = list.to_vec();
        Result::Success
    });
    let instance = created.expect("a sound request that the native side accepts");
    assert_eq!(seen, request.to_vec());
    assert!(instance.is_live());
    assert_eq!(instance.denoisers(), &request);
}

#[test]
fn creation_with_a_shared_identifier_fails_without_crossing() {
    let request = [entry(1, Denoiser::Reference, 100, 100), entry(1, Denoiser::Reference, 100, 100)];
    let mut crossed = 0;
    let created = Instance::new(&request, &full_library(), |_: &[DenoiserDesc]| {
        crossed += 1;
        Result::Success
    });
    assert_eq!(refusal(created), Result::NonUniqueIdentifier);
    assert_eq!(crossed, 0);
}

#[test]
fn creation_of_an_unsound_request_never_crosses() {
    let lib = library(vec![Denoiser::Reference]);
    let mut crossed = 0;
    let unsupported = Instance::new(
        &[entry(0, Denoiser::SigmaShadow, 100, 100)],
        &lib,
        |_: &[DenoiserDesc]| {
            crossed += 1;
            Result::Success
        },
    );
    assert_eq!(refusal(unsupported), Result::Unsupported);
    let empty = Instance::new(&[], &lib, |_: &[DenoiserDesc]| {
        crossed += 1;
        Result::Success
    });
    assert_eq!(refusal(empty), Result::InvalidArgument);
    let flat = Instance::new(&[entry(0, Denoiser::Reference, 100, 0)], &lib, |_: &[DenoiserDesc]| {
        crossed += 1;
        Result::Success
    });
    assert_eq!(refusal(flat), Result::InvalidArgument);
    assert_eq!(crossed, 0);
}

#[test]
fn creation_hands_back_the_native_failure() {
    let request = [entry(0, Denoiser::Reference, 100, 100)];
    for status in [
        Result::Failure,
        Result::InvalidArgument,
        Result::Unsupported,
        Result::NonUniqueIdentifier,
    ] {
        let created = Instance::new(&request, &full_library(), |_: &[DenoiserDesc]| status);
        assert_eq!(refusal(created), status);
    }
}

#[test]
fn denoiser_of_finds_the_registered_variant() {
    let instance = accepted(&[
        entry(7, Denoiser::Reference, 100, 100),
        entry(3, Denoiser::SigmaShadow, 100, 100),
        entry(u32::MAX, Denoiser::RelaxSpecularSh, 100, 100),
    ]);
    assert_eq!(instance.denoiser_of(Identifier(7)), Some(Denoiser::Reference));
    assert_eq!(instance.denoiser_of(Identifier(3)), Some(Denoiser::SigmaShadow));
    assert_eq!(instance.denoiser_of(Identifier(u32::MAX)), Some(Denoiser::RelaxSpecularSh));
    assert_eq!(instance.denoiser_of(Identifier(0)), None);
}

#[test]
fn common_settings_result_follows_the_native_status() {
    let mut instance = accepted(&[entry(0, Denoiser::Reference, 100, 100)]);
    let settings = CommonSettings::default();
    let mut frame = 99;
    let applied = instance.set_common_settings(&settings, |s: &CommonSettings| {
        frame = s.frame_index;
        Result::Success
    });
    assert_eq!(applied, Ok(()));
    assert_eq!(frame, 0);
    for status in [
        Result::Failure,
        Result::InvalidArgument,
        Result::Unsupported,
        Result::NonUniqueIdentifier,
    ] {
        let refused = instance.set_common_settings(&settings, |_: &CommonSettings| status);
        assert_eq!(refused, Err(status));
        assert!(instance.is_live());
    }
}

#[test]
fn settings_for_an_unregistered_identifier_are_invalid() {
    let request = [entry(1, Denoiser::Reference, 100, 100)];
    let mut instance = accepted(&request);
    let mut crossed = 0;
    let r = instance.set_denoiser_settings(
        Identifier(2),
        &ReferenceSettings::default(),
        |_: Identifier, _: &ReferenceSettings| {
            crossed += 1;
            Result::Success
        },
    );
    assert_eq!(r, Err(Result::InvalidArgument));
    assert_eq!(crossed, 0);
    assert!(instance.is_live());
    assert_eq!(instance.denoisers(), &request);
    let after = instance.get_compute_dispatches(&[Identifier(1)], |_: &[Identifier]| {
        (Result::Success, vec![dispatch("accumulate", 0, (7, 7))])
    });
    assert_eq!(summary(&after.unwrap()), vec![(String::from("accumulate"), 0, 7, 7)]);
}

#[test]
fn settings_of_another_family_are_invalid() {
    let mut instance = accepted(&[
        entry(1, Denoiser::Reference, 100, 100),
        entry(2, Denoiser::ReblurDiffuse, 100, 100),
        entry(3, Denoiser::SpecularDeltaMv, 100, 100),
    ]);
    let mut crossed = 0;
    let sigma = instance.set_denoiser_settings(
        Identifier(1),
        &SigmaSettings::default(),
        |_: Identifier, _: &SigmaSettings| {
            crossed += 1;
            Result::Success
        },
    );
    assert_eq!(sigma, Err(Result::InvalidArgument));
    let reference = instance.set_denoiser_settings(
        Identifier(2),
        &ReferenceSettings::default(),
        |_: Identifier, _: &ReferenceSettings| {
            crossed += 1;
            Result::Success
        },
    );
    assert_eq!(reference, Err(Result::InvalidArgument));
    let motion = instance.set_denoiser_settings(
        Identifier(3),
        &ReblurSettings::default(),
        |_: Identifier, _: &ReblurSettings| {
            crossed += 1;
            Result::Success
        },
    );
    assert_eq!(motion, Err(Result::InvalidArgument));
    assert_eq!(crossed, 0);
}

#[test]
fn fitting_settings_cross_and_follow_the_native_status() {
    let mut instance = accepted(&[
        entry(1, Denoiser::RelaxDiffuseSh, 100, 100),
        entry(2, Denoiser::ReblurSpecularOcclusion, 100, 100),
    ]);
    let mut seen = Vec::new();
    let relax = instance.set_denoiser_settings(
        Identifier(1),
        &RelaxDiffuseSettings::default(),
        |id: Identifier, s: &RelaxDiffuseSettings| {
            seen.push((id, s.atrous_iteration_num));
            Result::Success
        },
    );
    assert_eq!(relax, Ok(()));
    let reblur = instance.set_denoiser_settings(
        Identifier(2),
        &ReblurSettings::default(),
        |id: Identifier, s: &ReblurSettings| {
            seen.push((id, s.max_accumulated_frame_num));
            Result::Failure
        },
    );
    assert_eq!(reblur, Err(Result::Failure));
    assert_eq!(seen, vec![(Identifier(1), 5), (Identifier(2), 30)]);
}

#[test]
fn dispatches_for_an_unregistered_identifier_are_invalid() {
    let mut instance = accepted(&[entry(1, Denoiser::Reference, 100, 100)]);
    let mut crossed = 0;
    let r = instance.get_compute_dispatches(&[Identifier(1), Identifier(2)], |_: &[Identifier]| {
        crossed += 1;
        (Result::Success, vec![dispatch("accumulate", 0, (7, 7))])
    });
    assert_eq!(r.err(), Some(Result::InvalidArgument));
    assert_eq!(crossed, 0);
}

#[test]
fn dispatches_come_back_in_the_order_given() {
    let mut instance = accepted(&[
        entry(1, Denoiser::ReblurDiffuse, 100, 100),
        entry(2, Denoiser::Reference, 100, 100),
    ]);
    let mut asked = Vec::new();
    let r = instance.get_compute_dispatches(&[Identifier(2), Identifier(1)], |ids: &[Identifier]| {
        asked = ids.to_vec();
        (
            Result::Success,
            vec![
                dispatch("history fix", 4, (13, 13)),
                dispatch("blur", 2, (7, 7)),
                dispatch("temporal stabilization", 9, (7, 13)),
            ],
        )
    });
    assert_eq!(asked, vec![Identifier(2), Identifier(1)]);
    assert_eq!(
        summary(&r.unwrap()),
        vec![
            (String::from("history fix"), 4, 13, 13),
            (String::from("blur"), 2, 7, 7),
            (String::from("temporal stabilization"), 9, 7, 13),
        ]
    );
}

#[test]
fn dispatch_query_without_identifiers_crosses() {
    let mut instance = accepted(&[entry(1, Denoiser::Reference, 100, 100)]);
    let r = instance.get_compute_dispatches(&[], |_: &[Identifier]| (Result::Success, vec![]));
    assert!(r.unwrap().is_empty());
}

#[test]
fn failed_dispatch_query_yields_no_dispatches() {
    let mut instance = accepted(&[entry(1, Denoiser::Reference, 100, 100)]);
    for status in [
        Result::Failure,
        Result::InvalidArgument,
        Result::Unsupported,
        Result::NonUniqueIdentifier,
    ] {
        let r = instance.get_compute_dispatches(&[Identifier(1)], |_: &[Identifier]| {
            (status, vec![dispatch("stale", 0, (1, 1))])
        });
        assert_eq!(r.err(), Some(status));
    }
}

#[test]
fn repeated_dispatch_query_describes_the_same_work() {
    let mut instance = accepted(&[entry(1, Denoiser::Reference, 100, 100)]);
    let native = |_: &[Identifier]| {
        (Result::Success, vec![dispatch("accumulate", 0, (7, 7)), dispatch("copy", 1, (13, 13))])
    };
    let first = instance.get_compute_dispatches(&[Identifier(1)], native).unwrap();
    let second = instance.get_compute_dispatches(&[Identifier(1)], native).unwrap();
    assert_eq!(summary(&first), summary(&second));
    assert_eq!(first[0].resources(), second[0].resources());
    assert_eq!(first[0].constant_buffer(), second[0].constant_buffer());
    assert_eq!(instance.denoisers(), &[entry(1, Denoiser::Reference, 100, 100)]);
}

#[test]
fn destroy_releases_exactly_once() {
    let request = [entry(1, Denoiser::Reference, 100, 100)];
    let mut instance = accepted(&request);
    let mut released = 0;
    assert!(instance.destroy(|| released += 1));
    assert_eq!(released, 1);
    assert!(!instance.is_live());
    assert!(!instance.destroy(|| released += 1));
    assert!(!instance.destroy(|| released += 1));
    assert_eq!(released, 1);
    assert!(!instance.is_live());
    assert_eq!(instance.denoisers(), &request);
}

#[test]
fn one_reference_denoiser_from_creation_to_dispatch() {
    let lib = library(vec![Denoiser::Reference]);
    let id = Identifier(0);
    let request = [DenoiserDesc {
        identifier: id,
        denoiser: Denoiser::Reference,
        render_width: 100,
        render_height: 100,
    }];
    let mut instance =
        Instance::new(&request, &lib, |_: &[DenoiserDesc]| Result::Success).expect("creation");
    assert_eq!(
        instance.set_common_settings(&CommonSettings::default(), |_: &CommonSettings| Result::Success),
        Ok(())
    );
    let mut frames = 0;
    assert_eq!(
        instance.set_denoiser_settings(
            id,
            &ReferenceSettings::default(),
            |_: Identifier, s: &ReferenceSettings| {
                frames = s.max_accumulated_frame_num;
                Result::Success
            }
        ),
        Ok(())
    );
    assert_eq!(frames, 1024);
    let dispatches = instance
        .get_compute_dispatches(&[id], |_: &[Identifier]| {
            (Result::Success, vec![dispatch("accumulate", 0, (7, 7))])
        })
        .expect("dispatches");
    assert!(!dispatches.is_empty());
    for d in &dispatches {
        assert!(d.grid_width > 0 && d.grid_height > 0);
        assert!(d.grid_width <= 100 && d.grid_height <= 100);
    }
    assert!(instance.destroy(|| ()));
}
