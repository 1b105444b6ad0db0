//! Host-side layer of a binding to a native real-time denoising library.
//!
//! The native library describes GPU compute work; it never runs it. This crate
//! holds everything about the binding that can be stated and proved without
//! touching native memory: the records that cross the boundary, the mapping
//! of status codes to two-outcome results, the default settings, and the
//! bookkeeping of one instance handle from creation to destruction.

pub mod instance;
pub mod records;
pub mod settings;
pub mod status;

pub use instance::{check_request, Instance};
pub use records::{
    ComputeShaderDesc, Denoiser, DenoiserDesc, DescriptorPoolDesc, DescriptorType, DispatchDesc,
    Format, Identifier, InstanceDesc, LibraryDesc, NormalEncoding, PipelineDesc, ResourceDesc,
    ResourceRangeDesc, ResourceType, RoughnessEncoding, SPIRVBindingOffsets, Sampler, TextureDesc,
};
pub use settings::{
    AccumulationMode, AntilagHitDistanceSettings, AntilagIntensitySettings, CheckerboardMode,
    CommonSettings, DenoiserSettings, HitDistanceParameters, HitDistanceReconstructionMode,
    ReblurSettings, ReferenceSettings, RelaxDiffuseSettings, RelaxDiffuseSpecularSettings,
    RelaxSpecularSettings, Scalar, SettingsFamily, SigmaSettings,
};
pub use status::Result;
