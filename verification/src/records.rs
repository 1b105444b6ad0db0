//! The records that cross the boundary to the native library, as owned
//! values.
//!
//! Where the native record holds an address and an element count, the record
//! here owns the elements, and one accessor hands out a read-only view of
//! exactly those elements. The enumerations carry the codes by which the
//! native records spell their values.

use vstd::prelude::*;

verus! {

/// Where each class of binding starts, for one shading language.
#[derive(Debug, Clone, Copy, PartialEq, Eq, Structural)]
pub struct SPIRVBindingOffsets {
    pub sampler_offset: u32,
    pub texture_offset: u32,
    pub constant_buffer_offset: u32,
    pub storage_texture_and_buffer_offset: u32,
}

/// The algorithmic family and signal that one denoiser of an instance runs.
#[derive(Debug, Clone, Copy, PartialEq, Eq, Structural)]
pub enum Denoiser {
    /// Diffuse radiance and hit distance, recurrent blur.
    ReblurDiffuse,
    /// Diffuse hit distance only, recurrent blur.
    ReblurDiffuseOcclusion,
    /// Diffuse spherical harmonics, recurrent blur.
    ReblurDiffuseSh,
    /// Specular radiance and hit distance, recurrent blur.
    ReblurSpecular,
    /// Specular hit distance only, recurrent blur.
    ReblurSpecularOcclusion,
    /// Specular spherical harmonics, recurrent blur.
    ReblurSpecularSh,
    /// Diffuse and specular radiance and hit distance, recurrent blur.
    ReblurDiffuseSpecular,
    /// Diffuse and specular hit distance only, recurrent blur.
    ReblurDiffuseSpecularOcclusion,
    /// Diffuse and specular spherical harmonics, recurrent blur.
    ReblurDiffuseSpecularSh,
    /// Diffuse bent normal and hit distance, recurrent blur.
    ReblurDiffuseDirectionalOcclusion,
    /// Shadow of one light.
    SigmaShadow,
    /// Shadow of one light with translucency.
    SigmaShadowTranslucency,
    /// Diffuse radiance and hit distance, a-trous filter.
    RelaxDiffuse,
    /// Diffuse spherical harmonics, a-trous filter.
    RelaxDiffuseSh,
    /// Specular radiance and hit distance, a-trous filter.
    RelaxSpecular,
    /// Specular spherical harmonics, a-trous filter.
    RelaxSpecularSh,
    /// Diffuse and specular radiance and hit distance, a-trous filter.
    RelaxDiffuseSpecular,
    /// Diffuse and specular spherical harmonics, a-trous filter.
    RelaxDiffuseSpecularSh,
    /// Plain accumulation of a noisy signal.
    Reference,
    /// Reconstruction of specular reflection motion vectors.
    SpecularReflectionMv,
    /// Reconstruction of motion vectors behind delta events.
    SpecularDeltaMv,
}

impl Denoiser {
    /// The code that stands for this value in a native record.
    pub open spec fn raw_value(self) -> u32 {
        match self {
            Denoiser::ReblurDiffuse => 0,
            Denoiser::ReblurDiffuseOcclusion => 1,
            Denoiser::ReblurDiffuseSh => 2,
            Denoiser::ReblurSpecular => 3,
            Denoiser::ReblurSpecularOcclusion => 4,
            Denoiser::ReblurSpecularSh => 5,
            Denoiser::ReblurDiffuseSpecular => 6,
            Denoiser::ReblurDiffuseSpecularOcclusion => 7,
            Denoiser::ReblurDiffuseSpecularSh => 8,
            Denoiser::ReblurDiffuseDirectionalOcclusion => 9,
            Denoiser::SigmaShadow => 10,
            Denoiser::SigmaShadowTranslucency => 11,
            Denoiser::RelaxDiffuse => 12,
            Denoiser::RelaxDiffuseSh => 13,
            Denoiser::RelaxSpecular => 14,
            Denoiser::RelaxSpecularSh => 15,
            Denoiser::RelaxDiffuseSpecular => 16,
            Denoiser::RelaxDiffuseSpecularSh => 17,
            Denoiser::Reference => 18,
            Denoiser::SpecularReflectionMv => 19,
            Denoiser::SpecularDeltaMv => 20,
        }
    }

    /// Encodes the value for a native record.
    pub fn raw(self) -> (code: u32)
        ensures
            code == self.raw_value(),
    {
        match self {
            Denoiser::ReblurDiffuse => 0,
            Denoiser::ReblurDiffuseOcclusion => 1,
            Denoiser::ReblurDiffuseSh => 2,
            Denoiser::ReblurSpecular => 3,
            Denoiser::ReblurSpecularOcclusion => 4,
            Denoiser::ReblurSpecularSh => 5,
            Denoiser::ReblurDiffuseSpecular => 6,
            Denoiser::ReblurDiffuseSpecularOcclusion => 7,
            Denoiser::ReblurDiffuseSpecularSh => 8,
            Denoiser::ReblurDiffuseDirectionalOcclusion => 9,
            Denoiser::SigmaShadow => 10,
            Denoiser::SigmaShadowTranslucency => 11,
            Denoiser::RelaxDiffuse => 12,
            Denoiser::RelaxDiffuseSh => 13,
            Denoiser::RelaxSpecular => 14,
            Denoiser::RelaxSpecularSh => 15,
            Denoiser::RelaxDiffuseSpecular => 16,
            Denoiser::RelaxDiffuseSpecularSh => 17,
            Denoiser::Reference => 18,
            Denoiser::SpecularReflectionMv => 19,
            Denoiser::SpecularDeltaMv => 20,
        }
    }

    /// Decodes a code read from a native record. A code that stands for no
    /// value of this type is refused.
    pub fn from_raw(code: u32) -> (r: Option<Denoiser>)
        ensures
            match r {
                Some(v) => v.raw_value() == code,
                None => forall|v: Denoiser| v.raw_value() != code,
            },
    {
        match code {
            0 => Some(Denoiser::ReblurDiffuse),
            1 => Some(Denoiser::ReblurDiffuseOcclusion),
            2 => Some(Denoiser::ReblurDiffuseSh),
            3 => Some(Denoiser::ReblurSpecular),
            4 => Some(Denoiser::ReblurSpecularOcclusion),
            5 => Some(Denoiser::ReblurSpecularSh),
            6 => Some(Denoiser::ReblurDiffuseSpecular),
            7 => Some(Denoiser::ReblurDiffuseSpecularOcclusion),
            8 => Some(Denoiser::ReblurDiffuseSpecularSh),
            9 => Some(Denoiser::ReblurDiffuseDirectionalOcclusion),
            10 => Some(Denoiser::SigmaShadow),
            11 => Some(Denoiser::SigmaShadowTranslucency),
            12 => Some(Denoiser::RelaxDiffuse),
            13 => Some(Denoiser::RelaxDiffuseSh),
            14 => Some(Denoiser::RelaxSpecular),
            15 => Some(Denoiser::RelaxSpecularSh),
            16 => Some(Denoiser::RelaxDiffuseSpecular),
            17 => Some(Denoiser::RelaxDiffuseSpecularSh),
            18 => Some(Denoiser::Reference),
            19 => Some(Denoiser::SpecularReflectionMv),
            20 => Some(Denoiser::SpecularDeltaMv),
            _ => None,
        }
    }
}

/// How the loaded binary expects normals to be encoded.
#[derive(Debug, Clone, Copy, PartialEq, Eq, Structural)]
pub enum NormalEncoding {
    /// Eight bits per channel, unsigned; lowest quality on curved surfaces.
    Rgba8Unorm,
    /// Eight bits per channel, signed.
    Rgba8Snorm,
    /// Oct-packed normals with room for a material index.
    R10G10B10A2Unorm,
    /// Sixteen bits per channel, unsigned; best quality on curved surfaces.
    Rgba16Unorm,
    /// Sixteen bits per channel, signed.
    Rgba16Snorm,
}

impl NormalEncoding {
    /// The code that stands for this value in a native record.
    pub open spec fn raw_value(self) -> u8 {
        match self {
            NormalEncoding::Rgba8Unorm => 0,
            NormalEncoding::Rgba8Snorm => 1,
            NormalEncoding::R10G10B10A2Unorm => 2,
            NormalEncoding::Rgba16Unorm => 3,
            NormalEncoding::Rgba16Snorm => 4,
        }
    }

    /// Encodes the value for a native record.
    pub fn raw(self) -> (code: u8)
        ensures
            code == self.raw_value(),
    {
        match self {
            NormalEncoding::Rgba8Unorm => 0,
            NormalEncoding::Rgba8Snorm => 1,
            NormalEncoding::R10G10B10A2Unorm => 2,
            NormalEncoding::Rgba16Unorm => 3,
            NormalEncoding::Rgba16Snorm => 4,
        }
    }

    /// Decodes a code read from a native record. A code that stands for no
    /// value of this type is refused.
    pub fn from_raw(code: u8) -> (r: Option<NormalEncoding>)
        ensures
            match r {
                Some(v) => v.raw_value() == code,
                None => forall|v: NormalEncoding| v.raw_value() != code,
            },
    {
        match code {
            0 => Some(NormalEncoding::Rgba8Unorm),
            1 => Some(NormalEncoding::Rgba8Snorm),
            2 => Some(NormalEncoding::R10G10B10A2Unorm),
            3 => Some(NormalEncoding::Rgba16Unorm),
            4 => Some(NormalEncoding::Rgba16Snorm),
            _ => None,
        }
    }
}

/// How the loaded binary expects roughness to be encoded.
#[derive(Debug, Clone, Copy, PartialEq, Eq, Structural)]
pub enum RoughnessEncoding {
    /// Squared linear roughness.
    SqLinear,
    /// Linear roughness.
    LINEAR,
    /// Square root of linear roughness.
    SqrtLinear,
}

impl RoughnessEncoding {
    /// The code that stands for this value in a native record.
    pub open spec fn raw_value(self) -> u8 {
        match self {
            RoughnessEncoding::SqLinear => 0,
            RoughnessEncoding::LINEAR => 1,
            RoughnessEncoding::SqrtLinear => 2,
        }
    }

    /// Encodes the value for a native record.
    pub fn raw(self) -> (code: u8)
        ensures
            code == self.raw_value(),
    {
        match self {
            RoughnessEncoding::SqLinear => 0,
            RoughnessEncoding::LINEAR => 1,
            RoughnessEncoding::SqrtLinear => 2,
        }
    }

    /// Decodes a code read from a native record. A code that stands for no
    /// value of this type is refused.
    pub fn from_raw(code: u8) -> (r: Option<RoughnessEncoding>)
        ensures
            match r {
                Some(v) => v.raw_value() == code,
                None => forall|v: RoughnessEncoding| v.raw_value() != code,
            },
    {
        match code {
            0 => Some(RoughnessEncoding::SqLinear),
            1 => Some(RoughnessEncoding::LINEAR),
            2 => Some(RoughnessEncoding::SqrtLinear),
            _ => None,
        }
    }
}

/// What the loaded binary can do. The value never changes while the process
/// runs.
#[derive(Debug, Clone)]
pub struct LibraryDesc {
    pub spirv_binding_offsets: SPIRVBindingOffsets,
    /// The denoisers that the binary was built with.
    pub supported_denoisers: Vec<Denoiser>,
    pub version_major: u8,
    pub version_minor: u8,
    pub version_build: u8,
    pub normal_encoding: NormalEncoding,
    pub roughness_encoding: RoughnessEncoding,
}

impl LibraryDesc {
    /// The denoisers that the binary was built with, in the order in which it
    /// lists them.
    pub fn supported_denoisers(&self) -> (list: &[Denoiser])
        ensures
            list@ == self.supported_denoisers@,
    {
        self.supported_denoisers.as_slice()
    }

    /// Whether the binary was built with `denoiser`.
    pub fn supports(&self, denoiser: Denoiser) -> (found: bool)
        ensures
            found == self.supported_denoisers@.contains(denoiser),
    {
        let mut i: usize = 0;
        while i < self.supported_denoisers.len()
            invariant
                i <= self.supported_denoisers@.len(),
                forall|k: int| 0 <= k < i ==> self.supported_denoisers@[k] != denoiser,
            decreases self.supported_denoisers@.len() - i,
        {
            if self.supported_denoisers[i] == denoiser {
                return true;
            }
            i += 1;
        }
        false
    }
}

/// A token chosen by the host to name one denoiser within an instance.
#[derive(Debug, Clone, Copy, PartialEq, Eq, Structural)]
pub struct Identifier(pub u32);

/// The request for one denoiser, given when an instance is created.
#[derive(Debug, Clone, Copy, PartialEq, Eq, Structural)]
pub struct DenoiserDesc {
    pub identifier: Identifier,
    pub denoiser: Denoiser,
    pub render_width: u16,
    pub render_height: u16,
}

/// A texture sampler that the pipelines of an instance share.
#[derive(Debug, Clone, Copy, PartialEq, Eq, Structural)]
pub enum Sampler {
    /// Nearest texel, coordinates clamped.
    NearestClamp,
    /// Nearest texel, coordinates mirrored.
    NearestMirroredRepeat,
    /// Linear filtering, coordinates clamped.
    LinearClamp,
    /// Linear filtering, coordinates mirrored.
    LinearMirroredRepeat,
}

impl Sampler {
    /// The code that stands for this value in a native record.
    pub open spec fn raw_value(self) -> u32 {
        match self {
            Sampler::NearestClamp => 0,
            Sampler::NearestMirroredRepeat => 1,
            Sampler::LinearClamp => 2,
            Sampler::LinearMirroredRepeat => 3,
        }
    }

    /// Encodes the value for a native record.
    pub fn raw(self) -> (code: u32)
        ensures
            code == self.raw_value(),
    {
        match self {
            Sampler::NearestClamp => 0,
            Sampler::NearestMirroredRepeat => 1,
            Sampler::LinearClamp => 2,
            Sampler::LinearMirroredRepeat => 3,
        }
    }

    /// Decodes a code read from a native record. A code that stands for no
    /// value of this type is refused.
    pub fn from_raw(code: u32) -> (r: Option<Sampler>)
        ensures
            match r {
                Some(v) => v.raw_value() == code,
                None => forall|v: Sampler| v.raw_value() != code,
            },
    {
        match code {
            0 => Some(Sampler::NearestClamp),
            1 => Some(Sampler::NearestMirroredRepeat),
            2 => Some(Sampler::LinearClamp),
            3 => Some(Sampler::LinearMirroredRepeat),
            _ => None,
        }
    }
}

/// The bytecode of one compute shader, for one shading language.
#[derive(Debug, Clone)]
pub struct ComputeShaderDesc {
    pub bytecode: Vec<u8>,
}

impl ComputeShaderDesc {
    /// The bytes of the shader.
    pub fn bytecode(&self) -> (bytes: &[u8])
        ensures
            bytes@ == self.bytecode@,
    {
        self.bytecode.as_slice()
    }
}

/// How a dispatch accesses a resource.
#[derive(Debug, Clone, Copy, PartialEq, Eq, Structural)]
pub enum DescriptorType {
    /// Read-only access.
    Texture,
    /// Read-write access.
    StorageTexture,
}

impl DescriptorType {
    /// The code that stands for this value in a native record.
    pub open spec fn raw_value(self) -> u32 {
        match self {
            DescriptorType::Texture => 0,
            DescriptorType::StorageTexture => 1,
        }
    }

    /// Encodes the value for a native record.
    pub fn raw(self) -> (code: u32)
        ensures
            code == self.raw_value(),
    {
        match self {
            DescriptorType::Texture => 0,
            DescriptorType::StorageTexture => 1,
        }
    }

    /// Decodes a code read from a native record. A code that stands for no
    /// value of this type is refused.
    pub fn from_raw(code: u32) -> (r: Option<DescriptorType>)
        ensures
            match r {
                Some(v) => v.raw_value() == code,
                None => forall|v: DescriptorType| v.raw_value() != code,
            },
    {
        match code {
            0 => Some(DescriptorType::Texture),
            1 => Some(DescriptorType::StorageTexture),
            _ => None,
        }
    }
}

/// A run of consecutive registers of one descriptor type.
#[derive(Debug, Clone, Copy, PartialEq, Eq, Structural)]
pub struct ResourceRangeDesc {
    pub descriptor_type: DescriptorType,
    pub base_register_index: u32,
    pub descriptors_num: u32,
}

/// Texel format of a pool texture.
#[allow(non_camel_case_types)]
#[derive(Debug, Clone, Copy, PartialEq, Eq, Structural)]
pub enum Format {
    R8_UNORM,
    R8_SNORM,
    R8_UINT,
    R8_SINT,
    RG8_UNORM,
    RG8_SNORM,
    RG8_UINT,
    RG8_SINT,
    RGBA8_UNORM,
    RGBA8_SNORM,
    RGBA8_UINT,
    RGBA8_SINT,
    RGBA8_SRGB,
    R16_UNORM,
    R16_SNORM,
    R16_UINT,
    R16_SINT,
    R16_SFLOAT,
    RG16_UNORM,
    RG16_SNORM,
    RG16_UINT,
    RG16_SINT,
    RG16_SFLOAT,
    RGBA16_UNORM,
    RGBA16_SNORM,
    RGBA16_UINT,
    RGBA16_SINT,
    RGBA16_SFLOAT,
    R32_UINT,
    R32_SINT,
    R32_SFLOAT,
    RG32_UINT,
    RG32_SINT,
    RG32_SFLOAT,
    RGB32_UINT,
    RGB32_SINT,
    RGB32_SFLOAT,
    RGBA32_UINT,
    RGBA32_SINT,
    RGBA32_SFLOAT,
    R10_G10_B10_A2_UNORM,
    R10_G10_B10_A2_UINT,
    R11_G11_B10_UFLOAT,
    R9_G9_B9_E5_UFLOAT,
}

impl Format {
    /// The code that stands for this value in a native record.
    pub open spec fn raw_value(self) -> u32 {
        match self {
            Format::R8_UNORM => 0,
            Format::R8_SNORM => 1,
            Format::R8_UINT => 2,
            Format::R8_SINT => 3,
            Format::RG8_UNORM => 4,
            Format::RG8_SNORM => 5,
            Format::RG8_UINT => 6,
            Format::RG8_SINT => 7,
            Format::RGBA8_UNORM => 8,
            Format::RGBA8_SNORM => 9,
            Format::RGBA8_UINT => 10,
            Format::RGBA8_SINT => 11,
            Format::RGBA8_SRGB => 12,
            Format::R16_UNORM => 13,
            Format::R16_SNORM => 14,
            Format::R16_UINT => 15,
            Format::R16_SINT => 16,
            Format::R16_SFLOAT => 17,
            Format::RG16_UNORM => 18,
            Format::RG16_SNORM => 19,
            Format::RG16_UINT => 20,
            Format::RG16_SINT => 21,
            Format::RG16_SFLOAT => 22,
            Format::RGBA16_UNORM => 23,
            Format::RGBA16_SNORM => 24,
            Format::RGBA16_UINT => 25,
            Format::RGBA16_SINT => 26,
            Format::RGBA16_SFLOAT => 27,
            Format::R32_UINT => 28,
            Format::R32_SINT => 29,
            Format::R32_SFLOAT => 30,
            Format::RG32_UINT => 31,
            Format::RG32_SINT => 32,
            Format::RG32_SFLOAT => 33,
            Format::RGB32_UINT => 34,
            Format::RGB32_SINT => 35,
            Format::RGB32_SFLOAT => 36,
            Format::RGBA32_UINT => 37,
            Format::RGBA32_SINT => 38,
            Format::RGBA32_SFLOAT => 39,
            Format::R10_G10_B10_A2_UNORM => 40,
            Format::R10_G10_B10_A2_UINT => 41,
            Format::R11_G11_B10_UFLOAT => 42,
            Format::R9_G9_B9_E5_UFLOAT => 43,
        }
    }

    /// Encodes the value for a native record.
    pub fn raw(self) -> (code: u32)
        ensures
            code == self.raw_value(),
    {
        match self {
            Format::R8_UNORM => 0,
            Format::R8_SNORM => 1,
            Format::R8_UINT => 2,
            Format::R8_SINT => 3,
            Format::RG8_UNORM => 4,
            Format::RG8_SNORM => 5,
            Format::RG8_UINT => 6,
            Format::RG8_SINT => 7,
            Format::RGBA8_UNORM => 8,
            Format::RGBA8_SNORM => 9,
            Format::RGBA8_UINT => 10,
            Format::RGBA8_SINT => 11,
            Format::RGBA8_SRGB => 12,
            Format::R16_UNORM => 13,
            Format::R16_SNORM => 14,
            Format::R16_UINT => 15,
            Format::R16_SINT => 16,
            Format::R16_SFLOAT => 17,
            Format::RG16_UNORM => 18,
            Format::RG16_SNORM => 19,
            Format::RG16_UINT => 20,
            Format::RG16_SINT => 21,
            Format::RG16_SFLOAT => 22,
            Format::RGBA16_UNORM => 23,
            Format::RGBA16_SNORM => 24,
            Format::RGBA16_UINT => 25,
            Format::RGBA16_SINT => 26,
            Format::RGBA16_SFLOAT => 27,
            Format::R32_UINT => 28,
            Format::R32_SINT => 29,
            Format::R32_SFLOAT => 30,
            Format::RG32_UINT => 31,
            Format::RG32_SINT => 32,
            Format::RG32_SFLOAT => 33,
            Format::RGB32_UINT => 34,
            Format::RGB32_SINT => 35,
            Format::RGB32_SFLOAT => 36,
            Format::RGBA32_UINT => 37,
            Format::RGBA32_SINT => 38,
            Format::RGBA32_SFLOAT => 39,
            Format::R10_G10_B10_A2_UNORM => 40,
            Format::R10_G10_B10_A2_UINT => 41,
            Format::R11_G11_B10_UFLOAT => 42,
            Format::R9_G9_B9_E5_UFLOAT => 43,
        }
    }

    /// Decodes a code read from a native record. A code that stands for no
    /// value of this type is refused.
    pub fn from_raw(code: u32) -> (r: Option<Format>)
        ensures
            match r {
                Some(v) => v.raw_value() == code,
                None => forall|v: Format| v.raw_value() != code,
            },
    {
        match code {
            0 => Some(Format::R8_UNORM),
            1 => Some(Format::R8_SNORM),
            2 => Some(Format::R8_UINT),
            3 => Some(Format::R8_SINT),
            4 => Some(Format::RG8_UNORM),
            5 => Some(Format::RG8_SNORM),
            6 => Some(Format::RG8_UINT),
            7 => Some(Format::RG8_SINT),
            8 => Some(Format::RGBA8_UNORM),
            9 => Some(Format::RGBA8_SNORM),
            10 => Some(Format::RGBA8_UINT),
            11 => Some(Format::RGBA8_SINT),
            12 => Some(Format::RGBA8_SRGB),
            13 => Some(Format::R16_UNORM),
            14 => Some(Format::R16_SNORM),
            15 => Some(Format::R16_UINT),
            16 => Some(Format::R16_SINT),
            17 => Some(Format::R16_SFLOAT),
            18 => Some(Format::RG16_UNORM),
            19 => Some(Format::RG16_SNORM),
            20 => Some(Format::RG16_UINT),
            21 => Some(Format::RG16_SINT),
            22 => Some(Format::RG16_SFLOAT),
            23 => Some(Format::RGBA16_UNORM),
            24 => Some(Format::RGBA16_SNORM),
            25 => Some(Format::RGBA16_UINT),
            26 => Some(Format::RGBA16_SINT),
            27 => Some(Format::RGBA16_SFLOAT),
            28 => Some(Format::R32_UINT),
            29 => Some(Format::R32_SINT),
            30 => Some(Format::R32_SFLOAT),
            31 => Some(Format::RG32_UINT),
            32 => Some(Format::RG32_SINT),
            33 => Some(Format::RG32_SFLOAT),
            34 => Some(Format::RGB32_UINT),
            35 => Some(Format::RGB32_SINT),
            36 => Some(Format::RGB32_SFLOAT),
            37 => Some(Format::RGBA32_UINT),
            38 => Some(Format::RGBA32_SINT),
            39 => Some(Format::RGBA32_SFLOAT),
            40 => Some(Format::R10_G10_B10_A2_UNORM),
            41 => Some(Format::R10_G10_B10_A2_UINT),
            42 => Some(Format::R11_G11_B10_UFLOAT),
            43 => Some(Format::R9_G9_B9_E5_UFLOAT),
            _ => None,
        }
    }
}

/// One compute pipeline that the host has to build for an instance.
#[derive(Debug, Clone)]
pub struct PipelineDesc {
    pub compute_shader_dxbc: ComputeShaderDesc,
    pub compute_shader_dxil: ComputeShaderDesc,
    pub compute_shader_spirv: ComputeShaderDesc,
    pub shader_file_name: String,
    pub shader_entry_point_name: String,
    pub resource_ranges: Vec<ResourceRangeDesc>,
    pub max_repeat_num: u32,
    pub has_constant_data: bool,
}

impl PipelineDesc {
    /// The name of the file that the shader was compiled from.
    pub fn shader_file_name(&self) -> (name: &str)
        ensures
            name@ == self.shader_file_name@,
    {
        self.shader_file_name.as_str()
    }

    /// The name of the shader's entry point.
    pub fn shader_entry_point_name(&self) -> (name: &str)
        ensures
            name@ == self.shader_entry_point_name@,
    {
        self.shader_entry_point_name.as_str()
    }

    /// The register ranges that the pipeline binds, in binding order.
    pub fn resource_ranges(&self) -> (ranges: &[ResourceRangeDesc])
        ensures
            ranges@ == self.resource_ranges@,
    {
        self.resource_ranges.as_slice()
    }
}

/// One texture that a pool of an instance needs.
#[derive(Debug, Clone, Copy, PartialEq, Eq, Structural)]
pub struct TextureDesc {
    pub format: Format,
    pub width: u16,
    pub height: u16,
    pub mip_num: u16,
}

/// How many descriptors of each class all dispatches of a frame need together.
#[derive(Debug, Clone, Copy, PartialEq, Eq, Structural)]
pub struct DescriptorPoolDesc {
    pub sets_max_num: u32,
    pub constant_buffers_max_num: u32,
    pub samplers_max_num: u32,
    pub textures_max_num: u32,
    pub storage_textures_max_num: u32,
}

/// What an instance needs from the host: samplers, pipelines, two texture
/// pools and descriptor counts. It is fixed when the instance is created.
#[derive(Debug, Clone)]
pub struct InstanceDesc {
    pub constant_buffer_max_data_size: u32,
    pub constant_buffer_space_index: u32,
    pub constant_buffer_register_index: u32,
    pub samplers: Vec<Sampler>,
    pub samplers_space_index: u32,
    pub samplers_base_register_index: u32,
    pub pipelines: Vec<PipelineDesc>,
    pub resources_space_index: u32,
    pub permanent_pool: Vec<TextureDesc>,
    pub transient_pool: Vec<TextureDesc>,
    pub descriptor_pool_desc: DescriptorPoolDesc,
}

impl InstanceDesc {
    /// The samplers shared by all pipelines.
    pub fn samplers(&self) -> (list: &[Sampler])
        ensures
            list@ == self.samplers@,
    {
        self.samplers.as_slice()
    }

    /// The pipelines; a dispatch names one by its position here.
    pub fn pipelines(&self) -> (list: &[PipelineDesc])
        ensures
            list@ == self.pipelines@,
    {
        self.pipelines.as_slice()
    }

    /// The textures that live as long as the instance.
    pub fn permanent_pool(&self) -> (list: &[TextureDesc])
        ensures
            list@ == self.permanent_pool@,
    {
        self.permanent_pool.as_slice()
    }

    /// The textures that are free for other use between two frames.
    pub fn transient_pool(&self) -> (list: &[TextureDesc])
        ensures
            list@ == self.transient_pool@,
    {
        self.transient_pool.as_slice()
    }
}

/// The role of a resource bound to a dispatch.
#[allow(non_camel_case_types)]
#[derive(Debug, Clone, Copy, PartialEq, Eq, Structural)]
pub enum ResourceType {
    /// Motion vectors, world space or screen space.
    IN_MV,
    /// Packed normal and roughness.
    IN_NORMAL_ROUGHNESS,
    /// Linear view depth of primary rays.
    IN_VIEWZ,
    /// Noisy diffuse radiance and hit distance.
    IN_DIFF_RADIANCE_HITDIST,
    /// Noisy specular radiance and hit distance.
    IN_SPEC_RADIANCE_HITDIST,
    /// Noisy diffuse hit distance.
    IN_DIFF_HITDIST,
    /// Noisy specular hit distance.
    IN_SPEC_HITDIST,
    /// Noisy bent normal and normalized hit distance.
    IN_DIFF_DIRECTION_HITDIST,
    /// Noisy diffuse spherical harmonics, first texture.
    IN_DIFF_SH0,
    /// Noisy diffuse spherical harmonics, second texture.
    IN_DIFF_SH1,
    /// Noisy specular spherical harmonics, first texture.
    IN_SPEC_SH0,
    /// Noisy specular spherical harmonics, second texture.
    IN_SPEC_SH1,
    /// Optional confidence of the diffuse history.
    IN_DIFF_CONFIDENCE,
    /// Optional confidence of the specular history.
    IN_SPEC_CONFIDENCE,
    /// Optional selector between the two disocclusion thresholds.
    IN_DISOCCLUSION_THRESHOLD_MIX,
    /// Optional base color and metalness.
    IN_BASECOLOR_METALNESS,
    /// Noisy shadow data.
    IN_SHADOWDATA,
    /// Noisy shadow translucency.
    IN_SHADOW_TRANSLUCENCY,
    /// Noisy signal for plain accumulation.
    IN_RADIANCE,
    /// World-space position of the primary hit.
    IN_DELTA_PRIMARY_POS,
    /// World-space position of the secondary hit.
    IN_DELTA_SECONDARY_POS,
    /// Denoised diffuse radiance and hit distance.
    OUT_DIFF_RADIANCE_HITDIST,
    /// Denoised specular radiance and hit distance.
    OUT_SPEC_RADIANCE_HITDIST,
    /// Denoised diffuse spherical harmonics, first texture.
    OUT_DIFF_SH0,
    /// Denoised diffuse spherical harmonics, second texture.
    OUT_DIFF_SH1,
    /// Denoised specular spherical harmonics, first texture.
    OUT_SPEC_SH0,
    /// Denoised specular spherical harmonics, second texture.
    OUT_SPEC_SH1,
    /// Denoised diffuse hit distance.
    OUT_DIFF_HITDIST,
    /// Denoised specular hit distance.
    OUT_SPEC_HITDIST,
    /// Denoised bent normal and normalized hit distance.
    OUT_DIFF_DIRECTION_HITDIST,
    /// Denoised shadow and optional translucency.
    OUT_SHADOW_TRANSLUCENCY,
    /// Denoised signal of plain accumulation.
    OUT_RADIANCE,
    /// Screen-space specular motion.
    OUT_REFLECTION_MV,
    /// Screen-space refraction motion.
    OUT_DELTA_MV,
    /// Optional debug overlay.
    OUT_VALIDATION,
    /// A texture of the transient pool, free for reuse after denoising.
    TRANSIENT_POOL,
    /// A texture of the permanent pool, kept between frames.
    PERMANENT_POOL,
}

impl ResourceType {
    /// The code that stands for this value in a native record.
    pub open spec fn raw_value(self) -> u32 {
        match self {
            ResourceType::IN_MV => 0,
            ResourceType::IN_NORMAL_ROUGHNESS => 1,
            ResourceType::IN_VIEWZ => 2,
            ResourceType::IN_DIFF_RADIANCE_HITDIST => 3,
            ResourceType::IN_SPEC_RADIANCE_HITDIST => 4,
            ResourceType::IN_DIFF_HITDIST => 5,
            ResourceType::IN_SPEC_HITDIST => 6,
            ResourceType::IN_DIFF_DIRECTION_HITDIST => 7,
            ResourceType::IN_DIFF_SH0 => 8,
            ResourceType::IN_DIFF_SH1 => 9,
            ResourceType::IN_SPEC_SH0 => 10,
            ResourceType::IN_SPEC_SH1 => 11,
            ResourceType::IN_DIFF_CONFIDENCE => 12,
            ResourceType::IN_SPEC_CONFIDENCE => 13,
            ResourceType::IN_DISOCCLUSION_THRESHOLD_MIX => 14,
            ResourceType::IN_BASECOLOR_METALNESS => 15,
            ResourceType::IN_SHADOWDATA => 16,
            ResourceType::IN_SHADOW_TRANSLUCENCY => 17,
            ResourceType::IN_RADIANCE => 18,
            ResourceType::IN_DELTA_PRIMARY_POS => 19,
            ResourceType::IN_DELTA_SECONDARY_POS => 20,
            ResourceType::OUT_DIFF_RADIANCE_HITDIST => 21,
            ResourceType::OUT_SPEC_RADIANCE_HITDIST => 22,
            ResourceType::OUT_DIFF_SH0 => 23,
            ResourceType::OUT_DIFF_SH1 => 24,
            ResourceType::OUT_SPEC_SH0 => 25,
            ResourceType::OUT_SPEC_SH1 => 26,
            ResourceType::OUT_DIFF_HITDIST => 27,
            ResourceType::OUT_SPEC_HITDIST => 28,
            ResourceType::OUT_DIFF_DIRECTION_HITDIST => 29,
            ResourceType::OUT_SHADOW_TRANSLUCENCY => 30,
            ResourceType::OUT_RADIANCE => 31,
            ResourceType::OUT_REFLECTION_MV => 32,
            ResourceType::OUT_DELTA_MV => 33,
            ResourceType::OUT_VALIDATION => 34,
            ResourceType::TRANSIENT_POOL => 35,
            ResourceType::PERMANENT_POOL => 36,
        }
    }

    /// Encodes the value for a native record.
    pub fn raw(self) -> (code: u32)
        ensures
            code == self.raw_value(),
    {
        match self {
            ResourceType::IN_MV => 0,
            ResourceType::IN_NORMAL_ROUGHNESS => 1,
            ResourceType::IN_VIEWZ => 2,
            ResourceType::IN_DIFF_RADIANCE_HITDIST => 3,
            ResourceType::IN_SPEC_RADIANCE_HITDIST => 4,
            ResourceType::IN_DIFF_HITDIST => 5,
            ResourceType::IN_SPEC_HITDIST => 6,
            ResourceType::IN_DIFF_DIRECTION_HITDIST => 7,
            ResourceType::IN_DIFF_SH0 => 8,
            ResourceType::IN_DIFF_SH1 => 9,
            ResourceType::IN_SPEC_SH0 => 10,
            ResourceType::IN_SPEC_SH1 => 11,
            ResourceType::IN_DIFF_CONFIDENCE => 12,
            ResourceType::IN_SPEC_CONFIDENCE => 13,
            ResourceType::IN_DISOCCLUSION_THRESHOLD_MIX => 14,
            ResourceType::IN_BASECOLOR_METALNESS => 15,
            ResourceType::IN_SHADOWDATA => 16,
            ResourceType::IN_SHADOW_TRANSLUCENCY => 17,
            ResourceType::IN_RADIANCE => 18,
            ResourceType::IN_DELTA_PRIMARY_POS => 19,
            ResourceType::IN_DELTA_SECONDARY_POS => 20,
            ResourceType::OUT_DIFF_RADIANCE_HITDIST => 21,
            ResourceType::OUT_SPEC_RADIANCE_HITDIST => 22,
            ResourceType::OUT_DIFF_SH0 => 23,
            ResourceType::OUT_DIFF_SH1 => 24,
            ResourceType::OUT_SPEC_SH0 => 25,
            ResourceType::OUT_SPEC_SH1 => 26,
            ResourceType::OUT_DIFF_HITDIST => 27,
            ResourceType::OUT_SPEC_HITDIST => 28,
            ResourceType::OUT_DIFF_DIRECTION_HITDIST => 29,
            ResourceType::OUT_SHADOW_TRANSLUCENCY => 30,
            ResourceType::OUT_RADIANCE => 31,
            ResourceType::OUT_REFLECTION_MV => 32,
            ResourceType::OUT_DELTA_MV => 33,
            ResourceType::OUT_VALIDATION => 34,
            ResourceType::TRANSIENT_POOL => 35,
            ResourceType::PERMANENT_POOL => 36,
        }
    }

    /// Decodes a code read from a native record. A code that stands for no
    /// value of this type is refused.
    pub fn from_raw(code: u32) -> (r: Option<ResourceType>)
        ensures
            match r {
                Some(v) => v.raw_value() == code,
                None => forall|v: ResourceType| v.raw_value() != code,
            },
    {
        match code {
            0 => Some(ResourceType::IN_MV),
            1 => Some(ResourceType::IN_NORMAL_ROUGHNESS),
            2 => Some(ResourceType::IN_VIEWZ),
            3 => Some(ResourceType::IN_DIFF_RADIANCE_HITDIST),
            4 => Some(ResourceType::IN_SPEC_RADIANCE_HITDIST),
            5 => Some(ResourceType::IN_DIFF_HITDIST),
            6 => Some(ResourceType::IN_SPEC_HITDIST),
            7 => Some(ResourceType::IN_DIFF_DIRECTION_HITDIST),
            8 => Some(ResourceType::IN_DIFF_SH0),
            9 => Some(ResourceType::IN_DIFF_SH1),
            10 => Some(ResourceType::IN_SPEC_SH0),
            11 => Some(ResourceType::IN_SPEC_SH1),
            12 => Some(ResourceType::IN_DIFF_CONFIDENCE),
            13 => Some(ResourceType::IN_SPEC_CONFIDENCE),
            14 => Some(ResourceType::IN_DISOCCLUSION_THRESHOLD_MIX),
            15 => Some(ResourceType::IN_BASECOLOR_METALNESS),
            16 => Some(ResourceType::IN_SHADOWDATA),
            17 => Some(ResourceType::IN_SHADOW_TRANSLUCENCY),
            18 => Some(ResourceType::IN_RADIANCE),
            19 => Some(ResourceType::IN_DELTA_PRIMARY_POS),
            20 => Some(ResourceType::IN_DELTA_SECONDARY_POS),
            21 => Some(ResourceType::OUT_DIFF_RADIANCE_HITDIST),
            22 => Some(ResourceType::OUT_SPEC_RADIANCE_HITDIST),
            23 => Some(ResourceType::OUT_DIFF_SH0),
            24 => Some(ResourceType::OUT_DIFF_SH1),
            25 => Some(ResourceType::OUT_SPEC_SH0),
            26 => Some(ResourceType::OUT_SPEC_SH1),
            27 => Some(ResourceType::OUT_DIFF_HITDIST),
            28 => Some(ResourceType::OUT_SPEC_HITDIST),
            29 => Some(ResourceType::OUT_DIFF_DIRECTION_HITDIST),
            30 => Some(ResourceType::OUT_SHADOW_TRANSLUCENCY),
            31 => Some(ResourceType::OUT_RADIANCE),
            32 => Some(ResourceType::OUT_REFLECTION_MV),
            33 => Some(ResourceType::OUT_DELTA_MV),
            34 => Some(ResourceType::OUT_VALIDATION),
            35 => Some(ResourceType::TRANSIENT_POOL),
            36 => Some(ResourceType::PERMANENT_POOL),
            _ => None,
        }
    }
}

/// One resource bound to a dispatch.
#[derive(Debug, Clone, Copy, PartialEq, Eq, Structural)]
pub struct ResourceDesc {
    pub state_needed: DescriptorType,
    pub ty: ResourceType,
    pub index_in_pool: u16,
    pub mip_offset: u16,
    pub mip_num: u16,
}

/// One unit of compute work. The host runs the dispatches of a frame in the
/// order in which it received them.
#[derive(Debug, Clone)]
pub struct DispatchDesc {
    pub name: String,
    pub resources: Vec<ResourceDesc>,
    pub constant_buffer_data: Vec<u8>,
    pub pipeline_index: u16,
    pub grid_width: u16,
    pub grid_height: u16,
}

impl DispatchDesc {
    /// The bytes to place in the constant buffer before the dispatch.
    pub fn constant_buffer(&self) -> (bytes: &[u8])
        ensures
            bytes@ == self.constant_buffer_data@,
    {
        self.constant_buffer_data.as_slice()
    }

    /// The resources to bind, in binding order.
    pub fn resources(&self) -> (list: &[ResourceDesc])
        ensures
            list@ == self.resources@,
    {
        self.resources.as_slice()
    }

    /// The name of the dispatch, for display.
    pub fn name(&self) -> (name: &str)
        ensures
            name@ == self.name@,
    {
        self.name.as_str()
    }
}

} // verus!
