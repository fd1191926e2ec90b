//! The checks and parameters of compressing images to Basis Universal KTX2
//! textures: which images the encoder accepts, how their layers are handed
//! to it, and the compression flags.
use vstd::prelude::*;

use crate::formats::BasisTextureFormat;
use crate::types::{Extent3d, TextureViewDimension};

verus! {

/// The pixel format of a source image.
#[derive(Debug, Clone, Copy, PartialEq, Eq, Structural)]
pub enum SourceImageFormat {
    /// 8 bit RGBA.
    Rgba8,
    /// 32 bit float RGBA.
    Rgba32Float,
}

/// The size of one pixel of `f` in bytes.
pub open spec fn pixel_bytes_of(f: SourceImageFormat) -> u32 {
    match f {
        SourceImageFormat::Rgba8 => 4,
        SourceImageFormat::Rgba32Float => 16,
    }
}

impl SourceImageFormat {
    /// The size of one pixel in bytes: four channels of one byte, or of four
    /// bytes for floats.
    pub fn pixel_bytes(&self) -> (r: u32)
        ensures
            r == pixel_bytes_of(*self),
    {
        match self {
            SourceImageFormat::Rgba8 => 4,
            SourceImageFormat::Rgba32Float => 16,
        }
    }
}

/// An image to compress: its pixels, layer after layer, row after row.
#[derive(Debug, Clone, Copy)]
pub struct SourceImage<'a> {
    /// The input data of image pixels.
    pub data: &'a [u8],
    /// The pixel format.
    pub format: SourceImageFormat,
    /// The size of the image; its depth is the layer count.
    pub size: Extent3d,
}

/// The bytes of one layer of an image of size `size` in format `f`.
pub open spec fn layer_bytes_of(size: Extent3d, f: SourceImageFormat) -> int {
    size.width * size.height * pixel_bytes_of(f)
}

/// The bytes of all layers of an image of size `size` in format `f`.
pub open spec fn image_bytes_of(size: Extent3d, f: SourceImageFormat) -> int {
    layer_bytes_of(size, f) * size.depth_or_array_layers
}

/// Whether the byte counts of an image of size `size` in format `f` fit in
/// a `u32`, as the C API takes them.
pub open spec fn bytes_fit_u32(size: Extent3d, f: SourceImageFormat) -> bool {
    0 <= layer_bytes_of(size, f) <= u32::MAX && 0 <= image_bytes_of(size, f) <= u32::MAX
}

/// Errors while encoding an image.
#[derive(Debug, Clone, Copy, PartialEq, Eq, Structural)]
#[non_exhaustive]
pub enum BasisuEncodeError {
    /// `BasisuEncoder::set_image_slice` only accepts image with 1 layer.
    SetImageSliceOnlyAcceptsOneLayer,
    /// Image data is empty.
    EmptyImageData,
    /// The image data length does not match its size.
    ImageUnmatchedDataAndSize {
        /// The size of the image.
        image_size: Extent3d,
        /// The data length that the size asks for.
        expected_len: usize,
        /// The data length given.
        data_len: usize,
    },
    /// `bu_comp_params_set_image_*` failed.
    BuSetImageFailed,
    /// `bu_compress_texture` failed.
    BuCompressFailed,
}

/// The outcome of checking the data of an image of size `size` in format
/// `f` whose data is `len` bytes long.
pub open spec fn validation_of(len: nat, size: Extent3d, f: SourceImageFormat) -> Result<
    (),
    BasisuEncodeError,
> {
    if len == 0 {
        Err(BasisuEncodeError::EmptyImageData)
    } else if len != image_bytes_of(size, f) {
        Err(
            BasisuEncodeError::ImageUnmatchedDataAndSize {
                image_size: size,
                expected_len: image_bytes_of(size, f) as usize,
                data_len: len as usize,
            },
        )
    } else {
        Ok(())
    }
}

/// Whether the byte counts of an image of size `size` in format `f` fit in
/// a `u32`.
pub fn image_bytes_fit(size: Extent3d, format: SourceImageFormat) -> (r: bool)
    ensures
        r == bytes_fit_u32(size, format),
{
    let w = size.width as u64;
    let h = size.height as u64;
    let d = size.depth_or_array_layers as u64;
    let p = format.pixel_bytes() as u64;
    proof {
        assert(w * h <= 0xffff_ffffu64 * 0xffff_ffffu64) by (nonlinear_arith)
            requires
                w <= 0xffff_ffffu64,
                h <= 0xffff_ffffu64,
        ;
    }
    let layer: u64 = w * h;
    if layer > 0xffff_ffffu64 {
        proof {
            lemma_layer_exceeds(size, format);
        }
        return false;
    }
    proof {
        assert(layer * p <= 0xffff_ffffu64 * 16) by (nonlinear_arith)
            requires
                layer <= 0xffff_ffffu64,
                p <= 16,
        ;
    }
    let layer_bytes: u64 = layer * p;
    if layer_bytes > 0xffff_ffffu64 {
        return false;
    }
    proof {
        assert(layer_bytes * d <= 0xffff_ffffu64 * 0xffff_ffffu64) by (nonlinear_arith)
            requires
                layer_bytes <= 0xffff_ffffu64,
                d <= 0xffff_ffffu64,
        ;
    }
    let total: u64 = layer_bytes * d;
    total <= 0xffff_ffffu64
}

/// A layer whose pixel count alone exceeds a `u32` has too many bytes.
proof fn lemma_layer_exceeds(size: Extent3d, format: SourceImageFormat)
    requires
        size.width * size.height > u32::MAX,
    ensures
        !bytes_fit_u32(size, format),
{
    let p = pixel_bytes_of(format);
    assert(size.width * size.height * p >= size.width * size.height) by (nonlinear_arith)
        requires
            p >= 1,
            size.width * size.height >= 0,
    ;
}

/// An image with data has at least one row and one layer, and its rows fit
/// in a layer.
proof fn lemma_nonempty_image_rows_fit(size: Extent3d, f: SourceImageFormat)
    requires
        image_bytes_of(size, f) > 0,
    ensures
        size.height >= 1,
        size.depth_or_array_layers >= 1,
        size.width * pixel_bytes_of(f) <= layer_bytes_of(size, f),
        layer_bytes_of(size, f) <= image_bytes_of(size, f),
{
    let w = size.width as int;
    let h = size.height as int;
    let d = size.depth_or_array_layers as int;
    let p = pixel_bytes_of(f) as int;
    assert(h >= 1 && d >= 1) by (nonlinear_arith)
        requires
            w * h * p * d > 0,
            w >= 0,
            h >= 0,
            p >= 0,
            d >= 0,
    ;
    assert(w * p <= w * h * p && w * h * p <= w * h * p * d) by (nonlinear_arith)
        requires
            h >= 1,
            d >= 1,
            w >= 0,
            p >= 0,
    ;
}

impl<'a> SourceImage<'a> {
    /// The bytes of one layer of the image.
    pub fn expected_per_layer_bytes(&self) -> (r: u32)
        requires
            bytes_fit_u32(self.size, self.format),
        ensures
            r == layer_bytes_of(self.size, self.format),
    {
        self.size.width * self.size.height * self.format.pixel_bytes()
    }

    /// The bytes of all layers of the image.
    pub fn expected_bytes(&self) -> (r: u32)
        requires
            bytes_fit_u32(self.size, self.format),
        ensures
            r == image_bytes_of(self.size, self.format),
    {
        self.expected_per_layer_bytes() * self.size.depth_or_array_layers
    }

    /// Checks that the image has data and as much as its size asks for.
    pub fn validate_image_data(&self) -> (r: Result<(), BasisuEncodeError>)
        requires
            self.data@.len() > 0 ==> bytes_fit_u32(self.size, self.format),
        ensures
            r == validation_of(self.data@.len(), self.size, self.format),
    {
        if self.data.len() == 0 {
            return Err(BasisuEncodeError::EmptyImageData);
        }
        let expected = self.expected_bytes();
        if self.data.len() != expected as usize {
            return Err(
                BasisuEncodeError::ImageUnmatchedDataAndSize {
                    image_size: self.size,
                    expected_len: expected as usize,
                    data_len: self.data.len(),
                },
            );
        }
        Ok(())
    }
}

/// One image slice as the encoder's `bu_comp_params_set_image_*` takes it.
#[derive(Debug, Clone, Copy, PartialEq, Eq, Structural)]
pub struct LayerUpload {
    /// The slice index in the encoder.
    pub index: u32,
    /// The offset of the slice's first pixel in the image data.
    pub offset: u64,
    /// Width in pixels.
    pub width: u32,
    /// Height in pixels.
    pub height: u32,
    /// Bytes per row.
    pub row_pitch: u32,
}

/// The upload of slice `index` of an image, taken from layer `layer`.
pub open spec fn upload_of(size: Extent3d, f: SourceImageFormat, index: u32, layer: int) -> LayerUpload {
    LayerUpload {
        index,
        offset: (layer * layer_bytes_of(size, f)) as u64,
        width: size.width,
        height: size.height,
        row_pitch: (size.width * pixel_bytes_of(f)) as u32,
    }
}

/// Encoder that is used to compress a [`SourceImage`] to a Basis Universal
/// KTX2 file; it holds the C API's compression parameter handle.
pub struct BasisuEncoder {
    params: u64,
}

impl BasisuEncoder {
    /// The encoder of the C compression parameters `params`.
    pub fn from_params(params: u64) -> (r: Self)
        ensures
            r.params_view() == params,
    {
        BasisuEncoder { params }
    }

    /// The C compression parameter handle.
    pub closed spec fn params_view(self) -> u64 {
        self.params
    }

    /// The C compression parameter handle.
    pub fn params(&self) -> (r: u64)
        ensures
            r == self.params_view(),
    {
        self.params
    }

    /// The slices that setting `image` hands to the encoder: layer `i` as
    /// slice `i`, at `i` layers' bytes into the data; or the error of an
    /// image whose data does not match its size.
    pub fn set_image_plan(image: &SourceImage) -> (r: Result<Vec<LayerUpload>, BasisuEncodeError>)
        requires
            image.data@.len() > 0 ==> bytes_fit_u32(image.size, image.format),
        ensures
            validation_of(image.data@.len(), image.size, image.format) is Err ==> r
                == Err::<Vec<LayerUpload>, BasisuEncodeError>(
                validation_of(image.data@.len(), image.size, image.format)->Err_0,
            ),
            validation_of(image.data@.len(), image.size, image.format) is Ok ==> r is Ok,
            r matches Ok(v) ==> {
                &&& v@.len() == image.size.depth_or_array_layers
                &&& forall|i: int|
                    0 <= i < v@.len() ==> #[trigger] v@[i] == upload_of(
                        image.size,
                        image.format,
                        i as u32,
                        i,
                    )
            },
    {
        match image.validate_image_data() {
            Err(e) => return Err(e),
            Ok(()) => {},
        }
        let per_layer = image.expected_per_layer_bytes();
        proof {
            lemma_nonempty_image_rows_fit(image.size, image.format);
        }
        let pitch = image.size.width * image.format.pixel_bytes();
        let layers = image.size.depth_or_array_layers;
        let mut v: Vec<LayerUpload> = Vec::new();
        let mut i: u32 = 0;
        while i < layers
            invariant
                i <= layers,
                layers == image.size.depth_or_array_layers,
                per_layer == layer_bytes_of(image.size, image.format),
                pitch == image.size.width * pixel_bytes_of(image.format),
                bytes_fit_u32(image.size, image.format),
                v@.len() == i,
                forall|j: int|
                    0 <= j < i ==> #[trigger] v@[j] == upload_of(
                        image.size,
                        image.format,
                        j as u32,
                        j,
                    ),
            decreases layers - i,
        {
            proof {
                assert(i * per_layer <= layers * per_layer) by (nonlinear_arith)
                    requires
                        i <= layers,
                        per_layer >= 0,
                ;
            }
            let offset: u64 = (i as u64) * (per_layer as u64);
            v.push(
                LayerUpload {
                    index: i,
                    offset,
                    width: image.size.width,
                    height: image.size.height,
                    row_pitch: pitch,
                },
            );
            i = i + 1;
        }
        Ok(v)
    }

    /// The slice that setting `image` as slice `index` hands to the encoder;
    /// or the error of an image with other than one layer, or whose data
    /// does not match its size.
    pub fn set_image_slice_plan(index: u32, image: &SourceImage) -> (r: Result<
        LayerUpload,
        BasisuEncodeError,
    >)
        requires
            image.size.depth_or_array_layers == 1 && image.data@.len() > 0 ==> bytes_fit_u32(
                image.size,
                image.format,
            ),
        ensures
            image.size.depth_or_array_layers != 1 ==> r == Err::<LayerUpload, BasisuEncodeError>(
                BasisuEncodeError::SetImageSliceOnlyAcceptsOneLayer,
            ),
            image.size.depth_or_array_layers == 1 ==> (match validation_of(
                image.data@.len(),
                image.size,
                image.format,
            ) {
                Err(e) => r == Err::<LayerUpload, BasisuEncodeError>(e),
                Ok(_) => r == Ok::<LayerUpload, BasisuEncodeError>(
                    upload_of(image.size, image.format, index, 0),
                ),
            }),
    {
        if image.size.depth_or_array_layers != 1 {
            return Err(BasisuEncodeError::SetImageSliceOnlyAcceptsOneLayer);
        }
        match image.validate_image_data() {
            Err(e) => return Err(e),
            Ok(()) => {},
        }
        proof {
            lemma_nonempty_image_rows_fit(image.size, image.format);
        }
        Ok(
            LayerUpload {
                index,
                offset: 0,
                width: image.size.width,
                height: image.size.height,
                row_pitch: image.size.width * image.format.pixel_bytes(),
            },
        )
    }
}

/// Multithreaded compression (`BU_COMP_FLAGS_THREADED`).
pub const BU_COMP_FLAGS_THREADED: u64 = 0x200;
/// Debug output (`BU_COMP_FLAGS_DEBUG_OUTPUT`).
pub const BU_COMP_FLAGS_DEBUG_OUTPUT: u64 = 0x400;
/// KTX2 output (`BU_COMP_FLAGS_KTX2_OUTPUT`).
pub const BU_COMP_FLAGS_KTX2_OUTPUT: u64 = 0x800;
/// Zstandard supercompression of UASTC KTX2 output (`BU_COMP_FLAGS_KTX2_UASTC_ZSTD`).
pub const BU_COMP_FLAGS_KTX2_UASTC_ZSTD: u64 = 0x1000;
/// sRGB input and output (`BU_COMP_FLAGS_SRGB`).
pub const BU_COMP_FLAGS_SRGB: u64 = 0x2000;
/// Mipmap generation, clamping at the edges (`BU_COMP_FLAGS_GEN_MIPS_CLAMP`).
pub const BU_COMP_FLAGS_GEN_MIPS_CLAMP: u64 = 0x4000;
/// Mipmap generation, wrapping at the edges (`BU_COMP_FLAGS_GEN_MIPS_WRAP`).
pub const BU_COMP_FLAGS_GEN_MIPS_WRAP: u64 = 0x8000;
/// Validation of the output (`BU_COMP_FLAGS_VALIDATE_OUTPUT`).
pub const BU_COMP_FLAGS_VALIDATE_OUTPUT: u64 = 0x40_0000;
/// The position of the texture type field (`BU_COMP_FLAGS_TEXTURE_TYPE_SHIFT`).
pub const BU_COMP_FLAGS_TEXTURE_TYPE_SHIFT: u64 = 25;
/// The width mask of the texture type field (`BU_COMP_FLAGS_TEXTURE_TYPE_MASK`).
pub const BU_COMP_FLAGS_TEXTURE_TYPE_MASK: u64 = 3;
/// The texture type field of a 2D texture (`BU_COMP_FLAGS_TEXTURE_TYPE_2D`).
pub const BU_COMP_FLAGS_TEXTURE_TYPE_2D: u64 = 0;
/// The texture type field of a 2D array (`BU_COMP_FLAGS_TEXTURE_TYPE_2D_ARRAY`).
pub const BU_COMP_FLAGS_TEXTURE_TYPE_2D_ARRAY: u64 = 0x200_0000;
/// The texture type field of a cubemap array (`BU_COMP_FLAGS_TEXTURE_TYPE_CUBEMAP_ARRAY`).
pub const BU_COMP_FLAGS_TEXTURE_TYPE_CUBEMAP_ARRAY: u64 = 0x400_0000;
/// The bits of the texture type field.
pub const BU_COMP_FLAGS_TEXTURE_TYPE_FIELD: u64 = 0x600_0000;

/// The parameters of one compression.
#[derive(Debug, Clone, Copy, PartialEq, Eq, Structural)]
pub struct BasisuEncoderParams {
    /// Target file format.
    pub basis_tex_format: BasisTextureFormat,
    /// Unified quality level [1, 100], or -1 for the codec-specific quality.
    pub quality_level: i32,
    /// Unified encoder effort [0, 10], or -1 for the codec-specific effort.
    pub effort_level: i32,
    /// Bitwise OR of `BU_COMP_FLAGS_*`; the low 8 bits hold the codec-specific quality.
    pub flags_and_quality: u64,
    /// The IEEE 754 bits of the `f32` low-level quality or lambda of UASTC
    /// RDO encoding; 0 (that is 0.0) with a unified quality level.
    pub low_level_uastc_rdo_or_dct_quality_bits: u32,
}

/// The flags of the linear defaults: threaded, KTX2 output, Zstandard
/// supercompression.
pub open spec fn linear_default_flags() -> u64 {
    BU_COMP_FLAGS_THREADED | BU_COMP_FLAGS_KTX2_OUTPUT | BU_COMP_FLAGS_KTX2_UASTC_ZSTD
}

/// The parameters for sRGB images: quality 75, effort 2, the linear default
/// flags and sRGB, low-level quality 0.
pub open spec fn srgb_defaults_of(f: BasisTextureFormat) -> BasisuEncoderParams {
    BasisuEncoderParams {
        basis_tex_format: f,
        quality_level: 75,
        effort_level: 2,
        flags_and_quality: linear_default_flags() | BU_COMP_FLAGS_SRGB,
        low_level_uastc_rdo_or_dct_quality_bits: 0,
    }
}

/// The parameters for linear images: as the sRGB ones, without sRGB.
pub open spec fn linear_defaults_of(f: BasisTextureFormat) -> BasisuEncoderParams {
    BasisuEncoderParams {
        basis_tex_format: f,
        quality_level: 75,
        effort_level: 2,
        flags_and_quality: linear_default_flags(),
        low_level_uastc_rdo_or_dct_quality_bits: 0,
    }
}

/// The texture type field of a view dimension; cubemaps and cubemap arrays
/// are both compressed as cubemap arrays.
pub open spec fn tex_type_field_of(d: TextureViewDimension) -> u64 {
    match d {
        TextureViewDimension::D2 => BU_COMP_FLAGS_TEXTURE_TYPE_2D,
        TextureViewDimension::D2Array => BU_COMP_FLAGS_TEXTURE_TYPE_2D_ARRAY,
        TextureViewDimension::Cube | TextureViewDimension::CubeArray =>
            BU_COMP_FLAGS_TEXTURE_TYPE_CUBEMAP_ARRAY,
    }
}

impl BasisuEncoderParams {
    /// The defaults for sRGB images: quality 75, effort 2, threaded, sRGB,
    /// KTX2 output with Zstandard supercompression, low-level quality 0.
    pub fn new_with_srgb_defaults(basis_tex_format: BasisTextureFormat) -> (r: Self)
        ensures
            r == srgb_defaults_of(basis_tex_format),
    {
        BasisuEncoderParams {
            basis_tex_format,
            quality_level: 75,
            effort_level: 2,
            flags_and_quality: BU_COMP_FLAGS_THREADED | BU_COMP_FLAGS_KTX2_OUTPUT
                | BU_COMP_FLAGS_KTX2_UASTC_ZSTD | BU_COMP_FLAGS_SRGB,
            low_level_uastc_rdo_or_dct_quality_bits: 0,
        }
    }

    /// The defaults for linear images: as the sRGB defaults, without sRGB.
    pub fn new_with_linear_defaults(basis_tex_format: BasisTextureFormat) -> (r: Self)
        ensures
            r == linear_defaults_of(basis_tex_format),
    {
        BasisuEncoderParams {
            basis_tex_format,
            quality_level: 75,
            effort_level: 2,
            flags_and_quality: BU_COMP_FLAGS_THREADED | BU_COMP_FLAGS_KTX2_OUTPUT
                | BU_COMP_FLAGS_KTX2_UASTC_ZSTD,
            low_level_uastc_rdo_or_dct_quality_bits: 0,
        }
    }

    /// `self` with the texture type field set according to the view
    /// dimension, every other flag kept.
    pub fn with_tex_type(self, tex_type: TextureViewDimension) -> (r: Self)
        ensures
            r == (BasisuEncoderParams {
                flags_and_quality: (self.flags_and_quality & !BU_COMP_FLAGS_TEXTURE_TYPE_FIELD)
                    | tex_type_field_of(tex_type),
                ..self
            }),
    {
        let mut p = self;
        let field = BU_COMP_FLAGS_TEXTURE_TYPE_MASK << BU_COMP_FLAGS_TEXTURE_TYPE_SHIFT;
        assert(field == BU_COMP_FLAGS_TEXTURE_TYPE_FIELD) by (bit_vector)
            requires
                field == 3u64 << 25u64,
        ;
        p.flags_and_quality = p.flags_and_quality & !field;
        p.flags_and_quality = p.flags_and_quality | match tex_type {
            TextureViewDimension::D2 => BU_COMP_FLAGS_TEXTURE_TYPE_2D,
            TextureViewDimension::D2Array => BU_COMP_FLAGS_TEXTURE_TYPE_2D_ARRAY,
            TextureViewDimension::Cube | TextureViewDimension::CubeArray => {
                BU_COMP_FLAGS_TEXTURE_TYPE_CUBEMAP_ARRAY
            },
        };
        p
    }

    /// `self` with the flags `flags` set.
    pub fn with_flags(self, flags: u64) -> (r: Self)
        ensures
            r == (BasisuEncoderParams { flags_and_quality: self.flags_and_quality | flags, ..self }),
    {
        let mut p = self;
        p.flags_and_quality = p.flags_and_quality | flags;
        p
    }

    /// `self` with the flags `flags` cleared.
    pub fn with_removed_flags(self, flags: u64) -> (r: Self)
        ensures
            r == (BasisuEncoderParams { flags_and_quality: self.flags_and_quality & !flags, ..self }),
    {
        let mut p = self;
        p.flags_and_quality = p.flags_and_quality & !flags;
        p
    }
}

/// After `with_tex_type`, the texture type field holds the view dimension's
/// type and every bit outside the field is as it was; setting a type twice
/// is setting the second.
pub proof fn lemma_tex_type_sets_only_its_field(
    flags: u64,
    d: TextureViewDimension,
    e: TextureViewDimension,
)
    ensures
        ((flags & !BU_COMP_FLAGS_TEXTURE_TYPE_FIELD) | tex_type_field_of(d))
            & BU_COMP_FLAGS_TEXTURE_TYPE_FIELD == tex_type_field_of(d),
        ((flags & !BU_COMP_FLAGS_TEXTURE_TYPE_FIELD) | tex_type_field_of(d))
            & !BU_COMP_FLAGS_TEXTURE_TYPE_FIELD == flags & !BU_COMP_FLAGS_TEXTURE_TYPE_FIELD,
        ((((flags & !BU_COMP_FLAGS_TEXTURE_TYPE_FIELD) | tex_type_field_of(d))
            & !BU_COMP_FLAGS_TEXTURE_TYPE_FIELD) | tex_type_field_of(e)) == ((flags
            & !BU_COMP_FLAGS_TEXTURE_TYPE_FIELD) | tex_type_field_of(e)),
{
    let t = tex_type_field_of(d);
    let u = tex_type_field_of(e);
    assert(0u64 & 0x600_0000u64 == 0u64) by (bit_vector);
    assert(0x200_0000u64 & 0x600_0000u64 == 0x200_0000u64) by (bit_vector);
    assert(0x400_0000u64 & 0x600_0000u64 == 0x400_0000u64) by (bit_vector);
    assert(t & 0x600_0000u64 == t);
    assert(u & 0x600_0000u64 == u);
    assert(((flags & !0x600_0000u64) | t) & 0x600_0000u64 == t) by (bit_vector)
        requires
            t & 0x600_0000u64 == t,
    ;
    assert(((flags & !0x600_0000u64) | t) & !0x600_0000u64 == flags & !0x600_0000u64)
        by (bit_vector)
        requires
            t & 0x600_0000u64 == t,
    ;
    assert((((flags & !0x600_0000u64) | t) & !0x600_0000u64) | u == (flags & !0x600_0000u64) | u)
        by (bit_vector)
        requires
            t & 0x600_0000u64 == t,
    ;
}

/// The texture type field that `with_tex_type` leaves, whatever the flags
/// were: the cubemap-array type exactly for cubemaps and cubemap arrays, the
/// 2D-array type exactly for 2D arrays, and the 2D type exactly for 2D
/// textures.
pub proof fn lemma_tex_type_field_by_dimension(flags: u64, d: TextureViewDimension)
    ensures
        (((flags & !BU_COMP_FLAGS_TEXTURE_TYPE_FIELD) | tex_type_field_of(d))
            & BU_COMP_FLAGS_TEXTURE_TYPE_FIELD == BU_COMP_FLAGS_TEXTURE_TYPE_CUBEMAP_ARRAY)
            <==> (d == TextureViewDimension::Cube || d == TextureViewDimension::CubeArray),
        (((flags & !BU_COMP_FLAGS_TEXTURE_TYPE_FIELD) | tex_type_field_of(d))
            & BU_COMP_FLAGS_TEXTURE_TYPE_FIELD == BU_COMP_FLAGS_TEXTURE_TYPE_2D_ARRAY)
            <==> d == TextureViewDimension::D2Array,
        (((flags & !BU_COMP_FLAGS_TEXTURE_TYPE_FIELD) | tex_type_field_of(d))
            & BU_COMP_FLAGS_TEXTURE_TYPE_FIELD == BU_COMP_FLAGS_TEXTURE_TYPE_2D)
            <==> d == TextureViewDimension::D2,
{
    lemma_tex_type_sets_only_its_field(flags, d, d);
}

/// Adding flags and then removing them leaves none of them set, and bits
/// outside them as they were.
pub proof fn lemma_removed_flags_undo_added(flags: u64, f: u64)
    ensures
        ((flags | f) & !f) & f == 0,
        ((flags | f) & !f) == flags & !f,
        (flags | f) | f == flags | f,
{
    assert(((flags | f) & !f) & f == 0) by (bit_vector);
    assert(((flags | f) & !f) == flags & !f) by (bit_vector);
    assert((flags | f) | f == flags | f) by (bit_vector);
}

} // verus!
