//! Texture loading: pixel formats, usage flags, the sampler
//! description, and the construction of a GPU-sampleable texture from
//! a decoded bitmap.

use vstd::prelude::*;

verus! {

/// The pixel formats the scene distinguishes: the loaded image is
/// uploaded as RGBA, while the offscreen reflection target uses the
/// swap chain's BGRA ordering.
#[derive(Clone, Copy, Debug, PartialEq, Eq, Structural)]
pub enum TextureFormat {
    Rgba8UnormSrgb,
    Bgra8UnormSrgb,
}

/// The ways a texture may be used. Each flag mirrors one usage bit of
/// the graphics API.
#[derive(Clone, Copy, Debug, PartialEq, Eq, Structural)]
pub struct TextureUsages {
    pub copy_src: bool,
    pub copy_dst: bool,
    pub texture_binding: bool,
    pub render_attachment: bool,
}

/// How sampling coordinates outside the texture are handled.
#[derive(Clone, Copy, Debug, PartialEq, Eq, Structural)]
pub enum AddressMode {
    ClampToEdge,
    Repeat,
}

/// How texels are filtered when the sampling footprint does not match
/// the texel grid.
#[derive(Clone, Copy, Debug, PartialEq, Eq, Structural)]
pub enum FilterMode {
    Nearest,
    Linear,
}

/// A sampler description: addressing on all three axes and the three
/// filter choices.
#[derive(Clone, Copy, Debug, PartialEq, Eq, Structural)]
pub struct SamplerSpec {
    pub address_mode_u: AddressMode,
    pub address_mode_v: AddressMode,
    pub address_mode_w: AddressMode,
    pub mag_filter: FilterMode,
    pub min_filter: FilterMode,
    pub mipmap_filter: FilterMode,
}

/// The one sampler the scene uses: clamp-to-edge addressing, linear
/// magnification, nearest minification and mip filtering.
pub open spec fn scene_sampler() -> SamplerSpec {
    SamplerSpec {
        address_mode_u: AddressMode::ClampToEdge,
        address_mode_v: AddressMode::ClampToEdge,
        address_mode_w: AddressMode::ClampToEdge,
        mag_filter: FilterMode::Linear,
        min_filter: FilterMode::Nearest,
        mipmap_filter: FilterMode::Nearest,
    }
}

/// Builds the sampler description used throughout the scene.
pub fn make_scene_sampler() -> (s: SamplerSpec)
    ensures
        s == scene_sampler(),
{
    SamplerSpec {
        address_mode_u: AddressMode::ClampToEdge,
        address_mode_v: AddressMode::ClampToEdge,
        address_mode_w: AddressMode::ClampToEdge,
        mag_filter: FilterMode::Linear,
        min_filter: FilterMode::Nearest,
        mipmap_filter: FilterMode::Nearest,
    }
}

/// What decoding an encoded image yields, as a mathematical value: the
/// pixel dimensions and the RGBA8 bytes, four per pixel in row-major
/// order.
pub struct ImageModel {
    pub width: nat,
    pub height: nat,
    pub pixels: Seq<u8>,
}

/// A decoded RGBA8 bitmap: the bridge between the image decoder and
/// the texture allocation.
#[derive(Clone, Debug)]
pub struct DecodedImage {
    pub width: u32,
    pub height: u32,
    pub pixels: Vec<u8>,
}

impl View for DecodedImage {
    type V = ImageModel;

    open spec fn view(&self) -> ImageModel {
        ImageModel { width: self.width as nat, height: self.height as nat, pixels: self.pixels@ }
    }
}

/// The RGBA8 bitmap that a byte buffer decodes to, or nothing when the
/// bytes are not in a supported image format. Decoding depends on the
/// bytes alone; its full definition (the image formats themselves) is
/// left unstated.
pub uninterp spec fn rgba_decoding(bytes: Seq<u8>) -> Option<ImageModel>;

/// The byte buffer could not be decoded as a supported image format.
#[derive(Clone, Debug)]
pub struct DecodeError {
    pub message: String,
}

/// Relies on `image::load_from_memory`, `image::DynamicImage::to_rgba8`
/// and `image::GenericImageView::dimensions`: decoding succeeds exactly
/// when the bytes are a supported encoded image, is a function of the
/// bytes alone, and yields a row-major RGBA8 buffer of four bytes per
/// pixel with the decoded image's dimensions.
#[verifier::external_body]
pub(crate) fn decode_rgba8(bytes: &Vec<u8>) -> (r: Result<DecodedImage, DecodeError>)
    ensures
        match r {
            Ok(d) => rgba_decoding(bytes@) == Some(d@) && d.pixels@.len() == 4 * d.width
                * d.height,
            Err(_) => rgba_decoding(bytes@) is None,
        },
{
    match image::load_from_memory(bytes.as_slice()) {
        Ok(img) => {
            let (width, height) = image::GenericImageView::dimensions(&img);
            let pixels = img.to_rgba8().into_raw();
            Ok(DecodedImage { width, height, pixels })
        }
        Err(e) => Err(DecodeError { message: format!("{}", e) }),
    }
}

/// The size, shape and usage of a GPU texture allocation.
#[derive(Clone, Copy, Debug, PartialEq, Eq, Structural)]
pub struct TextureDescriptor {
    pub width: u32,
    pub height: u32,
    pub mip_level_count: u32,
    pub sample_count: u32,
    pub format: TextureFormat,
    pub usage: TextureUsages,
}

/// A loaded, GPU-sampleable texture: its allocation, the decoded RGBA8
/// pixels to upload, the row layout of the upload, and its sampler.
#[derive(Clone, Debug)]
pub struct Texture {
    pub desc: TextureDescriptor,
    pub pixels: Vec<u8>,
    pub bytes_per_row: u64,
    pub sampler: SamplerSpec,
}

impl Texture {
    /// A loaded texture is a single-level, single-sample RGBA8 image
    /// whose pixel buffer holds four bytes per texel, uploaded row by
    /// row, sampleable and copyable-into, with the scene's sampler.
    pub open spec fn wf(self) -> bool {
        &&& self.desc.format == TextureFormat::Rgba8UnormSrgb
        &&& self.desc.usage == (TextureUsages {
            copy_src: false,
            copy_dst: true,
            texture_binding: true,
            render_attachment: false,
        })
        &&& self.desc.mip_level_count == 1
        &&& self.desc.sample_count == 1
        &&& self.pixels@.len() == 4 * self.desc.width * self.desc.height
        &&& self.bytes_per_row == 4 * self.desc.width
        &&& self.sampler == scene_sampler()
    }

    /// Builds the texture for an already decoded bitmap: an allocation
    /// of exactly the bitmap's dimensions, usable as a sampled texture
    /// and as a copy destination, its pixels uploaded unchanged with
    /// four bytes for every texel of a row, under the scene's sampler.
    pub fn from_image(img: DecodedImage) -> (t: Texture)
        requires
            img.pixels@.len() == 4 * img.width * img.height,
        ensures
            t.wf(),
            t.desc.width == img.width,
            t.desc.height == img.height,
            t.pixels@ == img.pixels@,
    {
        let bytes_per_row: u64 = 4 * (img.width as u64);
        Texture {
            desc: TextureDescriptor {
                width: img.width,
                height: img.height,
                mip_level_count: 1,
                sample_count: 1,
                format: TextureFormat::Rgba8UnormSrgb,
                usage: TextureUsages {
                    copy_src: false,
                    copy_dst: true,
                    texture_binding: true,
                    render_attachment: false,
                },
            },
            pixels: img.pixels,
            bytes_per_row,
            sampler: SamplerSpec {
                address_mode_u: AddressMode::ClampToEdge,
                address_mode_v: AddressMode::ClampToEdge,
                address_mode_w: AddressMode::ClampToEdge,
                mag_filter: FilterMode::Linear,
                min_filter: FilterMode::Nearest,
                mipmap_filter: FilterMode::Nearest,
            },
        }
    }

    /// Decodes an encoded image and builds its texture. Returns the
    /// texture exactly when the bytes decode, with the decoded pixel
    /// dimensions and pixel data; returns the decoding error exactly
    /// when they do not.
    pub fn from_bytes(bytes: &Vec<u8>) -> (r: Result<Texture, DecodeError>)
        ensures
            match r {
                Ok(t) => {
                    &&& t.wf()
                    &&& rgba_decoding(bytes@) matches Some(m)
                    &&& t.desc.width == m.width
                    &&& t.desc.height == m.height
                    &&& t.pixels@ == m.pixels
                },
                Err(_) => rgba_decoding(bytes@) is None,
            },
    {
        let img = match decode_rgba8(bytes) {
            Ok(img) => img,
            Err(e) => {
                return Err(e);
            },
        };
        Ok(Texture::from_image(img))
    }
}

} // verus!
