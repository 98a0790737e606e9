//! The source image: decoding it, describing its upload, and remembering which one is live.

use vstd::prelude::*;
use crate::jpeg::{frame_supported, is_frame_supported};

verus! {

/// Why an image could not be loaded. Either way the previous texture stays in use.
#[derive(Debug, Clone, Copy, PartialEq, Eq, Structural)]
pub enum LoadError {
    /// The file could not be read.
    NotFound,
    /// The content is not an image in a supported format, or one that the decoder has no
    /// room for, or not one that can be uploaded.
    DecodeFailed,
}

/// A decoded image: rows of pixels from the top down, four bytes per pixel in the
/// order red, green, blue, alpha.
#[derive(Debug, PartialEq, Eq)]
pub struct RawImage {
    pub width: u32,
    pub height: u32,
    pub pixels: Vec<u8>,
}

/// How the texels of the texture are stored.
#[derive(Debug, Clone, Copy, PartialEq, Eq, Structural)]
pub enum TextureFormat {
    /// Four 8-bit channels, sRGB-encoded.
    Rgba8UnormSrgb,
}

/// How many dimensions the texture has.
#[derive(Debug, Clone, Copy, PartialEq, Eq, Structural)]
pub enum TextureDimension {
    D2,
}

/// What the sampler returns outside the image.
#[derive(Debug, Clone, Copy, PartialEq, Eq, Structural)]
pub enum AddressMode {
    ClampToEdge,
}

/// How the sampler picks a colour between texels.
#[derive(Debug, Clone, Copy, PartialEq, Eq, Structural)]
pub enum FilterMode {
    Nearest,
    Linear,
}

/// The sampler the image is read through.
#[derive(Debug, Clone, Copy, PartialEq, Eq, Structural)]
pub struct SamplerDescriptor {
    pub address_mode_u: AddressMode,
    pub address_mode_v: AddressMode,
    pub mag_filter: FilterMode,
    pub min_filter: FilterMode,
    pub mipmap_filter: FilterMode,
}

/// Number of bytes of one pixel.
pub const BYTES_PER_PIXEL: u32 = 4;

/// Everything the host needs to create the texture of an image and its bind group:
/// a texture of `width` by `height` texels, filled from `pixels` and read through
/// `sampler`.
#[derive(Debug, PartialEq, Eq)]
pub struct TextureUpload {
    pub width: u32,
    pub height: u32,
    pub dimension: TextureDimension,
    pub mip_level_count: u32,
    pub sample_count: u32,
    pub format: TextureFormat,
    pub bytes_per_row: u32,
    pub rows_per_image: u32,
    pub sampler: SamplerDescriptor,
    pub pixels: Vec<u8>,
}

/// What is known of the live texture: the path it was loaded from, and its size.
pub struct CachedImage {
    pub path: Seq<char>,
    pub width: u32,
    pub height: u32,
}

/// The sampler of every image: clamped at the edges, smooth when magnified, nearest
/// texel when minified.
pub open spec fn image_sampler() -> SamplerDescriptor {
    SamplerDescriptor {
        address_mode_u: AddressMode::ClampToEdge,
        address_mode_v: AddressMode::ClampToEdge,
        mag_filter: FilterMode::Linear,
        min_filter: FilterMode::Nearest,
        mipmap_filter: FilterMode::Nearest,
    }
}

impl RawImage {
    /// Whether the image can become a texture: it is not empty, a row of it can be
    /// addressed, and it holds exactly its pixels.
    pub open spec fn uploadable(&self) -> bool {
        &&& self.width >= 1
        &&& self.height >= 1
        &&& BYTES_PER_PIXEL * self.width <= u32::MAX
        &&& self.pixels@.len() == BYTES_PER_PIXEL * self.width * self.height
    }
}

impl TextureUpload {
    /// Whether this is the upload of `image`: the same pixels, row after row without
    /// padding, as a two-dimensional sRGB texture with one mip level and one sample
    /// behind the common sampler.
    pub open spec fn describes(&self, image: &RawImage) -> bool {
        &&& self.width == image.width
        &&& self.height == image.height
        &&& self.dimension == TextureDimension::D2
        &&& self.mip_level_count == 1
        &&& self.sample_count == 1
        &&& self.format == TextureFormat::Rgba8UnormSrgb
        &&& self.bytes_per_row == BYTES_PER_PIXEL * image.width
        &&& self.rows_per_image == image.height
        &&& self.sampler == image_sampler()
        &&& self.pixels@ == image.pixels@
    }

    /// What holds of every upload: a two-dimensional sRGB texture that is not empty, with
    /// one mip level and one sample, behind the common sampler, and `pixels` are its
    /// rows, one after the other without padding.
    pub open spec fn well_formed(&self) -> bool {
        &&& self.width >= 1
        &&& self.height >= 1
        &&& self.dimension == TextureDimension::D2
        &&& self.mip_level_count == 1
        &&& self.sample_count == 1
        &&& self.format == TextureFormat::Rgba8UnormSrgb
        &&& self.bytes_per_row == BYTES_PER_PIXEL * self.width
        &&& self.rows_per_image == self.height
        &&& self.sampler == image_sampler()
        &&& self.pixels@.len() == self.bytes_per_row * self.rows_per_image
    }
}

/// Whether the live texture described by `cache` was loaded from `path`.
pub open spec fn cached(cache: Option<CachedImage>, path: Seq<char>) -> bool {
    cache matches Some(image) && image.path == path
}

/// What the host read from a file, as the bytes it holds.
pub open spec fn read_bytes(content: Option<&[u8]>) -> Option<Seq<u8>> {
    match content {
        Some(bytes) => Some(bytes@),
        None => None,
    }
}

/// What asking for the image at `path` does to a cache that is `before` and `after`
/// the request. `content` is what the host read from the file, or `None` where it
/// could not read it.
///
/// - `Ok(None)`: the live texture was loaded from `path`; nothing is decoded and
///   nothing changes.
/// - `Ok(Some(upload))`: another path was asked for and decoded; `upload` replaces
///   the live texture, and the cache holds `path` and no other. The content is
///   none that the decoder has no room for.
/// - `Err(NotFound)`: another path was asked for and could not be read; the cache is
///   as before.
/// - `Err(DecodeFailed)`: another path was asked for, read and not decoded; the cache
///   is as before. That is the answer to all content that the decoder has no room
///   for.
pub open spec fn load_step(
    before: Option<CachedImage>,
    path: Seq<char>,
    content: Option<Seq<u8>>,
    outcome: Result<Option<TextureUpload>, LoadError>,
    after: Option<CachedImage>,
) -> bool {
    match outcome {
        Ok(None) => cached(before, path) && after == before,
        Ok(Some(upload)) => {
            &&& !cached(before, path)
            &&& content matches Some(bytes) && frame_supported(bytes)
            &&& upload.well_formed()
            &&& after == Some(
                CachedImage { path, width: upload.width, height: upload.height },
            )
        },
        Err(LoadError::NotFound) => !cached(before, path) && content is None && after == before,
        Err(LoadError::DecodeFailed) => !cached(before, path) && content is Some && after
            == before,
    }
}

/// An image that was loaded is not loaded again: the next request for the same path
/// decodes nothing and uploads nothing, whatever the file holds by then.
pub proof fn lemma_same_path_loads_once(
    before: Option<CachedImage>,
    path: Seq<char>,
    first_content: Option<Seq<u8>>,
    first: Result<Option<TextureUpload>, LoadError>,
    between: Option<CachedImage>,
    second_content: Option<Seq<u8>>,
    second: Result<Option<TextureUpload>, LoadError>,
    after: Option<CachedImage>,
)
    requires
        load_step(before, path, first_content, first, between),
        first is Ok,
        load_step(between, path, second_content, second, after),
    ensures
        second == Ok::<Option<TextureUpload>, LoadError>(None),
        after == between,
{
}

/// A request for another path than the live one is never answered from the cache. Where
/// it succeeds it uploads exactly one texture, and the cache then holds the new path and
/// no other: the texture it replaces is released.
pub proof fn lemma_other_path_replaces(
    before: Option<CachedImage>,
    path: Seq<char>,
    content: Option<Seq<u8>>,
    outcome: Result<Option<TextureUpload>, LoadError>,
    after: Option<CachedImage>,
)
    requires
        load_step(before, path, content, outcome, after),
        !cached(before, path),
    ensures
        outcome != Ok::<Option<TextureUpload>, LoadError>(None),
        outcome is Ok ==> {
            &&& outcome matches Ok(Some(upload)) && upload.well_formed()
            &&& forall|other: Seq<char>| cached(after, other) <==> other == path
        },
{
}

/// A request that fails leaves the cache as it was: what was live stays live. It fails
/// with `NotFound` exactly where the file could not be read.
pub proof fn lemma_failure_keeps_texture(
    before: Option<CachedImage>,
    path: Seq<char>,
    content: Option<Seq<u8>>,
    outcome: Result<Option<TextureUpload>, LoadError>,
    after: Option<CachedImage>,
)
    requires
        load_step(before, path, content, outcome, after),
        outcome is Err,
    ensures
        after == before,
        outcome == Err::<Option<TextureUpload>, LoadError>(LoadError::NotFound)
            <==> content is None,
{
}

/// Content that the decoder has no room for is answered with `DecodeFailed`, unless the
/// path asked for is the live one and the content is not looked at.
pub proof fn lemma_unsupported_frame_fails(
    before: Option<CachedImage>,
    path: Seq<char>,
    bytes: Seq<u8>,
    outcome: Result<Option<TextureUpload>, LoadError>,
    after: Option<CachedImage>,
)
    requires
        load_step(before, path, Some(bytes), outcome, after),
        !cached(before, path),
        !frame_supported(bytes),
    ensures
        outcome == Err::<Option<TextureUpload>, LoadError>(LoadError::DecodeFailed),
        after == before,
{
}

#[verifier::external_type_specification]
#[verifier::external_body]
pub struct ExImageError(image::ImageError);

/// Decodes the content of an image file as `image::open` does once the file is read:
/// `image::ImageFormat::from_path` picks the format by the extension of `path`,
/// `image::load_from_memory_with_format` decodes `content`, and
/// `DynamicImage::resize` (at the image's own size), `to_rgba8` and `into_vec` hand
/// its pixels out.
///
/// The content must be none that the decoder has no room for: on a lossless JPEG
/// frame with samples of a depth that does not fit, the decoder copies what it
/// decoded into a buffer of another length and panics.
///
/// Of the result this is claimed: a decoded image holds four bytes for each of its
/// pixels. Which pixels they are, and for which content the result is an error, is left
/// open: for some formats the pixels differ from one machine to the next in the last
/// bit.
#[verifier::external_body]
fn decode_rgba8(path: &str, content: &[u8]) -> (decoded: Result<RawImage, image::ImageError>)
    requires
        frame_supported(content@),
    ensures
        decoded matches Ok(image) ==> image.pixels@.len() == BYTES_PER_PIXEL * image.width
            * image.height,
{
    let format = image::ImageFormat::from_path(path)?;
    let picture = image::load_from_memory_with_format(content, format)?;
    let (width, height) = (picture.width(), picture.height());
    let resampled = picture.resize(width, height, image::imageops::FilterType::Gaussian);
    Ok(RawImage { width, height, pixels: resampled.to_rgba8().into_vec() })
}

/// Remembers the one image whose texture is live, by the path it was loaded from.
pub struct TextureCache {
    path: Option<String>,
    width: u32,
    height: u32,
}

impl View for TextureCache {
    type V = Option<CachedImage>;

    closed spec fn view(&self) -> Option<CachedImage> {
        match self.path {
            Some(path) => Some(CachedImage { path: path@, width: self.width, height: self.height }),
            None => None,
        }
    }
}

impl TextureCache {
    #[verifier::type_invariant]
    spec fn well_formed(&self) -> bool {
        self.path is Some ==> self.width >= 1 && self.height >= 1
    }

    /// Whether the live texture was loaded from `path`.
    pub open spec fn holds(&self, path: Seq<char>) -> bool {
        cached(self@, path)
    }

    /// A cache with no texture yet.
    pub fn new() -> (cache: TextureCache)
        ensures
            cache@ is None,
    {
        TextureCache { path: None, width: 0, height: 0 }
    }

    /// Tells whether the live texture was loaded from `path`, so that nothing has to be
    /// read or decoded for it.
    pub fn is_cached(&self, path: &str) -> (cached: bool)
        ensures
            cached == self.holds(path@),
    {
        match &self.path {
            Some(current) => {
                let wanted = path.to_owned();
                *current == wanted
            },
            None => false,
        }
    }

    /// Makes `image`, decoded from the file at `path`, the live texture.
    ///
    /// Returns the upload that creates the texture. The host replaces the previous
    /// texture with it, which releases that one. An image that cannot be uploaded is
    /// refused, and the previous texture stays live.
    pub fn replace(
        &mut self,
        path: &str,
        image: RawImage,
    ) -> (outcome: Result<TextureUpload, LoadError>)
        ensures
            match outcome {
                Ok(upload) => {
                    &&& image.uploadable()
                    &&& upload.describes(&image)
                    &&& final(self)@ == Some(
                        CachedImage { path: path@, width: image.width, height: image.height },
                    )
                },
                Err(error) => {
                    &&& !image.uploadable()
                    &&& error == LoadError::DecodeFailed
                    &&& final(self)@ == old(self)@
                },
            },
    {
        if image.width == 0 || image.height == 0 || image.width > u32::MAX / BYTES_PER_PIXEL {
            return Err(LoadError::DecodeFailed);
        }
        let bytes_per_row: u32 = BYTES_PER_PIXEL * image.width;
        assert(bytes_per_row * image.height <= u32::MAX * u32::MAX) by (nonlinear_arith)
            requires
                bytes_per_row <= u32::MAX,
                image.height <= u32::MAX,
        ;
        let size: u64 = (bytes_per_row as u64) * (image.height as u64);
        if image.pixels.len() as u64 != size {
            return Err(LoadError::DecodeFailed);
        }
        assert(BYTES_PER_PIXEL * image.width * image.height == bytes_per_row * image.height)
            by (nonlinear_arith)
            requires
                bytes_per_row == BYTES_PER_PIXEL * image.width,
        ;
        let upload = TextureUpload {
            width: image.width,
            height: image.height,
            dimension: TextureDimension::D2,
            mip_level_count: 1,
            sample_count: 1,
            format: TextureFormat::Rgba8UnormSrgb,
            bytes_per_row,
            rows_per_image: image.height,
            sampler: SamplerDescriptor {
                address_mode_u: AddressMode::ClampToEdge,
                address_mode_v: AddressMode::ClampToEdge,
                mag_filter: FilterMode::Linear,
                min_filter: FilterMode::Nearest,
                mipmap_filter: FilterMode::Nearest,
            },
            pixels: image.pixels,
        };
        *self = TextureCache {
            path: Some(path.to_owned()),
            width: upload.width,
            height: upload.height,
        };
        Ok(upload)
    }

    /// Makes sure that the live texture is the image at `path`.
    ///
    /// `content` is what the host read from the file at `path`, or `None` where it
    /// could not read it. It is looked at only where `path` is not the path of the
    /// live texture. Content that the decoder has no room for is not handed to it.
    pub fn ensure_loaded(
        &mut self,
        path: &str,
        content: Option<&[u8]>,
    ) -> (outcome: Result<Option<TextureUpload>, LoadError>)
        ensures
            load_step(old(self)@, path@, read_bytes(content), outcome, final(self)@),
    {
        if self.is_cached(path) {
            return Ok(None);
        }
        let bytes = match content {
            Some(bytes) => bytes,
            None => {
                return Err(LoadError::NotFound);
            },
        };
        if !is_frame_supported(bytes) {
            return Err(LoadError::DecodeFailed);
        }
        match decode_rgba8(path, bytes) {
            Ok(image) => match self.replace(path, image) {
                Ok(upload) => Ok(Some(upload)),
                Err(error) => Err(error),
            },
            Err(_) => Err(LoadError::DecodeFailed),
        }
    }

    /// Width and height of the live texture, both at least one.
    pub fn image_size(&self) -> (size: Option<(u32, u32)>)
        ensures
            match size {
                Some((width, height)) => self@ matches Some(image) && image.width == width
                    && image.height == height && width >= 1 && height >= 1,
                None => self@ is None,
            },
    {
        proof {
            use_type_invariant(self);
        }
        match &self.path {
            Some(_) => Some((self.width, self.height)),
            None => None,
        }
    }
}

} // verus!
