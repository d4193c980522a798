//! Decoded images and the plan for uploading one as a texture.

use vstd::prelude::*;
use image::{DynamicImage, GenericImageView, ImageError};
use crate::gpu::{
    Extent3d, ImageCopyTexture, ImageDataLayout, Origin3d, TextureAspect, TextureDescriptor,
    TextureDimension, TextureFormat, TextureUsages,
};

verus! {

/// A decoded image of the `image` crate. Its contents are known only through
/// `image_extent`, `image_color` and `image_rgba8`.
#[verifier::external_type_specification]
#[verifier::external_body]
pub struct ExDynamicImage(DynamicImage);

/// The error of the `image` crate's decoders.
#[verifier::external_type_specification]
#[verifier::external_body]
pub struct ExImageError(ImageError);

/// Width and height of an image, in pixels.
pub uninterp spec fn image_extent(image: DynamicImage) -> (u32, u32);

/// The channels of an image's pixels and the kind of their samples.
pub uninterp spec fn image_color(image: DynamicImage) -> ColorType;

/// The pixels of an image as 8-bit RGBA, row by row from the top, four bytes a pixel.
pub uninterp spec fn image_rgba8(image: DynamicImage) -> Seq<u8>;

/// Number of bytes of one RGBA8 pixel.
pub const BYTES_PER_PIXEL: u32 = 4;

/// Channels and sample kind of the pixels of an image: luminance or RGB, with
/// or without alpha, in 8-bit or 16-bit integers or 32-bit floats.
#[derive(Clone, Copy, Debug, PartialEq, Eq, Structural)]
pub enum ColorType {
    L8,
    La8,
    Rgb8,
    Rgba8,
    L16,
    La16,
    Rgb16,
    Rgba16,
    Rgb32F,
    Rgba32F,
    /// A kind that this library does not know.
    Unknown,
}

impl ColorType {
    /// The samples are 8-bit or 16-bit integers. Such samples convert to 8-bit
    /// RGBA whatever they hold; a float sample that is no number does not.
    pub open spec fn spec_has_integer_samples(self) -> bool {
        match self {
            ColorType::L8 | ColorType::La8 | ColorType::Rgb8 | ColorType::Rgba8 => true,
            ColorType::L16 | ColorType::La16 | ColorType::Rgb16 | ColorType::Rgba16 => true,
            ColorType::Rgb32F | ColorType::Rgba32F | ColorType::Unknown => false,
        }
    }

    #[verifier::when_used_as_spec(spec_has_integer_samples)]
    pub fn has_integer_samples(self) -> (r: bool)
        ensures
            r == self.spec_has_integer_samples(),
    {
        match self {
            ColorType::L8 | ColorType::La8 | ColorType::Rgb8 | ColorType::Rgba8 => true,
            ColorType::L16 | ColorType::La16 | ColorType::Rgb16 | ColorType::Rgba16 => true,
            ColorType::Rgb32F | ColorType::Rgba32F | ColorType::Unknown => false,
        }
    }
}

/// An extent can be that of a texture when neither side is zero, one row of
/// pixels has a byte length that fits `u32`, and the whole has one that a vector
/// can hold.
pub open spec fn valid_extent(extent: (u32, u32)) -> bool {
    &&& extent.0 > 0
    &&& extent.1 > 0
    &&& BYTES_PER_PIXEL * extent.0 <= u32::MAX
    &&& BYTES_PER_PIXEL * extent.0 * extent.1 <= isize::MAX
}

/// Why an image could not become a texture.
#[derive(Clone, Copy, Debug, PartialEq, Eq, Structural)]
pub enum TextureError {
    /// There is no image that converts to 8-bit RGBA: the decoder reported an
    /// error, or the image has no integer samples.
    Decode,
    /// The image has a side of zero pixels, or is too large to lay out.
    InvalidDimensions,
}

/// What stands in the way of `image` becoming a texture, if anything does: first
/// its sample kind, then its extent.
pub open spec fn image_error(image: DynamicImage) -> Option<TextureError> {
    if !image_color(image).spec_has_integer_samples() {
        Some(TextureError::Decode)
    } else if !valid_extent(image_extent(image)) {
        Some(TextureError::InvalidDimensions)
    } else {
        None
    }
}

/// `image` can become a texture: it has integer samples and a valid extent.
pub open spec fn acceptable(image: DynamicImage) -> bool {
    image_error(image) is None
}

/// An image that is ready to be uploaded as a texture.
pub struct ImageTexture {
    image: DynamicImage,
}

/// What to do to place an image in GPU memory: create `descriptor`, then copy
/// `data`, laid out as `layout` says, to `destination` over the whole of `size`.
#[derive(Clone, Debug, PartialEq, Eq)]
pub struct TextureWrite {
    pub descriptor: TextureDescriptor,
    pub destination: ImageCopyTexture,
    pub data: Vec<u8>,
    pub layout: ImageDataLayout,
    pub size: Extent3d,
}

/// The texture that holds an image of the given extent: two-dimensional, one
/// mip level, one sample, sRGB RGBA8, a copy destination that shaders can bind.
pub open spec fn spec_texture_descriptor(size: Extent3d) -> TextureDescriptor {
    TextureDescriptor {
        label: "texture",
        size,
        mip_level_count: 1,
        sample_count: 1,
        dimension: TextureDimension::D2,
        format: TextureFormat::Rgba8UnormSrgb,
        usage: TextureUsages {
            copy_src: false,
            copy_dst: true,
            texture_binding: true,
            storage_binding: false,
            render_attachment: false,
        },
    }
}

/// Extent of the texture that holds `image`: its width and height, one layer deep.
pub open spec fn texture_size(image: DynamicImage) -> Extent3d {
    Extent3d {
        width: image_extent(image).0,
        height: image_extent(image).1,
        depth_or_array_layers: 1,
    }
}

/// `write` is the upload of `image`: one full copy of its RGBA8 pixels into a new
/// texture of the image's extent, rows packed at four bytes a pixel.
pub open spec fn uploads_image(image: DynamicImage, write: TextureWrite) -> bool {
    &&& write.descriptor == spec_texture_descriptor(texture_size(image))
    &&& write.destination == (ImageCopyTexture {
        mip_level: 0,
        origin: Origin3d { x: 0, y: 0, z: 0 },
        aspect: TextureAspect::All,
    })
    &&& write.data@ == image_rgba8(image)
    &&& write.data@.len() == BYTES_PER_PIXEL * image_extent(image).0 * image_extent(image).1
    &&& write.layout == (ImageDataLayout {
        offset: 0,
        bytes_per_row: Some((BYTES_PER_PIXEL * image_extent(image).0) as u32),
        rows_per_image: Some(image_extent(image).1),
    })
    &&& write.size == texture_size(image)
}

/// Calls `image::load_from_memory`. Nothing is claimed of the outcome: whether
/// the decoder succeeds, and with which pixels, can differ from one call to the
/// next on the same bytes, with the processor and with the threads it is given.
#[verifier::external_body]
fn load_from_memory(bytes: &[u8]) -> (r: Result<DynamicImage, ImageError>) {
    image::load_from_memory(bytes)
}

/// Calls `GenericImageView::dimensions` on a `DynamicImage`, which returns the
/// width and the height that the image was made with.
#[verifier::external_body]
fn image_dimensions(image: &DynamicImage) -> (r: (u32, u32))
    ensures
        r == image_extent(*image),
{
    image.dimensions()
}

/// Calls `DynamicImage::color`, which says which variant the image is, and gives
/// each of the crate's kinds as the kind of the same name.
#[verifier::external_body]
fn image_color_type(image: &DynamicImage) -> (r: ColorType)
    ensures
        r == image_color(*image),
{
    match image.color() {
        image::ColorType::L8 => ColorType::L8,
        image::ColorType::La8 => ColorType::La8,
        image::ColorType::Rgb8 => ColorType::Rgb8,
        image::ColorType::Rgba8 => ColorType::Rgba8,
        image::ColorType::L16 => ColorType::L16,
        image::ColorType::La16 => ColorType::La16,
        image::ColorType::Rgb16 => ColorType::Rgb16,
        image::ColorType::Rgba16 => ColorType::Rgba16,
        image::ColorType::Rgb32F => ColorType::Rgb32F,
        image::ColorType::Rgba32F => ColorType::Rgba32F,
        _ => ColorType::Unknown,
    }
}

/// Calls `DynamicImage::to_rgba8` and takes the buffer out of the result. The crate
/// allocates `4 * width * height` bytes for it and converts sample by sample. It
/// panics where that count is more than a vector can hold, and where a float
/// sample is no number; `requires` excludes both.
#[verifier::external_body]
fn image_to_rgba8(image: &DynamicImage) -> (r: Vec<u8>)
    requires
        image_color(*image).spec_has_integer_samples(),
        BYTES_PER_PIXEL * image_extent(*image).0 * image_extent(*image).1 <= isize::MAX,
    ensures
        r@ == image_rgba8(*image),
        r@.len() == BYTES_PER_PIXEL * image_extent(*image).0 * image_extent(*image).1,
{
    image.to_rgba8().into_raw()
}

impl ImageTexture {
    #[verifier::type_invariant]
    spec fn well_formed(self) -> bool {
        acceptable(self.image)
    }

    /// The image that the texture is made from.
    pub closed spec fn spec_image(self) -> DynamicImage {
        self.image
    }

    /// Hands `bytes`, unchanged, to the decoder, and what the decoder answers to
    /// `from_decoded`. Whether there is a texture is for the decoder to decide;
    /// one that comes out is acceptable.
    pub fn from_bytes(bytes: &[u8]) -> (r: Result<Self, TextureError>)
        ensures
            r matches Ok(texture) ==> acceptable(texture.spec_image()),
    {
        Self::from_decoded(load_from_memory(bytes))
    }

    /// Takes what the decoder answered. Its error becomes `Decode`; its image
    /// becomes a texture where `from_image` accepts it, and else the error that
    /// `from_image` gives.
    pub fn from_decoded(decoded: Result<DynamicImage, ImageError>) -> (r: Result<
        Self,
        TextureError,
    >)
        ensures
            match decoded {
                Ok(image) => match r {
                    Ok(texture) => texture.spec_image() == image && acceptable(image),
                    Err(error) => image_error(image) == Some(error),
                },
                Err(_) => r matches Err(error) && error == TextureError::Decode,
            },
    {
        match decoded {
            Ok(image) => Self::from_image(image),
            Err(_) => Err(TextureError::Decode),
        }
    }

    /// Accepts a decoded image as a texture source where it has integer samples
    /// and a valid extent. Fails with `Decode` where it has no integer samples,
    /// and else with `InvalidDimensions` where its extent is not valid.
    pub fn from_image(image: DynamicImage) -> (r: Result<Self, TextureError>)
        ensures
            match r {
                Ok(texture) => texture.spec_image() == image && acceptable(image),
                Err(error) => image_error(image) == Some(error),
            },
    {
        if !image_color_type(&image).has_integer_samples() {
            return Err(TextureError::Decode);
        }
        let (width, height) = image_dimensions(&image);
        if width == 0 || height == 0 {
            return Err(TextureError::InvalidDimensions);
        }
        let row_bytes = BYTES_PER_PIXEL as u64 * width as u64;
        if row_bytes > u32::MAX as u64 {
            return Err(TextureError::InvalidDimensions);
        }
        assert(row_bytes * height <= u32::MAX * u32::MAX) by (nonlinear_arith)
            requires
                0 <= row_bytes <= u32::MAX,
                0 <= height <= u32::MAX,
        ;
        let total = row_bytes * height as u64;
        assert(total == BYTES_PER_PIXEL * width * height) by (nonlinear_arith)
            requires
                total == row_bytes * height,
                row_bytes == BYTES_PER_PIXEL * width,
        ;
        if total > isize::MAX as u64 {
            return Err(TextureError::InvalidDimensions);
        }
        Ok(ImageTexture { image })
    }

    /// Width and height of the image, in pixels.
    pub fn dimensions(&self) -> (r: (u32, u32))
        ensures
            r == image_extent(self.spec_image()),
            valid_extent(r),
            acceptable(self.spec_image()),
    {
        proof {
            use_type_invariant(self);
        }
        image_dimensions(&self.image)
    }

    /// Extent of the texture that holds the image.
    pub fn size(&self) -> (r: Extent3d)
        ensures
            r == texture_size(self.spec_image()),
    {
        let dimensions = self.dimensions();
        Extent3d { width: dimensions.0, height: dimensions.1, depth_or_array_layers: 1 }
    }

    /// Plans the upload of the image as a texture.
    pub fn write(&self) -> (r: TextureWrite)
        ensures
            uploads_image(self.spec_image(), r),
            acceptable(self.spec_image()),
    {
        proof {
            use_type_invariant(self);
        }
        let dimensions = self.dimensions();
        let size = self.size();
        let descriptor = TextureDescriptor {
            label: "texture",
            size,
            mip_level_count: 1,
            sample_count: 1,
            dimension: TextureDimension::D2,
            format: TextureFormat::Rgba8UnormSrgb,
            usage: TextureUsages {
                copy_src: false,
                copy_dst: true,
                texture_binding: true,
                storage_binding: false,
                render_attachment: false,
            },
        };
        TextureWrite {
            descriptor,
            destination: ImageCopyTexture {
                mip_level: 0,
                origin: Origin3d { x: 0, y: 0, z: 0 },
                aspect: TextureAspect::All,
            },
            data: image_to_rgba8(&self.image),
            layout: ImageDataLayout {
                offset: 0,
                bytes_per_row: Some(BYTES_PER_PIXEL * dimensions.0),
                rows_per_image: Some(dimensions.1),
            },
            size,
        }
    }
}

} // verus!
