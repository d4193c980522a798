use std::io::Cursor;

use image::{
    DynamicImage, ImageBuffer, ImageError, ImageOutputFormat, LumaA, Rgb, Rgb32FImage, RgbImage,
    Rgba, Rgba32FImage, RgbaImage,
};
use quad_renderer::gpu::{
    Extent3d, ImageCopyTexture, ImageDataLayout, Origin3d, TextureAspect, TextureDescriptor,
    TextureDimension, TextureFormat, TextureUsages,
};
use quad_renderer::texture::{ColorType, ImageTexture, TextureError, BYTES_PER_PIXEL};

fn encode(image: DynamicImage, format: ImageOutputFormat) -> Vec<u8> {
    let mut out = Cursor::new(Vec::new());
    image.write_to(&mut out, format).unwrap();
    out.into_inner()
}

fn checker(width: u32, height: u32) -> RgbaImage {
    RgbaImage::from_fn(width, height, |x, y| {
        Rgba([x as u8 * 40, y as u8 * 60, (x + y) as u8, 200 + (x * y) as u8])
    })
}

#[test]
fn from_bytes_decodes_a_png() {
    let source = checker(2, 3);
    let bytes = encode(DynamicImage::ImageRgba8(source.clone()), ImageOutputFormat::Png);
    let texture = ImageTexture::from_bytes(&bytes).unwrap();
    assert_eq!(texture.dimensions(), (2, 3));
    assert_eq!(texture.size(), Extent3d { width: 2, height: 3, depth_or_array_layers: 1 });
    assert_eq!(texture.write().data, source.into_raw());
}

#[test]
fn from_bytes_decodes_a_jpeg() {
    let source = RgbImage::from_pixel(16, 8, Rgb([200, 100, 50]));
    let bytes = encode(DynamicImage::ImageRgb8(source), ImageOutputFormat::Jpeg(90));
    let texture = ImageTexture::from_bytes(&bytes).unwrap();
    assert_eq!(texture.dimensions(), (16, 8));
    assert_eq!(texture.write().data.len(), 4 * 16 * 8);
}

#[test]
fn from_bytes_rejects_what_is_no_image() {
    assert_eq!(ImageTexture::from_bytes(b"").err(), Some(TextureError::Decode));
    assert_eq!(ImageTexture::from_bytes(b"not an image").err(), Some(TextureError::Decode));
}

#[test]
fn from_bytes_rejects_a_truncated_png() {
    let bytes = encode(DynamicImage::ImageRgba8(checker(4, 4)), ImageOutputFormat::Png);
    assert_eq!(ImageTexture::from_bytes(&bytes[..20]).err(), Some(TextureError::Decode));
}

#[test]
fn from_image_rejects_a_side_of_zero() {
    assert_eq!(
        ImageTexture::from_image(DynamicImage::new_rgba8(0, 4)).err(),
        Some(TextureError::InvalidDimensions)
    );
    assert_eq!(
        ImageTexture::from_image(DynamicImage::new_rgba8(4, 0)).err(),
        Some(TextureError::InvalidDimensions)
    );
    assert_eq!(
        ImageTexture::from_image(DynamicImage::new_rgba8(0, 0)).err(),
        Some(TextureError::InvalidDimensions)
    );
}

#[test]
fn from_image_accepts_one_pixel() {
    let texture = ImageTexture::from_image(DynamicImage::new_rgba8(1, 1)).unwrap();
    assert_eq!(texture.dimensions(), (1, 1));
    assert_eq!(texture.write().data, vec![0, 0, 0, 0]);
}

#[test]
fn write_describes_a_full_upload() {
    let source = checker(5, 2);
    let texture = ImageTexture::from_image(DynamicImage::ImageRgba8(source.clone())).unwrap();
    let write = texture.write();
    let size = Extent3d { width: 5, height: 2, depth_or_array_layers: 1 };
    assert_eq!(
        write.descriptor,
        TextureDescriptor {
            label: "texture",
            size,
            mip_level_count: 1,
            sample_count: 1,
            dimension: TextureDimension::D2,
            format: TextureFormat::Rgba8UnormSrgb,
            usage: TextureUsages {
                copy_src: false,
                copy_dst: true,
                texture_binding: true,
                storage_binding: false,
                render_attachment: false,
            },
        }
    );
    assert_eq!(
        write.destination,
        ImageCopyTexture {
            mip_level: 0,
            origin: Origin3d { x: 0, y: 0, z: 0 },
            aspect: TextureAspect::All,
        }
    );
    assert_eq!(
        write.layout,
        ImageDataLayout { offset: 0, bytes_per_row: Some(20), rows_per_image: Some(2) }
    );
    assert_eq!(write.size, size);
    assert_eq!(write.data.len(), 40);
    assert_eq!(write.data, source.into_raw());
}

#[test]
fn write_expands_rgb_to_opaque_rgba() {
    let source = RgbImage::from_pixel(2, 1, Rgb([10, 20, 30]));
    let texture = ImageTexture::from_image(DynamicImage::ImageRgb8(source)).unwrap();
    assert_eq!(texture.write().data, vec![10, 20, 30, 255, 10, 20, 30, 255]);
}

#[test]
fn rows_are_packed_at_four_bytes_a_pixel() {
    assert_eq!(BYTES_PER_PIXEL, 4);
    let texture = ImageTexture::from_image(DynamicImage::new_rgba8(640, 480)).unwrap();
    let write = texture.write();
    assert_eq!(write.layout.bytes_per_row, Some(2560));
    assert_eq!(write.layout.rows_per_image, Some(480));
    assert_eq!(write.data.len(), 2560 * 480);
}

#[test]
fn from_image_rejects_float_samples() {
    let not_a_number = Rgb32FImage::from_pixel(1, 1, Rgb([f32::NAN, 0.0, 0.0]));
    assert_eq!(
        ImageTexture::from_image(DynamicImage::ImageRgb32F(not_a_number)).err(),
        Some(TextureError::Decode)
    );
    let plain = Rgba32FImage::from_pixel(2, 2, Rgba([0.5, 0.25, 1.0, 1.0]));
    assert_eq!(
        ImageTexture::from_image(DynamicImage::ImageRgba32F(plain)).err(),
        Some(TextureError::Decode)
    );
}

#[test]
fn from_image_tests_the_samples_before_the_extent() {
    assert_eq!(
        ImageTexture::from_image(DynamicImage::new_rgb32f(0, 4)).err(),
        Some(TextureError::Decode)
    );
    assert_eq!(
        ImageTexture::from_image(DynamicImage::new_rgb16(0, 4)).err(),
        Some(TextureError::InvalidDimensions)
    );
}

#[test]
fn from_image_accepts_every_integer_kind() {
    let images = vec![
        DynamicImage::new_luma8(2, 1),
        DynamicImage::new_luma_a8(2, 1),
        DynamicImage::new_rgb8(2, 1),
        DynamicImage::new_rgba8(2, 1),
        DynamicImage::new_luma16(2, 1),
        DynamicImage::new_luma_a16(2, 1),
        DynamicImage::new_rgb16(2, 1),
        DynamicImage::new_rgba16(2, 1),
    ];
    for image in images {
        let texture = ImageTexture::from_image(image).unwrap();
        assert_eq!(texture.dimensions(), (2, 1));
        assert_eq!(texture.write().data.len(), 8);
    }
}

#[test]
fn write_narrows_sixteen_bit_samples() {
    let source = ImageBuffer::from_pixel(1, 2, Rgb([65535u16, 32768, 0]));
    let texture = ImageTexture::from_image(DynamicImage::ImageRgb16(source)).unwrap();
    assert_eq!(texture.write().data, vec![255, 128, 0, 255, 255, 128, 0, 255]);
}

#[test]
fn write_spreads_luminance_over_the_channels() {
    let source = ImageBuffer::from_pixel(1, 1, LumaA([90u8, 17]));
    let texture = ImageTexture::from_image(DynamicImage::ImageLumaA8(source)).unwrap();
    assert_eq!(texture.write().data, vec![90, 90, 90, 17]);
}

#[test]
fn from_decoded_turns_the_decoders_error_into_decode() {
    let decoded = image::load_from_memory(b"");
    assert!(decoded.is_err());
    assert_eq!(ImageTexture::from_decoded(decoded).err(), Some(TextureError::Decode));
    let failed = Err(ImageError::IoError(std::io::Error::from(std::io::ErrorKind::UnexpectedEof)));
    assert_eq!(ImageTexture::from_decoded(failed).err(), Some(TextureError::Decode));
}

#[test]
fn from_decoded_judges_an_image_as_from_image_does() {
    let texture = ImageTexture::from_decoded(Ok(DynamicImage::ImageRgba8(checker(3, 2)))).unwrap();
    assert_eq!(texture.dimensions(), (3, 2));
    assert_eq!(texture.write().data, checker(3, 2).into_raw());
    assert_eq!(
        ImageTexture::from_decoded(Ok(DynamicImage::new_rgba8(0, 1))).err(),
        Some(TextureError::InvalidDimensions)
    );
    assert_eq!(
        ImageTexture::from_decoded(Ok(DynamicImage::new_rgba32f(1, 1))).err(),
        Some(TextureError::Decode)
    );
}

#[test]
fn integer_samples_are_the_eight_and_sixteen_bit_kinds() {
    let integer = [
        ColorType::L8,
        ColorType::La8,
        ColorType::Rgb8,
        ColorType::Rgba8,
        ColorType::L16,
        ColorType::La16,
        ColorType::Rgb16,
        ColorType::Rgba16,
    ];
    for color in integer {
        assert!(color.has_integer_samples());
    }
    for color in [ColorType::Rgb32F, ColorType::Rgba32F, ColorType::Unknown] {
        assert!(!color.has_integer_samples());
    }
}
