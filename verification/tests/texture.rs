use glframe::texture::{Filter, Sampling, Texture, TextureError, WrapMode};
use image::{DynamicImage, GrayImage, Rgb32FImage, RgbImage, Rgba32FImage, RgbaImage};

#[test]
fn default_sampling_repeats_and_is_linear() {
    assert_eq!(
        Sampling::default(),
        Sampling {
            wrap_s: WrapMode::Repeat,
            wrap_t: WrapMode::Repeat,
            min_filter: Filter::Linear,
            mag_filter: Filter::Linear,
        }
    );
}

#[test]
fn texture_of_tightly_packed_pixels() {
    let sampling = Sampling {
        wrap_s: WrapMode::ClampToEdge,
        wrap_t: WrapMode::MirroredRepeat,
        min_filter: Filter::Nearest,
        mag_filter: Filter::Linear,
    };
    let texture = Texture::new(2, 1, vec![1, 2, 3, 4, 5, 6], sampling).unwrap();
    assert_eq!(texture.width(), 2);
    assert_eq!(texture.height(), 1);
    assert_eq!(texture.pixels(), &[1, 2, 3, 4, 5, 6][..]);
    assert_eq!(texture.sampling(), sampling);
    assert!(Texture::new(0, 7, Vec::new(), sampling).is_ok());
}

#[test]
fn texture_errors() {
    let s = Sampling::default();
    assert_eq!(Texture::new(2, 1, vec![0; 5], s).err(), Some(TextureError::SizeMismatch));
    assert_eq!(Texture::new(2, 1, vec![0; 8], s).err(), Some(TextureError::SizeMismatch));
    assert_eq!(Texture::new(0x8000_0000, 0, Vec::new(), s).err(), Some(TextureError::TooLarge));
    assert_eq!(Texture::new(0, u32::MAX, Vec::new(), s).err(), Some(TextureError::TooLarge));
    assert_eq!(
        Texture::new(0x7fff_ffff, 1, Vec::new(), s).err(),
        Some(TextureError::SizeMismatch)
    );
}

#[test]
fn texture_of_a_grey_image_is_rgb() {
    let grey = GrayImage::from_raw(2, 1, vec![10, 200]).unwrap();
    let image = DynamicImage::ImageLuma8(grey);
    let texture = Texture::from_image(&image, Sampling::default()).unwrap();
    assert_eq!(texture.width(), 2);
    assert_eq!(texture.height(), 1);
    assert_eq!(texture.pixels(), &[10, 10, 10, 200, 200, 200][..]);
}

#[test]
fn texture_of_an_image_with_alpha_drops_alpha() {
    let rgba = RgbaImage::from_raw(1, 2, vec![1, 2, 3, 255, 4, 5, 6, 0]).unwrap();
    let image = DynamicImage::ImageRgba8(rgba);
    let texture = Texture::from_image(&image, Sampling::default()).unwrap();
    assert_eq!((texture.width(), texture.height()), (1, 2));
    assert_eq!(texture.pixels(), &[1, 2, 3, 4, 5, 6][..]);
}

#[test]
fn texture_of_an_rgb_image_with_a_long_buffer_is_tight() {
    let rgb = RgbImage::from_raw(1, 1, vec![7, 8, 9, 10, 11]).unwrap();
    let image = DynamicImage::ImageRgb8(rgb);
    let texture = Texture::from_image(&image, Sampling::default()).unwrap();
    assert_eq!(texture.pixels(), &[7, 8, 9][..]);
    let empty = DynamicImage::new_rgb8(0, 0);
    let texture = Texture::from_image(&empty, Sampling::default()).unwrap();
    assert_eq!((texture.width(), texture.height(), texture.pixels().len()), (0, 0, 0));
}

#[test]
fn image_of_float_samples_is_refused() {
    let not_a_number = Rgb32FImage::from_raw(1, 1, vec![f32::NAN, 0.0, 1.0]).unwrap();
    let image = DynamicImage::ImageRgb32F(not_a_number);
    assert_eq!(
        Texture::from_image(&image, Sampling::default()).err(),
        Some(TextureError::FloatSamples)
    );
    let finite = Rgba32FImage::from_raw(1, 1, vec![0.5, 0.25, 1.0, 1.0]).unwrap();
    let image = DynamicImage::ImageRgba32F(finite);
    assert_eq!(
        Texture::from_image(&image, Sampling::default()).err(),
        Some(TextureError::FloatSamples)
    );
    let empty = DynamicImage::ImageRgb32F(Rgb32FImage::new(0, 0));
    assert_eq!(
        Texture::from_image(&empty, Sampling::default()).err(),
        Some(TextureError::FloatSamples)
    );
}

#[test]
fn texture_of_a_sixteen_bit_image_is_rgb() {
    let image = DynamicImage::new_rgb16(2, 2);
    let texture = Texture::from_image(&image, Sampling::default()).unwrap();
    assert_eq!((texture.width(), texture.height()), (2, 2));
    assert_eq!(texture.pixels(), &[0u8; 12][..]);
}
