use realtime_shaders::texture::{AddressMode, FilterMode, LoadError, RawImage, TextureCache};
use realtime_shaders::texture::{TextureDimension, TextureFormat, TextureUpload, BYTES_PER_PIXEL};

fn pattern(width: u32, height: u32) -> Vec<u8> {
    let mut pixels = Vec::new();
    for y in 0..height {
        for x in 0..width {
            pixels.extend_from_slice(&[(x * 40) as u8, (y * 60) as u8, ((x + y) * 25) as u8, 255]);
        }
    }
    pixels
}

fn encoded(width: u32, height: u32, pixels: Vec<u8>, format: image::ImageOutputFormat) -> Vec<u8> {
    let picture = image::RgbaImage::from_raw(width, height, pixels).expect("pixels fit the size");
    let mut out = std::io::Cursor::new(Vec::new());
    image::DynamicImage::ImageRgba8(picture).write_to(&mut out, format).expect("encodes");
    out.into_inner()
}

fn png(width: u32, height: u32) -> Vec<u8> {
    encoded(width, height, pattern(width, height), image::ImageOutputFormat::Png)
}

/// A lossless JPEG picture of one pixel whose samples all have the middle value.
fn lossless_jpeg(precision: u8, components: u8) -> Vec<u8> {
    let mut bytes: Vec<u8> = vec![0xFF, 0xD8];
    bytes.extend_from_slice(&[0xFF, 0xC4, 0x00, 0x14, 0x00]);
    bytes.extend_from_slice(&[1, 0, 0, 0, 0, 0, 0, 0, 0, 0, 0, 0, 0, 0, 0, 0]);
    bytes.push(0);
    bytes.extend_from_slice(&[0xFF, 0xC3, 0x00, 8 + 3 * components]);
    bytes.extend_from_slice(&[precision, 0, 1, 0, 1, components]);
    for i in 0..components {
        bytes.extend_from_slice(&[i + 1, 0x11, 0]);
    }
    bytes.extend_from_slice(&[0xFF, 0xDA, 0x00, 6 + 2 * components, components]);
    for i in 0..components {
        bytes.extend_from_slice(&[i + 1, 0x00]);
    }
    bytes.extend_from_slice(&[1, 0, 0]);
    bytes.extend_from_slice(&[0x0F, 0xFF, 0xD9]);
    bytes
}

fn expect_upload(outcome: Result<Option<TextureUpload>, LoadError>) -> TextureUpload {
    match outcome {
        Ok(Some(upload)) => upload,
        other => panic!("expected an upload, got {:?}", other),
    }
}

#[test]
fn a_new_cache_holds_nothing() {
    let cache = TextureCache::new();
    assert!(!cache.is_cached("cat.png"));
    assert!(!cache.is_cached(""));
    assert_eq!(cache.image_size(), None);
}

#[test]
fn replace_describes_the_upload_of_the_image() {
    let mut cache = TextureCache::new();
    let image = RawImage { width: 3, height: 2, pixels: pattern(3, 2) };
    let upload = cache.replace("dir/cat.png", image).expect("a well-formed image");
    assert_eq!(upload.width, 3);
    assert_eq!(upload.height, 2);
    assert_eq!(upload.dimension, TextureDimension::D2);
    assert_eq!(upload.mip_level_count, 1);
    assert_eq!(upload.sample_count, 1);
    assert_eq!(upload.format, TextureFormat::Rgba8UnormSrgb);
    assert_eq!(upload.bytes_per_row, 12);
    assert_eq!(upload.rows_per_image, 2);
    assert_eq!(upload.pixels, pattern(3, 2));
    assert_eq!(upload.pixels.len() as u32, upload.bytes_per_row * upload.rows_per_image);
    assert_eq!(BYTES_PER_PIXEL, 4);
    assert!(cache.is_cached("dir/cat.png"));
    assert_eq!(cache.image_size(), Some((3, 2)));
}

#[test]
fn sampler_clamps_and_filters_as_specified() {
    let mut cache = TextureCache::new();
    let image = RawImage { width: 1, height: 1, pixels: vec![1, 2, 3, 4] };
    let sampler = cache.replace("dot.png", image).expect("one pixel").sampler;
    assert_eq!(sampler.address_mode_u, AddressMode::ClampToEdge);
    assert_eq!(sampler.address_mode_v, AddressMode::ClampToEdge);
    assert_eq!(sampler.mag_filter, FilterMode::Linear);
    assert_eq!(sampler.min_filter, FilterMode::Nearest);
    assert_eq!(sampler.mipmap_filter, FilterMode::Nearest);
}

#[test]
fn replace_refuses_an_empty_image() {
    let mut cache = TextureCache::new();
    let no_columns = RawImage { width: 0, height: 4, pixels: vec![] };
    assert_eq!(cache.replace("a.png", no_columns), Err(LoadError::DecodeFailed));
    let no_rows = RawImage { width: 4, height: 0, pixels: vec![] };
    assert_eq!(cache.replace("a.png", no_rows), Err(LoadError::DecodeFailed));
    assert!(!cache.is_cached("a.png"));
    assert_eq!(cache.image_size(), None);
}

#[test]
fn replace_refuses_pixels_that_do_not_fit_the_size() {
    let mut cache = TextureCache::new();
    let short = RawImage { width: 2, height: 2, pixels: vec![0; 15] };
    assert_eq!(cache.replace("a.png", short), Err(LoadError::DecodeFailed));
    let long = RawImage { width: 2, height: 2, pixels: vec![0; 17] };
    assert_eq!(cache.replace("a.png", long), Err(LoadError::DecodeFailed));
    assert_eq!(cache.image_size(), None);
}

#[test]
fn replace_refuses_rows_too_long_to_address() {
    let mut cache = TextureCache::new();
    let wide = RawImage { width: 0x4000_0000, height: 1, pixels: vec![] };
    assert_eq!(cache.replace("a.png", wide), Err(LoadError::DecodeFailed));
    let widest = RawImage { width: u32::MAX, height: u32::MAX, pixels: vec![0; 4] };
    assert_eq!(cache.replace("a.png", widest), Err(LoadError::DecodeFailed));
}

#[test]
fn a_refused_image_leaves_the_live_texture_alone() {
    let mut cache = TextureCache::new();
    cache.replace("good.png", RawImage { width: 2, height: 1, pixels: vec![9; 8] }).expect("fine");
    let bad = RawImage { width: 2, height: 2, pixels: vec![0; 3] };
    assert_eq!(cache.replace("bad.png", bad), Err(LoadError::DecodeFailed));
    assert!(cache.is_cached("good.png"));
    assert!(!cache.is_cached("bad.png"));
    assert_eq!(cache.image_size(), Some((2, 1)));
}

#[test]
fn ensure_loaded_decodes_a_png() {
    let mut cache = TextureCache::new();
    let file = png(3, 2);
    let upload = expect_upload(cache.ensure_loaded("images/cat.png", Some(&file)));
    assert_eq!((upload.width, upload.height), (3, 2));
    assert_eq!(upload.bytes_per_row, 12);
    assert_eq!(upload.rows_per_image, 2);
    assert_eq!(upload.pixels, pattern(3, 2));
    assert_ne!(upload.pixels, file);
    assert_eq!(cache.image_size(), Some((3, 2)));
}

#[test]
fn ensure_loaded_decodes_a_bmp() {
    let mut cache = TextureCache::new();
    let file = encoded(2, 2, pattern(2, 2), image::ImageOutputFormat::Bmp);
    let upload = expect_upload(cache.ensure_loaded("cat.BMP", Some(&file)));
    assert_eq!((upload.width, upload.height), (2, 2));
    assert_eq!(upload.pixels, pattern(2, 2));
}

#[test]
fn ensure_loaded_decodes_a_jpeg_to_four_bytes_a_pixel() {
    let mut cache = TextureCache::new();
    let file = encoded(8, 8, vec![200; 8 * 8 * 4], image::ImageOutputFormat::Jpeg(90));
    let upload = expect_upload(cache.ensure_loaded("cat.jpg", Some(&file)));
    assert_eq!((upload.width, upload.height), (8, 8));
    assert_eq!(upload.pixels.len(), 8 * 8 * 4);
    for pixel in upload.pixels.chunks(4) {
        assert_eq!(pixel[3], 255);
    }
}

#[test]
fn an_image_without_alpha_becomes_opaque() {
    let picture = image::RgbImage::from_raw(2, 1, vec![10, 20, 30, 40, 50, 60]).expect("fits");
    let mut out = std::io::Cursor::new(Vec::new());
    image::DynamicImage::ImageRgb8(picture)
        .write_to(&mut out, image::ImageOutputFormat::Png)
        .expect("encodes");
    let file = out.into_inner();
    let mut cache = TextureCache::new();
    let upload = expect_upload(cache.ensure_loaded("rgb.png", Some(&file)));
    assert_eq!(upload.pixels, vec![10, 20, 30, 255, 40, 50, 60, 255]);
}

#[test]
fn same_path_is_loaded_once() {
    let mut cache = TextureCache::new();
    let file = png(2, 2);
    let mut loads = 0;
    for _ in 0..5 {
        if let Ok(Some(_)) = cache.ensure_loaded("cat.png", Some(&file)) {
            loads += 1;
        }
    }
    assert_eq!(loads, 1);
}

#[test]
fn second_request_for_the_same_path_does_nothing() {
    let mut cache = TextureCache::new();
    let file = png(2, 2);
    expect_upload(cache.ensure_loaded("cat.png", Some(&file)));
    assert_eq!(cache.ensure_loaded("cat.png", Some(&file)), Ok(None));
    assert_eq!(cache.ensure_loaded("cat.png", None), Ok(None));
    assert_eq!(cache.ensure_loaded("cat.png", Some(&[1, 2, 3])), Ok(None));
    assert_eq!(cache.image_size(), Some((2, 2)));
}

#[test]
fn another_path_is_loaded_once_and_replaces_the_first() {
    let mut cache = TextureCache::new();
    let cat = png(2, 2);
    let dog = png(4, 3);
    expect_upload(cache.ensure_loaded("cat.png", Some(&cat)));
    let upload = expect_upload(cache.ensure_loaded("dog.png", Some(&dog)));
    assert_eq!((upload.width, upload.height), (4, 3));
    assert!(cache.is_cached("dog.png"));
    assert!(!cache.is_cached("cat.png"));
    assert_eq!(cache.image_size(), Some((4, 3)));
    assert_eq!(cache.ensure_loaded("dog.png", Some(&dog)), Ok(None));
}

#[test]
fn going_back_to_the_first_path_loads_it_again() {
    let mut cache = TextureCache::new();
    let cat = png(2, 2);
    let dog = png(4, 3);
    let mut loads = 0;
    for (path, file) in [("cat.png", &cat), ("dog.png", &dog), ("dog.png", &dog), ("cat.png", &cat)] {
        if let Ok(Some(_)) = cache.ensure_loaded(path, Some(file)) {
            loads += 1;
        }
    }
    assert_eq!(loads, 3);
}

#[test]
fn paths_are_compared_letter_by_letter() {
    let mut cache = TextureCache::new();
    let file = png(1, 1);
    expect_upload(cache.ensure_loaded("cat.png", Some(&file)));
    assert!(!cache.is_cached("./cat.png"));
    assert!(!cache.is_cached("Cat.png"));
    expect_upload(cache.ensure_loaded("./cat.png", Some(&file)));
}

#[test]
fn unreadable_file_is_not_found() {
    let mut cache = TextureCache::new();
    assert_eq!(cache.ensure_loaded("missing.png", None), Err(LoadError::NotFound));
    assert!(!cache.is_cached("missing.png"));
    assert_eq!(cache.image_size(), None);
}

#[test]
fn content_that_is_no_image_fails_to_decode() {
    let mut cache = TextureCache::new();
    assert_eq!(cache.ensure_loaded("notes.png", Some(b"not an image")), Err(LoadError::DecodeFailed));
    assert_eq!(cache.ensure_loaded("empty.png", Some(&[])), Err(LoadError::DecodeFailed));
    assert_eq!(cache.image_size(), None);
}

#[test]
fn truncated_png_fails_to_decode() {
    let mut cache = TextureCache::new();
    let file = png(16, 16);
    let half = &file[..file.len() / 2];
    assert_eq!(cache.ensure_loaded("cat.png", Some(half)), Err(LoadError::DecodeFailed));
}

#[test]
fn format_goes_by_the_extension_of_the_path() {
    let mut cache = TextureCache::new();
    let file = png(2, 2);
    assert_eq!(cache.ensure_loaded("cat.jpg", Some(&file)), Err(LoadError::DecodeFailed));
    assert_eq!(cache.ensure_loaded("cat.txt", Some(&file)), Err(LoadError::DecodeFailed));
    assert_eq!(cache.ensure_loaded("cat", Some(&file)), Err(LoadError::DecodeFailed));
    assert_eq!(cache.ensure_loaded("cat.gif", Some(&file)), Err(LoadError::DecodeFailed));
    expect_upload(cache.ensure_loaded("cat.PNG", Some(&file)));
}

#[test]
fn a_failed_load_keeps_the_previous_texture() {
    let mut cache = TextureCache::new();
    let file = png(3, 2);
    expect_upload(cache.ensure_loaded("cat.png", Some(&file)));
    assert_eq!(cache.ensure_loaded("missing.png", None), Err(LoadError::NotFound));
    assert_eq!(cache.ensure_loaded("broken.png", Some(&[0; 10])), Err(LoadError::DecodeFailed));
    assert!(cache.is_cached("cat.png"));
    assert_eq!(cache.image_size(), Some((3, 2)));
    assert_eq!(cache.ensure_loaded("cat.png", None), Ok(None));
}

#[test]
fn a_failed_load_is_tried_again_on_the_next_request() {
    let mut cache = TextureCache::new();
    let file = png(2, 2);
    assert_eq!(cache.ensure_loaded("late.png", None), Err(LoadError::NotFound));
    assert_eq!(cache.ensure_loaded("late.png", None), Err(LoadError::NotFound));
    expect_upload(cache.ensure_loaded("late.png", Some(&file)));
}

#[test]
fn a_lossless_jpeg_of_eight_bits_is_decoded() {
    let mut cache = TextureCache::new();
    let upload = expect_upload(cache.ensure_loaded("grey.jpg", Some(&lossless_jpeg(8, 3))));
    assert_eq!((upload.width, upload.height), (1, 1));
    assert_eq!(upload.pixels, vec![128, 128, 128, 255]);
    let upload = expect_upload(cache.ensure_loaded("one.jpg", Some(&lossless_jpeg(8, 1))));
    assert_eq!(upload.pixels, vec![128, 128, 128, 255]);
    let upload = expect_upload(cache.ensure_loaded("four.jpeg", Some(&lossless_jpeg(8, 4))));
    assert_eq!((upload.width, upload.height), (1, 1));
    assert_eq!(upload.pixels.len(), 4);
}

#[test]
fn a_deep_lossless_jpeg_with_one_component_is_decoded() {
    let mut cache = TextureCache::new();
    for precision in [9u8, 12, 16] {
        let path = format!("deep{}.jpg", precision);
        let upload = expect_upload(cache.ensure_loaded(&path, Some(&lossless_jpeg(precision, 1))));
        assert_eq!((upload.width, upload.height), (1, 1));
        assert_eq!(upload.pixels.len(), 4);
        assert_eq!(upload.pixels[3], 255);
    }
}

#[test]
fn a_lossless_jpeg_the_decoder_has_no_room_for_fails_to_decode() {
    let mut cache = TextureCache::new();
    for (precision, components) in [(2u8, 1u8), (5, 1), (7, 1), (12, 3), (16, 3), (12, 4), (2, 4)] {
        let file = lossless_jpeg(precision, components);
        assert_eq!(cache.ensure_loaded("deep.jpg", Some(&file)), Err(LoadError::DecodeFailed));
        assert_eq!(cache.ensure_loaded("deep.png", Some(&file)), Err(LoadError::DecodeFailed));
    }
    assert_eq!(cache.image_size(), None);
}

#[test]
fn a_refused_frame_keeps_the_previous_texture() {
    let mut cache = TextureCache::new();
    expect_upload(cache.ensure_loaded("cat.png", Some(&png(3, 2))));
    let file = lossless_jpeg(12, 3);
    assert_eq!(cache.ensure_loaded("deep.jpg", Some(&file)), Err(LoadError::DecodeFailed));
    assert!(cache.is_cached("cat.png"));
    assert_eq!(cache.image_size(), Some((3, 2)));
    assert_eq!(cache.ensure_loaded("cat.png", Some(&file)), Ok(None));
}
