use image::codecs::gif::GifEncoder;
use image::{Delay, Frame, Rgba, RgbaImage};
use streamrs::keystate::LoadedKeyImage;
use streamrs::pipeline::{
    assemble_frames, blank_image_data, center_square, delay_ms_from_ratio, delay_to_duration_ms,
    encode_animated_frames, encode_streamdeck_image, icon_extension, icon_format,
    is_supported_icon_extension, load_animated_gif, load_raster_icon, IconError, IconFormat,
    MIN_GIF_FRAME_DELAY_MS,
};

fn gif_with_frames(delays_ms: &[u32]) -> Vec<u8> {
    let mut data = Vec::new();
    {
        let mut encoder = GifEncoder::new(&mut data);
        let frames: Vec<Frame> = delays_ms
            .iter()
            .enumerate()
            .map(|(i, &ms)| {
                let shade = (i * 200) as u8;
                Frame::from_parts(
                    RgbaImage::from_pixel(2, 2, Rgba([shade, shade, shade, 255])),
                    0,
                    0,
                    Delay::from_numer_denom_ms(ms, 1),
                )
            })
            .collect();
        encoder.encode_frames(frames).expect("fixture GIF should encode");
    }
    data
}

fn is_jpeg(data: &[u8]) -> bool {
    data.len() > 2 && data[0] == 0xFF && data[1] == 0xD8
}

#[test]
fn gif_icon_is_supported() {
    let gif: &[u8] = &[
        0x47, 0x49, 0x46, 0x38, 0x39, 0x61, 0x01, 0x00, 0x01, 0x00, 0x80, 0x00, 0x00, 0x00, 0x00,
        0x00, 0xFF, 0xFF, 0xFF, 0x21, 0xF9, 0x04, 0x01, 0x00, 0x00, 0x00, 0x00, 0x2C, 0x00, 0x00,
        0x00, 0x00, 0x01, 0x00, 0x01, 0x00, 0x00, 0x02, 0x02, 0x44, 0x01, 0x00, 0x3B,
    ];
    match load_raster_icon("icon.gif", gif).expect("GIF should decode and encode for Stream Deck") {
        LoadedKeyImage::Static(data) => {
            assert!(data.len() > 2);
            assert_eq!(data[0], 0xFF);
            assert_eq!(data[1], 0xD8);
        }
        _ => panic!("a one-frame GIF is a still tile"),
    }
}

#[test]
fn animated_gif_fixture_is_supported() {
    let gif_data = gif_with_frames(&[100, 100]);
    let loaded = load_animated_gif(&gif_data).expect("animated GIF should load for animation");
    match loaded {
        LoadedKeyImage::Animated { frames, delays } => {
            assert!(frames.len() > 1);
            assert_eq!(frames.len(), delays.len());
        }
        LoadedKeyImage::Static(_) => panic!("animated GIF should not load as static"),
        LoadedKeyImage::Clock { .. } => panic!("animated GIF should not load as clock"),
    }
}

#[test]
fn two_frame_gif_decodes_to_animation_with_floored_delays() {
    let gif_data = gif_with_frames(&[10, 20]);
    match load_raster_icon("anim.GIF", &gif_data).expect("two-frame GIF should load") {
        LoadedKeyImage::Animated { frames, delays } => {
            assert_eq!(frames.len(), 2);
            assert_eq!(delays.len(), 2);
            assert_eq!(delays[0], MIN_GIF_FRAME_DELAY_MS);
            assert!(delays.iter().all(|&d| d >= MIN_GIF_FRAME_DELAY_MS));
            assert!(frames.iter().all(|f| is_jpeg(f)));
        }
        _ => panic!("expected an animation"),
    }
}

#[test]
fn delay_conversion_uses_millisecond_ratio() {
    let exact = delay_to_duration_ms(Delay::from_numer_denom_ms(150, 1));
    assert_eq!(exact, 150);
    let tiny = delay_to_duration_ms(Delay::from_numer_denom_ms(1, 100));
    assert_eq!(tiny, MIN_GIF_FRAME_DELAY_MS);
    assert_eq!(delay_ms_from_ratio(301, 2), 150);
    assert_eq!(delay_ms_from_ratio(5, 0), MIN_GIF_FRAME_DELAY_MS);
    assert_eq!(delay_ms_from_ratio(65, 1), MIN_GIF_FRAME_DELAY_MS);
    assert_eq!(delay_ms_from_ratio(66, 1), 66);
}

#[test]
fn encode_animated_frames_builds_animation_state() {
    let frame1 = Frame::from_parts(RgbaImage::new(8, 8), 0, 0, Delay::from_numer_denom_ms(20, 1));
    let frame2 = Frame::from_parts(RgbaImage::new(8, 8), 0, 0, Delay::from_numer_denom_ms(200, 1));
    let loaded =
        encode_animated_frames(&vec![frame1, frame2]).expect("multi-frame animation should load");
    match loaded {
        LoadedKeyImage::Animated { frames, delays } => {
            assert_eq!(frames.len(), 2);
            assert_eq!(delays.len(), 2);
            assert_eq!(delays[0], MIN_GIF_FRAME_DELAY_MS);
            assert_eq!(delays[1], 200);
        }
        LoadedKeyImage::Static(_) => panic!("expected animated state"),
        LoadedKeyImage::Clock { .. } => panic!("expected animated state"),
    }
}

#[test]
fn frame_counts_decide_the_kind() {
    assert_eq!(encode_animated_frames(&Vec::new()).unwrap_err(), IconError::NoFrames);
    let one = Frame::from_parts(RgbaImage::new(4, 4), 0, 0, Delay::from_numer_denom_ms(100, 1));
    assert!(matches!(encode_animated_frames(&vec![one]), Ok(LoadedKeyImage::Static(t)) if is_jpeg(&t)));
    assert_eq!(assemble_frames(Vec::new(), Vec::new()).unwrap_err(), IconError::NoFrames);
    assert!(matches!(
        assemble_frames(vec![vec![1]], vec![70]),
        Ok(LoadedKeyImage::Static(t)) if t == vec![1]
    ));
    assert!(matches!(
        assemble_frames(vec![vec![1], vec![2]], vec![70, 80]),
        Ok(LoadedKeyImage::Animated { frames, delays }) if frames.len() == 2 && delays == vec![70, 80]
    ));
}

#[test]
fn tiles_are_square_jpegs() {
    let wide = image::DynamicImage::ImageRgba8(RgbaImage::from_pixel(40, 10, Rgba([9, 9, 9, 255])));
    let tile = encode_streamdeck_image(&wide).expect("tile should encode");
    assert!(is_jpeg(&tile));
    let decoded = image::load_from_memory(&tile).expect("tile should decode");
    assert_eq!((decoded.width(), decoded.height()), (72, 72));
    let blank = blank_image_data().expect("blank tile");
    assert!(is_jpeg(&blank));
    assert_eq!(center_square(40, 10), (15, 0, 10));
    assert_eq!(center_square(7, 12), (0, 2, 7));
}

#[test]
fn broken_bytes_are_a_decode_error() {
    assert!(matches!(load_raster_icon("x.png", b"not a png"), Err(IconError::Decode(_))));
    assert!(matches!(load_raster_icon("x.jpg", b"not a jpeg"), Err(IconError::Decode(_))));
    assert!(matches!(load_animated_gif(b"GIF89a"), Err(IconError::Decode(_))));
}

#[test]
fn still_png_loads_as_static() {
    let mut png = Vec::new();
    image::DynamicImage::ImageRgba8(RgbaImage::from_pixel(3, 3, Rgba([1, 2, 3, 255])))
        .write_to(&mut std::io::Cursor::new(&mut png), image::ImageFormat::Png)
        .expect("fixture PNG should encode");
    assert!(matches!(load_raster_icon("still.png", &png), Ok(LoadedKeyImage::Static(t)) if is_jpeg(&t)));
}

#[test]
fn extensions_are_read_from_file_names() {
    assert_eq!(icon_extension("a.PNG").as_deref(), Some("png"));
    assert_eq!(icon_extension("archive.tar.Gz").as_deref(), Some("gz"));
    assert_eq!(icon_extension(".hidden"), None);
    assert_eq!(icon_extension("noext"), None);
    assert_eq!(icon_extension("trailing.").as_deref(), Some(""));
    assert_eq!(icon_format("clock.svg"), IconFormat::Svg);
    assert_eq!(icon_format("x.WebP"), IconFormat::Webp);
    assert_eq!(icon_format("x.jpeg"), IconFormat::Other);
    assert!(is_supported_icon_extension("x.JPG"));
    assert!(is_supported_icon_extension("x.svg"));
    assert!(!is_supported_icon_extension("x.bmp"));
    assert!(!is_supported_icon_extension("png"));
}

#[test]
fn extensions_ignore_directories() {
    assert_eq!(icon_extension("dir/.png"), None);
    assert_eq!(icon_extension("dir.d/file"), None);
    assert_eq!(icon_extension("dir/a.Png").as_deref(), Some("png"));
    assert_eq!(icon_extension("x.png/").as_deref(), Some("png"));
    assert_eq!(icon_extension("x.png/."), icon_extension("x.png"));
    assert_eq!(icon_extension(".."), None);
    assert!(is_supported_icon_extension("x.png/"));
}

#[test]
fn extensions_match_std_paths() {
    let alphabet = ['a', '.', '/', 'P'];
    let mut names = vec![String::new()];
    for _ in 0..7 {
        let mut longer = Vec::new();
        for name in &names {
            for c in alphabet {
                longer.push(format!("{name}{c}"));
            }
        }
        names.extend(longer.iter().cloned());
        names.sort();
        names.dedup();
    }
    for name in &names {
        let std_ext = std::path::Path::new(name)
            .extension()
            .and_then(|e| e.to_str())
            .map(|e| e.to_ascii_lowercase());
        assert_eq!(icon_extension(name), std_ext, "{name:?}");
    }
}

#[test]
fn frame_delays_keep_their_own_values() {
    let frames: Vec<Frame> = [20u32, 200, 70, 0]
        .iter()
        .map(|&ms| Frame::from_parts(RgbaImage::new(3, 5), 0, 0, Delay::from_numer_denom_ms(ms, 1)))
        .collect();
    match encode_animated_frames(&frames).expect("frames encode") {
        LoadedKeyImage::Animated { frames, delays } => {
            assert_eq!(frames.len(), 4);
            assert_eq!(delays, vec![66, 200, 70, 66]);
        }
        _ => panic!("expected an animation"),
    }
}

#[test]
fn empty_picture_still_encodes_a_tile() {
    let empty = image::DynamicImage::new_rgba8(0, 0);
    assert!(is_jpeg(&encode_streamdeck_image(&empty).expect("always encodes")));
}

#[test]
fn animation_tiles_are_their_frames_tiles() {
    let a = RgbaImage::from_pixel(6, 4, Rgba([200, 10, 10, 255]));
    let b = RgbaImage::from_pixel(4, 6, Rgba([10, 200, 10, 255]));
    let frames = vec![
        Frame::from_parts(a.clone(), 0, 0, Delay::from_numer_denom_ms(100, 1)),
        Frame::from_parts(b.clone(), 0, 0, Delay::from_numer_denom_ms(100, 1)),
    ];
    match encode_animated_frames(&frames).expect("frames encode") {
        LoadedKeyImage::Animated { frames: tiles, .. } => {
            let tile_a = encode_streamdeck_image(&image::DynamicImage::ImageRgba8(a)).unwrap();
            let tile_b = encode_streamdeck_image(&image::DynamicImage::ImageRgba8(b)).unwrap();
            assert_eq!(tiles, vec![tile_a, tile_b]);
        }
        _ => panic!("expected an animation"),
    }
}
