//! Icon pipeline: raster and animated sources decoded with the `image` crate
//! and turned into device tiles (square, 72x72, turned half a turn, JPEG).
use crate::keystate::LoadedKeyImage;
use crate::text::ascii_lower;
use vstd::prelude::*;

verus! {

/// Shortest frame delay an animation may have, in milliseconds.
pub const MIN_GIF_FRAME_DELAY_MS: u64 = 66;

/// Side of the square that vector icons are drawn on.
pub const SVG_RENDER_SIZE: u32 = 256;

/// Side of a device tile.
pub const TILE_SIZE: u32 = 72;

#[verifier::external_type_specification]
#[verifier::external_body]
pub struct ExDynamicImage(image::DynamicImage);

#[verifier::external_type_specification]
#[verifier::external_body]
pub struct ExFrame(image::Frame);

#[verifier::external_type_specification]
#[verifier::external_body]
pub struct ExDelay(image::Delay);

#[verifier::external_type_specification]
#[verifier::external_body]
pub struct ExImageError(image::ImageError);

/// The ratio of milliseconds a delay stands for.
pub uninterp spec fn delay_ratio_of(d: image::Delay) -> (u32, u32);

/// How long a frame is shown.
pub uninterp spec fn frame_delay_of(f: image::Frame) -> image::Delay;

/// Width and height of a picture.
pub uninterp spec fn dims_of(img: image::DynamicImage) -> (u32, u32);

/// The frame's pixels as a picture.
pub uninterp spec fn frame_picture_of(f: image::Frame) -> image::DynamicImage;

/// The cut-out of a picture at (`x`, `y`) of the given size.
pub uninterp spec fn cropped_of(img: image::DynamicImage, x: u32, y: u32, w: u32, h: u32) -> image::DynamicImage;

/// A picture turned half a turn.
pub uninterp spec fn turned_of(img: image::DynamicImage) -> image::DynamicImage;

/// A picture scaled to a square of the given side with the Lanczos3 filter.
pub uninterp spec fn resized_of(img: image::DynamicImage, side: u32) -> image::DynamicImage;

/// The JPEG stream of a picture at quality 100.
pub uninterp spec fn jpeg_of(img: image::DynamicImage) -> Seq<u8>;

/// A black square picture of the given side.
pub uninterp spec fn black_of(side: u32) -> image::DynamicImage;

/// The single picture the bytes decode to, if they do.
pub uninterp spec fn decoded_of(bytes: Seq<u8>) -> Option<image::DynamicImage>;

/// The frames of a GIF, if the bytes decode as one.
pub uninterp spec fn gif_frames(bytes: Seq<u8>) -> Option<Seq<image::Frame>>;

/// Whether a PNG is animated, if its header decodes.
pub uninterp spec fn png_animated(bytes: Seq<u8>) -> Option<bool>;

/// The frames of an animated PNG, if the bytes decode as one.
pub uninterp spec fn apng_frames(bytes: Seq<u8>) -> Option<Seq<image::Frame>>;

/// Whether a WebP is animated, if its header decodes.
pub uninterp spec fn webp_animated(bytes: Seq<u8>) -> Option<bool>;

/// The frames of an animated WebP, if the bytes decode as one.
pub uninterp spec fn webp_frames(bytes: Seq<u8>) -> Option<Seq<image::Frame>>;

/// Relies on `image::Delay::numer_denom_ms`: the delay as a ratio of
/// milliseconds.
#[verifier::external_body]
fn delay_ratio(delay: &image::Delay) -> (r: (u32, u32))
    ensures
        r == delay_ratio_of(*delay),
{
    delay.numer_denom_ms()
}

/// Relies on `image::Frame::delay`: how long the frame is shown.
#[verifier::external_body]
fn frame_delay(frame: &image::Frame) -> (r: image::Delay)
    ensures
        r == frame_delay_of(*frame),
{
    frame.delay()
}

/// Relies on `image::Frame::buffer`: the frame's pixels, as an RGBA image.
#[verifier::external_body]
fn frame_image(frame: &image::Frame) -> (r: image::DynamicImage)
    ensures
        r == frame_picture_of(*frame),
{
    image::DynamicImage::ImageRgba8(frame.buffer().clone())
}

/// Relies on `image::GenericImageView::dimensions`: width and height.
#[verifier::external_body]
fn image_dimensions(img: &image::DynamicImage) -> (r: (u32, u32))
    ensures
        r == dims_of(*img),
{
    image::GenericImageView::dimensions(img)
}

/// Relies on `image::DynamicImage::crop_imm`: the cut-out at (`x`, `y`).
#[verifier::external_body]
fn crop_image(img: &image::DynamicImage, x: u32, y: u32, width: u32, height: u32) -> (r:
    image::DynamicImage)
    ensures
        r == cropped_of(*img, x, y, width, height),
{
    img.crop_imm(x, y, width, height)
}

/// Relies on `image::DynamicImage::rotate180`: the image turned half a turn.
#[verifier::external_body]
fn rotate_half_turn(img: &image::DynamicImage) -> (r: image::DynamicImage)
    ensures
        r == turned_of(*img),
{
    img.rotate180()
}

/// Relies on `image::DynamicImage::resize_exact` with the Lanczos3 filter,
/// which always returns a picture of the requested size.
#[verifier::external_body]
fn resize_square(img: &image::DynamicImage, side: u32) -> (r: image::DynamicImage)
    ensures
        r == resized_of(*img, side),
        dims_of(r) == (side, side),
{
    img.resize_exact(side, side, image::imageops::FilterType::Lanczos3)
}

/// Relies on `image::codecs::jpeg::JpegEncoder` at quality 100 writing into
/// a `Vec`: `encode_image` writes the start-of-image marker `FF D8` first and
/// fails only for a side of 0 or over 65535.
#[verifier::external_body]
fn encode_jpeg(img: &image::DynamicImage) -> (r: Result<Vec<u8>, image::ImageError>)
    ensures
        r matches Ok(data) ==> data@ == jpeg_of(*img),
        r matches Ok(data) ==> data@.len() >= 2 && data@[0] == 0xFF && data@[1] == 0xD8,
        1 <= dims_of(*img).0 <= 65535 && 1 <= dims_of(*img).1 <= 65535 ==> r is Ok,
{
    let mut data = Vec::new();
    image::codecs::jpeg::JpegEncoder::new_with_quality(&mut data, 100).encode_image(img)?;
    Ok(data)
}

/// Relies on `image::load_from_memory`: a single picture in any format the
/// crate decodes.
#[verifier::external_body]
fn decode_image(bytes: &[u8]) -> (r: Result<image::DynamicImage, image::ImageError>)
    ensures
        r is Ok <==> decoded_of(bytes@) is Some,
        r matches Ok(img) ==> decoded_of(bytes@) == Some(img),
{
    image::load_from_memory(bytes)
}

/// Relies on `image::codecs::gif::GifDecoder` and `collect_frames`: every
/// frame of a GIF.
#[verifier::external_body]
fn decode_gif_frames(bytes: &[u8]) -> (r: Result<Vec<image::Frame>, image::ImageError>)
    ensures
        r is Ok <==> gif_frames(bytes@) is Some,
        r matches Ok(f) ==> gif_frames(bytes@) == Some(f@),
{
    let decoder = image::codecs::gif::GifDecoder::new(std::io::Cursor::new(bytes))?;
    image::AnimationDecoder::into_frames(decoder).collect_frames()
}

/// Relies on `image::codecs::png::PngDecoder::is_apng`: whether the PNG is
/// animated.
#[verifier::external_body]
fn png_is_animated(bytes: &[u8]) -> (r: Result<bool, image::ImageError>)
    ensures
        r is Ok <==> png_animated(bytes@) is Some,
        r matches Ok(b) ==> b == png_animated(bytes@).unwrap(),
{
    let decoder = image::codecs::png::PngDecoder::new(std::io::Cursor::new(bytes))?;
    decoder.is_apng()
}

/// Relies on `image::codecs::png::PngDecoder::apng` and `collect_frames`:
/// every frame of an animated PNG.
#[verifier::external_body]
fn decode_apng_frames(bytes: &[u8]) -> (r: Result<Vec<image::Frame>, image::ImageError>)
    ensures
        r is Ok <==> apng_frames(bytes@) is Some,
        r matches Ok(f) ==> apng_frames(bytes@) == Some(f@),
{
    let decoder = image::codecs::png::PngDecoder::new(std::io::Cursor::new(bytes))?;
    image::AnimationDecoder::into_frames(decoder.apng()?).collect_frames()
}

/// Relies on `image::codecs::webp::WebPDecoder::has_animation`: whether the
/// WebP is animated.
#[verifier::external_body]
fn webp_is_animated(bytes: &[u8]) -> (r: Result<bool, image::ImageError>)
    ensures
        r is Ok <==> webp_animated(bytes@) is Some,
        r matches Ok(b) ==> b == webp_animated(bytes@).unwrap(),
{
    let decoder = image::codecs::webp::WebPDecoder::new(std::io::Cursor::new(bytes))?;
    Ok(decoder.has_animation())
}

/// Relies on `image::codecs::webp::WebPDecoder` and `collect_frames`: every
/// frame of an animated WebP.
#[verifier::external_body]
fn decode_webp_frames(bytes: &[u8]) -> (r: Result<Vec<image::Frame>, image::ImageError>)
    ensures
        r is Ok <==> webp_frames(bytes@) is Some,
        r matches Ok(f) ==> webp_frames(bytes@) == Some(f@),
{
    let decoder = image::codecs::webp::WebPDecoder::new(std::io::Cursor::new(bytes))?;
    image::AnimationDecoder::into_frames(decoder).collect_frames()
}

/// Relies on the `Display` impl of `image::ImageError`: a readable message.
#[verifier::external_body]
fn image_error_text(err: &image::ImageError) -> (r: String) {
    err.to_string()
}

/// Relies on `image::DynamicImage::new_rgb8`: a black picture of the given
/// size.
#[verifier::external_body]
fn black_image(side: u32) -> (r: image::DynamicImage)
    ensures
        r == black_of(side),
        dims_of(r) == (side, side),
{
    image::DynamicImage::new_rgb8(side, side)
}

/// Why an icon could not be turned into tiles.
#[derive(Clone, Debug, PartialEq, Eq)]
pub enum IconError {
    /// The bytes could not be decoded; the message says why.
    Decode(String),
    /// A tile could not be encoded; the message says why.
    Encode(String),
    /// An animation without a single frame.
    NoFrames,
}

/// Frame delay in milliseconds for a delay of `numerator / denominator`
/// milliseconds: rounded down and raised to the minimum; the minimum when
/// the denominator is zero.
pub open spec fn delay_ms_spec(numerator: u32, denominator: u32) -> u64 {
    if denominator == 0 {
        MIN_GIF_FRAME_DELAY_MS
    } else if (numerator / denominator) < MIN_GIF_FRAME_DELAY_MS {
        MIN_GIF_FRAME_DELAY_MS
    } else {
        (numerator / denominator) as u64
    }
}

pub fn delay_ms_from_ratio(numerator: u32, denominator: u32) -> (r: u64)
    ensures
        r == delay_ms_spec(numerator, denominator),
        r >= MIN_GIF_FRAME_DELAY_MS,
{
    if denominator == 0 {
        return MIN_GIF_FRAME_DELAY_MS;
    }
    let ms = (numerator / denominator) as u64;
    if ms < MIN_GIF_FRAME_DELAY_MS {
        MIN_GIF_FRAME_DELAY_MS
    } else {
        ms
    }
}

/// Frame delay in milliseconds of an `image` delay, as `delay_ms_from_ratio`
/// gives it for the delay's ratio.
pub fn delay_to_duration_ms(delay: image::Delay) -> (r: u64)
    ensures
        r == delay_ms_spec(delay_ratio_of(delay).0, delay_ratio_of(delay).1),
        r >= MIN_GIF_FRAME_DELAY_MS,
{
    let (numerator, denominator) = delay_ratio(&delay);
    delay_ms_from_ratio(numerator, denominator)
}

/// The centred square cut out of a `width` x `height` picture:
/// its corner and its side, the shorter of the two.
pub fn center_square(width: u32, height: u32) -> (r: (u32, u32, u32))
    ensures
        r.2 == if width < height {
            width
        } else {
            height
        },
        r.0 == (width - r.2) / 2,
        r.1 == (height - r.2) / 2,
{
    let side = if width < height {
        width
    } else {
        height
    };
    ((width - side) / 2, (height - side) / 2, side)
}

fn error_of(err: &image::ImageError, encoding: bool) -> (r: IconError)
    ensures
        encoding ==> r is Encode,
        !encoding ==> r is Decode,
{
    let text = image_error_text(err);
    if encoding {
        IconError::Encode(text)
    } else {
        IconError::Decode(text)
    }
}

/// Whether a tile holds a JPEG stream: it starts with `FF D8`.
pub open spec fn is_tile(data: Seq<u8>) -> bool {
    data.len() >= 2 && data[0] == 0xFF && data[1] == 0xD8
}

/// The device tile of a picture: its centred square, turned half a turn,
/// scaled to the tile size, as JPEG.
pub open spec fn tile_of(img: image::DynamicImage) -> Seq<u8> {
    let (w, h) = dims_of(img);
    let side = if w < h {
        w
    } else {
        h
    };
    let x = ((w - side) / 2) as u32;
    let y = ((h - side) / 2) as u32;
    jpeg_of(resized_of(turned_of(cropped_of(img, x, y, side, side)), TILE_SIZE))
}

/// Turns a picture into a device tile: the centred square, turned half a
/// turn, scaled to the tile size, encoded as JPEG.
pub fn encode_streamdeck_image(img: &image::DynamicImage) -> (r: Result<Vec<u8>, IconError>)
    ensures
        r matches Ok(data) && data@ == tile_of(*img) && is_tile(data@),
{
    let (width, height) = image_dimensions(img);
    let (x, y, side) = center_square(width, height);
    let square = crop_image(img, x, y, side, side);
    let turned = rotate_half_turn(&square);
    let tile = resize_square(&turned, TILE_SIZE);
    match encode_jpeg(&tile) {
        Ok(data) => Ok(data),
        Err(e) => Err(error_of(&e, true)),
    }
}

/// The tile shown on a slot without an icon.
pub fn blank_image_data() -> (r: Result<Vec<u8>, IconError>)
    ensures
        r matches Ok(data) && data@ == jpeg_of(black_of(TILE_SIZE)) && is_tile(data@),
{
    let img = black_image(TILE_SIZE);
    match encode_jpeg(&img) {
        Ok(data) => Ok(data),
        Err(e) => Err(error_of(&e, true)),
    }
}

/// What a decoded sequence of frames becomes: an error without frames, a
/// still tile for one frame, an animation otherwise.
pub fn assemble_frames(tiles: Vec<Vec<u8>>, delays: Vec<u64>) -> (r: Result<LoadedKeyImage, IconError>)
    requires
        tiles@.len() == delays@.len(),
    ensures
        tiles@.len() == 0 ==> r == Err::<LoadedKeyImage, IconError>(IconError::NoFrames),
        tiles@.len() == 1 ==> (r matches Ok(LoadedKeyImage::Static(t)) && t == tiles@[0]),
        tiles@.len() >= 2 ==> r == Ok::<LoadedKeyImage, IconError>(
            LoadedKeyImage::Animated { frames: tiles, delays },
        ),
        r matches Ok(l) ==> l.wf(),
{
    if tiles.len() == 0 {
        return Err(IconError::NoFrames);
    }
    if tiles.len() == 1 {
        let mut tiles = tiles;
        let only = tiles.remove(0);
        return Ok(LoadedKeyImage::Static(only));
    }
    Ok(LoadedKeyImage::Animated { frames: tiles, delays })
}

/// Display time in milliseconds of an animation frame: its own delay,
/// rounded down and raised to the minimum.
pub open spec fn frame_delay_ms(f: image::Frame) -> u64 {
    delay_ms_spec(delay_ratio_of(frame_delay_of(f)).0, delay_ratio_of(frame_delay_of(f)).1)
}

/// What an animation of the frames `frames` becomes: `NoFrames` without
/// frames, the frame's tile for one, otherwise each frame's tile, shown for
/// that frame's delay.
pub open spec fn animation_result(
    frames: Seq<image::Frame>,
    r: Result<LoadedKeyImage, IconError>,
) -> bool {
    if frames.len() == 0 {
        r == Err::<LoadedKeyImage, IconError>(IconError::NoFrames)
    } else if frames.len() == 1 {
        r matches Ok(LoadedKeyImage::Static(t)) && t@ == tile_of(frame_picture_of(frames[0]))
            && is_tile(t@)
    } else {
        r matches Ok(LoadedKeyImage::Animated { frames: tiles, delays }) && {
            &&& tiles@.len() == frames.len()
            &&& delays@.len() == frames.len()
            &&& forall|i: int|
                0 <= i < tiles@.len() ==> (#[trigger] tiles@[i])@ == tile_of(
                    frame_picture_of(frames[i]),
                ) && is_tile(tiles@[i]@)
            &&& forall|i: int|
                0 <= i < delays@.len() ==> #[trigger] delays@[i] == frame_delay_ms(frames[i])
        }
    }
}

/// Encodes every frame of an animation into a tile with its delay: none
/// gives `NoFrames`, one gives a still tile, more give an animation.
pub fn encode_animated_frames(frames: &Vec<image::Frame>) -> (r: Result<LoadedKeyImage, IconError>)
    ensures
        animation_result(frames@, r),
        frames@.len() >= 1 ==> r is Ok,
        r matches Ok(l) ==> l.wf() && !(l is Clock),
{
    let mut tiles: Vec<Vec<u8>> = Vec::new();
    let mut delays: Vec<u64> = Vec::new();
    let mut i: usize = 0;
    while i < frames.len()
        invariant
            i <= frames@.len(),
            tiles@.len() == i,
            delays@.len() == i,
            forall|j: int|
                0 <= j < i ==> (#[trigger] tiles@[j])@ == tile_of(frame_picture_of(frames@[j]))
                    && is_tile(tiles@[j]@),
            forall|j: int| 0 <= j < i ==> #[trigger] delays@[j] == frame_delay_ms(frames@[j]),
        decreases frames@.len() - i,
    {
        let delay = delay_to_duration_ms(frame_delay(&frames[i]));
        let img = frame_image(&frames[i]);
        let tile = match encode_streamdeck_image(&img) {
            Ok(t) => t,
            Err(e) => {
                return Err(e);
            },
        };
        tiles.push(tile);
        delays.push(delay);
        i = i + 1;
    }
    assemble_frames(tiles, delays)
}

/// What decoding an animation gives: a decode error when the bytes do not
/// decode, otherwise the animation of the decoded frames.
pub open spec fn decoded_animation(
    frames: Option<Seq<image::Frame>>,
    r: Result<LoadedKeyImage, IconError>,
) -> bool {
    match frames {
        None => r matches Err(IconError::Decode(_)),
        Some(f) => animation_result(f, r),
    }
}

/// What turning a still picture into a tile gives: the decoded picture's
/// tile, or a decode error when the bytes do not decode.
pub open spec fn decoded_still(bytes: Seq<u8>, r: Result<LoadedKeyImage, IconError>) -> bool {
    match decoded_of(bytes) {
        Some(img) => r matches Ok(LoadedKeyImage::Static(t)) && t@ == tile_of(img) && is_tile(t@),
        None => r matches Err(IconError::Decode(_)),
    }
}

/// Turns the frames decoded from an animation into tiles.
fn frames_to_tiles(decoded: Result<Vec<image::Frame>, image::ImageError>) -> (r: Result<
    LoadedKeyImage,
    IconError,
>)
    ensures
        decoded_animation(
            match decoded {
                Ok(f) => Some(f@),
                Err(_) => None,
            },
            r,
        ),
        r matches Ok(l) ==> l.wf() && !(l is Clock),
{
    match decoded {
        Ok(frames) => encode_animated_frames(&frames),
        Err(e) => Err(error_of(&e, false)),
    }
}

/// Decodes a GIF and encodes its frames (see `encode_animated_frames`).
pub fn load_animated_gif(bytes: &[u8]) -> (r: Result<LoadedKeyImage, IconError>)
    ensures
        decoded_animation(gif_frames(bytes@), r),
        r matches Ok(l) ==> l.wf() && !(l is Clock),
{
    frames_to_tiles(decode_gif_frames(bytes))
}

/// File formats the pipeline tells apart, by file-name extension.
#[derive(Clone, Copy, Debug, PartialEq, Eq, Structural)]
pub enum IconFormat {
    Svg,
    Gif,
    Png,
    Webp,
    /// Any other extension, or none: decoded by content.
    Other,
}

/// Scanning a path backwards from index `i`, the end of its last component:
/// separators and `.` components are passed over; none when nothing else is
/// left.
pub open spec fn component_end(s: Seq<char>, i: int) -> Option<int>
    decreases i,
{
    if i <= 0 || i > s.len() {
        None
    } else if s[i - 1] == '/' {
        component_end(s, i - 1)
    } else if s[i - 1] == '.' && (i - 1 == 0 || s[i - 2] == '/') {
        component_end(s, i - 1)
    } else {
        Some(i)
    }
}

/// Start of the component that ends at `e`.
pub open spec fn component_start(s: Seq<char>, e: int) -> int
    decreases e,
{
    if e <= 0 || e > s.len() || s[e - 1] == '/' {
        e
    } else {
        component_start(s, e - 1)
    }
}

/// Position of the last `.` in `s[b..e]`, if any.
pub open spec fn last_dot(s: Seq<char>, b: int, e: int) -> Option<int>
    decreases e - b,
{
    if e <= b || e > s.len() || b < 0 {
        None
    } else if s[e - 1] == '.' {
        Some(e - 1)
    } else {
        last_dot(s, b, e - 1)
    }
}

/// Extension of a path, as `Path::extension` reads it: the last component
/// (trailing separators and `.` components dropped; none for `..`), then
/// what follows its last `.`, unless that `.` starts it; ASCII letters in
/// lower case.
pub open spec fn extension_spec(path: Seq<char>) -> Option<Seq<char>> {
    match component_end(path, path.len() as int) {
        None => None,
        Some(e) => {
            let b = component_start(path, e);
            if e - b == 2 && path[b] == '.' && path[b + 1] == '.' {
                None
            } else {
                match last_dot(path, b, e) {
                    None => None,
                    Some(k) => if k == b {
                        None
                    } else {
                        Some(path.subrange(k + 1, e).map_values(|c: char| ascii_lower(c)))
                    },
                }
            }
        },
    }
}

proof fn lemma_component_end_bounds(s: Seq<char>, i: int)
    requires
        0 <= i <= s.len(),
    ensures
        component_end(s, i) matches Some(e) ==> 0 < e <= i,
    decreases i,
{
    if i > 0 && (s[i - 1] == '/' || (s[i - 1] == '.' && (i - 1 == 0 || s[i - 2] == '/'))) {
        lemma_component_end_bounds(s, i - 1);
    }
}

/// Lower-case extension of the path `name`, if it has one.
pub fn icon_extension(name: &str) -> (r: Option<String>)
    ensures
        match r {
            Some(e) => extension_spec(name@) == Some(e@),
            None => extension_spec(name@) is None,
        },
{
    let n = name.unicode_len();
    let ghost s = name@;
    let mut e: usize = n;
    while e > 0 && (name.get_char(e - 1) == '/' || (name.get_char(e - 1) == '.' && (e - 1 == 0
        || name.get_char(e - 2) == '/')))
        invariant
            n == s.len(),
            s == name@,
            e <= n,
            component_end(s, n as int) == component_end(s, e as int),
        decreases e,
    {
        e = e - 1;
    }
    if e == 0 {
        return None;
    }
    proof {
        lemma_component_end_bounds(s, n as int);
    }
    let mut b: usize = e;
    while b > 0 && name.get_char(b - 1) != '/'
        invariant
            n == s.len(),
            s == name@,
            0 < e <= n,
            b <= e,
            component_start(s, e as int) == component_start(s, b as int),
        decreases b,
    {
        b = b - 1;
    }
    if e - b == 2 && name.get_char(b) == '.' && name.get_char(b + 1) == '.' {
        return None;
    }
    let mut k: usize = e;
    while k > b && name.get_char(k - 1) != '.'
        invariant
            n == s.len(),
            s == name@,
            b <= k <= e <= n,
            last_dot(s, b as int, e as int) == last_dot(s, b as int, k as int),
        decreases k,
    {
        k = k - 1;
    }
    if k == b {
        return None;
    }
    let dot = k - 1;
    proof {
        assert(last_dot(s, b as int, k as int) == Some(dot as int));
    }
    if dot == b {
        return None;
    }
    let start = k;
    let mut ext = String::new();
    let mut j: usize = start;
    while j < e
        invariant
            n == s.len(),
            s == name@,
            start <= j <= e <= n,
            ext@ == s.subrange(start as int, j as int).map_values(|c: char| ascii_lower(c)),
        decreases e - j,
    {
        let c = lower_ascii(name.get_char(j));
        ext.append(char_text(c).as_str());
        proof {
            assert(ext@ =~= s.subrange(start as int, j + 1).map_values(|c: char| ascii_lower(c)));
        }
        j = j + 1;
    }
    Some(ext)
}

fn lower_ascii(c: char) -> (r: char)
    ensures
        r == ascii_lower(c),
{
    if 'A' <= c && c <= 'Z' {
        ((c as u8) + 32) as char
    } else {
        c
    }
}

/// Relies on `char::to_string`: the one-character text of `c`.
#[verifier::external_body]
fn char_text(c: char) -> (r: String)
    ensures
        r@ == seq![c],
{
    c.to_string()
}

/// Format of an icon file, by its lower-case extension.
pub open spec fn format_spec(name: Seq<char>) -> IconFormat {
    match extension_spec(name) {
        Some(e) => if e == "svg"@ {
            IconFormat::Svg
        } else if e == "gif"@ {
            IconFormat::Gif
        } else if e == "png"@ {
            IconFormat::Png
        } else if e == "webp"@ {
            IconFormat::Webp
        } else {
            IconFormat::Other
        },
        None => IconFormat::Other,
    }
}

pub fn icon_format(name: &str) -> (r: IconFormat)
    ensures
        r == format_spec(name@),
{
    match icon_extension(name) {
        Some(e) => {
            if e == String::from_str("svg") {
                IconFormat::Svg
            } else if e == String::from_str("gif") {
                IconFormat::Gif
            } else if e == String::from_str("png") {
                IconFormat::Png
            } else if e == String::from_str("webp") {
                IconFormat::Webp
            } else {
                IconFormat::Other
            }
        },
        None => IconFormat::Other,
    }
}

/// Whether a file name has an extension the icon directory may hold:
/// png, jpg, jpeg, gif, webp or svg, in any ASCII case.
pub open spec fn supported_extension(name: Seq<char>) -> bool {
    match extension_spec(name) {
        Some(e) => e == "png"@ || e == "jpg"@ || e == "jpeg"@ || e == "gif"@ || e == "webp"@ || e
            == "svg"@,
        None => false,
    }
}

pub fn is_supported_icon_extension(name: &str) -> (r: bool)
    ensures
        r == supported_extension(name@),
{
    match icon_extension(name) {
        Some(e) => e == String::from_str("png") || e == String::from_str("jpg") || e
            == String::from_str("jpeg") || e == String::from_str("gif") || e == String::from_str(
            "webp",
        ) || e == String::from_str("svg"),
        None => false,
    }
}

/// A still picture's tile.
fn still_tile(bytes: &[u8]) -> (r: Result<LoadedKeyImage, IconError>)
    ensures
        decoded_still(bytes@, r),
        r matches Ok(l) ==> l.wf() && !(l is Clock),
{
    match decode_image(bytes) {
        Ok(img) => match encode_streamdeck_image(&img) {
            Ok(t) => Ok(LoadedKeyImage::Static(t)),
            Err(e) => Err(e),
        },
        Err(e) => Err(error_of(&e, false)),
    }
}

/// What a raster icon file named `name` with contents `bytes` gives: GIFs
/// frame by frame; PNGs and WebPs frame by frame when animated, else as one
/// picture; anything else as one picture.
pub open spec fn raster_result(
    name: Seq<char>,
    bytes: Seq<u8>,
    r: Result<LoadedKeyImage, IconError>,
) -> bool {
    match format_spec(name) {
        IconFormat::Gif => decoded_animation(gif_frames(bytes), r),
        IconFormat::Png => match png_animated(bytes) {
            None => r matches Err(IconError::Decode(_)),
            Some(true) => decoded_animation(apng_frames(bytes), r),
            Some(false) => decoded_still(bytes, r),
        },
        IconFormat::Webp => match webp_animated(bytes) {
            None => r matches Err(IconError::Decode(_)),
            Some(true) => decoded_animation(webp_frames(bytes), r),
            Some(false) => decoded_still(bytes, r),
        },
        _ => decoded_still(bytes, r),
    }
}

/// Turns the bytes of a raster icon file named `name` into tiles: GIFs,
/// animated PNGs and animated WebPs frame by frame, anything else as one
/// picture. Vector icons are drawn elsewhere and come in through
/// `encode_streamdeck_image`.
pub fn load_raster_icon(name: &str, bytes: &[u8]) -> (r: Result<LoadedKeyImage, IconError>)
    ensures
        raster_result(name@, bytes@, r),
        r matches Ok(l) ==> l.wf() && !(l is Clock),
{
    match icon_format(name) {
        IconFormat::Gif => load_animated_gif(bytes),
        IconFormat::Png => match png_is_animated(bytes) {
            Ok(true) => frames_to_tiles(decode_apng_frames(bytes)),
            Ok(false) => still_tile(bytes),
            Err(e) => Err(error_of(&e, false)),
        },
        IconFormat::Webp => match webp_is_animated(bytes) {
            Ok(true) => frames_to_tiles(decode_webp_frames(bytes)),
            Ok(false) => still_tile(bytes),
            Err(e) => Err(error_of(&e, false)),
        },
        _ => still_tile(bytes),
    }
}

} // verus!
