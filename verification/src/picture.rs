//! Pictures of QR codes: reading the data of a QR code from a camera frame, and encoding
//! QR code pictures as PNG and animated GIF files to share.

use vstd::prelude::*;
use image::ImageEncoder;
use vstd::utf8::encode_utf8;
use crate::qr_image::{UR_FRAGMENT_LIMIT, encode_text, qr_to_image_data, raster_image, text_qr_code};
use crate::text::lemma_encoded_len_at_least;
use crate::uniform::{
    encoder_emitted, encoder_fragment_limit, encoder_message, fragment_count, new_encoder,
    next_part, ur_fragment_count, ur_part,
};

verus! {

/// A GIF file being written into memory: a `gif::Encoder` that writes into a byte vector.
#[verifier::external_body]
pub struct GifFile {
    encoder: gif::Encoder<Vec<u8>>,
}

/// What `image::load_from_memory` followed by `to_luma8` gives for an encoded picture:
/// its width, height and gray pixels row by row, `None` when it cannot be decoded.
pub uninterp spec fn decoded_luma(picture: Seq<u8>) -> Option<(nat, nat, Seq<u8>)>;

/// What `rqrr` reads from a gray picture: the data of the first QR code grid found,
/// `None` when there is none or it cannot be decoded.
pub uninterp spec fn grid_data(width: nat, height: nat, pixels: Seq<u8>) -> Option<Seq<u8>>;

/// What the PNG encoder of `image` gives for gray pixels at the best compression without
/// filtering, `None` on an error.
pub uninterp spec fn png_gray(pixels: Seq<u8>, width: nat, height: nat) -> Option<Seq<u8>>;

/// What `qrcode` renders for data at the low error correction level: a black on white
/// picture of at most `max_side` pixels a side where the code fits, as width, height and
/// RGB pixels; `None` when the data does not fit in a QR code.
pub uninterp spec fn qr_rgb_picture(data: Seq<u8>, max_side: nat) -> Option<(nat, nat, Seq<u8>)>;

/// Bytes a GIF encoder has written so far.
pub uninterp spec fn gif_written(e: GifFile) -> Seq<u8>;

/// What `gif::Encoder::new` writes for a screen size and global palette, `None` when it
/// refuses them.
pub uninterp spec fn gif_header(width: nat, height: nat, palette: Seq<u8>) -> Option<Seq<u8>>;

/// What `gif::Encoder::set_repeat` writes: repeat forever for `None`, else the count;
/// `None` when it fails.
pub uninterp spec fn gif_repeat_block(count: Option<u16>) -> Option<Seq<u8>>;

/// What `gif::Encoder::write_frame` writes for an RGB frame made by `gif::Frame::from_rgb`
/// with a delay in hundredths of a second, `None` when it is refused.
pub uninterp spec fn gif_frame_block(width: nat, height: nat, rgb: Seq<u8>, delay: u16) -> Option<
    Seq<u8>,
>;

/// Decode an encoded picture into gray pixels (`image::load_from_memory`, then
/// `DynamicImage::to_luma8`): one pixel for each place of the picture.
#[verifier::external_body]
fn luma_pixels(picture: &[u8]) -> (r: Option<(u32, u32, Vec<u8>)>)
    ensures
        match r {
            Some((w, h, p)) => decoded_luma(picture@) == Some((w as nat, h as nat, p@)) && p@.len()
                == w * h,
            None => decoded_luma(picture@) is None,
        },
{
    match image::load_from_memory(picture) {
        Ok(img) => {
            let gray = img.to_luma8();
            Some((gray.width(), gray.height(), gray.into_raw()))
        },
        Err(_) => None,
    }
}

/// Gray value of the pixel at column `x` and row `y`, white outside of the pixels.
pub fn pixel_at(pixels: &[u8], width: usize, x: usize, y: usize) -> (r: u8)
    ensures
        r == (if x < width && y * width + x < pixels@.len() {
            pixels@[y * width + x]
        } else {
            255u8
        }),
{
    let len = pixels.len();
    if x >= width {
        return 255;
    }
    match y.checked_mul(width) {
        Some(row) => match row.checked_add(x) {
            Some(i) => if i < len {
                pixels[i]
            } else {
                255
            },
            None => 255,
        },
        None => 255,
    }
}

/// Data of the first QR code found in a gray picture (`rqrr`: the picture prepared from
/// its gray values, its grids detected, the first one decoded).
#[verifier::external_body]
fn first_grid_data(width: u32, height: u32, pixels: &[u8]) -> (r: Option<Vec<u8>>)
    requires
        pixels@.len() == width * height,
    ensures
        match r {
            Some(d) => grid_data(width as nat, height as nat, pixels@) == Some(d@),
            None => grid_data(width as nat, height as nat, pixels@) is None,
        },
{
    let (w, h) = (width as usize, height as usize);
    let mut prepared = rqrr::PreparedImage::prepare_from_greyscale(w, h, |x, y| pixel_at(pixels, w, x, y));
    let grids = prepared.detect_grids();
    let mut data = Vec::new();
    match grids.first() {
        Some(g) => g.decode_to(&mut data).ok().map(|_| data),
        None => None,
    }
}

/// Data of the QR code of an encoded camera frame: the frame decoded into gray pixels,
/// and the first QR code read from them.
pub open spec fn frame_data(frame: Seq<u8>) -> Option<Seq<u8>> {
    match decoded_luma(frame) {
        Some((w, h, p)) => if w <= u32::MAX && h <= u32::MAX {
            grid_data(w, h, p)
        } else {
            None
        },
        None => None,
    }
}

/// Read the data of the first QR code found in an encoded camera frame.
pub fn frame_qr_data(frame: &[u8]) -> (r: Option<Vec<u8>>)
    ensures
        match r {
            Some(d) => frame_data(frame@) == Some(d@),
            None => frame_data(frame@) is None,
        },
{
    match luma_pixels(frame) {
        Some((w, h, p)) => first_grid_data(w, h, p.as_slice()),
        None => None,
    }
}

/// Encode gray pixels as PNG at the best compression without filtering
/// (`PngEncoder::new_with_quality`, then `write_image` with 8-bit gray pixels, one pixel
/// for each place of the picture, as `write_image` asserts).
#[verifier::external_body]
fn encode_png_gray(pixels: &[u8], width: u32, height: u32) -> (r: Option<Vec<u8>>)
    requires
        pixels@.len() == width * height,
    ensures
        match r {
            Some(v) => png_gray(pixels@, width as nat, height as nat) == Some(v@),
            None => png_gray(pixels@, width as nat, height as nat) is None,
        },
{
    let mut png = Vec::new();
    let encoder = image::codecs::png::PngEncoder::new_with_quality(
        &mut png,
        image::codecs::png::CompressionType::Best,
        image::codecs::png::FilterType::NoFilter,
    );
    match encoder.write_image(pixels, width, height, image::ExtendedColorType::L8) {
        Ok(()) => Some(png),
        Err(_) => None,
    }
}

/// PNG picture of the QR code of a text, `size` pixels a side: the raster picture of its
/// QR code encoded as PNG; `None` when the text does not fit, the picture cannot be made
/// or encoding fails.
pub open spec fn text_png(text: Seq<char>, size: nat) -> Option<Seq<u8>> {
    match text_qr_code(text) {
        Some((s, modules)) => match raster_image(size, s, modules) {
            Some(pixels) => png_gray(pixels, size, size),
            None => None,
        },
        None => None,
    }
}

/// Create the PNG picture of the QR code of a text to share.
pub fn qr_png(text: &str, size: u32) -> (r: Option<Vec<u8>>)
    ensures
        match r {
            Some(p) => text_png(text@, size as nat) == Some(p@),
            None => text_png(text@, size as nat) is None,
        },
{
    match encode_text(text) {
        Some(qr) => match qr_to_image_data(&qr, size as usize) {
            Some(data) => encode_png_gray(data.as_slice(), size, size),
            None => None,
        },
        None => None,
    }
}

/// Render the picture of the QR code of data at the low error correction level, black on
/// white, at most `max_side` pixels a side where the code fits (`qrcode::QrCode::
/// with_error_correction_level`, then its RGB renderer): three bytes for each pixel. The
/// picture buffer of at most `max_side` pixels a side must fit in memory, else the
/// renderer panics.
#[verifier::external_body]
fn render_qr_rgb(data: &[u8], max_side: u32) -> (r: Option<(u32, u32, Vec<u8>)>)
    requires
        3 * max_side * max_side <= isize::MAX,
    ensures
        match r {
            Some((w, h, p)) => qr_rgb_picture(data@, max_side as nat) == Some(
                (w as nat, h as nat, p@),
            ) && p@.len() == w * h * 3,
            None => qr_rgb_picture(data@, max_side as nat) is None,
        },
{
    match qrcode::QrCode::with_error_correction_level(data, qrcode::EcLevel::L) {
        Ok(qr) => {
            let image = qr.render::<image::Rgb<u8>>().max_dimensions(max_side, max_side).dark_color(
                image::Rgb([0, 0, 0]),
            ).light_color(image::Rgb([255, 255, 255])).build();
            Some((image.width(), image.height(), image.into_raw()))
        },
        Err(_) => None,
    }
}

/// Start a GIF file with a screen size and global palette (`gif::Encoder::new`, writing
/// into a byte vector).
#[verifier::external_body]
fn gif_encoder(width: u16, height: u16, palette: &[u8]) -> (r: Option<GifFile>)
    ensures
        match r {
            Some(e) => gif_header(width as nat, height as nat, palette@) == Some(gif_written(e)),
            None => gif_header(width as nat, height as nat, palette@) is None,
        },
{
    match gif::Encoder::new(Vec::new(), width, height, palette) {
        Ok(encoder) => Some(GifFile { encoder }),
        Err(_) => None,
    }
}

/// Write how often the animation repeats (`gif::Encoder::set_repeat`): forever for `None`.
#[verifier::external_body]
fn gif_set_repeat(e: &mut GifFile, count: Option<u16>) -> (r: bool)
    ensures
        r == gif_repeat_block(count) is Some,
        r ==> gif_written(*final(e)) == gif_written(*old(e)) + gif_repeat_block(count)->0,
{
    let repeat = match count {
        None => gif::Repeat::Infinite,
        Some(n) => gif::Repeat::Finite(n),
    };
    e.encoder.set_repeat(repeat).is_ok()
}

/// Write an RGB frame shown for `delay` hundredths of a second (`gif::Frame::from_rgb`,
/// then `gif::Encoder::write_frame`).
#[verifier::external_body]
fn gif_write_frame(e: &mut GifFile, width: u16, height: u16, rgb: &[u8], delay: u16) -> (r:
    bool)
    requires
        rgb@.len() == width * height * 3,
    ensures
        r == gif_frame_block(width as nat, height as nat, rgb@, delay) is Some,
        r ==> gif_written(*final(e)) == gif_written(*old(e)) + gif_frame_block(
            width as nat,
            height as nat,
            rgb@,
            delay,
        )->0,
{
    let mut frame = gif::Frame::from_rgb(width, height, rgb);
    frame.delay = delay;
    e.encoder.write_frame(&frame).is_ok()
}

/// Finish the GIF file (`gif::Encoder::into_inner`): the trailer byte `0x3B` follows the
/// bytes written; a byte vector takes it without error.
#[verifier::external_body]
fn gif_finish(e: GifFile) -> (r: Option<Vec<u8>>)
    ensures
        r is Some,
        r matches Some(v) ==> v@ == gif_written(e).push(0x3Bu8),
{
    e.encoder.into_inner().ok()
}

/// Global palette of shared GIF pictures: black and white.
pub open spec fn gif_palette() -> Seq<u8> {
    seq![0u8, 0u8, 0u8, 0xFFu8, 0xFFu8, 0xFFu8]
}

/// Time each frame of a shared GIF picture is shown, in hundredths of a second.
pub const GIF_FRAME_DELAY: u16 = 10;

/// Pictures as width, height and pixels.
pub open spec fn pictures_view(pictures: Seq<(u32, u32, Vec<u8>)>) -> Seq<(nat, nat, Seq<u8>)> {
    pictures.map_values(|p: (u32, u32, Vec<u8>)| (p.0 as nat, p.1 as nat, p.2@))
}

/// Frame blocks of pictures in order, `None` when one is refused.
pub open spec fn frames_bytes(pictures: Seq<(nat, nat, Seq<u8>)>) -> Option<Seq<u8>>
    decreases pictures.len(),
{
    if pictures.len() == 0 {
        Some(Seq::empty())
    } else {
        let p = pictures.last();
        match (frames_bytes(pictures.drop_last()), gif_frame_block(p.0, p.1, p.2, GIF_FRAME_DELAY)) {
            (Some(a), Some(b)) => Some(a + b),
            _ => None,
        }
    }
}

/// GIF file of pictures: screen of the first picture, black and white palette, repeated
/// forever, one frame for each picture; `None` when a step is refused.
pub open spec fn gif_of(pictures: Seq<(nat, nat, Seq<u8>)>) -> Option<Seq<u8>> {
    match gif_header(pictures[0].0, pictures[0].1, gif_palette()) {
        Some(head) => match gif_repeat_block(None) {
            Some(repeat) => match frames_bytes(pictures) {
                Some(frames) => Some((head + repeat + frames).push(0x3Bu8)),
                None => None,
            },
            None => None,
        },
        None => None,
    }
}

/// Encode pictures as an animated GIF file repeated forever.
pub fn gif_of_pictures(pictures: &Vec<(u32, u32, Vec<u8>)>) -> (r: Option<Vec<u8>>)
    requires
        pictures@.len() > 0,
        forall|i: int|
            0 <= i < pictures@.len() ==> {
                let p = #[trigger] pictures@[i];
                &&& p.0 <= u16::MAX
                &&& p.1 <= u16::MAX
                &&& p.2@.len() == p.0 * p.1 * 3
            },
    ensures
        match r {
            Some(v) => gif_of(pictures_view(pictures@)) == Some(v@),
            None => gif_of(pictures_view(pictures@)) is None,
        },
{
    let ghost view = pictures_view(pictures@);
    let palette = vec![0u8, 0u8, 0u8, 0xFFu8, 0xFFu8, 0xFFu8];
    assert(palette@ =~= gif_palette());
    let first = &pictures[0];
    let mut e = match gif_encoder(first.0 as u16, first.1 as u16, palette.as_slice()) {
        Some(e) => e,
        None => {
            return None;
        },
    };
    let ghost head = gif_written(e);
    if !gif_set_repeat(&mut e, None) {
        return None;
    }
    let ghost repeat = gif_repeat_block(None)->0;
    let mut i: usize = 0;
    while i < pictures.len()
        invariant
            view == pictures_view(pictures@),
            i <= pictures@.len(),
            forall|k: int|
                0 <= k < pictures@.len() ==> {
                    let p = #[trigger] pictures@[k];
                    &&& p.0 <= u16::MAX
                    &&& p.1 <= u16::MAX
                    &&& p.2@.len() == p.0 * p.1 * 3
                },
            frames_bytes(view.take(i as int)) is Some,
            gif_written(e) == head + repeat + frames_bytes(view.take(i as int))->0,
        decreases pictures@.len() - i,
    {
        let p = &pictures[i];
        assert(view.take(i + 1).drop_last() =~= view.take(i as int));
        assert(view.take(i + 1).last() == view[i as int]);
        if !gif_write_frame(&mut e, p.0 as u16, p.1 as u16, p.2.as_slice(), GIF_FRAME_DELAY) {
            proof {
                lemma_frames_refused(view, i as int);
            }
            return None;
        }
        i = i + 1;
    }
    assert(view.take(view.len() as int) =~= view);
    gif_finish(e)
}

proof fn lemma_frames_refused(pictures: Seq<(nat, nat, Seq<u8>)>, i: int)
    requires
        0 <= i < pictures.len(),
        gif_frame_block(pictures[i].0, pictures[i].1, pictures[i].2, GIF_FRAME_DELAY) is None,
    ensures
        frames_bytes(pictures) is None,
    decreases pictures.len(),
{
    if i < pictures.len() - 1 {
        assert(pictures.drop_last()[i] == pictures[i]);
        lemma_frames_refused(pictures.drop_last(), i);
    }
}

/// Pictures of the QR codes of the first `n` Uniform Resources parts of a message, at most
/// `size` pixels a side: those of the parts that could be serialized and fit in a QR code,
/// in order.
pub open spec fn part_pictures(message: Seq<u8>, size: nat, n: nat) -> Seq<(nat, nat, Seq<u8>)>
    decreases n,
{
    if n == 0 {
        Seq::empty()
    } else {
        let before = part_pictures(message, size, (n - 1) as nat);
        match ur_part(message, UR_FRAGMENT_LIMIT as nat, n) {
            Some(part) => match qr_rgb_picture(encode_utf8(part), size) {
                Some(p) => before.push(p),
                None => before,
            },
            None => before,
        }
    }
}

/// Whether each picture fits in a GIF frame, at most `u16::MAX` pixels a side.
pub open spec fn fit_gif_frames(pictures: Seq<(nat, nat, Seq<u8>)>) -> bool {
    forall|i: int| 0 <= i < pictures.len() ==> #[trigger] pictures[i].0 <= u16::MAX && pictures[i].1 <= u16::MAX
}

proof fn lemma_fit_push(before: Seq<(nat, nat, Seq<u8>)>, added: (nat, nat, Seq<u8>))
    ensures
        fit_gif_frames(before.push(added)) == (fit_gif_frames(before) && added.0 <= u16::MAX
            && added.1 <= u16::MAX),
{
    let now = before.push(added);
    assert(now[before.len() as int] == added);
    if fit_gif_frames(now) {
        assert forall|k: int| 0 <= k < before.len() implies #[trigger] before[k].0 <= u16::MAX
            && before[k].1 <= u16::MAX by {
            assert(now[k] == before[k]);
        }
    }
    if fit_gif_frames(before) && added.0 <= u16::MAX && added.1 <= u16::MAX {
        assert forall|k: int| 0 <= k < now.len() implies #[trigger] now[k].0 <= u16::MAX
            && now[k].1 <= u16::MAX by {
            if k < before.len() {
                assert(now[k] == before[k]);
            }
        }
    }
}

/// Animated GIF picture of the QR codes of the Uniform Resources parts of a text: `None`
/// when no part gives a picture or a picture does not fit in a GIF frame.
pub open spec fn text_gif(text: Seq<char>, size: nat) -> Option<Seq<u8>> {
    let message = encode_utf8(text);
    let pictures = part_pictures(message, size, ur_fragment_count(message, UR_FRAGMENT_LIMIT as nat));
    if pictures.len() == 0 || !fit_gif_frames(pictures) {
        None
    } else {
        gif_of(pictures)
    }
}

/// Create the animated GIF picture of a text to share: one frame for the QR code of each
/// Uniform Resources part of its bytes, at most `size` pixels a side.
pub fn qr_gif(text: &str, size: u32) -> (r: Option<Vec<u8>>)
    requires
        0 < text@.len(),
        3 * size * size <= isize::MAX,
    ensures
        match r {
            Some(v) => text_gif(text@, size as nat) == Some(v@),
            None => text_gif(text@, size as nat) is None,
        },
{
    let bytes = text.as_bytes();
    proof {
        lemma_encoded_len_at_least(text@);
    }
    let ghost message = encode_utf8(text@);
    let mut encoder = match new_encoder(bytes, UR_FRAGMENT_LIMIT) {
        Some(e) => e,
        None => {
            return None;
        },
    };
    let count = fragment_count(&encoder);
    let mut pictures: Vec<(u32, u32, Vec<u8>)> = Vec::new();
    let mut fit = true;
    let mut i: usize = 0;
    while i < count
        invariant
            encoder_message(encoder) == message,
            encoder_fragment_limit(encoder) == UR_FRAGMENT_LIMIT,
            encoder_emitted(encoder) == i,
            count == ur_fragment_count(message, UR_FRAGMENT_LIMIT as nat),
            i <= count,
            3 * size * size <= isize::MAX,
            pictures_view(pictures@) == part_pictures(message, size as nat, i as nat),
            fit == fit_gif_frames(pictures_view(pictures@)),
            forall|k: int|
                0 <= k < pictures@.len() ==> {
                    let p = #[trigger] pictures@[k];
                    p.2@.len() == p.0 * p.1 * 3
                },
        decreases count - i,
    {
        let ghost before = pictures_view(pictures@);
        match next_part(&mut encoder) {
            Some(part) => match render_qr_rgb(part.as_str().as_bytes(), size) {
                Some(picture) => {
                    let ghost added = (picture.0 as nat, picture.1 as nat, picture.2@);
                    if picture.0 > 65535 || picture.1 > 65535 {
                        fit = false;
                    }
                    pictures.push(picture);
                    assert(pictures_view(pictures@) =~= before.push(added));
                    proof {
                        lemma_fit_push(before, added);
                    }
                },
                None => {},
            },
            None => {},
        }
        i = i + 1;
    }
    if pictures.len() == 0 || !fit {
        return None;
    }
    assert forall|k: int| 0 <= k < pictures@.len() implies #[trigger] pictures@[k].0 <= u16::MAX
        && pictures@[k].1 <= u16::MAX by {
        assert(pictures_view(pictures@)[k].0 == pictures@[k].0);
        assert(pictures_view(pictures@)[k].1 == pictures@[k].1);
    }
    gif_of_pictures(&pictures)
}

/// A camera frame is scanned as the gray picture it decodes to, with the picture's own
/// width as the length of its rows and its own height as their count.
pub proof fn law_frame_scanned_as_decoded(frame: Seq<u8>, width: nat, height: nat, pixels: Seq<u8>)
    requires
        decoded_luma(frame) == Some((width, height, pixels)),
        width <= u32::MAX,
        height <= u32::MAX,
    ensures
        frame_data(frame) == grid_data(width, height, pixels),
{
}

/// A shared GIF picture repeats forever: right after the bytes that start the file, for
/// the size of the first picture, come the bytes that make the animation loop without
/// end; the file ends with the GIF trailer byte.
pub proof fn law_gif_repeats_forever(pictures: Seq<(nat, nat, Seq<u8>)>)
    ensures
        gif_of(pictures) matches Some(v) ==> {
            &&& gif_header(pictures[0].0, pictures[0].1, gif_palette()) is Some
            &&& gif_repeat_block(None) is Some
            &&& {
                let h = gif_header(pictures[0].0, pictures[0].1, gif_palette())->0;
                let rep = gif_repeat_block(None)->0;
                &&& h.len() + rep.len() <= v.len()
                &&& v.take(h.len() as int) == h
                &&& v.subrange(h.len() as int, (h.len() + rep.len()) as int) == rep
                &&& v.last() == 0x3Bu8
            }
        },
{
    if gif_of(pictures) is Some {
        let v = gif_of(pictures)->0;
        let h = gif_header(pictures[0].0, pictures[0].1, gif_palette())->0;
        let rep = gif_repeat_block(None)->0;
        let frames = frames_bytes(pictures)->0;
        assert(v == (h + rep + frames).push(0x3Bu8));
        assert(v.take(h.len() as int) =~= h);
        assert(v.subrange(h.len() as int, (h.len() + rep.len()) as int) =~= rep);
    }
}

} // verus!
